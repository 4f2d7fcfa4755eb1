use vstd::prelude::*;

use crate::errors::ErrorKind;

verus! {

/// The accepting side's locally generated self-signed credential:
/// certificate and private key, DER-encoded.  It is generated afresh on
/// every process start, lives for the process lifetime, and is never
/// persisted, so there is no identity continuity across restarts.
pub struct EphemeralIdentity {
    pub cert_der: Vec<u8>,
    pub key_der: Vec<u8>,
}

/// Relies on rcgen::generate_simple_self_signed,
/// rcgen::Certificate::serialize_der and
/// rcgen::Certificate::serialize_private_key_der: generates a fresh
/// self-signed certificate for the name "localhost" together with its key
/// pair.  Key generation is randomized, so nothing is promised of the
/// bytes that come back.
#[verifier::external_body]
fn generate_self_signed() -> Option<EphemeralIdentity> {
    let cert = match rcgen::generate_simple_self_signed(vec!["localhost".to_string()]) {
        Ok(c) => c,
        Err(_) => {
            return None;
        },
    };
    let cert_der = match cert.serialize_der() {
        Ok(d) => d,
        Err(_) => {
            return None;
        },
    };
    let key_der = cert.serialize_private_key_der();
    Some(EphemeralIdentity { cert_der, key_der })
}

/// Generates the accepting side's ephemeral identity.  Generation draws
/// fresh randomness, so success cannot be promised; the rare failure
/// inside the credential generator aborts startup with a configuration
/// error, before any network activity.
pub fn server_identity() -> (r: Result<EphemeralIdentity, ErrorKind>)
    ensures
        r matches Err(e) ==> e == ErrorKind::Config,
{
    match generate_self_signed() {
        Option::Some(id) => Ok(id),
        Option::None => Err(ErrorKind::Config),
    }
}

} // verus!
