use vstd::prelude::*;

use std::sync::Arc;

verus! {

/// How a peer certificate is judged during the encryption handshake.  The
/// pipe's default is to accept any certificate, which suits trusted-network
/// use only; the other variants exist so that stronger policies can be
/// added without touching session establishment.
#[derive(Debug)]
pub enum TrustPolicy {
    /// Trust everyone: any certificate passes.
    AcceptAll,
    /// Only a certificate with exactly these DER bytes passes.
    PinnedFingerprint(Vec<u8>),
    /// Defer the judgment to the platform's trust store.
    SystemTrustStore,
}

/// The outcome of judging one certificate.
#[derive(Debug, Clone, Copy, PartialEq, Eq, Structural)]
pub enum VerifyOutcome {
    Accepted,
    Rejected,
    /// The policy itself does not decide; an external trust store must.
    Delegated,
}

/// Byte-for-byte equality of two certificate encodings.
fn bytes_equal(a: &Vec<u8>, b: &Vec<u8>) -> (r: bool)
    ensures
        r <==> a@ == b@,
{
    if a.len() != b.len() {
        return false;
    }
    let mut i: usize = 0;
    while i < a.len()
        invariant
            i <= a@.len(),
            a@.len() == b@.len(),
            forall|k: int| 0 <= k < i ==> a@[k] == b@[k],
        decreases a@.len() - i,
    {
        if a[i] != b[i] {
            return false;
        }
        i = i + 1;
    }
    proof {
        assert(a@ =~= b@);
    }
    true
}

/// Judges a certificate, given by its DER bytes, under a policy: accept-all
/// accepts unconditionally, a pinned fingerprint accepts exactly its own
/// bytes, and the system trust store defers the judgment.
pub fn evaluate_policy(policy: &TrustPolicy, cert_der: &Vec<u8>) -> (o: VerifyOutcome)
    ensures
        policy is AcceptAll ==> o is Accepted,
        policy matches TrustPolicy::PinnedFingerprint(fp) ==> ((o is Accepted <==> fp@ == cert_der@) && (o
            is Accepted || o is Rejected)),
        policy is SystemTrustStore ==> o is Delegated,
{
    match policy {
        TrustPolicy::AcceptAll => VerifyOutcome::Accepted,
        TrustPolicy::PinnedFingerprint(fp) => {
            if bytes_equal(fp, cert_der) {
                VerifyOutcome::Accepted
            } else {
                VerifyOutcome::Rejected
            }
        },
        TrustPolicy::SystemTrustStore => VerifyOutcome::Delegated,
    }
}

/// Certificate verifier marker for the trust-everyone policy.  The process
/// that drives the handshake installs a verifier that treats any server
/// certificate as valid; this type carries that policy's decision rule.
pub struct SkipServerVerification;

impl SkipServerVerification {
    /// A shared handle on the trust-everyone verifier.
    pub fn new() -> (v: Arc<SkipServerVerification>)
        ensures
            v == SkipServerVerification,
    {
        Arc::new(SkipServerVerification)
    }

    /// The policy this verifier implements.
    pub fn policy(&self) -> (p: TrustPolicy)
        ensures
            p is AcceptAll,
    {
        TrustPolicy::AcceptAll
    }

    /// The judgment this verifier passes on any certificate: accepted.
    pub fn decision(&self, cert_der: &Vec<u8>) -> (o: VerifyOutcome)
        ensures
            o is Accepted,
    {
        let policy = self.policy();
        evaluate_policy(&policy, cert_der)
    }
}

} // verus!
