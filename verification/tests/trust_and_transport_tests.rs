use piper::errors::ErrorKind;
use piper::identity::server_identity;
use piper::settings::{from_entries, TransportSettings, VARINT_MAX};
use piper::transport::{build_transport_config, setup_transport_config};
use piper::trust::{evaluate_policy, SkipServerVerification, TrustPolicy, VerifyOutcome};

#[test]
fn accept_all_accepts_any_certificate() {
    let outcome = evaluate_policy(&TrustPolicy::AcceptAll, &vec![1, 2, 3]);
    assert_eq!(outcome, VerifyOutcome::Accepted);
    let outcome = evaluate_policy(&TrustPolicy::AcceptAll, &Vec::new());
    assert_eq!(outcome, VerifyOutcome::Accepted);
}

#[test]
fn pinned_fingerprint_accepts_only_its_own_bytes() {
    let pinned = TrustPolicy::PinnedFingerprint(vec![9, 9, 9]);
    assert_eq!(evaluate_policy(&pinned, &vec![9, 9, 9]), VerifyOutcome::Accepted);
    assert_eq!(evaluate_policy(&pinned, &vec![9, 9, 8]), VerifyOutcome::Rejected);
    assert_eq!(evaluate_policy(&pinned, &vec![9, 9]), VerifyOutcome::Rejected);
    assert_eq!(evaluate_policy(&pinned, &Vec::new()), VerifyOutcome::Rejected);
}

#[test]
fn system_store_delegates() {
    assert_eq!(
        evaluate_policy(&TrustPolicy::SystemTrustStore, &vec![1]),
        VerifyOutcome::Delegated
    );
}

#[test]
fn skip_verifier_accepts_everything() {
    let verifier = SkipServerVerification::new();
    assert_eq!(verifier.decision(&vec![0, 1, 2]), VerifyOutcome::Accepted);
    assert!(matches!(verifier.policy(), TrustPolicy::AcceptAll));
}

#[test]
fn transport_config_builds_from_valid_settings() {
    let entries = vec![
        ("stream_receive_window".to_string(), 1_000_000i64),
        ("receive_window".to_string(), 2_000_000i64),
        ("send_window".to_string(), 3_000_000i64),
        ("datagram_receive_buffer_size".to_string(), 65536i64),
        ("datagram_send_buffer_size".to_string(), 65536i64),
        ("max_idle_timeout_seconds".to_string(), 30i64),
        ("keep_alive_interval_seconds".to_string(), 5i64),
    ];
    let settings = from_entries(&entries).unwrap();
    assert!(build_transport_config(&settings).is_ok());
    let mut tc = quinn::TransportConfig::default();
    assert_eq!(setup_transport_config(&mut tc, &settings), Ok(()));
}

#[test]
fn transport_config_rejects_ill_formed_settings() {
    let bad = TransportSettings {
        stream_receive_window: Some(VARINT_MAX + 1),
        receive_window: None,
        send_window: None,
        datagram_receive_buffer_size: None,
        datagram_send_buffer_size: None,
        max_idle_timeout_seconds: None,
        keep_alive_interval_seconds: None,
        chunk_size_bytes: None,
    };
    assert!(!bad.is_wf());
    match build_transport_config(&bad) {
        Err(ErrorKind::Config) => {},
        _ => panic!("an out-of-range window must be a configuration error"),
    }
}

#[test]
fn transport_config_builds_from_defaults() {
    let settings = TransportSettings::new();
    assert!(build_transport_config(&settings).is_ok());
}

#[test]
fn ephemeral_identity_is_generated() {
    let id = server_identity().unwrap();
    assert!(!id.cert_der.is_empty());
    assert!(!id.key_der.is_empty());
    let again = server_identity().unwrap();
    assert!(!again.cert_der.is_empty());
}
