use hmac::{Hmac, Mac};
use olympus_core::payment_api::{normalize_webhook_status, verify_webhook_signature};
use sha2::Sha256;

#[test]
fn webhook_status_is_normalized_and_restricted() {
    assert_eq!(normalize_webhook_status(" paid "), Some("PAID"));
    assert_eq!(normalize_webhook_status("FAILED"), Some("FAILED"));
    assert_eq!(normalize_webhook_status("PENDING"), None);
}

#[test]
fn webhook_signature_accepts_valid_signature() {
    let secret = b"test-secret";
    let payload = br#"{"payment_id":"123","status":"PAID"}"#;
    let mut mac = Hmac::<Sha256>::new_from_slice(secret).unwrap();
    mac.update(payload);
    let signature = format!("sha256={}", hex::encode(mac.finalize().into_bytes()));
    assert!(verify_webhook_signature(secret, payload, &signature));
    assert!(verify_webhook_signature(secret, payload, signature.trim_start_matches("sha256=")));
}

#[test]
fn webhook_signature_rejects_tampering_and_malformed_values() {
    let secret = b"test-secret";
    let payload = b"payload";
    assert!(!verify_webhook_signature(secret, b"tampered", "00"));
    assert!(!verify_webhook_signature(secret, payload, "sha256=not-hex"));
    assert!(!verify_webhook_signature(secret, payload, "sha256=00"));
}
