use olympus_core::security::{request_id_header, security_header_pairs};

fn header<'a>(pairs: &'a [(&'static str, &'static str)], name: &str) -> Option<&'a str> {
    pairs.iter().find(|(n, _)| *n == name).map(|(_, v)| *v)
}

#[test]
fn security_headers_are_present() {
    let pairs = security_header_pairs();
    assert_eq!(header(&pairs, "x-content-type-options"), Some("nosniff"));
    assert_eq!(header(&pairs, "x-frame-options"), Some("DENY"));
    assert_eq!(header(&pairs, "referrer-policy"), Some("strict-origin-when-cross-origin"));
    assert!(header(&pairs, "content-security-policy").is_some());
    assert!(header(&pairs, "permissions-policy").is_some());
}

#[test]
fn request_id_header_name() {
    assert_eq!(request_id_header(), "x-request-id");
}
