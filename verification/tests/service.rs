use olympus_core::ai_api::{recognized_recommendations, validate_recommendation_request};
use olympus_core::ai_client::{normalize_base_url, recommendations_url};
use olympus_core::config::{parse_unsigned_up_to, Config};
use olympus_core::db::max_connections;
use olympus_core::health::health_response;
use olympus_core::money::{amount_or_zero, Money};
use olympus_core::status::Status;
use olympus_core::text::{str_eq, trim};

#[test]
fn configuration_defaults_and_errors() {
    let c = Config::from_values(None, None, Some("postgres://db".into())).unwrap();
    assert_eq!(c.host, "0.0.0.0");
    assert_eq!(c.port, 8080);
    assert_eq!(c.database_url, "postgres://db");
    let c = Config::from_values(Some("127.0.0.1".into()), Some("+443".into()), Some("u".into())).unwrap();
    assert_eq!(c.port, 443);
    assert_eq!(
        Config::from_values(None, Some("65536".into()), Some("u".into())).err(),
        Some("OLYMPUS_PORT must be a valid port".to_string())
    );
    assert_eq!(
        Config::from_values(None, Some("80".into()), None).err(),
        Some("DATABASE_URL is required".to_string())
    );
    assert_eq!(
        Config::from_values(None, Some("x".into()), None).err(),
        Some("OLYMPUS_PORT must be a valid port".to_string())
    );
}

#[test]
fn unsigned_parsing_follows_std() {
    for s in ["0", "65535", "+7", "007", "18446744073709551615", "", "+", "-1", " 1", "1x", "99999999999999999999"] {
        assert_eq!(parse_unsigned_up_to(s, u64::MAX), s.parse::<u64>().ok(), "{}", s);
        assert_eq!(parse_unsigned_up_to(s, 65535).map(|v| v as u16), s.parse::<u16>().ok(), "{}", s);
    }
}

#[test]
fn pool_size_setting() {
    assert_eq!(max_connections(None), 20);
    assert_eq!(max_connections(Some("5")), 5);
    assert_eq!(max_connections(Some("0")), 20);
    assert_eq!(max_connections(Some("many")), 20);
    assert_eq!(max_connections(Some("4294967296")), 20);
}

#[test]
fn recommendation_requests_and_answers() {
    assert_eq!(validate_recommendation_request(0, None), Err(Status::BadRequest));
    assert_eq!(validate_recommendation_request(101, None), Err(Status::BadRequest));
    assert_eq!(validate_recommendation_request(3, None), Ok(5));
    assert_eq!(validate_recommendation_request(3, Some(0)), Ok(1));
    assert_eq!(validate_recommendation_request(3, Some(200)), Ok(20));
    let ids = vec![
        "67e55044-10b1-426f-9247-bb680e5fe0c8".to_string(),
        "not-a-uuid".to_string(),
        "00000000-0000-0000-0000-000000000001".to_string(),
    ];
    assert_eq!(
        recognized_recommendations(&ids),
        vec![(0, 0x67e5504410b1426f9247bb680e5fe0c8), (2, 1)]
    );
}

#[test]
fn ai_service_urls() {
    assert_eq!(normalize_base_url("http://ai:8000///"), "http://ai:8000");
    assert_eq!(normalize_base_url("http://ai"), "http://ai");
    assert_eq!(recommendations_url("http://ai"), "http://ai/v1/recommendations");
}

#[test]
fn health_and_helpers() {
    assert_eq!(health_response(true), (Status::Success, "ok"));
    assert_eq!(health_response(false), (Status::ServiceUnavailable, "database_unavailable"));
    assert_eq!(Status::Conflict.code(), 409);
    assert_eq!(Status::Success.code(), 200);
    assert_eq!(amount_or_zero(None), Money::zero());
    assert_eq!(trim("\u{3000}\t x y \u{a0}\n"), "x y");
    assert_eq!(trim(" \u{200b}x"), "\u{200b}x");
    assert!(str_eq("abc", "abc"));
    assert!(!str_eq("abc", "abd"));
}
