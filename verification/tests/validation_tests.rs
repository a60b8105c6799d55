use ghost_hand_client::validation::{
    sanitize_for_logging, validate_device_id, validate_ice_candidate, validate_password,
    validate_sdp, ClientRateLimiter,
};
use ghost_hand_client::error::{ErrorKind, GhostHandError};
use std::time::Duration;

#[test]
fn test_validate_device_id_valid() {
    assert!(validate_device_id("GHD-12345").is_ok());
    assert!(validate_device_id("test-device-001").is_ok());
    assert!(validate_device_id("ABCD1234").is_ok());
}

#[test]
fn test_validate_device_id_invalid() {
    assert!(validate_device_id("ABC").is_err());

    let long_id = "A".repeat(100);
    assert!(validate_device_id(&long_id).is_err());

    assert!(validate_device_id("device@123").is_err());
    assert!(validate_device_id("device#123").is_err());
    assert!(validate_device_id("device 123").is_err());

    assert!(validate_device_id("-----").is_err());
}

#[test]
fn test_validate_sdp_valid() {
    let valid_sdp = "v=0\no=- 123 456 IN IP4 127.0.0.1\ns=Test\nm=audio 1234 RTP/AVP 0\n";
    assert!(validate_sdp(valid_sdp).is_ok());
}

#[test]
fn test_validate_sdp_invalid() {
    assert!(validate_sdp("").is_err());

    assert!(validate_sdp("o=test\ns=test\nm=audio").is_err());

    assert!(validate_sdp("v=0\no=test").is_err());

    let huge_sdp = "v=0\n".to_string() + &"a=test\n".repeat(100000);
    assert!(validate_sdp(&huge_sdp).is_err());
}

#[test]
fn test_validate_ice_candidate_valid() {
    let valid_candidate = "candidate:1 1 UDP 2130706431 192.168.1.1 54321 typ host";
    assert!(validate_ice_candidate(valid_candidate).is_ok());
}

#[test]
fn test_validate_ice_candidate_invalid() {
    assert!(validate_ice_candidate("").is_err());

    assert!(validate_ice_candidate("invalid data").is_err());

    let long_candidate = "candidate:".to_string() + &"A".repeat(600);
    assert!(validate_ice_candidate(&long_candidate).is_err());
}

#[test]
fn test_validate_password() {
    assert!(validate_password("test123").is_ok());
    assert!(validate_password("ComplexP@ssw0rd!").is_ok());

    assert!(validate_password("").is_err());

    let long_pass = "A".repeat(200);
    assert!(validate_password(&long_pass).is_err());

    assert!(validate_password("pass\0word").is_err());
}

#[test]
fn test_sanitize_for_logging() {
    let result = sanitize_for_logging("normal text", 50);
    assert_eq!(result, "normal text");

    let result = sanitize_for_logging("text\nwith\tcontrol", 50);
    assert_eq!(result, "text with control");

    let result = sanitize_for_logging("very long text here", 10);
    assert!(result.starts_with("very long "));
    assert!(result.contains("tronqué"));
}

#[test]
fn test_rate_limiter() {
    let mut limiter = ClientRateLimiter::new(3, Duration::from_secs(1));

    assert!(limiter.check("test").is_ok());
    assert!(limiter.check("test").is_ok());
    assert!(limiter.check("test").is_ok());

    assert!(limiter.check("test").is_err());

    assert!(limiter.check("other").is_ok());
}

#[test]
fn test_rate_limiter_reset() {
    let mut limiter = ClientRateLimiter::new(2, Duration::from_secs(10));

    assert!(limiter.check("test").is_ok());
    assert!(limiter.check("test").is_ok());
    assert!(limiter.check("test").is_err());

    limiter.reset("test").unwrap();

    assert!(limiter.check("test").is_ok());
}

fn validation_message(result: Result<(), GhostHandError>) -> String {
    match result {
        Err(GhostHandError::Validation(message)) => message,
        other => panic!("expected a validation error, got {:?}", other),
    }
}

#[test]
fn device_id_errors_name_the_first_rule_broken() {
    assert_eq!(
        validation_message(validate_device_id("")),
        "Device ID trop court: 0 caractères (min: 5)"
    );
    assert_eq!(
        validation_message(validate_device_id("ab-1")),
        "Device ID trop court: 4 caractères (min: 5)"
    );
    assert_eq!(
        validation_message(validate_device_id(&"a".repeat(65))),
        "Device ID trop long: 65 caractères (max: 64)"
    );
    assert_eq!(
        validation_message(validate_device_id("device\0id")),
        "Device ID contient des caractères invalides (seuls a-z, A-Z, 0-9, - sont autorisés)"
    );
    assert_eq!(
        validation_message(validate_device_id("------")),
        "Device ID invalide: ne peut contenir que des tirets"
    );
}

#[test]
fn device_id_length_bounds_are_inclusive() {
    assert!(validate_device_id("abcde").is_ok());
    assert!(validate_device_id(&"a".repeat(64)).is_ok());
    assert!(validate_device_id("abcd").is_err());
    assert!(validate_device_id(&"a".repeat(65)).is_err());
    // Two bytes a character: five characters, ten bytes, none of them allowed.
    assert!(validate_device_id("ééééé").is_err());
}

#[test]
fn sdp_errors_name_the_first_rule_broken() {
    assert_eq!(validation_message(validate_sdp("")), "SDP vide");
    assert_eq!(
        validation_message(validate_sdp("x=0\no=a\ns=b\nm=c")),
        "SDP invalide: doit commencer par 'v='"
    );
    assert_eq!(
        validation_message(validate_sdp("v=0\no=a\ns=b")),
        "SDP invalide: lignes obligatoires manquantes (o=, s=, m=)"
    );
    assert_eq!(
        validation_message(validate_sdp("v=0\no=a\ns=b\nm=c\x07")),
        "SDP contient des caractères de contrôle invalides"
    );
    let big = "v=0\no=a\ns=b\nm=c\n".to_string() + &"a".repeat(102400);
    assert_eq!(
        validation_message(validate_sdp(&big)),
        format!("SDP trop grand: {} bytes (max: 102400 bytes)", big.len())
    );
    assert!(validate_sdp("v=0\r\no=a\r\ns=b\r\nm=c\r\n").is_ok());
}

#[test]
fn ice_candidate_and_password_errors() {
    assert_eq!(validation_message(validate_ice_candidate("")), "ICE candidate vide");
    assert_eq!(
        validation_message(validate_ice_candidate("candidate:1\n")),
        "ICE candidate contient des caractères de contrôle invalides"
    );
    assert_eq!(
        validation_message(validate_ice_candidate("nothing")),
        "ICE candidate invalide: doit contenir 'candidate:'"
    );
    assert_eq!(validation_message(validate_password("")), "Password vide");
    assert_eq!(
        validation_message(validate_password(&"p".repeat(129))),
        "Password trop long: 129 caractères (max: 128)"
    );
    assert_eq!(
        validation_message(validate_password("a\0b")),
        "Password contient des caractères nuls"
    );
    assert!(validate_password(&"p".repeat(128)).is_ok());
}

#[test]
fn sanitize_cuts_at_the_byte_limit_and_keeps_short_texts() {
    assert_eq!(sanitize_for_logging("abcdef", 3), "abc... (tronqué)");
    assert_eq!(sanitize_for_logging("abc", 3), "abc");
    assert_eq!(sanitize_for_logging("a\u{85}b\u{7f}", 10), "a b ");
    assert_eq!(sanitize_for_logging("", 0), "");
}

#[test]
fn rate_limiter_window_slides() {
    let mut limiter = ClientRateLimiter::new(2, Duration::from_millis(1000));
    assert!(limiter.check_at("k", 10_000).is_ok());
    assert!(limiter.check_at("k", 10_500).is_ok());
    let refused = limiter.check_at("k", 10_900);
    match refused {
        Err(error) => {
            assert_eq!(error.kind(), ErrorKind::RateLimit);
            assert_eq!(
                error.describe(),
                "Rate limit atteint: Trop de requêtes 'k': max 2 par 1000 ms"
            );
        }
        Ok(()) => panic!("the third request within the window must be refused"),
    }
    // At 11_001 the request of 10_000 has left the window.
    assert!(limiter.check_at("k", 11_001).is_ok());
    assert!(limiter.check_at("k", 11_002).is_err());
    // A limiter that allows nothing refuses at once.
    let mut closed = ClientRateLimiter::new(0, Duration::from_secs(1));
    assert!(closed.check_at("k", 0).is_err());
}
