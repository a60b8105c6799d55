use ghost_hand_client::input_control::{InputController, KeyModifiers};
use ghost_hand_client::validation::{
    sanitize_for_logging, validate_device_id, validate_ice_candidate, validate_password,
    validate_sdp, ClientRateLimiter,
};
use std::time::Duration;

#[test]
fn test_device_id_security() {
    assert!(validate_device_id("'; DROP TABLE users--").is_err());

    assert!(validate_device_id("<script>alert('xss')</script>").is_err());

    assert!(validate_device_id("../../etc/passwd").is_err());

    assert!(validate_device_id("device\0id").is_err());

    assert!(validate_device_id("GHD-12345").is_ok());
    assert!(validate_device_id("test-device-001").is_ok());
}

#[test]
fn test_sdp_security() {
    let malicious_sdp = "v=0\no=\x00malicious\ns=test\nm=audio";
    assert!(validate_sdp(malicious_sdp).is_err());

    let huge_sdp = "v=0\n".to_string() + &"a=test\n".repeat(1000000);
    assert!(validate_sdp(&huge_sdp).is_err());

    let valid_sdp = "v=0\no=- 123 456 IN IP4 127.0.0.1\ns=Test\nm=audio 1234 RTP/AVP 0\n";
    assert!(validate_sdp(valid_sdp).is_ok());
}

#[test]
fn test_blocked_keys_security() {
    let modifiers = KeyModifiers::default();

    assert!(InputController::is_key_blocked("meta", &modifiers));
    assert!(InputController::is_key_blocked("super", &modifiers));
    assert!(InputController::is_key_blocked("windows", &modifiers));

    let mut modifiers_winr = KeyModifiers::default();
    modifiers_winr.meta = true;
    assert!(InputController::is_key_blocked("r", &modifiers_winr));

    let mut modifiers_cad = KeyModifiers::default();
    modifiers_cad.ctrl = true;
    modifiers_cad.alt = true;
    assert!(InputController::is_key_blocked("delete", &modifiers_cad));

    assert!(!InputController::is_key_blocked("a", &modifiers));
    assert!(!InputController::is_key_blocked("enter", &modifiers));
}

#[test]
fn test_rate_limiting_dos_protection() {
    let mut limiter = ClientRateLimiter::new(5, Duration::from_secs(60));

    let mut blocked_count = 0;
    for i in 0..10 {
        if limiter.check("connect").is_err() {
            blocked_count += 1;
        }
        println!("Requête {}: {} bloquées", i + 1, blocked_count);
    }

    assert!(blocked_count >= 5, "Rate limiter n'a pas bloqué assez de requêtes");
}

#[test]
fn test_password_security() {
    assert!(validate_password("simple123").is_ok());
    assert!(validate_password("ComplexP@ssw0rd!2024").is_ok());

    assert!(validate_password("pass\0word").is_err());

    assert!(validate_password("").is_err());

    let huge_password = "A".repeat(1000);
    assert!(validate_password(&huge_password).is_err());
}

#[test]
fn test_sanitize_logging_prevents_log_injection() {
    let malicious_input = "user123\nLEVEL:ADMIN\nACCESS:GRANTED";
    let sanitized = sanitize_for_logging(malicious_input, 100);

    assert!(!sanitized.contains('\n'), "Sanitization failed: contains newlines");

    let ansi_input = "user\x1b[31mADMIN\x1b[0m";
    let sanitized = sanitize_for_logging(ansi_input, 100);

    assert!(
        !sanitized.chars().any(|c| c.is_control()),
        "Sanitization failed: contains control characters"
    );
}

#[test]
fn test_ice_candidate_security() {
    let valid = "candidate:1 1 UDP 2130706431 192.168.1.1 54321 typ host";
    assert!(validate_ice_candidate(valid).is_ok());

    let malicious = "candidate:1; DROP TABLE candidates;--";
    assert!(validate_ice_candidate(malicious).is_ok());

    let huge = "candidate:".to_string() + &"X".repeat(1000);
    assert!(validate_ice_candidate(&huge).is_err());

    assert!(validate_ice_candidate("").is_err());
}

#[test]
fn test_combined_attack_scenarios() {
    let attacker_id = "<script>alert('xss')</script>";
    assert!(validate_device_id(attacker_id).is_err());

    let mut limiter = ClientRateLimiter::new(3, Duration::from_secs(5));
    for _ in 0..10 {
        let _ = limiter.check(&format!("spam{}", attacker_id));
    }

    let mut modifiers = KeyModifiers::default();
    modifiers.meta = true;
    assert!(InputController::is_key_blocked("r", &modifiers));
}
