use server_admin::auth::authenticate;
use server_admin::config::{ServerConfig, CLAIM_EXPIRY};

const NOW: u64 = 1_700_000_000;

fn fresh_config() -> ServerConfig {
    ServerConfig::new(
        "Srv1".to_string(),
        "Somewhere".to_string(),
        "1.2.3.4:5000".to_string(),
        "a test server".to_string(),
    )
}

#[test]
fn provisioning_fills_every_field() {
    let cfg = fresh_config();
    assert_eq!(cfg.name, "Srv1");
    assert_eq!(cfg.location, "Somewhere");
    assert_eq!(cfg.ip_port, "1.2.3.4:5000");
    assert_eq!(cfg.description, "a test server");
    assert_eq!(cfg.password.len(), 36);
    // a signed token has three dot-separated parts
    assert_eq!(cfg.token.split('.').count(), 3);
}

#[test]
fn provisioning_twice_gives_unrelated_records() {
    let a = fresh_config();
    let b = fresh_config();
    assert_ne!(a.password, b.password);
    assert_ne!(a.token, b.token);
}

#[test]
fn token_round_trip() {
    let cfg = fresh_config();
    let claims = authenticate(&cfg.token, &cfg.password, NOW)
        .expect("a fresh token must verify under the issuing secret");
    assert_eq!(claims.location, cfg.location);
    assert_eq!(claims.ip_port, cfg.ip_port);
    assert_eq!(claims.description, cfg.description);
    assert_eq!(claims.uuid, cfg.password);
    assert_eq!(claims.exp, CLAIM_EXPIRY);
}

#[test]
fn secret_binding() {
    let a = fresh_config();
    let b = fresh_config();
    assert!(authenticate(&a.token, &b.password, NOW).is_none());
    assert!(authenticate(&b.token, &a.password, NOW).is_none());
}

#[test]
fn expired_token_is_refused() {
    let cfg = fresh_config();
    assert!(authenticate(&cfg.token, &cfg.password, CLAIM_EXPIRY + 1).is_none());
    // at the bound itself the token is still admitted
    assert!(authenticate(&cfg.token, &cfg.password, CLAIM_EXPIRY).is_some());
}

#[test]
fn malformed_tokens_are_refused() {
    let cfg = fresh_config();
    assert!(authenticate("", &cfg.password, NOW).is_none());
    assert!(authenticate("not-a-token", &cfg.password, NOW).is_none());
    let tampered = format!("{}A", cfg.token);
    assert!(authenticate(&tampered, &cfg.password, NOW).is_none());
}

#[test]
fn default_record_is_empty() {
    let cfg = ServerConfig::default();
    assert_eq!(cfg.name, "");
    assert_eq!(cfg.location, "");
    assert_eq!(cfg.ip_port, "");
    assert_eq!(cfg.description, "");
    assert_eq!(cfg.password, "");
    assert_eq!(cfg.token, "");
}
