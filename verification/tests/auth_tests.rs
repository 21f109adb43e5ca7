use game_stream::{AuthConfig, AuthManager};

fn config(enabled: bool, keys: &[&str]) -> AuthConfig {
    AuthConfig {
        enabled,
        valid_stream_keys: keys.iter().map(|k| k.to_string()).collect(),
        jwt_secret: None,
    }
}

#[test]
fn disabled_guard_accepts_any_key() {
    let auth = AuthManager::new(&config(false, &[]));
    assert!(auth.validate_stream_key("anything"));
    assert!(auth.validate_stream_key(""));
    assert!(auth.validate_stream_key("never_added"));
}

#[test]
fn disabled_guard_accepts_keys_outside_allow_list() {
    let auth = AuthManager::new(&config(false, &["abc"]));
    assert!(auth.validate_stream_key("abc"));
    assert!(auth.validate_stream_key("abd"));
    assert!(auth.validate_stream_key(""));
}

#[test]
fn enabled_guard_is_set_membership() {
    let auth = AuthManager::new(&config(true, &["abc"]));
    assert!(auth.validate_stream_key("abc"));
    assert!(!auth.validate_stream_key("abd"));
    assert!(!auth.validate_stream_key(""));
}

#[test]
fn removing_a_key_revokes_subsequent_validations() {
    let mut auth = AuthManager::new(&config(true, &["abc"]));
    assert!(auth.validate_stream_key("abc"));
    assert!(!auth.validate_stream_key("abd"));
    auth.remove_stream_key("abc");
    assert!(!auth.validate_stream_key("abc"));
}

#[test]
fn adding_a_key_takes_effect_immediately() {
    let mut auth = AuthManager::new(&config(true, &[]));
    assert!(!auth.validate_stream_key("fresh"));
    auth.add_stream_key("fresh".to_string());
    assert!(auth.validate_stream_key("fresh"));
}

#[test]
fn allow_list_deduplicates() {
    let auth = AuthManager::new(&config(true, &["dup", "dup", "other"]));
    let keys = auth.get_valid_stream_keys();
    assert_eq!(keys.len(), 2);
    assert!(keys.iter().any(|k| k == "dup"));
    assert!(keys.iter().any(|k| k == "other"));
}

#[test]
fn viewer_validation_follows_the_same_rule() {
    let auth = AuthManager::new(&config(true, &["abc"]));
    assert!(auth.validate_viewer("abc", None));
    assert!(!auth.validate_viewer("abd", Some("token")));
    let open = AuthManager::new(&config(false, &[]));
    assert!(open.validate_viewer("whatever", None));
}
