use base64::Engine;
use opday::credentials::{frame_credentials, registry_credentials};

#[test]
fn credentials_hold_the_encoded_pair_under_the_registry() {
    assert_eq!(
        registry_credentials("registry.example.com", "user", "pass"),
        Ok("{\"auths\":{\"registry.example.com\":{\"auth\":\"dXNlcjpwYXNz\"}}}".to_string())
    );
}

#[test]
fn credentials_are_the_json_of_the_same_object() {
    for (registry, username, password) in [
        ("r", "u", "p"),
        ("reg\"istry\\", "üser", "pa:ss\n"),
        ("", "", ""),
        ("localhost:5000", "name", "a much longer password with spaces"),
    ] {
        let pair = format!("{}:{}", username, password);
        let auth = base64::engine::general_purpose::STANDARD.encode(pair.as_bytes());
        let mut inner = serde_json::Map::new();
        inner.insert("auth".to_string(), serde_json::Value::String(auth));
        let mut auths = serde_json::Map::new();
        auths.insert(registry.to_string(), serde_json::Value::Object(inner));
        let mut root = serde_json::Map::new();
        root.insert("auths".to_string(), serde_json::Value::Object(auths));
        let expected = serde_json::Value::Object(root).to_string();
        assert_eq!(registry_credentials(registry, username, password), Ok(expected));
    }
}

#[test]
fn frame_puts_the_literals_in_the_envelope() {
    assert_eq!(frame_credentials("\"r\"", "\"QQ==\""), "{\"auths\":{\"r\":{\"auth\":\"QQ==\"}}}");
}
