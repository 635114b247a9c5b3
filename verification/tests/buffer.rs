use smart_auth::AuthResult;
use smart_auth::BufferManager;

const SECRET: &[u8] = b"super-secret-key";

fn signed_token(exp: u64, aud: &str, iss: &str) -> String {
    let mut m = serde_json::Map::new();
    m.insert(
        "sub".to_string(),
        serde_json::Value::String("u1".to_string()),
    );
    m.insert(
        "exp".to_string(),
        serde_json::Value::Number(serde_json::Number::from(exp)),
    );
    m.insert("aud".to_string(), serde_json::Value::String(aud.to_string()));
    m.insert("iss".to_string(), serde_json::Value::String(iss.to_string()));
    jsonwebtoken::encode(
        &jsonwebtoken::Header::new(jsonwebtoken::Algorithm::HS256),
        &serde_json::Value::Object(m),
        &jsonwebtoken::EncodingKey::from_secret(SECRET),
    )
    .unwrap()
}

#[test]
fn reserve_release_cycles_leave_no_residue() {
    let mut manager = BufferManager::new();
    let first = manager.reserve(64);
    manager.release(first, 64);
    for _ in 0..1_000 {
        let h = manager.reserve(64);
        assert_eq!(h, first, "a freed slot must be reused, not leaked");
        manager.release(h, 64);
    }
}

#[test]
fn distinct_reservations_get_distinct_handles() {
    let mut manager = BufferManager::new();
    let a = manager.reserve(8);
    let b = manager.reserve(16);
    let c = manager.reserve(24);
    assert_ne!(a, b);
    assert_ne!(b, c);
    assert_ne!(a, c);
    manager.release(b, 16);
    let d = manager.reserve(4);
    assert_eq!(d, b, "the freed slot is reused first");
    manager.release(a, 8);
    manager.release(c, 24);
    manager.release(d, 4);
}

#[test]
fn host_protocol_round_trip() {
    let token = signed_token(4_000, "my-audience", "my-issuer");
    let bytes = token.as_bytes();

    let mut manager = BufferManager::new();
    let h = manager.reserve(bytes.len());
    manager.write(h, bytes);
    assert_eq!(manager.verify_held(h, bytes.len(), 3_000), AuthResult::Valid);
    assert_eq!(
        manager.verify_held(h, bytes.len(), 5_000),
        AuthResult::Expired
    );
    assert_eq!(
        manager.verify_held(h, bytes.len() - 5, 3_000),
        AuthResult::Invalid,
        "a truncated region is not a valid token"
    );
    manager.release(h, bytes.len());
}

#[test]
fn mismatched_claims_through_the_buffer_are_invalid() {
    let token = signed_token(4_000, "other", "my-issuer");
    let bytes = token.as_bytes();

    let mut manager = BufferManager::new();
    let h = manager.reserve(bytes.len());
    manager.write(h, bytes);
    assert_eq!(
        manager.verify_held(h, bytes.len(), 3_000),
        AuthResult::Invalid
    );
    manager.release(h, bytes.len());
}
