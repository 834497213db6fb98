use rustboot::audit::{AuditLogger, EventType, SecurityEvent, Severity};
use rustboot::auth::{
    encode_token, extract_json_field, extract_json_number, generate_jwt, generate_jwt_from,
    simple_sign, validate_jwt, validate_jwt_from,
};
use rustboot::authz::{AuthorizationContext, RoleBasedAccessControl, User};
use rustboot::base64::{base64_decode, base64_encode};
use rustboot::secrets::{decrypt_secret, encrypt_secret, zero_memory, SecretStore};
use rustboot::security::SecurityError;

#[test]
fn generates_valid_token() {
    let token = generate_jwt("user123", 3_600_000);
    assert!(token.is_ok());
    assert!(!token.unwrap().is_empty());
}

#[test]
fn token_can_be_validated() {
    let token = generate_jwt("user123", 3_600_000).unwrap();
    let claims = validate_jwt(&token);
    assert!(claims.is_ok());
    let claims = claims.unwrap();
    assert_eq!(claims.sub, "user123");
}

#[test]
fn rejects_invalid_token() {
    let result = validate_jwt("invalid_token");
    assert!(result.is_err());
}

#[test]
fn rejects_tampered_token() {
    let token = generate_jwt("user123", 3_600_000).unwrap();
    let parts: Vec<&str> = token.split('.').collect();
    let tampered = format!("{}.{}.invalid_signature", parts[0], parts[1]);
    let result = validate_jwt(&tampered);
    assert!(result.is_err());
}

#[test]
fn rejects_zero_duration() {
    let result = generate_jwt("user", 0);
    assert!(result.is_err());
}

#[test]
fn token_roundtrip_at_fixed_times() {
    let token = generate_jwt_from("alice", 60_000, Ok(1_000_000)).unwrap();
    assert_eq!(token, encode_token("alice", 1_000_000, 1_060_000));
    let claims = validate_jwt_from(&token, Ok(1_060_000)).unwrap();
    assert_eq!(claims.sub, "alice");
    assert_eq!(claims.iat, 1_000_000);
    assert_eq!(claims.exp, 1_060_000);
}

#[test]
fn token_expired_after_exp() {
    let token = generate_jwt_from("alice", 1, Ok(5_000)).unwrap();
    match validate_jwt_from(&token, Ok(5_002)) {
        Err(SecurityError::InvalidToken(m)) => assert_eq!(m, "Token expired"),
        other => panic!("unexpected {:?}", other),
    }
}

#[test]
fn token_zero_duration_message() {
    match generate_jwt_from("bob", 0, Ok(5)) {
        Err(SecurityError::InvalidToken(m)) => assert_eq!(m, "Duration must be greater than zero"),
        other => panic!("unexpected {:?}", other),
    }
}

#[test]
fn token_clock_error_is_reported() {
    match generate_jwt_from("bob", 10, Err("clock".to_string())) {
        Err(SecurityError::InvalidToken(m)) => assert_eq!(m, "System time error: clock"),
        other => panic!("unexpected {:?}", other),
    }
}

#[test]
fn base64_known_values() {
    assert_eq!(base64_encode("Man"), "TWFu");
    assert_eq!(base64_encode("Ma"), "TWE=");
    assert_eq!(base64_encode("M"), "TQ==");
    assert_eq!(base64_decode("TWFu").unwrap(), "Man");
    assert_eq!(base64_decode("TWE=").unwrap(), "Ma");
    assert!(base64_decode("T*==").is_err());
}

#[test]
fn base64_roundtrip_unicode() {
    let s = "héllo wörld ✓";
    assert_eq!(base64_decode(&base64_encode(s)).unwrap(), s);
}

#[test]
fn test_create_role() {
    let mut rbac = RoleBasedAccessControl::new();
    assert!(rbac.create_role("developer").is_ok());
    assert!(rbac.role_exists("developer"));
}

#[test]
fn create_existing_role_is_refused() {
    let mut rbac = RoleBasedAccessControl::new();
    match rbac.create_role("admin") {
        Err(SecurityError::AuthorizationDenied(m)) => assert_eq!(m, "Role 'admin' already exists"),
        other => panic!("unexpected {:?}", other),
    }
}

#[test]
fn test_grant_and_check_permission() {
    let mut rbac = RoleBasedAccessControl::new();
    rbac.grant_permission("admin", "delete_user").unwrap();
    let has_permission = rbac.check_permission("admin", "delete_user").unwrap();
    assert!(has_permission);
    let no_permission = rbac.check_permission("user", "delete_user").unwrap();
    assert!(!no_permission);
}

#[test]
fn test_revoke_permission() {
    let mut rbac = RoleBasedAccessControl::new();
    rbac.grant_permission("admin", "delete_user").unwrap();
    rbac.revoke_permission("admin", "delete_user").unwrap();
    let has_permission = rbac.check_permission("admin", "delete_user").unwrap();
    assert!(!has_permission);
}

#[test]
fn revoke_missing_permission_is_refused() {
    let mut rbac = RoleBasedAccessControl::new();
    match rbac.revoke_permission("user", "fly") {
        Err(SecurityError::AuthorizationDenied(m)) => {
            assert_eq!(m, "Role 'user' does not have permission 'fly'")
        }
        other => panic!("unexpected {:?}", other),
    }
    match rbac.grant_permission("ghost", "fly") {
        Err(SecurityError::AuthorizationDenied(m)) => assert_eq!(m, "Role 'ghost' does not exist"),
        other => panic!("unexpected {:?}", other),
    }
}

#[test]
fn test_user_roles() {
    let mut user = User::new("user123");
    user.add_role("developer");
    user.add_role("approver");
    assert!(user.has_role("developer"));
    assert!(user.has_role("approver"));
    assert!(!user.has_role("admin"));
    assert!(user.has_any_role(&["admin", "developer"]));
    assert!(!user.has_all_roles(&["admin", "developer"]));
    assert!(user.has_all_roles(&["developer", "approver"]));
}

#[test]
fn test_authorization_context() {
    let mut rbac = RoleBasedAccessControl::new();
    rbac.create_role("developer").unwrap();
    rbac.create_role("approver").unwrap();
    rbac.grant_permission("developer", "write_code").unwrap();
    rbac.grant_permission("approver", "approve_code").unwrap();
    let mut user = User::new("alice");
    user.add_role("developer");
    let ctx = AuthorizationContext::new(&rbac, &user);
    assert!(ctx.has_permission("write_code").unwrap());
    assert!(!ctx.has_permission("approve_code").unwrap());
    assert!(ctx.require_permission("write_code").is_ok());
    assert!(ctx.require_permission("approve_code").is_err());
}

#[test]
fn require_permission_message() {
    let rbac = RoleBasedAccessControl::new();
    let mut user = User::new("carol");
    user.add_role("guest");
    let ctx = AuthorizationContext::new(&rbac, &user);
    match ctx.require_permission("deploy") {
        Err(SecurityError::AuthorizationDenied(m)) => {
            assert_eq!(m, "User 'carol' does not have permission 'deploy'")
        }
        other => panic!("unexpected {:?}", other),
    }
}

#[test]
fn test_get_permissions() {
    let mut rbac = RoleBasedAccessControl::new();
    rbac.grant_permission("admin", "read").unwrap();
    rbac.grant_permission("admin", "write").unwrap();
    rbac.grant_permission("admin", "delete").unwrap();
    let permissions = rbac.get_permissions("admin").unwrap();
    assert_eq!(permissions.len(), 3);
    assert!(permissions.contains(&"read".to_string()));
    assert!(permissions.contains(&"write".to_string()));
    assert!(permissions.contains(&"delete".to_string()));
}

#[test]
fn grant_then_revoke_leaves_other_permissions() {
    let mut rbac = RoleBasedAccessControl::new();
    rbac.grant_permission("user", "a").unwrap();
    rbac.grant_permission("user", "b").unwrap();
    rbac.revoke_permission("user", "b").unwrap();
    assert!(rbac.check_permission("user", "a").unwrap());
    assert!(!rbac.check_permission("user", "b").unwrap());
}

#[test]
fn test_encrypt_decrypt() {
    let secret = b"my_secret_password";
    let encrypted = encrypt_secret(secret).unwrap();
    assert_ne!(encrypted, secret);
    let decrypted = decrypt_secret(&encrypted).unwrap();
    assert_eq!(decrypted, secret);
}

#[test]
fn encrypt_known_bytes() {
    let encrypted = encrypt_secret(&[0, 0, 0]).unwrap();
    assert_eq!(encrypted, b"rus".to_vec());
}

#[test]
fn test_secret_store() {
    let mut store = SecretStore::new();
    let secret = b"super_secret".to_vec();
    store.store("api_key", secret.clone()).unwrap();
    assert!(store.secret_exists("api_key"));
    let retrieved = store.retrieve("api_key").unwrap();
    assert_eq!(retrieved, secret);
    store.delete("api_key").unwrap();
    assert!(!store.secret_exists("api_key"));
}

#[test]
fn test_secret_not_found() {
    let store = SecretStore::new();
    let result = store.retrieve("nonexistent");
    assert!(result.is_err());
}

#[test]
fn test_list_keys() {
    let mut store = SecretStore::new();
    store.store("key1", b"value1".to_vec()).unwrap();
    store.store("key2", b"value2".to_vec()).unwrap();
    let keys = store.list_keys();
    assert_eq!(keys.len(), 2);
    assert!(keys.contains(&"key1".to_string()));
    assert!(keys.contains(&"key2".to_string()));
}

#[test]
fn test_encrypt_empty() {
    let result = encrypt_secret(&[]);
    assert!(result.is_err());
}

#[test]
fn test_decrypt_empty() {
    let result = decrypt_secret(&[]);
    assert!(result.is_err());
}

#[test]
fn test_zero_memory() {
    let mut data = vec![1, 2, 3, 4, 5];
    zero_memory(&mut data);
    assert_eq!(data, vec![0, 0, 0, 0, 0]);
}

#[test]
fn full_jwt_flow() {
    let token = generate_jwt("user123", 3_600_000).unwrap();
    let claims = validate_jwt(&token).unwrap();
    assert_eq!(claims.sub, "user123");
    assert!(claims.exp > 0);
    assert!(claims.iat > 0);
}

#[test]
fn jwt_rejects_invalid_token() {
    let result = validate_jwt("not.a.valid.token");
    assert!(result.is_err());
}

#[test]
fn rbac_authorization_flow() {
    let mut rbac = RoleBasedAccessControl::new();
    rbac.grant_permission("admin", "users:write").unwrap();
    rbac.grant_permission("admin", "users:read").unwrap();
    rbac.grant_permission("user", "users:read").unwrap();
    assert!(rbac.check_permission("admin", "users:write").unwrap());
    assert!(rbac.check_permission("admin", "users:read").unwrap());
    assert!(rbac.check_permission("user", "users:read").unwrap());
    assert!(!rbac.check_permission("user", "users:write").unwrap());
}

#[test]
fn rbac_with_user_context() {
    let mut rbac = RoleBasedAccessControl::new();
    rbac.create_role("developer").unwrap();
    rbac.create_role("approver").unwrap();
    rbac.grant_permission("developer", "code:write").unwrap();
    rbac.grant_permission("approver", "code:approve").unwrap();
    let mut user = User::new("alice");
    user.add_role("developer");
    let ctx = AuthorizationContext::new(&rbac, &user);
    assert!(ctx.has_permission("code:write").unwrap());
    assert!(!ctx.has_permission("code:approve").unwrap());
}

#[test]
fn secret_encryption_flow() {
    let secret_data = b"super_secret_api_key";
    let encrypted = encrypt_secret(secret_data).unwrap();
    assert_ne!(encrypted.as_slice(), secret_data);
    let decrypted = decrypt_secret(&encrypted).unwrap();
    assert_eq!(decrypted.as_slice(), secret_data);
}

#[test]
fn secret_store_flow() {
    let mut store = SecretStore::new();
    let api_key = b"secret_api_key_123".to_vec();
    store.store("api_key", api_key.clone()).unwrap();
    let retrieved = store.retrieve("api_key").unwrap();
    assert_eq!(retrieved, api_key);
    assert!(store.secret_exists("api_key"));
    assert!(!store.secret_exists("nonexistent"));
}

fn json_object(key: &str, value: serde_json::Value) -> serde_json::Value {
    let mut map = serde_json::Map::new();
    map.insert(key.to_string(), value);
    serde_json::Value::Object(map)
}

#[test]
fn audit_logger_workflow() {
    let mut logger = AuditLogger::new();
    let event1 = SecurityEvent::new(EventType::Login, "alice")
        .with_severity(Severity::Info)
        .with_resource("api/v1/login");
    let event2 = SecurityEvent::new(EventType::SecurityViolation, "bob")
        .with_severity(Severity::Critical)
        .with_metadata(json_object("reason", serde_json::Value::String("brute_force".to_string())));
    logger.log(event1).unwrap();
    logger.log(event2).unwrap();
    assert_eq!(logger.count(), 2);
    let critical_events = logger.get_events_by_severity(Severity::Critical);
    assert_eq!(critical_events.len(), 1);
    assert_eq!(critical_events[0].subject, "bob");
    let alice_events = logger.get_events_by_subject("alice");
    assert_eq!(alice_events.len(), 1);
}

#[test]
fn test_create_security_event() {
    let event = SecurityEvent::new(EventType::Login, "user123");
    assert_eq!(event.subject, "user123");
    assert!(matches!(event.event_type, EventType::Login));
    assert_eq!(event.severity, Severity::Info);
}

#[test]
fn test_event_with_metadata() {
    let event = SecurityEvent::new(EventType::Login, "user123")
        .with_metadata(json_object("ip", serde_json::Value::String("192.168.1.1".to_string())))
        .with_severity(Severity::Warning)
        .with_resource("api/v1/login");
    assert_eq!(event.severity, Severity::Warning);
    assert_eq!(event.resource, Some("api/v1/login".to_string()));
}

#[test]
fn test_audit_logger() {
    let mut logger = AuditLogger::new();
    let event1 = SecurityEvent::new(EventType::Login, "alice");
    let event2 = SecurityEvent::new(EventType::Logout, "bob");
    logger.log(event1).unwrap();
    logger.log(event2).unwrap();
    assert_eq!(logger.count(), 2);
}

#[test]
fn test_get_events_by_type() {
    let mut logger = AuditLogger::new();
    logger.log(SecurityEvent::new(EventType::Login, "alice")).unwrap();
    logger.log(SecurityEvent::new(EventType::Login, "bob")).unwrap();
    logger.log(SecurityEvent::new(EventType::Logout, "alice")).unwrap();
    let login_events = logger.get_events_by_type(&EventType::Login);
    assert_eq!(login_events.len(), 2);
}

#[test]
fn custom_event_types_match_by_name() {
    let mut logger = AuditLogger::new();
    logger.log(SecurityEvent::new(EventType::Custom("export".to_string()), "a")).unwrap();
    logger.log(SecurityEvent::new(EventType::Custom("import".to_string()), "b")).unwrap();
    let found = logger.get_events_by_type(&EventType::Custom("export".to_string()));
    assert_eq!(found.len(), 1);
    assert_eq!(found[0].subject, "a");
    assert!(EventType::Custom("x".to_string()) == EventType::Custom("x".to_string()));
    assert!(EventType::Login != EventType::Logout);
}

#[test]
fn test_get_events_by_subject() {
    let mut logger = AuditLogger::new();
    logger.log(SecurityEvent::new(EventType::Login, "alice")).unwrap();
    logger.log(SecurityEvent::new(EventType::DataRead, "alice")).unwrap();
    logger.log(SecurityEvent::new(EventType::Login, "bob")).unwrap();
    let alice_events = logger.get_events_by_subject("alice");
    assert_eq!(alice_events.len(), 2);
}

#[test]
fn test_get_events_by_severity() {
    let mut logger = AuditLogger::new();
    logger.log(SecurityEvent::new(EventType::Login, "alice").with_severity(Severity::Info)).unwrap();
    logger
        .log(SecurityEvent::new(EventType::SecurityViolation, "bob").with_severity(Severity::Error))
        .unwrap();
    logger
        .log(
            SecurityEvent::new(EventType::SuspiciousActivity, "charlie")
                .with_severity(Severity::Critical),
        )
        .unwrap();
    let critical_events = logger.get_events_by_severity(Severity::Error);
    assert_eq!(critical_events.len(), 2);
}

#[test]
fn test_audit_logger_capacity() {
    let mut logger = AuditLogger::with_capacity(5);
    for i in 0..10 {
        logger.log(SecurityEvent::new(EventType::Login, &format!("user{}", i))).unwrap();
    }
    assert_eq!(logger.count(), 5);
}

#[test]
fn capacity_keeps_newest_in_order() {
    let mut logger = AuditLogger::with_capacity(2);
    for name in ["a", "b", "c"] {
        logger.log(SecurityEvent::new(EventType::Login, name)).unwrap();
    }
    let events = logger.get_events();
    assert_eq!(events.len(), 2);
    assert_eq!(events[0].subject, "b");
    assert_eq!(events[1].subject, "c");
    let mut none_kept = AuditLogger::with_capacity(0);
    none_kept.log(SecurityEvent::new(EventType::Login, "x")).unwrap();
    assert_eq!(none_kept.count(), 0);
    none_kept.log_event(SecurityEvent::new(EventType::Login, "y")).unwrap();
    assert_eq!(none_kept.count(), 1);
}

#[test]
fn events_in_time_range() {
    let mut logger = AuditLogger::new();
    logger.log(SecurityEvent::new_at(EventType::Login, "a", Ok(1_000))).unwrap();
    logger.log(SecurityEvent::new_at(EventType::Login, "b", Ok(5_999))).unwrap();
    logger.log(SecurityEvent::new_at(EventType::Login, "c", Err("no clock".to_string()))).unwrap();
    let found = logger.get_events_in_range(1, 5);
    assert_eq!(found.len(), 2);
    assert_eq!(found[0].timestamp, 1);
    assert_eq!(found[1].timestamp, 5);
    assert_eq!(logger.get_events_in_range(0, 0)[0].subject, "c");
}

#[test]
fn test_clear_events() {
    let mut logger = AuditLogger::new();
    logger.log(SecurityEvent::new(EventType::Login, "alice")).unwrap();
    logger.log(SecurityEvent::new(EventType::Logout, "bob")).unwrap();
    assert_eq!(logger.count(), 2);
    logger.clear().unwrap();
    assert_eq!(logger.count(), 0);
}

#[test]
fn login_and_permission_event_types() {
    assert!(EventType::for_login(true) == EventType::Login);
    assert!(EventType::for_login(false) == EventType::LoginFailed);
    assert!(EventType::for_permission(true) == EventType::PermissionGranted);
    assert!(EventType::for_permission(false) == EventType::PermissionDenied);
}

#[test]
fn security_error_messages() {
    assert_eq!(
        SecurityError::SecretNotFound("x".to_string()).message(),
        "Secret not found: x"
    );
    assert_eq!(SecurityError::AuditError("y".to_string()).message(), "Audit error: y");
}

#[test]
fn base64_error_messages() {
    assert_eq!(base64_decode("ab!d").unwrap_err(), "Invalid base64 character: !");
    let e = base64_decode("/w==").unwrap_err();
    assert!(e.starts_with("UTF-8 error: "));
    assert_eq!(base64_decode("").unwrap(), "");
    assert_eq!(base64_encode(""), "");
}

#[test]
fn token_bad_payload_messages() {
    match validate_jwt_from("a.b", Ok(0)) {
        Err(SecurityError::InvalidToken(m)) => assert_eq!(m, "Invalid token format"),
        other => panic!("unexpected {:?}", other),
    }
    let token = encode_token("u", 1, 2);
    let parts: Vec<&str> = token.split('.').collect();
    let forged = format!("{}.{}.{}", parts[0], base64_encode("{\"sub\":\"x\"}"), parts[2]);
    match validate_jwt_from(&forged, Ok(0)) {
        Err(SecurityError::InvalidToken(m)) => assert_eq!(m, "Invalid signature"),
        other => panic!("unexpected {:?}", other),
    }
}

#[test]
fn token_missing_claim_message() {
    let token = encode_token("u", 1, 2);
    let header = token.split('.').next().unwrap().to_string();
    let payload = base64_encode("{\"sub\":\"x\"}");
    let signed = format!("{}.{}", header, payload);
    let forged = format!("{}.{}", signed, simple_sign(&signed));
    match validate_jwt_from(&forged, Ok(0)) {
        Err(SecurityError::InvalidToken(m)) => assert_eq!(m, "Missing 'iat' field"),
        other => panic!("unexpected {:?}", other),
    }
}

#[test]
fn json_field_extraction() {
    let json = "{\"sub\":\"abc\",\"iat\":12,\"exp\":-3}";
    assert_eq!(extract_json_field(json, "sub"), Some("abc".to_string()));
    assert_eq!(extract_json_number(json, "iat"), Some(12));
    assert_eq!(extract_json_field(json, "nope"), None);
}

#[test]
fn secret_store_answers_with_the_latest_write() {
    let mut store = SecretStore::new();
    store.store("k", b"one".to_vec()).unwrap();
    store.store("k", b"two".to_vec()).unwrap();
    assert!(store.store("k", Vec::new()).is_err());
    assert_eq!(store.retrieve("k").unwrap(), b"two".to_vec());
    store.delete("k").unwrap();
    assert!(!store.secret_exists("k"));
    assert!(matches!(store.retrieve("k"), Err(SecurityError::SecretNotFound(_))));
    store.store("k", b"three".to_vec()).unwrap();
    assert!(store.secret_exists("k"));
    assert_eq!(store.retrieve("k").unwrap(), b"three".to_vec());
}
