//! Scenario tests for the documented behaviour: addressing, round trips,
//! isolation, idempotent delete, existence, mismatch rejection and the
//! error translation table.

use std::sync::Mutex;
use std::sync::Once;

use keyring_plugin::address::build_address;
use keyring_plugin::codec::decode_payload;
use keyring_plugin::codec::encode_value;
use keyring_plugin::implementation::probe_decision;
use keyring_plugin::BackendError;
use keyring_plugin::CredentialType;
use keyring_plugin::CredentialValue;
use keyring_plugin::Error;
use keyring_plugin::KeyringImplementation;

static TEST_COUNTER: Mutex<u32> = Mutex::new(0);
static INIT_MOCK_STORE: Once = Once::new();

fn setup_mock_keyring() {
    INIT_MOCK_STORE.call_once(|| {
        let store = keyring_core::mock::Store::new().expect("Failed to create mock store");
        keyring_core::set_default_store(store);
    });
}

fn setup_named_unique_service() -> (String, KeyringImplementation) {
    setup_mock_keyring();
    let mut counter = TEST_COUNTER.lock().unwrap();
    *counter += 1;
    let service_name = format!("com.test.props.{}", *counter);
    drop(counter);
    let mut keyring = KeyringImplementation::new();
    keyring
        .initialize_service(service_name.clone())
        .expect("Failed to initialize service");
    (service_name, keyring)
}

fn setup_with_unique_service() -> KeyringImplementation {
    let (_, keyring) = setup_named_unique_service();
    keyring
}

#[test]
fn address_examples_and_determinism() {
    let a = build_address("app", "bob", CredentialType::Password);
    assert_eq!(a, "app/bob/password");
    let b = build_address("app", "bob", CredentialType::Secret);
    assert_eq!(b, "app/bob/secret");
    assert_ne!(a, b);
    let again = build_address("app", "bob", CredentialType::Password);
    assert_eq!(a, again);
    assert_ne!(
        build_address("app", "alice", CredentialType::Password),
        build_address("app", "bob", CredentialType::Password)
    );
}

#[test]
fn canonical_names() {
    assert_eq!(CredentialType::Password.canonical_name(), "password");
    assert_eq!(CredentialType::Secret.canonical_name(), "secret");
}

#[test]
fn password_round_trip_exact() {
    let keyring = setup_with_unique_service();
    keyring
        .set_password("testuser", "p@ss!123".to_string())
        .unwrap();
    assert_eq!(keyring.get_password("testuser").unwrap(), "p@ss!123");
}

#[test]
fn secret_round_trip_sample_bytes() {
    let keyring = setup_with_unique_service();
    let data = vec![0x00, 0xFF, 0x80, 0x7F];
    keyring.set_secret("testuser", data.clone()).unwrap();
    assert_eq!(keyring.get_secret("testuser").unwrap(), data);
}

#[test]
fn secret_round_trip_empty() {
    let keyring = setup_with_unique_service();
    keyring.set_secret("testuser", Vec::new()).unwrap();
    assert_eq!(keyring.get_secret("testuser").unwrap(), Vec::<u8>::new());
}

#[test]
fn secret_round_trip_every_byte_value() {
    let keyring = setup_with_unique_service();
    let mut data = Vec::new();
    let mut b: u8 = 0;
    loop {
        data.push(b);
        if b == 255 {
            break;
        }
        b += 1;
    }
    keyring.set_secret("testuser", data.clone()).unwrap();
    assert_eq!(keyring.get_secret("testuser").unwrap(), data);
}

#[test]
fn type_isolation_between_password_and_secret() {
    let keyring = setup_with_unique_service();
    keyring
        .set_password("testuser", "password123".to_string())
        .unwrap();
    assert!(keyring.has_password("testuser").unwrap());
    assert!(!keyring.has_secret("testuser").unwrap());

    let other = setup_with_unique_service();
    other.set_secret("testuser", vec![1, 2, 3]).unwrap();
    assert!(other.has_secret("testuser").unwrap());
    assert!(!other.has_password("testuser").unwrap());
}

#[test]
fn delete_is_idempotent() {
    let keyring = setup_with_unique_service();
    assert!(keyring.delete_password("testuser").is_ok());
    assert!(keyring.delete_password("testuser").is_ok());
    keyring.set_password("testuser", "test".to_string()).unwrap();
    assert!(keyring.delete_password("testuser").is_ok());
    assert!(keyring.delete_password("testuser").is_ok());
}

#[test]
fn existence_follows_set_and_delete() {
    let keyring = setup_with_unique_service();
    assert!(!keyring.has_password("testuser").unwrap());
    keyring.set_password("testuser", "test".to_string()).unwrap();
    assert!(keyring.has_password("testuser").unwrap());
    keyring.delete_password("testuser").unwrap();
    assert!(!keyring.has_password("testuser").unwrap());
}

#[test]
fn mismatch_is_invalid_input() {
    let keyring = setup_with_unique_service();
    let result = keyring.set(
        "testuser",
        CredentialType::Password,
        CredentialValue::Secret(vec![1, 2, 3]),
    );
    assert!(matches!(result, Err(Error::InvalidInput(_))));
    let result = keyring.set(
        "testuser",
        CredentialType::Secret,
        CredentialValue::Password("test".to_string()),
    );
    assert!(matches!(result, Err(Error::InvalidInput(_))));
    assert!(!keyring.has_password("testuser").unwrap());
    assert!(!keyring.has_secret("testuser").unwrap());
}

#[test]
fn empty_username_rejected_before_write() {
    let keyring = setup_with_unique_service();
    let result = keyring.set(
        "",
        CredentialType::Password,
        CredentialValue::Password("test".to_string()),
    );
    assert!(matches!(result, Err(Error::InvalidInput(_))));
    let result = keyring.set_password("", "test".to_string());
    assert!(matches!(result, Err(Error::InvalidInput(_))));
    let result = keyring.set_secret("", vec![1, 2, 3]);
    assert!(matches!(result, Err(Error::InvalidInput(_))));
    assert!(!keyring.has_password("").unwrap());
    assert!(!keyring.has_secret("").unwrap());
}

#[test]
fn probe_decision_cases() {
    let present = probe_decision(Ok(CredentialValue::Password("test".to_string())));
    assert!(matches!(present, Ok(true)));
    let absent = probe_decision(Err(Error::EntryNotFound));
    assert!(matches!(absent, Ok(false)));
    let failure = probe_decision(Err(Error::AmbiguousEntry));
    assert!(matches!(failure, Err(Error::AmbiguousEntry)));
}

#[test]
fn encode_value_uses_standard_base64() {
    let payload = encode_value(
        CredentialType::Secret,
        CredentialValue::Secret(vec![0x00, 0xFF, 0x80, 0x7F]),
    )
    .unwrap();
    assert_eq!(payload, "AP+Afw==");
    let text = encode_value(
        CredentialType::Password,
        CredentialValue::Password("p@ss!123".to_string()),
    )
    .unwrap();
    assert_eq!(text, "p@ss!123");
}

#[test]
fn decode_payload_inverts_encoding() {
    match decode_payload(CredentialType::Secret, "AP+Afw==".to_string()) {
        Ok(CredentialValue::Secret(bytes)) => assert_eq!(bytes, vec![0x00, 0xFF, 0x80, 0x7F]),
        _ => panic!("Expected secret"),
    }
    match decode_payload(CredentialType::Password, "p@ss!123".to_string()) {
        Ok(CredentialValue::Password(text)) => assert_eq!(text, "p@ss!123"),
        _ => panic!("Expected password"),
    }
    let malformed = decode_payload(CredentialType::Secret, "not base64!".to_string());
    assert!(matches!(malformed, Err(Error::InvalidInput(_))));
}

#[test]
fn malformed_secret_payload_is_rejected() {
    let (service, keyring) = setup_named_unique_service();
    let account = format!("{}/testuser/secret", service);
    keyring_core::Entry::new(&service, &account)
        .unwrap()
        .set_password("supersecret123")
        .unwrap();
    let result = keyring.get("testuser", CredentialType::Secret);
    assert!(matches!(result, Err(Error::InvalidInput(_))));
}

#[test]
fn backend_errors_translate_one_to_one() {
    assert!(matches!(
        Error::from_backend(BackendError::NoDefaultStore),
        Error::NoDefaultStore
    ));
    assert!(matches!(
        Error::from_backend(BackendError::NotFound),
        Error::EntryNotFound
    ));
    assert!(matches!(
        Error::from_backend(BackendError::Ambiguous),
        Error::AmbiguousEntry
    ));
    match Error::from_backend(BackendError::Invalid(
        "username".to_string(),
        "empty".to_string(),
    )) {
        Error::InvalidInput(message) => assert_eq!(message, "username"),
        _ => panic!("Expected InvalidInput"),
    }
    assert!(matches!(
        Error::from_backend(BackendError::BadEncoding),
        Error::InvalidUtf8
    ));
    match Error::from_backend(BackendError::Platform("store offline".to_string())) {
        Error::PlatformError(message) => assert_eq!(message, "store offline"),
        _ => panic!("Expected PlatformError"),
    }
}
