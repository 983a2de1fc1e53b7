//! Behaviour when no default credential store has been configured.  This
//! lives in its own test binary so that no other test installs a store
//! first.

use keyring_plugin::CredentialType;
use keyring_plugin::CredentialValue;
use keyring_plugin::Error;
use keyring_plugin::KeyringImplementation;

#[test]
fn operations_fail_with_no_default_store() {
    let mut keyring = KeyringImplementation::new();
    keyring
        .initialize_service("com.test.nostore".to_string())
        .unwrap();

    let read = keyring.get_password("testuser");
    assert!(matches!(read, Err(Error::NoDefaultStore)));

    let write = keyring.set(
        "testuser",
        CredentialType::Password,
        CredentialValue::Password("test".to_string()),
    );
    assert!(matches!(write, Err(Error::NoDefaultStore)));
}
