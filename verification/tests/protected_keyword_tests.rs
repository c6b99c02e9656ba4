use trust_cli::protected_keyword::{
    delete, finish_read, keychain_disabled, read_expected, store, DeleteAction, KeychainDefault,
    KeywordError, KeywordMemory, ReadStep, StoreAction,
};

fn read_value(step: ReadStep) -> Result<String, KeywordError> {
    match step {
        ReadStep::Done(result) => result,
        ReadStep::AskCredentialStore => panic!("the keychain should not be asked"),
    }
}

#[test]
fn store_rejects_empty_values() {
    let mut memory = KeywordMemory { value: None };
    let result = store("   ", true, &mut memory);
    assert!(result.is_err());
    assert_eq!(
        result
            .expect_err("empty protected keyword should fail")
            .message(),
        "protected keyword cannot be empty"
    );
}

#[test]
fn read_expected_prefers_non_empty_env_override() {
    let memory = KeywordMemory { value: None };
    let value = read_value(read_expected(Some("  secret  "), true, &memory))
        .expect("env override should be used");
    assert_eq!(value, "secret");
}

#[test]
fn store_read_delete_round_trip_with_disabled_keychain() {
    let mut memory = KeywordMemory { value: None };
    let action = store("  abc123  ", true, &mut memory).expect("store in memory");
    assert!(matches!(action, StoreAction::KeptInMemory));
    assert_eq!(
        read_value(read_expected(None, true, &memory)).expect("read in memory"),
        "abc123"
    );
    assert_eq!(delete(true, &mut memory), DeleteAction::ClearedMemory);
    let error = read_value(read_expected(None, true, &memory)).expect_err("deleted");
    assert_eq!(error.message(), "protected keyword not configured");
}

#[test]
fn read_expected_ignores_blank_env_override_and_uses_in_memory_value() {
    let mut memory = KeywordMemory { value: None };
    store("memory-secret", true, &mut memory).expect("store in-memory value");
    let value = read_value(read_expected(Some("   "), true, &memory))
        .expect("blank override should fall back to memory");
    assert_eq!(value, "memory-secret");
}

#[test]
fn keychain_store_is_asked_when_enabled() {
    let mut memory = KeywordMemory { value: None };
    match store("  trimmed-secret  ", false, &mut memory).expect("store") {
        StoreAction::WriteCredentialStore(value) => assert_eq!(value, "trimmed-secret"),
        StoreAction::KeptInMemory => panic!("keychain should be written"),
    }
    assert!(memory.value.is_none());
    assert!(matches!(
        read_expected(None, false, &memory),
        ReadStep::AskCredentialStore
    ));
    assert_eq!(
        finish_read(Ok("trimmed-secret".to_string())).expect("read back"),
        "trimmed-secret"
    );
    assert_eq!(delete(false, &mut memory), DeleteAction::DeleteCredentialStore);
}

#[test]
fn read_expected_surfaces_credential_store_error() {
    let error = finish_read(Err("store get failed".to_string())).expect_err("error");
    assert!(error.message().contains("store get failed"));
}

#[test]
fn read_expected_rejects_blank_value_from_enabled_credential_store() {
    let error = finish_read(Ok("   ".to_string())).expect_err("blank");
    assert_eq!(error.message(), "stored protected keyword is empty");
}

#[test]
fn env_override_takes_precedence_over_enabled_credential_store_value() {
    let memory = KeywordMemory { value: None };
    let value = read_value(read_expected(Some(" override-secret "), false, &memory))
        .expect("env override should win");
    assert_eq!(value, "override-secret");
}

#[test]
fn keychain_setting_words() {
    for value in ["0", "false", "no", " OFF "] {
        assert!(!keychain_disabled(Some(value), KeychainDefault::Disabled));
        assert!(!keychain_disabled(Some(value), KeychainDefault::Enabled));
    }
    for value in ["1", "true", "Yes", "on"] {
        assert!(keychain_disabled(Some(value), KeychainDefault::Disabled));
        assert!(keychain_disabled(Some(value), KeychainDefault::Enabled));
    }
    assert!(keychain_disabled(Some("anything-else"), KeychainDefault::Disabled));
    assert!(!keychain_disabled(Some("anything-else"), KeychainDefault::Enabled));
    assert!(keychain_disabled(None, KeychainDefault::Disabled));
    assert!(!keychain_disabled(None, KeychainDefault::Enabled));
}

fn stub_get(stub: &Option<String>) -> Result<String, String> {
    stub.clone().ok_or_else(|| "missing".to_string())
}

#[test]
fn read_store_delete_use_credential_store_when_keychain_enabled() {
    let mut memory = KeywordMemory { value: None };
    let mut stub: Option<String> = None;
    match store("abc", false, &mut memory).expect("store should use credential store") {
        StoreAction::WriteCredentialStore(value) => stub = Some(value),
        StoreAction::KeptInMemory => panic!("the credential store should be written"),
    }
    assert!(matches!(
        read_expected(None, false, &memory),
        ReadStep::AskCredentialStore
    ));
    assert_eq!(
        finish_read(stub_get(&stub)).expect("read should use credential store"),
        "abc"
    );
    assert_eq!(delete(false, &mut memory), DeleteAction::DeleteCredentialStore);
    stub = None;
    assert!(finish_read(stub_get(&stub)).is_err());
}

#[test]
fn store_trims_value_before_writing_enabled_credential_store() {
    let mut memory = KeywordMemory { value: None };
    let stub = match store("  trimmed-secret  ", false, &mut memory)
        .expect("store should trim input before write")
    {
        StoreAction::WriteCredentialStore(value) => Some(value),
        StoreAction::KeptInMemory => None,
    };
    let value = finish_read(stub_get(&stub)).expect("read should return trimmed value");
    assert_eq!(value, "trimmed-secret");
}

#[test]
fn read_expected_does_not_touch_keychain_without_override_in_tests() {
    let mut memory = KeywordMemory { value: None };
    assert_eq!(delete(true, &mut memory), DeleteAction::ClearedMemory);
    let error = read_value(read_expected(None, true, &memory))
        .expect_err("a disabled keychain is never asked");
    assert_eq!(error.message(), "protected keyword not configured");
}
