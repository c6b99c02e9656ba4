//! The protected-mutation keyword: the secret a user types to confirm risky
//! changes. It lives in the system keychain, or in memory when the keychain
//! is switched off, and an environment variable can override it.
//!
//! The decisions are made here; reading the environment, locking the shared
//! state and talking to the keychain are left to the caller, which hands in
//! what it read and performs the action it is given back.

use vstd::prelude::*;
use crate::text::{ascii_lowercase_spec, lemma_trim_idempotent, to_ascii_lowercase, trim, trim_spec};

verus! {

/// Why the protected keyword could not be read or written.
#[derive(Clone, Debug, PartialEq, Eq)]
pub enum KeywordError {
    /// The keyword to store is blank.
    Empty,
    /// No keyword is configured in memory.
    NotConfigured,
    /// The keychain holds a blank keyword.
    StoredEmpty,
    /// The credential store failed with this message.
    Store(String),
}

/// The message of a keyword error.
pub open spec fn keyword_error_message(e: KeywordError) -> Seq<char> {
    match e {
        KeywordError::Empty => "protected keyword cannot be empty"@,
        KeywordError::NotConfigured => "protected keyword not configured"@,
        KeywordError::StoredEmpty => "stored protected keyword is empty"@,
        KeywordError::Store(m) => m@,
    }
}

impl KeywordError {
    /// The error's message, as the tool prints it.
    pub fn message(&self) -> (r: String)
        ensures
            r@ == keyword_error_message(*self),
    {
        match self {
            KeywordError::Empty => String::from_str("protected keyword cannot be empty"),
            KeywordError::NotConfigured => String::from_str("protected keyword not configured"),
            KeywordError::StoredEmpty => String::from_str("stored protected keyword is empty"),
            KeywordError::Store(m) => m.clone(),
        }
    }
}

/// What the keychain setting means when it is absent or unrecognised.
#[derive(Clone, Copy, Debug, PartialEq, Eq, Structural)]
pub enum KeychainDefault {
    /// The keychain is used unless the setting says `1`, `true`, `yes` or `on`.
    Enabled,
    /// The keychain is off unless the setting says `0`, `false`, `no` or `off`.
    Disabled,
}

/// Whether a setting turns a switch on.
pub open spec fn is_on_word(v: Seq<char>) -> bool {
    v == "1"@ || v == "true"@ || v == "yes"@ || v == "on"@
}

/// Whether a setting turns a switch off.
pub open spec fn is_off_word(v: Seq<char>) -> bool {
    v == "0"@ || v == "false"@ || v == "no"@ || v == "off"@
}

/// The setting trimmed and lower-cased.
pub open spec fn normalized_setting(v: Seq<char>) -> Seq<char> {
    ascii_lowercase_spec(trim_spec(v))
}

/// Whether the keychain is off, given the keychain-disable setting (if any).
pub open spec fn keychain_disabled_spec(setting: Option<Seq<char>>, default: KeychainDefault) -> bool {
    match default {
        KeychainDefault::Enabled => match setting {
            Some(v) => is_on_word(normalized_setting(v)),
            None => false,
        },
        KeychainDefault::Disabled => match setting {
            Some(v) => !is_off_word(normalized_setting(v)),
            None => true,
        },
    }
}

/// Whether the keychain is switched off by the setting `setting`.
pub fn keychain_disabled(setting: Option<&str>, default: KeychainDefault) -> (r: bool)
    ensures
        r == keychain_disabled_spec(
            match setting {
                Some(v) => Some(v@),
                None => None,
            },
            default,
        ),
{
    match setting {
        None => match default {
            KeychainDefault::Enabled => false,
            KeychainDefault::Disabled => true,
        },
        Some(v) => {
            let t = trim(v);
            let n = to_ascii_lowercase(t.as_str());
            match default {
                KeychainDefault::Enabled => {
                    n == String::from_str("1") || n == String::from_str("true") || n == String::from_str("yes")
                        || n == String::from_str("on")
                },
                KeychainDefault::Disabled => {
                    !(n == String::from_str("0") || n == String::from_str("false") || n
                        == String::from_str("no") || n == String::from_str("off"))
                },
            }
        },
    }
}

/// The keyword held in memory while the keychain is off.
pub struct KeywordMemory {
    pub value: Option<String>,
}

/// The view of the memory: the held keyword's characters.
pub open spec fn memory_view(m: &KeywordMemory) -> Option<Seq<char>> {
    match m.value {
        Some(v) => Some(v@),
        None => None,
    }
}

/// What reading the expected keyword gives, given the override and memory.
#[derive(Debug)]
pub enum ReadStep {
    /// The read is decided.
    Done(Result<String, KeywordError>),
    /// The keychain must be asked; `finish_read` decides with its answer.
    AskCredentialStore,
}

/// Whether `v` has something besides white space.
pub open spec fn is_present(v: Seq<char>) -> bool {
    trim_spec(v).len() > 0
}

/// The decision of `read_expected`: a non-blank override wins; with the
/// keychain off, the non-blank keyword in memory; else the keychain.
pub open spec fn read_step_spec(env_override: Option<Seq<char>>, keychain_disabled: bool, memory: Option<Seq<char>>) -> Option<Result<Seq<char>, KeywordError>> {
    if env_override is Some && is_present(env_override->0) {
        Some(Ok(trim_spec(env_override->0)))
    } else if keychain_disabled {
        if memory is Some && is_present(memory->0) {
            Some(Ok(trim_spec(memory->0)))
        } else {
            Some(Err(KeywordError::NotConfigured))
        }
    } else {
        None
    }
}

/// The view of a read step: `None` when the keychain must be asked.
pub open spec fn read_step_view(r: ReadStep) -> Option<Result<Seq<char>, KeywordError>> {
    match r {
        ReadStep::Done(Ok(s)) => Some(Ok(s@)),
        ReadStep::Done(Err(e)) => Some(Err(e)),
        ReadStep::AskCredentialStore => None,
    }
}

/// The first step of reading the expected keyword.
pub fn read_expected(env_override: Option<&str>, keychain_disabled: bool, memory: &KeywordMemory) -> (r: ReadStep)
    ensures
        read_step_view(r) == read_step_spec(
            match env_override {
                Some(v) => Some(v@),
                None => None,
            },
            keychain_disabled,
            memory_view(memory),
        ),
{
    if let Some(v) = env_override {
        let t = trim(v);
        if t.as_str().unicode_len() > 0 {
            return ReadStep::Done(Ok(t));
        }
    }
    if keychain_disabled {
        match &memory.value {
            Some(v) => {
                let t = trim(v.as_str());
                if t.as_str().unicode_len() > 0 {
                    ReadStep::Done(Ok(t))
                } else {
                    ReadStep::Done(Err(KeywordError::NotConfigured))
                }
            },
            None => ReadStep::Done(Err(KeywordError::NotConfigured)),
        }
    } else {
        ReadStep::AskCredentialStore
    }
}

/// The decision once the keychain answered `stored`: its error is passed
/// on; a blank keyword is refused; otherwise the keyword, trimmed.
pub fn finish_read(stored: Result<String, String>) -> (r: Result<String, KeywordError>)
    ensures
        match stored {
            Err(m) => r == Err::<String, KeywordError>(KeywordError::Store(m)),
            Ok(p) => if is_present(p@) {
                r is Ok && r->Ok_0@ == trim_spec(p@)
            } else {
                r == Err::<String, KeywordError>(KeywordError::StoredEmpty)
            },
        },
{
    match stored {
        Err(m) => Err(KeywordError::Store(m)),
        Ok(p) => {
            let t = trim(p.as_str());
            if t.as_str().unicode_len() > 0 {
                Ok(t)
            } else {
                Err(KeywordError::StoredEmpty)
            }
        },
    }
}

/// What storing a keyword asks of the caller.
#[derive(Debug)]
pub enum StoreAction {
    /// The keyword was kept in memory; nothing more to do.
    KeptInMemory,
    /// Write this (trimmed) keyword to the keychain.
    WriteCredentialStore(String),
}

/// Stores the protected keyword: blank keywords are refused; the trimmed
/// keyword goes to memory when the keychain is off, else to the keychain.
pub fn store(value: &str, keychain_disabled: bool, memory: &mut KeywordMemory) -> (r: Result<StoreAction, KeywordError>)
    ensures
        !is_present(value@) ==> r == Err::<StoreAction, KeywordError>(KeywordError::Empty) && memory_view(final(memory)) == memory_view(old(memory)),
        is_present(value@) && keychain_disabled ==> (r matches Ok(StoreAction::KeptInMemory)) && memory_view(final(memory)) == Some(trim_spec(value@)),
        is_present(value@) && !keychain_disabled ==> (r matches Ok(StoreAction::WriteCredentialStore(w)) && w@ == trim_spec(value@)) && memory_view(final(memory)) == memory_view(old(memory)),
{
    let t = trim(value);
    if t.as_str().unicode_len() == 0 {
        return Err(KeywordError::Empty);
    }
    if keychain_disabled {
        memory.value = Some(t);
        Ok(StoreAction::KeptInMemory)
    } else {
        Ok(StoreAction::WriteCredentialStore(t))
    }
}

/// What deleting the keyword asks of the caller.
#[derive(Clone, Copy, Debug, PartialEq, Eq, Structural)]
pub enum DeleteAction {
    /// The keyword in memory was cleared; nothing more to do.
    ClearedMemory,
    /// Delete the keyword from the keychain.
    DeleteCredentialStore,
}

/// Deletes the protected keyword: from memory when the keychain is off,
/// else from the keychain.
pub fn delete(keychain_disabled: bool, memory: &mut KeywordMemory) -> (r: DeleteAction)
    ensures
        keychain_disabled ==> r == DeleteAction::ClearedMemory && memory_view(final(memory)) == None::<Seq<char>>,
        !keychain_disabled ==> r == DeleteAction::DeleteCredentialStore && memory_view(final(memory)) == memory_view(old(memory)),
{
    if keychain_disabled {
        memory.value = None;
        DeleteAction::ClearedMemory
    } else {
        DeleteAction::DeleteCredentialStore
    }
}

/// With the keychain off and no override, a stored keyword is read back
/// trimmed.
pub proof fn lemma_store_then_read(value: Seq<char>, env_override: Option<Seq<char>>)
    requires
        is_present(value),
        env_override is None || !is_present(env_override->0),
    ensures
        read_step_spec(env_override, true, Some(trim_spec(value))) == Some(Ok::<Seq<char>, KeywordError>(trim_spec(value))),
{
    lemma_trim_idempotent(value);
}

/// With the keychain off and no override, nothing can be read after a delete.
pub proof fn lemma_delete_then_read(env_override: Option<Seq<char>>)
    requires
        env_override is None || !is_present(env_override->0),
    ensures
        read_step_spec(env_override, true, None) == Some(Err::<Seq<char>, KeywordError>(KeywordError::NotConfigured)),
{
}

/// A non-blank override is what is read, whatever memory or keychain hold.
pub proof fn lemma_override_wins(env_override: Seq<char>, keychain_disabled: bool, memory: Option<Seq<char>>)
    requires
        is_present(env_override),
    ensures
        read_step_spec(Some(env_override), keychain_disabled, memory) == Some(Ok::<Seq<char>, KeywordError>(trim_spec(env_override))),
{
}

/// A keyword written to the keychain and read back from it is the trimmed
/// keyword that was stored.
pub proof fn lemma_keychain_round_trip(value: Seq<char>)
    requires
        is_present(value),
    ensures
        is_present(trim_spec(value)),
        trim_spec(trim_spec(value)) == trim_spec(value),
{
    lemma_trim_idempotent(value);
}

} // verus!
