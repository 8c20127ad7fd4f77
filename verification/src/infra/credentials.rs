//! The `CredentialStore` port over the operating system's credential store
//! (Windows Credential Manager, macOS Keychain, Secret Service on Linux).
//!
//! API keys are not kept in the settings table: whoever can read the
//! database would carry the key away with it. Not even a reference is
//! written there; whether a provider is registered is asked of the store.

use vstd::prelude::*;

use crate::domain::ports::CredentialStore;
use crate::text::copy_str;

verus! {

/// The service name the credentials are filed under.
pub const SERVICE: &'static str = "lineage";

/// Prefix of account names, so that other secrets cannot collide.
pub const ACCOUNT_PREFIX: &'static str = "automation/";

#[verifier::external_type_specification]
#[verifier::external_body]
pub struct ExKeyringEntry(keyring::Entry);

/// What reading a credential found.
pub enum PasswordRead {
    Found(String),
    NoEntry,
    Failed(String),
}

/// What deleting a credential did.
pub enum Deletion {
    Deleted,
    NoEntry,
    Failed(String),
}

/// `keyring::Entry::new`: a handle on the credential filed under `service`
/// and `account`, or the store's error as text. Whether it succeeds depends
/// on the machine, so nothing is stated.
#[verifier::external_body]
fn open_entry(service: &str, account: &str) -> Result<keyring::Entry, String> {
    match keyring::Entry::new(service, account) {
        Ok(entry) => Ok(entry),
        Err(error) => Err(error.to_string()),
    }
}

/// `keyring::Entry::set_password`: stores the secret, replacing any.
#[verifier::external_body]
fn store_password(entry: &keyring::Entry, secret: &str) -> Result<(), String> {
    match entry.set_password(secret) {
        Ok(()) => Ok(()),
        Err(error) => Err(error.to_string()),
    }
}

/// `keyring::Entry::get_password`, with `keyring::Error::NoEntry` told
/// apart from other failures. What is stored is not known here.
#[verifier::external_body]
fn read_password(entry: &keyring::Entry) -> PasswordRead {
    match entry.get_password() {
        Ok(secret) => PasswordRead::Found(secret),
        Err(keyring::Error::NoEntry) => PasswordRead::NoEntry,
        Err(error) => PasswordRead::Failed(error.to_string()),
    }
}

/// `keyring::Entry::delete_credential`, with `keyring::Error::NoEntry` told
/// apart from other failures.
#[verifier::external_body]
fn remove_credential(entry: &keyring::Entry) -> Deletion {
    match entry.delete_credential() {
        Ok(()) => Deletion::Deleted,
        Err(keyring::Error::NoEntry) => Deletion::NoEntry,
        Err(error) => Deletion::Failed(error.to_string()),
    }
}

/// `context: cause`, as an error with context reads.
fn with_cause(context: String, cause: &str) -> (m: String)
    ensures
        m@ == context@ + ": "@ + cause@,
{
    let mut m = context;
    m.append(": ");
    m.append(cause);
    m
}

/// The account a provider's secret is filed under.
pub fn account_for(provider: &str) -> (account: String)
    ensures
        account@ == ACCOUNT_PREFIX@ + provider@,
{
    let mut account = copy_str(ACCOUNT_PREFIX);
    account.append(provider);
    account
}

/// The error when the store cannot be opened for a provider.
pub open spec fn open_failure(provider: Seq<char>, cause: Seq<char>) -> Seq<char> {
    "資格情報ストアを開けません: "@ + ACCOUNT_PREFIX@ + provider + ": "@ + cause
}

/// The error when the secret cannot be stored.
pub open spec fn store_failure(provider: Seq<char>, cause: Seq<char>) -> Seq<char> {
    provider + " の資格情報を保存できません"@ + ": "@ + cause
}

/// The error when the secret cannot be read.
pub open spec fn read_failure(provider: Seq<char>, cause: Seq<char>) -> Seq<char> {
    provider + " の資格情報を読めません"@ + ": "@ + cause
}

/// The error when the secret cannot be removed.
pub open spec fn delete_failure(provider: Seq<char>, cause: Seq<char>) -> Seq<char> {
    provider + " の資格情報を削除できません"@ + ": "@ + cause
}

/// The operating system's credential store.
pub struct OsCredentialStore;

impl OsCredentialStore {
    fn entry(provider: &str) -> (r: Result<keyring::Entry, String>)
        ensures
            r matches Err(m) ==> exists|cause: Seq<char>| m@ == #[trigger] open_failure(provider@, cause),
    {
        let account = account_for(provider);
        match open_entry(SERVICE, account.as_str()) {
            Ok(entry) => Ok(entry),
            Err(cause) => {
                let mut context = copy_str("資格情報ストアを開けません: ");
                context.append(account.as_str());
                let m = with_cause(context, cause.as_str());
                assert(m@ == open_failure(provider@, cause@));
                Err(m)
            },
        }
    }

    /// Stores a secret, replacing any.
    pub fn set(provider: &str, secret: &str) -> (r: Result<(), String>)
        ensures
            r matches Err(m) ==> (exists|cause: Seq<char>| m@ == #[trigger] open_failure(provider@, cause)) || (
            exists|cause: Seq<char>| m@ == #[trigger] store_failure(provider@, cause)),
    {
        let entry = OsCredentialStore::entry(provider)?;
        match store_password(&entry, secret) {
            Ok(()) => Ok(()),
            Err(cause) => {
                let mut context = copy_str(provider);
                context.append(" の資格情報を保存できません");
                let m = with_cause(context, cause.as_str());
                assert(m@ == store_failure(provider@, cause@));
                Err(m)
            },
        }
    }

    /// Whether a secret is registered. The secret itself is not handed out:
    /// the settings screen only shows "registered" or not.
    pub fn has(provider: &str) -> (r: Result<bool, String>)
        ensures
            r matches Err(m) ==> (exists|cause: Seq<char>| m@ == #[trigger] open_failure(provider@, cause)) || (
            exists|cause: Seq<char>| m@ == #[trigger] read_failure(provider@, cause)),
    {
        let store = OsCredentialStore;
        let secret = store.secret(provider)?;
        Ok(secret.is_some())
    }

    /// Removes the secret. A secret that was not there is no error: the
    /// outcome is the same.
    pub fn delete(provider: &str) -> (r: Result<(), String>)
        ensures
            r matches Err(m) ==> (exists|cause: Seq<char>| m@ == #[trigger] open_failure(provider@, cause)) || (
            exists|cause: Seq<char>| m@ == #[trigger] delete_failure(provider@, cause)),
    {
        let entry = OsCredentialStore::entry(provider)?;
        match remove_credential(&entry) {
            Deletion::Deleted => Ok(()),
            Deletion::NoEntry => Ok(()),
            Deletion::Failed(cause) => {
                let mut context = copy_str(provider);
                context.append(" の資格情報を削除できません");
                let m = with_cause(context, cause.as_str());
                assert(m@ == delete_failure(provider@, cause@));
                Err(m)
            },
        }
    }
}

impl CredentialStore for OsCredentialStore {
    fn secret(&self, provider: &str) -> (r: Result<Option<String>, String>)
        ensures
            r matches Err(m) ==> (exists|cause: Seq<char>| m@ == #[trigger] open_failure(provider@, cause)) || (
            exists|cause: Seq<char>| m@ == #[trigger] read_failure(provider@, cause)),
    {
        let entry = OsCredentialStore::entry(provider)?;
        match read_password(&entry) {
            PasswordRead::Found(secret) => Ok(Some(secret)),
            PasswordRead::NoEntry => Ok(None),
            PasswordRead::Failed(cause) => {
                let mut context = copy_str(provider);
                context.append(" の資格情報を読めません");
                let m = with_cause(context, cause.as_str());
                assert(m@ == read_failure(provider@, cause@));
                Err(m)
            },
        }
    }
}

/// A store that only holds one secret in memory (for tests).
pub struct StubCredentialStore(pub Option<String>);

impl CredentialStore for StubCredentialStore {
    fn secret(&self, provider: &str) -> (r: Result<Option<String>, String>)
        ensures
            r matches Ok(v) && v == self.0,
    {
        match &self.0 {
            Some(s) => Ok(Some(s.clone())),
            None => Ok(None),
        }
    }
}

} // verus!
