//! The system keychain: its entries, the calls made on them and what the
//! store reports of their answers.
use vstd::prelude::*;

verus! {

/// `keyring::Entry`, one credential of the system keychain.
#[verifier::external_type_specification]
#[verifier::external_body]
pub struct ExKeyringEntry(keyring::Entry);

/// How a keychain read failed.
pub enum KeyringFailure {
    /// No credential is stored (`keyring::Error::NoEntry`), with the
    /// error's text.
    NoEntry(String),
    /// Any other failure, with the error's text.
    Other(String),
}

/// One credential of the system keychain, with the service and user it
/// was made for.
pub struct KeychainEntry {
    service: String,
    user: String,
    entry: keyring::Entry,
}

impl KeychainEntry {
    /// The service the credential belongs to.
    pub closed spec fn service(&self) -> Seq<char> {
        self.service@
    }

    /// The user (the secret's key) the credential is stored under.
    pub closed spec fn user(&self) -> Seq<char> {
        self.user@
    }
}

/// A keychain call that was made: the service and user of its entry, and
/// the value written, or nothing for a deletion.
pub struct KeychainCall {
    service: String,
    user: String,
    value: Option<String>,
}

impl KeychainCall {
    /// The service of the entry the call was made on.
    pub closed spec fn service(&self) -> Seq<char> {
        self.service@
    }

    /// The user of the entry the call was made on.
    pub closed spec fn user(&self) -> Seq<char> {
        self.user@
    }

    /// The value written, or `None` for a deletion.
    pub closed spec fn value(&self) -> Option<Seq<char>> {
        match self.value {
            Some(v) => Some(v@),
            None => None,
        }
    }
}

/// What a keychain read reports to the caller: the password, or the text
/// of the failure, whichever kind it is.
pub open spec fn keychain_read_spec(read: Result<String, KeyringFailure>) -> Result<Seq<char>, Seq<char>> {
    match read {
        Ok(p) => Ok(p@),
        Err(KeyringFailure::NoEntry(e)) => Err(e@),
        Err(KeyringFailure::Other(e)) => Err(e@),
    }
}

/// The answer of a keychain read, as `get` reports it.
pub fn keychain_read_result(read: Result<String, KeyringFailure>) -> (r: Result<String, String>)
    ensures
        match r {
            Ok(p) => keychain_read_spec(read) == Ok::<Seq<char>, Seq<char>>(p@),
            Err(e) => keychain_read_spec(read) == Err::<Seq<char>, Seq<char>>(e@),
        },
{
    match read {
        Ok(p) => Ok(p),
        Err(KeyringFailure::NoEntry(e)) => Err(e),
        Err(KeyringFailure::Other(e)) => Err(e),
    }
}

/// What reading a keychain entry reports, from whether the entry could be
/// made (`made`, with the error's text) and what the read gave.
pub open spec fn keychain_get_spec(made: Result<(), Seq<char>>, read: Result<String, KeyringFailure>) -> Result<
    Seq<char>,
    Seq<char>,
> {
    match made {
        Err(e) => Err(e),
        Ok(_) => keychain_read_spec(read),
    }
}

/// Whether the keychain answered a probe read: a password, or the report
/// that none is stored, means it works; any other failure means it does not.
pub fn probe_answers(read: &Result<String, KeyringFailure>) -> (r: bool)
    ensures
        r == !(*read matches Err(KeyringFailure::Other(_))),
{
    match read {
        Ok(_) => true,
        Err(KeyringFailure::NoEntry(_)) => true,
        Err(KeyringFailure::Other(_)) => false,
    }
}

/// Removing a keychain entry, given what making the entry (`made`) gave:
/// the entry's error, if any; otherwise the deletion of that entry's
/// credential, which succeeds whatever the deletion itself reported.
pub fn delete_keychain_entry(made: Result<KeychainEntry, String>) -> (r: Result<KeychainCall, String>)
    ensures
        match made {
            Ok(e) => r matches Ok(c) && c.service() == e.service() && c.user() == e.user() && c.value() is None,
            Err(e) => r matches Err(x) && x@ == e@,
        },
{
    match made {
        Err(e) => Err(e),
        Ok(entry) => {
            let (call, _ignored) = keyring_delete_credential(&entry);
            Ok(call)
        },
    }
}

/// `keyring::Entry::new(service, user)`, its error shown with `to_string`.
/// Whether the entry can be made is the keychain's to decide; an entry
/// made is the one for `service` and `user`.
#[verifier::external_body]
pub(crate) fn keyring_entry(service: &str, user: &str) -> (r: Result<KeychainEntry, String>)
    ensures
        r matches Ok(e) ==> e.service() == service@ && e.user() == user@,
{
    match keyring::Entry::new(service, user) {
        Ok(entry) => Ok(KeychainEntry { service: service.to_owned(), user: user.to_owned(), entry }),
        Err(e) => Err(e.to_string()),
    }
}

/// `keyring::Entry::get_password`, with `NoEntry` told apart. The keychain
/// decides, so nothing is claimed of the result.
#[verifier::external_body]
pub(crate) fn keyring_get_password(entry: &KeychainEntry) -> Result<String, KeyringFailure> {
    match entry.entry.get_password() {
        Ok(p) => Ok(p),
        Err(keyring::Error::NoEntry) => Err(KeyringFailure::NoEntry(keyring::Error::NoEntry.to_string())),
        Err(e) => Err(KeyringFailure::Other(e.to_string())),
    }
}

/// `keyring::Entry::set_password`, its error shown with `to_string`. The
/// keychain decides whether it succeeds; on success the call is recorded:
/// `password` written to `entry`.
#[verifier::external_body]
pub(crate) fn keyring_set_password(entry: &KeychainEntry, password: &str) -> (r: Result<KeychainCall, String>)
    ensures
        r matches Ok(c) ==> c.service() == entry.service() && c.user() == entry.user() && c.value() == Some(
            password@,
        ),
{
    match entry.entry.set_password(password) {
        Ok(()) => Ok(KeychainCall { service: entry.service.clone(), user: entry.user.clone(), value: Some(password.to_owned()) }),
        Err(e) => Err(e.to_string()),
    }
}

/// `keyring::Entry::delete_credential`, its error shown with `to_string`,
/// beside the record of the call: a deletion on `entry`. The keychain
/// decides the outcome, so nothing is claimed of it.
#[verifier::external_body]
fn keyring_delete_credential(entry: &KeychainEntry) -> (r: (KeychainCall, Result<(), String>))
    ensures
        r.0.service() == entry.service() && r.0.user() == entry.user() && r.0.value() is None,
{
    let outcome = entry.entry.delete_credential().map_err(|e| e.to_string());
    (KeychainCall { service: entry.service.clone(), user: entry.user.clone(), value: None }, outcome)
}

} // verus!
