//! Where the client keeps its access token: the system keychain, or, when
//! that cannot be used and a passphrase is set, an encrypted file.
use vstd::prelude::*;
use crate::backend::opt_view;
use crate::secret_crypto::{decrypt_map, encrypt_map, open_spec, passphrase_missing, aes_gcm_max_plaintext, json_size_bound, BlobView, EncryptedBlob};
use crate::secret_map::{
    entries_view, insert_entry, insert_spec, keys_distinct, law_lookup_after_insert, law_lookup_after_remove,
    lookup, lookup_entry, remove_entry, remove_spec, same_entries,
};
use crate::keychain::{
    delete_keychain_entry, keychain_get_spec, keychain_read_result, keyring_entry, keyring_get_password,
    keyring_set_password, probe_answers, KeychainCall, KeychainEntry, KeyringFailure,
};
use crate::text::{chars_of, ends_with, is_blank, push_all, starts_with, string_of};

verus! {

/// The store in use.
#[derive(Clone, Copy, PartialEq, Eq, Structural, Debug)]
pub enum SecretBackend {
    Keyring,
    EncryptedFile,
    Unavailable,
}


/// `dirs::config_dir()`, as a UTF-8 string (`None` for a path that is not
/// one). It reads the environment, so nothing is claimed of it.
#[verifier::external_body]
fn config_dir() -> Option<String> {
    dirs::config_dir().and_then(|p| p.into_os_string().into_string().ok())
}

/// What `str::to_lowercase` gives for `s` (full Unicode lower-casing).
pub uninterp spec fn lowercase(s: Seq<char>) -> Seq<char>;

/// `str::to_lowercase`. The result is only named.
#[verifier::external_body]
fn to_lowercase(s: &str) -> (r: String)
    ensures
        r@ == lowercase(s@),
{
    s.to_lowercase()
}

/// `a` joined with the relative path `b` by `/`, as `Path::join` does on
/// Unix: `b` alone when it is absolute or `a` is empty, no second `/` when
/// `a` ends with one.
pub open spec fn path_join(a: Seq<char>, b: Seq<char>) -> Seq<char> {
    if starts_with(b, "/"@) || a.len() == 0 {
        b
    } else if ends_with(a, "/"@) {
        a + b
    } else {
        a + "/"@ + b
    }
}

/// `Path::join` on Unix paths held as strings.
pub fn join_path(a: &str, b: &str) -> (r: String)
    ensures
        r@ == path_join(a@, b@),
{
    let ac = chars_of(a);
    let bc = chars_of(b);
    proof {
        reveal_strlit("/");
    }
    let slash: Vec<char> = vec!['/'];
    assert(slash@ =~= "/"@);
    if crate::text::starts_with_chars(bc.as_slice(), slash.as_slice()) || ac.len() == 0 {
        return b.to_owned();
    }
    let mut out = ac;
    if !crate::text::ends_with_chars(out.as_slice(), slash.as_slice()) {
        out.push('/');
    }
    push_all(&mut out, bc.as_slice());
    string_of(out.as_slice())
}

/// The error when neither store can be used.
pub open spec fn unavailable_message() -> Seq<char> {
    "No secure secret backend is available (keychain failed and AUVRO_FALLBACK_PASSPHRASE is not set)."@
}

/// The store chosen: the keychain if it answers, else the file if a
/// passphrase is set.
pub open spec fn backend_spec(keyring_usable: bool, passphrase_set: bool) -> SecretBackend {
    if keyring_usable {
        SecretBackend::Keyring
    } else if passphrase_set {
        SecretBackend::EncryptedFile
    } else {
        SecretBackend::Unavailable
    }
}

/// The secrets file: `secure-secrets.json` in the lower-cased service
/// directory under the configuration directory, or under `.`.
pub open spec fn fallback_path_spec(service: Seq<char>, config_dir: Option<Seq<char>>) -> Seq<char> {
    path_join(
        path_join(
            match config_dir {
                Some(d) => d,
                None => "."@,
            },
            lowercase(service),
        ),
        "secure-secrets.json"@,
    )
}

/// The path of the secrets file, for a given configuration directory.
pub fn fallback_path_in(service: &str, config_dir: Option<String>) -> (r: String)
    ensures
        r@ == fallback_path_spec(service@, opt_view(config_dir)),
{
    let base = match config_dir {
        Some(d) => d,
        None => ".".to_owned(),
    };
    let dir = join_path(base.as_str(), to_lowercase(service).as_str());
    join_path(dir.as_str(), "secure-secrets.json")
}

/// What the secrets file held when it was looked for.
pub enum FallbackFile {
    /// There is no file.
    Missing,
    /// It could not be read or was not a secrets file; the error's text.
    Unreadable(String),
    /// Its contents.
    Blob(EncryptedBlob),
}

/// The entries of the file: none without one.
pub open spec fn file_entries(f: FallbackFile, passphrase: Option<Seq<char>>) -> Result<Seq<(Seq<char>, Seq<char>)>, Seq<char>> {
    match f {
        FallbackFile::Missing => Ok(Seq::empty()),
        FallbackFile::Unreadable(e) => Err(e@),
        FallbackFile::Blob(b) => open_spec(b@, passphrase),
    }
}

/// `get_from_fallback`: the value stored under `key` in the file.
pub open spec fn fallback_get_spec(f: FallbackFile, key: Seq<char>, passphrase: Option<Seq<char>>) -> Result<Seq<char>, Seq<char>> {
    match file_entries(f, passphrase) {
        Err(e) => Err(e),
        Ok(es) => match lookup(es, key) {
            Some(v) => Ok(v),
            None => Err("Secret not found for key: "@ + key),
        },
    }
}

/// What a successful `set` or `delete` leaves: nothing more to do, a new
/// secrets file for the caller to write, or the keychain call that was made.
pub enum SecretWrite {
    Done,
    File(EncryptedBlob),
    Keychain(KeychainCall),
}

/// The file-store view of a `set` or `delete` result: the new file, if any.
pub open spec fn file_result(r: Result<SecretWrite, String>) -> Result<Option<EncryptedBlob>, String> {
    match r {
        Ok(SecretWrite::File(b)) => Ok(Some(b)),
        Ok(_) => Ok(None),
        Err(e) => Err(e),
    }
}

/// The token store (`SecretStore`).
pub struct SecretStore {
    service_name: String,
    fallback_path: String,
    backend: SecretBackend,
}

impl SecretStore {
    pub closed spec fn service(&self) -> Seq<char> {
        self.service_name@
    }

    pub closed spec fn path(&self) -> Seq<char> {
        self.fallback_path@
    }

    pub closed spec fn store(&self) -> SecretBackend {
        self.backend
    }

    /// A store for `service_name` with the given backend and file.
    pub fn with_backend(service_name: &str, backend: SecretBackend, fallback_path: String) -> (r: Self)
        ensures
            r.service() == service_name@,
            r.store() == backend,
            r.path() == fallback_path@,
    {
        SecretStore { service_name: service_name.to_owned(), fallback_path, backend }
    }

    /// `keyring_usable`: on Linux the keychain needs a session bus; then a
    /// probe entry is read, and [`probe_answers`] judges the read. The
    /// keychain decides the read, so the result is not stated beyond the need
    /// for a bus.
    pub fn keyring_usable(service_name: &str, has_session_bus: bool) -> (r: bool)
        ensures
            r ==> has_session_bus,
    {
        if !has_session_bus {
            return false;
        }
        let entry = match keyring_entry(service_name, "__keyring_probe__") {
            Ok(e) => e,
            Err(_) => {
                return false;
            },
        };
        let read = keyring_get_password(&entry);
        probe_answers(&read)
    }

    /// `new`: the keychain when it answers, else the encrypted file when a
    /// passphrase is set, else nothing. `has_session_bus` and
    /// `passphrase_set` are read from the environment by the caller.
    pub fn new(service_name: &str, has_session_bus: bool, passphrase_set: bool) -> (r: Self)
        ensures
            r.service() == service_name@,
            exists|usable: bool, dir: Option<Seq<char>>|
                (usable ==> has_session_bus) && r.store() == #[trigger] backend_spec(usable, passphrase_set) && r.path()
                    == #[trigger] fallback_path_spec(service_name@, dir),
    {
        let usable = Self::keyring_usable(service_name, has_session_bus);
        let dir = config_dir();
        let ghost dv = opt_view(dir);
        let path = fallback_path_in(service_name, dir);
        let backend = if usable {
            SecretBackend::Keyring
        } else if passphrase_set {
            SecretBackend::EncryptedFile
        } else {
            SecretBackend::Unavailable
        };
        let r = Self::with_backend(service_name, backend, path);
        assert(r.path() == fallback_path_spec(service_name@, dv));
        assert(r.store() == backend_spec(usable, passphrase_set));
        r
    }

    /// The store in use.
    pub fn backend(&self) -> (r: SecretBackend)
        ensures
            r == self.store(),
    {
        self.backend
    }

    /// The secrets file.
    pub fn fallback_path(&self) -> (r: &str)
        ensures
            r@ == self.path(),
    {
        self.fallback_path.as_str()
    }

    /// The keychain entry that holds the secret `key` of this store's
    /// service.
    pub fn keychain_entry(&self, key: &str) -> (r: Result<KeychainEntry, String>)
        ensures
            r matches Ok(e) ==> e.service() == self.service() && e.user() == key@,
    {
        keyring_entry(self.service_name.as_str(), key)
    }

    /// Reading the secret `key` from the keychain: the entry's error, else
    /// what the read of that entry reports ([`keychain_read_result`]).
    fn get_from_keyring(&self, key: &str) -> (r: Result<String, String>)
        ensures
            exists|made: Result<(), Seq<char>>, read: Result<String, KeyringFailure>| match r {
                Ok(p) => #[trigger] keychain_get_spec(made, read) == Ok::<Seq<char>, Seq<char>>(p@),
                Err(e) => keychain_get_spec(made, read) == Err::<Seq<char>, Seq<char>>(e@),
            },
    {
        match self.keychain_entry(key) {
            Err(e) => {
                let ghost read: Result<String, KeyringFailure> = vstd::pervasive::arbitrary();
                let ghost made: Result<(), Seq<char>> = Err(e@);
                let r = Err(e);
                assert(keychain_get_spec(made, read) == Err::<Seq<char>, Seq<char>>(e@));
                r
            },
            Ok(entry) => {
                let read = keyring_get_password(&entry);
                let ghost made: Result<(), Seq<char>> = Ok(());
                let r = keychain_read_result(read);
                assert(match r {
                    Ok(p) => keychain_get_spec(made, read) == Ok::<Seq<char>, Seq<char>>(p@),
                    Err(e) => keychain_get_spec(made, read) == Err::<Seq<char>, Seq<char>>(e@),
                });
                r
            },
        }
    }

    /// Storing `value` as the secret `key` in the keychain: the entry's
    /// error, else what the write reports.
    fn set_in_keyring(&self, key: &str, value: &str) -> (r: Result<KeychainCall, String>)
        ensures
            r matches Ok(c) ==> c.service() == self.service() && c.user() == key@ && c.value() == Some(value@),
    {
        let entry = self.keychain_entry(key)?;
        keyring_set_password(&entry, value)
    }

    /// Removing a keychain entry never fails once the entry is made: an
    /// error of the deletion itself is ignored ([`delete_keychain_entry`]).
    fn delete_from_keyring(&self, key: &str) -> (r: Result<KeychainCall, String>)
        ensures
            r matches Ok(c) ==> c.service() == self.service() && c.user() == key@ && c.value() is None,
    {
        delete_keychain_entry(self.keychain_entry(key))
    }

    /// `get`. For the file store, `file` is what the secrets file held and
    /// `passphrase` the passphrase set, both read by the caller; the
    /// keychain store ignores them.
    pub fn get(&self, key: &str, file: &FallbackFile, passphrase: &Option<String>) -> (r: Result<String, String>)
        ensures
            self.store() == SecretBackend::EncryptedFile ==> match r {
                Ok(v) => fallback_get_spec(*file, key@, opt_view(*passphrase)) == Ok::<Seq<char>, Seq<char>>(v@),
                Err(e) => fallback_get_spec(*file, key@, opt_view(*passphrase)) == Err::<Seq<char>, Seq<char>>(e@),
            },
            self.store() == SecretBackend::Keyring ==> exists|
                made: Result<(), Seq<char>>,
                read: Result<String, KeyringFailure>,
            |
                match r {
                    Ok(p) => #[trigger] keychain_get_spec(made, read) == Ok::<Seq<char>, Seq<char>>(p@),
                    Err(e) => keychain_get_spec(made, read) == Err::<Seq<char>, Seq<char>>(e@),
                },
            self.store() == SecretBackend::Unavailable ==> (r matches Err(e) && e@ == unavailable_message()),
    {
        match self.backend {
            SecretBackend::Keyring => self.get_from_keyring(key),
            SecretBackend::EncryptedFile => get_from_fallback(file, key, passphrase),
            SecretBackend::Unavailable => Err(
                "No secure secret backend is available (keychain failed and AUVRO_FALLBACK_PASSPHRASE is not set).".to_owned(),
            ),
        }
    }

    /// `set`. For the file store the new file is returned, for the caller to
    /// write; the keychain store writes `value` to the entry of this store's
    /// service and `key` and returns the call it made. Whether the keychain
    /// accepts the write is the keychain's to decide.
    pub fn set(&self, key: &str, value: &str, file: &FallbackFile, passphrase: &Option<String>) -> (r: Result<SecretWrite, String>)
        ensures
            self.store() == SecretBackend::EncryptedFile ==> (match file_result(r) {
                Ok(Some(b)) => fallback_get_spec(FallbackFile::Blob(b), key@, opt_view(*passphrase)) == Ok::<
                    Seq<char>,
                    Seq<char>,
                >(value@),
                Ok(None) => false,
                Err(e) => true,
            }),
            self.store() == SecretBackend::EncryptedFile ==> (file_entries(*file, opt_view(*passphrase)) matches Err(e)
                ==> (r matches Err(x) && x@ == e)),
            self.store() == SecretBackend::EncryptedFile ==> kept_by(*file, file_result(r), key@, opt_view(*passphrase)),
            (self.store() == SecretBackend::EncryptedFile && set_owed(*file, key@, value@, opt_view(*passphrase)))
                ==> r is Ok,
            (self.store() == SecretBackend::EncryptedFile && passphrase is None) ==> (r matches Err(e) && (file_entries(
                *file,
                None,
            ) is Ok ==> e@ == passphrase_missing())),
            self.store() == SecretBackend::EncryptedFile ==> !(r matches Ok(SecretWrite::Keychain(_))),
            self.store() == SecretBackend::Keyring ==> (r matches Ok(w) ==> (w matches SecretWrite::Keychain(c)
                && c.service() == self.service() && c.user() == key@ && c.value() == Some(value@))),
            self.store() == SecretBackend::Unavailable ==> (r matches Err(e) && e@ == unavailable_message()),
    {
        match self.backend {
            SecretBackend::Keyring => match self.set_in_keyring(key, value) {
                Ok(c) => Ok(SecretWrite::Keychain(c)),
                Err(e) => Err(e),
            },
            SecretBackend::EncryptedFile => match set_in_fallback(file, key, value, passphrase) {
                Ok(b) => Ok(SecretWrite::File(b)),
                Err(e) => Err(e),
            },
            SecretBackend::Unavailable => Err(
                "No secure secret backend is available (keychain failed and AUVRO_FALLBACK_PASSPHRASE is not set).".to_owned(),
            ),
        }
    }

    /// `delete`. For the file store the new file, if any, is returned for
    /// the caller to write; without a file there is nothing to do. The
    /// keychain store deletes the entry of this store's service and `key`
    /// and returns that call; its only error is that of making the entry
    /// ([`delete_keychain_entry`]), which the keychain decides.
    pub fn delete(&self, key: &str, file: &FallbackFile, passphrase: &Option<String>) -> (r: Result<SecretWrite, String>)
        ensures
            self.store() == SecretBackend::EncryptedFile ==> (match *file {
                FallbackFile::Missing => r matches Ok(SecretWrite::Done),
                _ => match file_result(r) {
                    Ok(Some(b)) => fallback_get_spec(FallbackFile::Blob(b), key@, opt_view(*passphrase)) matches Err(
                        _,
                    ),
                    Ok(None) => false,
                    Err(_) => true,
                },
            }),
            self.store() == SecretBackend::EncryptedFile ==> kept_by(*file, file_result(r), key@, opt_view(*passphrase)),
            (self.store() == SecretBackend::EncryptedFile && !(*file is Missing) && delete_owed(
                *file,
                key@,
                opt_view(*passphrase),
            )) ==> r is Ok,
            (self.store() == SecretBackend::EncryptedFile && !(*file is Missing) && passphrase is None) ==> r is Err,
            self.store() == SecretBackend::EncryptedFile ==> !(r matches Ok(SecretWrite::Keychain(_))),
            self.store() == SecretBackend::Keyring ==> (r matches Ok(w) ==> (w matches SecretWrite::Keychain(c)
                && c.service() == self.service() && c.user() == key@ && c.value() is None)),
            self.store() == SecretBackend::Unavailable ==> (r matches Err(e) && e@ == unavailable_message()),
    {
        match self.backend {
            SecretBackend::Keyring => match self.delete_from_keyring(key) {
                Ok(c) => Ok(SecretWrite::Keychain(c)),
                Err(e) => Err(e),
            },
            SecretBackend::EncryptedFile => match delete_from_fallback(file, key, passphrase) {
                Ok(Some(b)) => Ok(SecretWrite::File(b)),
                Ok(None) => Ok(SecretWrite::Done),
                Err(e) => Err(e),
            },
            SecretBackend::Unavailable => Err(
                "No secure secret backend is available (keychain failed and AUVRO_FALLBACK_PASSPHRASE is not set).".to_owned(),
            ),
        }
    }
}

/// The entries of the secrets file (`decrypt_map` of what it holds; none
/// without a file).
pub fn read_file_entries(file: &FallbackFile, passphrase: &Option<String>) -> (r: Result<Vec<(String, String)>, String>)
    ensures
        match r {
            Ok(es) => file_entries(*file, opt_view(*passphrase)) == Ok::<Seq<(Seq<char>, Seq<char>)>, Seq<char>>(
                entries_view(es@),
            ) && keys_distinct(entries_view(es@)),
            Err(e) => file_entries(*file, opt_view(*passphrase)) == Err::<Seq<(Seq<char>, Seq<char>)>, Seq<char>>(e@),
        },
{
    match file {
        FallbackFile::Missing => {
            let es: Vec<(String, String)> = Vec::new();
            assert(entries_view(es@) =~= Seq::<(Seq<char>, Seq<char>)>::empty());
            Ok(es)
        },
        FallbackFile::Unreadable(e) => Err(e.clone()),
        FallbackFile::Blob(b) => decrypt_map(b, passphrase),
    }
}

/// `get_from_fallback`.
pub fn get_from_fallback(file: &FallbackFile, key: &str, passphrase: &Option<String>) -> (r: Result<String, String>)
    ensures
        match r {
            Ok(v) => fallback_get_spec(*file, key@, opt_view(*passphrase)) == Ok::<Seq<char>, Seq<char>>(v@),
            Err(e) => fallback_get_spec(*file, key@, opt_view(*passphrase)) == Err::<Seq<char>, Seq<char>>(e@),
        },
{
    let es = read_file_entries(file, passphrase)?;
    match lookup_entry(&es, key) {
        Some(v) => Ok(v),
        None => {
            let mut m = String::new();
            m.push_str("Secret not found for key: ");
            m.push_str(key);
            Err(m)
        },
    }
}

/// Every key but `key` has the same value in `b` as in `a`.
pub open spec fn keeps_others(a: Seq<(Seq<char>, Seq<char>)>, b: Seq<(Seq<char>, Seq<char>)>, key: Seq<char>) -> bool {
    forall|k: Seq<char>| k != key ==> #[trigger] lookup(b, k) == lookup(a, k)
}

/// When a new file comes out of a change of `key`, and the old file could
/// be read, every other key has the same value in both.
pub open spec fn kept_by(
    file: FallbackFile,
    r: Result<Option<EncryptedBlob>, String>,
    key: Seq<char>,
    passphrase: Option<Seq<char>>,
) -> bool {
    r matches Ok(Some(b)) ==> (file_entries(file, passphrase) matches Ok(old_es) ==> match file_entries(
        FallbackFile::Blob(b),
        passphrase,
    ) {
        Ok(es) => keeps_others(old_es, es, key),
        Err(_) => false,
    })
}

/// When setting `key` in the secrets file must succeed: a passphrase is set,
/// the file reads, and the new entries are within AES-GCM's plaintext limit
/// of 2^36 bytes once written as JSON (by [`json_size_bound`]).
pub open spec fn set_owed(file: FallbackFile, key: Seq<char>, value: Seq<char>, passphrase: Option<Seq<char>>) -> bool {
    &&& passphrase is Some
    &&& file_entries(file, passphrase) matches Ok(es) && json_size_bound(insert_spec(es, key, value))
        <= aes_gcm_max_plaintext()
}

/// When removing `key` from an existing secrets file must succeed: a
/// passphrase is set, the file reads, and the remaining entries are within
/// AES-GCM's plaintext limit once written as JSON.
pub open spec fn delete_owed(file: FallbackFile, key: Seq<char>, passphrase: Option<Seq<char>>) -> bool {
    &&& passphrase is Some
    &&& file_entries(file, passphrase) matches Ok(es) && json_size_bound(remove_spec(es, key))
        <= aes_gcm_max_plaintext()
}

/// `set_in_fallback`: the file's entries with `key` set to `value`,
/// encrypted again. Reading `key` from the new file gives `value`.
pub fn set_in_fallback(file: &FallbackFile, key: &str, value: &str, passphrase: &Option<String>) -> (r: Result<
    EncryptedBlob,
    String,
>)
    ensures
        r matches Ok(b) ==> fallback_get_spec(FallbackFile::Blob(b), key@, opt_view(*passphrase)) == Ok::<
            Seq<char>,
            Seq<char>,
        >(value@),
        file_entries(*file, opt_view(*passphrase)) matches Err(e) ==> (r matches Err(x) && x@ == e),
        r matches Ok(b) ==> (file_entries(*file, opt_view(*passphrase)) matches Ok(old_es) ==> match file_entries(
            FallbackFile::Blob(b),
            opt_view(*passphrase),
        ) {
            Ok(es) => keeps_others(old_es, es, key@),
            Err(_) => false,
        }),
        set_owed(*file, key@, value@, opt_view(*passphrase)) ==> r is Ok,
        passphrase is None ==> (r matches Err(e) && (file_entries(*file, None) is Ok ==> e@ == passphrase_missing())),
{
    let mut es = read_file_entries(file, passphrase)?;
    let ghost old_es = entries_view(es@);
    insert_entry(&mut es, key.to_owned(), value.to_owned());
    proof {
        law_lookup_after_insert(old_es, key@, value@);
    }
    let b = encrypt_map(&es, passphrase)?;
    proof {
        let m = open_spec(b@, opt_view(*passphrase))->Ok_0;
        assert(lookup(m, key@) == lookup(entries_view(es@), key@));
    }
    Ok(b)
}

/// `delete_from_fallback`: without a file there is nothing to do; else the
/// file's entries without `key`, encrypted again. Reading `key` from the
/// new file finds nothing, and every other key keeps its value.
pub fn delete_from_fallback(file: &FallbackFile, key: &str, passphrase: &Option<String>) -> (r: Result<
    Option<EncryptedBlob>,
    String,
>)
    ensures
        (*file is Missing) ==> r matches Ok(None),
        !(*file is Missing) ==> match r {
            Ok(Some(b)) => fallback_get_spec(FallbackFile::Blob(b), key@, opt_view(*passphrase)) matches Err(_),
            Ok(None) => false,
            Err(e) => file_entries(*file, opt_view(*passphrase)) matches Err(e0) ==> e0 == e@,
        },
        r matches Ok(Some(b)) ==> (file_entries(*file, opt_view(*passphrase)) matches Ok(old_es) ==> match file_entries(
            FallbackFile::Blob(b),
            opt_view(*passphrase),
        ) {
            Ok(es) => keeps_others(old_es, es, key@),
            Err(_) => false,
        }),
        delete_owed(*file, key@, opt_view(*passphrase)) ==> r is Ok,
        (!(*file is Missing) && passphrase is None) ==> r is Err,
{
    if let FallbackFile::Missing = file {
        return Ok(None);
    }
    let mut es = read_file_entries(file, passphrase)?;
    let ghost old_es = entries_view(es@);
    remove_entry(&mut es, key);
    proof {
        law_lookup_after_remove(old_es, key@);
    }
    let b = encrypt_map(&es, passphrase)?;
    proof {
        let m = open_spec(b@, opt_view(*passphrase))->Ok_0;
        assert(lookup(m, key@) == lookup(entries_view(es@), key@));
    }
    Ok(Some(b))
}

} // verus!
