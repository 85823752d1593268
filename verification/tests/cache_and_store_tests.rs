use auvro::response_cache::{
    get_cached_response, insert_cached_response, make_cache_key, reset_response_cache, response_cache_stats,
    ResponseCache, ResponseCacheConfig,
};
use auvro::secret_crypto::{decrypt_map, encrypt_map, encrypt_map_with, EncryptedBlob};
use auvro::keychain::{probe_answers, KeyringFailure};
use auvro::secrets::{
    delete_from_fallback, fallback_path_in, get_from_fallback, join_path, set_in_fallback, FallbackFile,
    SecretBackend, SecretStore, SecretWrite,
};

fn s(x: &str) -> String {
    x.to_owned()
}

fn file_of(w: SecretWrite) -> EncryptedBlob {
    match w {
        SecretWrite::File(b) => b,
        _ => panic!("expected a new secrets file"),
    }
}

fn config(ttl_ns: u64, max_bytes: usize) -> ResponseCacheConfig {
    ResponseCacheConfig { ttl_ns, max_bytes }
}

#[test]
fn cache_config_defaults_and_saturation() {
    let d = ResponseCacheConfig::from_settings(None, None);
    assert_eq!(d.ttl_ns, 600_000_000_000);
    assert_eq!(d.max_bytes, 50 * 1_048_576);
    let big = ResponseCacheConfig::from_settings(Some(u64::MAX), Some(usize::MAX));
    assert_eq!(big.ttl_ns, u64::MAX);
    assert_eq!(big.max_bytes, usize::MAX);
}

#[test]
fn get_after_put_returns_the_reply() {
    let mut cache = ResponseCache::new(config(1000, 1000));
    cache.put_at(s("k"), s("reply"), 10);
    assert_eq!(cache.get_at("k", 500), Some(s("reply")));
    assert_eq!(cache.stats().hits, 1);
    assert_eq!(cache.get_at("other", 500), None);
    assert_eq!(cache.stats().misses, 1);
}

#[test]
fn expired_entries_are_dropped() {
    let mut cache = ResponseCache::new(config(100, 1000));
    cache.put_at(s("k"), s("v"), 0);
    assert_eq!(cache.get_at("k", 100), Some(s("v")));
    assert_eq!(cache.get_at("k", 101), None);
    assert_eq!(cache.stats().expired, 1);
    assert_eq!(cache.len(), 0);
    assert_eq!(cache.used_bytes(), 0);
}

#[test]
fn least_recently_used_entries_are_evicted_over_budget() {
    let mut cache = ResponseCache::new(config(10_000, 10));
    cache.put_at(s("a"), s("1234"), 0);
    cache.put_at(s("b"), s("1234"), 0);
    assert_eq!(cache.used_bytes(), 10);
    assert_eq!(cache.get_at("a", 1), Some(s("1234")));
    cache.put_at(s("c"), s("1"), 2);
    assert_eq!(cache.stats().evictions, 1);
    assert_eq!(cache.get_at("b", 3), None);
    assert_eq!(cache.get_at("a", 3), Some(s("1234")));
    assert!(cache.used_bytes() <= 10);
    cache.put_at(s("huge"), s("0123456789abc"), 4);
    assert_eq!(cache.len(), 0);
    assert_eq!(cache.used_bytes(), 0);
}

#[test]
fn replacing_a_key_counts_it_once() {
    let mut cache = ResponseCache::new(config(10_000, 100));
    cache.put_at(s("k"), s("one"), 0);
    cache.put_at(s("k"), s("three"), 1);
    assert_eq!(cache.len(), 1);
    assert_eq!(cache.used_bytes(), 6);
    assert_eq!(cache.get_at("k", 2), Some(s("three")));
}

#[test]
fn shared_cache_functions() {
    let mut cache = ResponseCache::new(ResponseCacheConfig::from_settings(None, None));
    insert_cached_response(&mut cache, s("key"), s("value"));
    assert_eq!(get_cached_response(&mut cache, "key"), Some(s("value")));
    assert_eq!(response_cache_stats(&cache).hits, 1);
    reset_response_cache(&mut cache);
    assert_eq!(response_cache_stats(&cache).hits, 0);
    assert_eq!(get_cached_response(&mut cache, "key"), None);
}

#[test]
fn cache_key_is_the_blake3_hex_digest() {
    let key = make_cache_key("hello", "", "");
    assert_eq!(key, "ea8f163db38682925e4491c5e58d4bb3506ef8c14eb78a86e908c5624a67200f");
    assert_eq!(make_cache_key("he", "ll", "o"), key);
    assert_ne!(make_cache_key("a", "b", "c"), make_cache_key("a", "bc", "d"));
    assert_eq!(key.len(), 64);
}

#[test]
fn paths_join_like_unix_paths() {
    assert_eq!(join_path("/home/a/.config", "auvroai"), "/home/a/.config/auvroai");
    assert_eq!(join_path("/home/a/", "x"), "/home/a/x");
    assert_eq!(join_path("", "x"), "x");
    assert_eq!(join_path("/a", "/etc"), "/etc");
    assert_eq!(fallback_path_in("AuvroAI", Some(s("/cfg"))), "/cfg/auvroai/secure-secrets.json");
    assert_eq!(fallback_path_in("AuvroAI", None), "./auvroai/secure-secrets.json");
}

#[test]
fn encrypted_map_decrypts_back() {
    let entries = vec![(s("SUPABASE_ACCESS_TOKEN"), s("tok")), (s("other"), s("x"))];
    let pass = Some(s("correct horse"));
    let blob = encrypt_map(&entries, &pass).unwrap();
    assert_ne!(blob.ciphertext_b64, "");
    let mut back = decrypt_map(&blob, &pass).unwrap();
    back.sort();
    let mut expected = entries.clone();
    expected.sort();
    assert_eq!(back, expected);
    assert!(decrypt_map(&blob, &Some(s("wrong"))).is_err());
    assert_eq!(
        decrypt_map(&blob, &None),
        Err(s("AUVRO_FALLBACK_PASSPHRASE is required for AES fallback."))
    );
}

#[test]
fn fixed_salt_and_nonce_give_the_same_file() {
    let entries = vec![(s("k"), s("v"))];
    let pass = Some(s("pw"));
    let salt = vec![1u8; 16];
    let nonce = vec![2u8; 12];
    let a = encrypt_map_with(&entries, &pass, &salt, &nonce).unwrap();
    let b = encrypt_map_with(&entries, &pass, &salt, &nonce).unwrap();
    assert_eq!(a.ciphertext_b64, b.ciphertext_b64);
    assert_eq!(a.salt_b64, "AQEBAQEBAQEBAQEBAQEBAQ==");
    assert_eq!(a.nonce_b64, "AgICAgICAgICAgIC");
}

#[test]
fn bad_files_are_reported() {
    let pass = Some(s("pw"));
    let bad_nonce = EncryptedBlob { salt_b64: s("AQEB"), nonce_b64: s("AQEB"), ciphertext_b64: s("AQEB") };
    assert_eq!(
        decrypt_map(&bad_nonce, &pass),
        Err(s("Invalid nonce length in encrypted secret file"))
    );
    let bad_base64 = EncryptedBlob { salt_b64: s("!!"), nonce_b64: s("AQEB"), ciphertext_b64: s("AQEB") };
    assert!(decrypt_map(&bad_base64, &pass).is_err());
}

#[test]
fn fallback_get_after_set_and_delete() {
    let pass = Some(s("pw"));
    let blob = set_in_fallback(&FallbackFile::Missing, "token", "abc", &pass).unwrap();
    let file = FallbackFile::Blob(blob);
    assert_eq!(get_from_fallback(&file, "token", &pass), Ok(s("abc")));
    assert_eq!(get_from_fallback(&file, "nope", &pass), Err(s("Secret not found for key: nope")));
    let blob2 = set_in_fallback(&file, "other", "x", &pass).unwrap();
    let file2 = FallbackFile::Blob(blob2);
    assert_eq!(get_from_fallback(&file2, "token", &pass), Ok(s("abc")));
    let removed = delete_from_fallback(&file2, "token", &pass).unwrap().unwrap();
    let file3 = FallbackFile::Blob(removed);
    assert!(get_from_fallback(&file3, "token", &pass).is_err());
    assert_eq!(get_from_fallback(&file3, "other", &pass), Ok(s("x")));
    assert!(delete_from_fallback(&FallbackFile::Missing, "token", &pass).unwrap().is_none());
    assert_eq!(
        set_in_fallback(&FallbackFile::Unreadable(s("denied")), "k", "v", &pass).err(),
        Some(s("denied"))
    );
}

#[test]
fn unavailable_store_refuses_everything() {
    let store = SecretStore::with_backend("AuvroAI", SecretBackend::Unavailable, s("/tmp/x"));
    let msg = s("No secure secret backend is available (keychain failed and AUVRO_FALLBACK_PASSPHRASE is not set).");
    assert_eq!(store.get("k", &FallbackFile::Missing, &None), Err(msg.clone()));
    assert_eq!(store.set("k", "v", &FallbackFile::Missing, &None).err(), Some(msg.clone()));
    assert_eq!(store.delete("k", &FallbackFile::Missing, &None).err(), Some(msg));
}

#[test]
fn file_store_round_trip() {
    let store = SecretStore::with_backend("AuvroAI", SecretBackend::EncryptedFile, s("/tmp/x"));
    let pass = Some(s("pw"));
    assert_eq!(store.backend(), SecretBackend::EncryptedFile);
    assert_eq!(store.fallback_path(), "/tmp/x");
    let blob = file_of(store.set("SUPABASE_ACCESS_TOKEN", "t0k", &FallbackFile::Missing, &pass).unwrap());
    assert_eq!(store.get("SUPABASE_ACCESS_TOKEN", &FallbackFile::Blob(blob), &pass), Ok(s("t0k")));
    assert_eq!(
        store.set("k", "v", &FallbackFile::Missing, &None).err(),
        Some(s("AUVRO_FALLBACK_PASSPHRASE is required for AES fallback."))
    );
}

#[test]
fn new_store_without_bus_or_passphrase_is_unavailable() {
    let store = SecretStore::new("AuvroAI", false, false);
    assert_eq!(store.backend(), SecretBackend::Unavailable);
    assert!(store.fallback_path().ends_with("auvroai/secure-secrets.json"));
    let file_store = SecretStore::new("AuvroAI", false, true);
    assert_eq!(file_store.backend(), SecretBackend::EncryptedFile);
}

#[test]
fn keychain_probe_verdicts() {
    assert!(probe_answers(&Ok(s("secret"))));
    assert!(probe_answers(&Err(KeyringFailure::NoEntry(s("none")))));
    assert!(!probe_answers(&Err(KeyringFailure::Other(s("locked")))));
}

#[test]
fn oversized_reply_is_not_kept_and_evictions_are_counted() {
    let mut cache = ResponseCache::new(config(1000, 10));
    cache.put_at(s("a"), s("1234"), 0);
    cache.put_at(s("b"), s("1234"), 1);
    assert_eq!(cache.stats().evictions, 0);
    cache.put_at(s("c"), s("1234"), 2);
    assert_eq!(cache.stats().evictions, 1);
    assert_eq!(cache.get_at("a", 3), None);
    assert_eq!(cache.get_at("c", 3), Some(s("1234")));
    cache.put_at(s("big"), s("0123456789"), 4);
    assert_eq!(cache.get_at("big", 5), None);
    assert_eq!(cache.len(), 0);
}

#[test]
fn every_get_counts_one_hit_or_miss() {
    let mut cache = ResponseCache::new(config(100, 1000));
    cache.put_at(s("k"), s("v"), 0);
    cache.get_at("k", 10);
    cache.get_at("x", 10);
    cache.get_at("k", 500);
    let st = cache.stats();
    assert_eq!(st.hits + st.misses, 3);
    assert_eq!(st.hits, 1);
    assert_eq!(st.expired, 1);
    assert!(st.expired <= st.misses);
}

#[test]
fn file_store_set_succeeds_with_a_passphrase() {
    let store = SecretStore::with_backend("AuvroAI", SecretBackend::EncryptedFile, s("/tmp/x.json"));
    let written = file_of(store.set("token", "abc", &FallbackFile::Missing, &Some(s("pw"))).unwrap());
    let file = FallbackFile::Blob(written);
    assert_eq!(store.get("token", &file, &Some(s("pw"))), Ok(s("abc")));
    assert!(matches!(store.delete("token", &file, &Some(s("pw"))).unwrap(), SecretWrite::File(_)));
    assert!(matches!(store.delete("token", &FallbackFile::Missing, &Some(s("pw"))).unwrap(), SecretWrite::Done));
    assert_eq!(
        store.set("token", "abc", &FallbackFile::Missing, &None).err(),
        Some(s("AUVRO_FALLBACK_PASSPHRASE is required for AES fallback."))
    );
    assert!(store.delete("token", &file, &None).is_err());
}

#[test]
fn hits_and_misses_add_up_to_the_gets() {
    let mut cache = ResponseCache::new(config(1_000_000_000, 64));
    cache.put_at(s("a"), s("one"), 0);
    assert_eq!(cache.get_at("a", 1), Some(s("one")));
    assert_eq!(cache.get_at("b", 2), None);
    cache.put_at(s("b"), s("two"), 3);
    assert_eq!(cache.get_at("b", 4), Some(s("two")));
    assert_eq!(cache.get_at("a", 1_000_000_001), None);
    assert_eq!(cache.get_at("a", 1_000_000_002), None);
    let st = cache.stats();
    assert_eq!(st.hits + st.misses, 5);
    assert_eq!(st.hits, 2);
    assert_eq!(st.expired, 1);
    assert!(st.expired <= st.misses);
}

#[test]
fn a_nanosecond_past_the_ttl_expires() {
    let mut cache = ResponseCache::new(ResponseCacheConfig::from_settings(Some(1), None));
    cache.put_at(s("k"), s("v"), 5);
    assert_eq!(cache.get_at("k", 1_000_000_005), Some(s("v")));
    assert_eq!(cache.get_at("k", 1_000_000_006), None);
}
