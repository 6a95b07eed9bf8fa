use news_server::cache::{cache_key, CacheStore};

#[test]
fn cache_key_is_the_hex_digest_of_namespace_colon_payload() {
    assert_eq!(
        cache_key("tts_audio", "openai:nova|hello"),
        "746183ef421cff06172f96ac10ce47996e3a6d373f894ee0c9c9e81581a9e52d"
    );
    assert_eq!(
        cache_key("questions", ""),
        "4283c0eb526e8cf6f7352708946cf38aac5a8c2b1daa7493a18eb9c6a240e6f3"
    );
    assert_eq!(
        cache_key("to_reading", "こんにちは"),
        "70b023e1c6ae36d9519ca163b094f8a452a7c0ebfb9f5bfd435fadc299cf7c69"
    );
}

#[test]
fn cache_key_tells_namespaces_apart() {
    assert_ne!(cache_key("tts_audio", "x"), cache_key("questions", "x"));
    assert_ne!(cache_key("a", "b:c"), cache_key("a:b", "c").to_uppercase());
    assert_eq!(cache_key("ask", "x").len(), 64);
}

#[test]
fn an_absent_key_is_a_miss() {
    let store = CacheStore::new();
    assert_eq!(store.get("k", 0), None);
}

#[test]
fn an_entry_is_found_until_it_expires() {
    let mut store = CacheStore::new();
    store.set("k", "ns", "value", 10, 100);
    assert_eq!(store.get("k", 100), Some("value".to_string()));
    assert_eq!(store.get("k", 109), Some("value".to_string()));
    assert_eq!(store.get("k", 110), None);
    assert_eq!(store.get("k", 1_000), None);
}

#[test]
fn an_entry_of_one_second_is_a_miss_after_two() {
    let mut store = CacheStore::new();
    store.set("k", "ns", "value", 1, 50);
    assert_eq!(store.get("k", 50), Some("value".to_string()));
    assert_eq!(store.get("k", 52), None);
}

#[test]
fn set_overwrites_whatever_the_key_held() {
    let mut store = CacheStore::new();
    store.set("k", "ns", "old", 100, 0);
    store.set("other", "ns", "kept", 100, 0);
    store.set("k", "ns", "new", 5, 10);
    assert_eq!(store.get("k", 12), Some("new".to_string()));
    assert_eq!(store.get("k", 15), None);
    assert_eq!(store.get("other", 50), Some("kept".to_string()));
}

#[test]
fn an_expired_entry_is_replaced_by_the_next_set() {
    let mut store = CacheStore::new();
    store.set("k", "ns", "old", 1, 0);
    assert_eq!(store.get("k", 5), None);
    store.set("k", "ns", "new", 10, 5);
    assert_eq!(store.get("k", 6), Some("new".to_string()));
}
