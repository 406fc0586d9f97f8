use cacache::Cache;
use cacache::Error;
use cacache::Writer;
use cacache::data;

#[test]
fn commit_same_bytes_twice_yields_same_digest() {
    let mut cache = Cache::new("./cache");
    let d1 = data(&mut cache, "key", b"some bytes").unwrap();
    let d2 = data(&mut cache, "key", b"some bytes").unwrap();
    assert!(d1 == d2);
    assert_eq!(d1.as_str(), d2.as_str());
    let copy = d1.clone();
    assert!(copy == d2);
}

#[test]
fn round_trip_hello_under_greeting() {
    let mut cache = Cache::new("./cache");
    let d = data(&mut cache, "greeting", b"hello").unwrap();
    let expected = ssri::Integrity::from(b"hello").to_string();
    assert_eq!(d.as_str(), expected.as_str());
    let entry = cache.lookup("greeting").unwrap();
    assert_eq!(entry.size, 5);
    assert_eq!(entry.key.as_str(), "greeting");
    assert!(entry.sri == d);
    assert!(entry.metadata.is_none());
    assert!(entry.uid.is_none());
    assert!(entry.gid.is_none());
}

#[test]
fn empty_payload_round_trips() {
    let mut cache = Cache::new("./cache");
    let d = data(&mut cache, "nothing", b"").unwrap();
    let expected = ssri::Integrity::from(b"").to_string();
    assert_eq!(d.as_str(), expected.as_str());
    let entry = cache.lookup("nothing").unwrap();
    assert_eq!(entry.size, 0);
}

#[test]
fn integrity_mismatch_fails_before_any_write() {
    let mut scratch = Cache::new("./scratch");
    let wrong = data(&mut scratch, "tmp", b"goodbye").unwrap();

    let mut cache = Cache::new("./cache");
    let r = Writer::new("./cache", "greeting").integrity(wrong).commit(&mut cache, b"hello");
    assert!(matches!(r, Err(Error::IntegrityError)));
    assert!(cache.lookup("greeting").is_none());
    assert_eq!(cache.blob_count(), 0);
    assert_eq!(cache.entry_count(), 0);
    let hello = data(&mut scratch, "probe", b"hello").unwrap();
    assert!(!cache.has_blob(&hello));
}

#[test]
fn size_mismatch_fails_with_size_error() {
    let mut cache = Cache::new("./cache");
    let r = Writer::new("./cache", "greeting").size(10).commit(&mut cache, b"hello");
    assert!(matches!(r, Err(Error::SizeError)));
    assert!(cache.lookup("greeting").is_none());
    assert_eq!(cache.blob_count(), 0);
    assert_eq!(cache.entry_count(), 0);
}

#[test]
fn integrity_is_checked_before_size() {
    let mut scratch = Cache::new("./scratch");
    let wrong = data(&mut scratch, "tmp", b"goodbye").unwrap();

    let mut cache = Cache::new("./cache");
    let r = Writer::new("./cache", "greeting")
        .integrity(wrong)
        .size(10)
        .commit(&mut cache, b"hello");
    assert!(matches!(r, Err(Error::IntegrityError)));
}

#[test]
fn matching_expectations_succeed() {
    let mut scratch = Cache::new("./scratch");
    let right = data(&mut scratch, "tmp", b"hello").unwrap();

    let mut cache = Cache::new("./cache");
    let r = Writer::new("./cache", "greeting")
        .integrity(right)
        .size(5)
        .commit(&mut cache, b"hello");
    let d = r.unwrap();
    assert_eq!(d.as_str(), ssri::Integrity::from(b"hello").to_string().as_str());
    assert_eq!(cache.lookup("greeting").unwrap().size, 5);
}

#[test]
fn empty_key_is_a_config_error() {
    let mut cache = Cache::new("./cache");
    let r = Writer::new("./cache", "").commit(&mut cache, b"hello");
    assert!(matches!(r, Err(Error::ConfigError)));
    assert_eq!(cache.entry_count(), 0);

    let r2 = data(&mut cache, "", b"hello");
    assert!(matches!(r2, Err(Error::ConfigError)));
    assert_eq!(cache.entry_count(), 0);
}

#[test]
fn same_bytes_under_two_keys_share_one_blob() {
    let mut cache = Cache::new("./cache");
    let d1 = data(&mut cache, "one", b"shared content").unwrap();
    let d2 = data(&mut cache, "two", b"shared content").unwrap();
    assert!(d1 == d2);
    assert!(cache.has_blob(&d1));
    assert_eq!(cache.entry_count(), 2);
    assert_eq!(cache.blob_count(), 1);
    let e1 = cache.lookup("one").unwrap();
    assert!(e1.sri == d1);
    let e2 = cache.lookup("two").unwrap();
    assert!(e2.sri == d1);
}

#[test]
fn different_bytes_get_different_blobs() {
    let mut cache = Cache::new("./cache");
    let d1 = data(&mut cache, "one", b"first").unwrap();
    let d2 = data(&mut cache, "two", b"second").unwrap();
    assert!(d1 != d2);
    assert_eq!(cache.blob_count(), 2);
}

#[test]
fn newest_entry_wins_lookup() {
    let mut cache = Cache::new("./cache");
    data(&mut cache, "key", b"older value").unwrap();
    let d2 = data(&mut cache, "key", b"new").unwrap();
    let entry = cache.lookup("key").unwrap();
    assert_eq!(entry.size, 3);
    assert!(entry.sri == d2);
    assert_eq!(cache.entry_count(), 2);
}

#[test]
fn lookup_of_unknown_key_is_none() {
    let mut cache = Cache::new("./cache");
    data(&mut cache, "present", b"x").unwrap();
    assert!(cache.lookup("absent").is_none());
}

#[test]
fn builder_starts_unconfigured() {
    let w = Writer::new("./cache", "key");
    assert_eq!(w.cache.as_str(), "./cache");
    assert_eq!(w.key.as_str(), "key");
    assert!(w.sri.is_none());
    assert!(w.size.is_none());
    assert!(w.time.is_none());
    assert!(w.metadata.is_none());
    assert!(w.uid.is_none());
    assert!(w.gid.is_none());
}

#[test]
fn configured_fields_are_recorded_in_the_entry() {
    let meta = serde_json::Value::String(String::from("build of tuesday"));
    let uid = nix::unistd::Uid::from_raw(1234);
    let gid = nix::unistd::Gid::from_raw(5678);

    let mut cache = Cache::new("./cache");
    let r = Writer::new("./cache", "key")
        .time(42)
        .metadata(meta.clone())
        .chown(Some(uid), Some(gid))
        .commit(&mut cache, b"hello");
    assert!(r.is_ok());

    let entry = cache.lookup("key").unwrap();
    assert_eq!(entry.time, 42);
    assert_eq!(entry.metadata, Some(meta));
    assert_eq!(entry.uid, Some(uid));
    assert_eq!(entry.gid, Some(gid));
}

#[test]
fn last_configured_value_wins() {
    let mut cache = Cache::new("./cache");
    let r = Writer::new("./cache", "key")
        .size(10)
        .size(5)
        .time(1)
        .time(42)
        .commit(&mut cache, b"hello");
    assert!(r.is_ok());
    let entry = cache.lookup("key").unwrap();
    assert_eq!(entry.size, 5);
    assert_eq!(entry.time, 42);
}

#[test]
fn clock_is_used_when_no_time_is_configured() {
    let mut cache = Cache::new("./cache");
    data(&mut cache, "key", b"hello").unwrap();
    let entry = cache.lookup("key").unwrap();
    assert!(entry.time > 0);
}

#[test]
fn cache_records_its_root() {
    let cache = Cache::new("./somewhere/else");
    assert_eq!(cache.root(), "./somewhere/else");
}
