use tiered_data::local_cache::{prefixes_total, DatabaseCache};
use tiered_data::model::{Lastfm, Prefix};
use tiered_data::server_cache::{Method, ServerCache};
use tiered_data::tiered::{read_step, write_step, CacheError, Lookup, ReadEvent, StoreError, WriteEvent, WriteStep};

fn prefix(text: &str) -> Prefix {
    Prefix { prefix: text.to_string() }
}

fn session(user: i64) -> Lastfm {
    Lastfm {
        user_id: user,
        lastfm_username: "listener".to_string(),
        session_key: "SECRET-REDACTED".to_string(),
        token: "tok".to_string(),
    }
}

#[test]
fn local_cache_round_trip() {
    let mut cache = DatabaseCache::new();
    assert!(cache.get_prefix(7).is_none());
    cache.set_prefix(7, prefix("!"));
    assert_eq!(cache.get_prefix(7).unwrap().prefix, "!");
    cache.set_prefix(7, prefix("?"));
    assert_eq!(cache.get_prefix(7).unwrap().prefix, "?");
    cache.set_session(9, session(9));
    assert_eq!(cache.get_session(9).unwrap().lastfm_username, "listener");
    cache.set_image_color("u", vec![1, 2, 3]);
    assert_eq!(cache.get_image_color("u"), Some(vec![1, 2, 3]));
    assert_eq!(cache.size_of(), 8 + 1);
    cache.clear();
    assert!(cache.get_prefix(7).is_none());
    assert!(cache.get_session(9).is_none());
    assert!(cache.get_image_color("u").is_none());
}

#[test]
fn requests_use_sanitized_keys() {
    let cache = ServerCache::new("cache.example.com", "tkn");
    let get = cache.get("prefix/5");
    assert_eq!(get.method, Method::Get);
    assert_eq!(get.url, "https://cache.example.com/store/prefix:5");
    assert_eq!(get.authorization, "tkn");
    let put = cache.set("session/5", true);
    assert_eq!(put.method, Method::Put);
    assert_eq!(put.url, "https://cache.example.com/store/session:5!");
    let plain = cache.set("session/5", false);
    assert_eq!(plain.url, "https://cache.example.com/store/session:5");
    let del = cache.delete("color/x");
    assert_eq!(del.method, Method::Delete);
    assert_eq!(del.url, "https://cache.example.com/store/color:x");
}

#[test]
fn status_codes() {
    assert!(matches!(ServerCache::read_status(200), Ok(true)));
    assert!(matches!(ServerCache::read_status(204), Ok(true)));
    assert!(matches!(ServerCache::read_status(404), Ok(false)));
    assert!(matches!(ServerCache::read_status(500), Err(CacheError::Status(500))));
    assert!(matches!(ServerCache::write_status(201), Ok(())));
    assert!(matches!(ServerCache::write_status(403), Err(CacheError::Status(403))));
}

#[test]
fn set_then_get_is_served_locally() {
    let mut cache = ServerCache::new("h", "t");
    let req = cache.set_prefix(42, &prefix("$"));
    assert_eq!(req.url, "https://h/store/prefix:42!");
    match cache.get_prefix(42) {
        Lookup::Found { value, fill_local, fill_remote } => {
            assert_eq!(value.prefix, "$");
            assert!(!fill_local && !fill_remote);
        }
        _ => panic!("expected a local hit"),
    }
}

#[test]
fn refill_from_remote_after_clearing_local() {
    let mut cache = ServerCache::new("h", "t");
    cache.set_prefix(42, &prefix("$"));
    cache.clear_local();
    assert!(matches!(cache.get_prefix(42), Lookup::AskRemote));
    match cache.prefix_from_remote(42, Ok(Some(prefix("$")))) {
        Lookup::Found { value, fill_local, fill_remote } => {
            assert_eq!(value.prefix, "$");
            assert!(fill_local && !fill_remote);
        }
        _ => panic!("expected a remote hit"),
    }
    assert!(matches!(cache.get_prefix(42), Lookup::Found { fill_local: false, fill_remote: false, .. }));
}

#[test]
fn remote_failure_falls_through_to_store() {
    let mut cache = ServerCache::new("h", "t");
    assert!(matches!(cache.get_session(3), Lookup::AskRemote));
    assert!(matches!(cache.session_from_remote(3, Err(CacheError::Status(503))), Lookup::AskSource));
    assert!(matches!(cache.session_from_remote(3, Ok(None)), Lookup::AskSource));
    match cache.session_from_source(3, Ok(Some(session(3)))) {
        Lookup::Found { fill_local, fill_remote, .. } => assert!(fill_local && fill_remote),
        _ => panic!("expected a store hit"),
    }
    assert!(matches!(cache.get_session(3), Lookup::Found { .. }));
    assert!(matches!(cache.session_from_source(4, Ok(None)), Lookup::NotFound));
    let failed = cache.session_from_source(5, Err(StoreError { message: "down".to_string() }));
    assert!(matches!(failed, Lookup::Failed(StoreError { ref message }) if message == "down"));
    assert!(matches!(cache.get_session(5), Lookup::AskRemote));
}

#[test]
fn color_lookup_hashes_the_url() {
    let mut cache = ServerCache::new("h", "t");
    let req = cache.set_image_color("https://example.com/a.png", &vec![1, 2, 3]);
    assert_eq!(req.url, "https://h/store/color:8c11d92f07c76baf29e49afd2301deb2!");
    assert!(matches!(cache.get_image_color("https://example.com/a.png"), Lookup::Found { .. }));
    assert!(matches!(cache.get_image_color("https://example.com/b.png"), Lookup::AskRemote));
    assert!(matches!(cache.color_from_source("https://example.com/b.png", Ok(Some(vec![128, 128, 128]))), Lookup::Found { fill_remote: true, .. }));
}

#[test]
fn read_steps() {
    assert!(matches!(read_step(ReadEvent::Local(Some(1u8))), Lookup::Found { value: 1, fill_local: false, fill_remote: false }));
    assert!(matches!(read_step::<u8>(ReadEvent::Local(None)), Lookup::AskRemote));
    assert!(matches!(read_step::<u8>(ReadEvent::Remote(Err(CacheError::Transport("x".to_string())))), Lookup::AskSource));
    assert!(matches!(read_step::<u8>(ReadEvent::Remote(Err(CacheError::Body("x".to_string())))), Lookup::AskSource));
}

#[test]
fn write_steps() {
    assert!(matches!(write_step(true, WriteEvent::Local), WriteStep::WriteSource));
    assert!(matches!(write_step(false, WriteEvent::Local), WriteStep::WriteRemote));
    assert!(matches!(write_step(true, WriteEvent::Source(Ok(()))), WriteStep::WriteRemote));
    assert!(matches!(write_step(true, WriteEvent::Source(Err(StoreError { message: "x".to_string() }))), WriteStep::Failed(_)));
    assert!(matches!(write_step(true, WriteEvent::Remote(Ok(()))), WriteStep::Complete));
    assert!(matches!(write_step(true, WriteEvent::Remote(Err(CacheError::Status(500)))), WriteStep::RemoteStale(CacheError::Status(500))));
}

#[test]
fn prefix_size_in_bytes() {
    assert_eq!(prefix("ab").size_of(), 2);
    assert_eq!(prefix("é").size_of(), 2);
}

#[test]
fn prefixes_total_adds_key_and_text_bytes() {
    assert_eq!(prefixes_total(&vec![]), 0);
    assert_eq!(prefixes_total(&vec!["ab".to_string(), "é".to_string()]), 20);
}
