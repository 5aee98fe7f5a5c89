use tiered_data::key_codec::{color_key, hash_key, prefix_key, sanitize_key, session_key};

#[test]
fn sanitize_replaces_every_slash() {
    assert_eq!(sanitize_key("prefix/42"), "prefix:42");
    assert_eq!(sanitize_key("a/b/c"), "a:b:c");
    assert_eq!(sanitize_key("plain"), "plain");
    assert_eq!(sanitize_key(""), "");
}

#[test]
fn hash_is_md5_lower_hex() {
    assert_eq!(hash_key("abc"), "900150983cd24fb0d6963f7d28e17f72");
    assert_eq!(hash_key(""), "d41d8cd98f00b204e9800998ecf8427e");
}

#[test]
fn hash_is_deterministic_and_spreads() {
    let inputs = ["a", "b", "https://example.com/a.png", "https://example.com/b.png", "abc", ""];
    for x in inputs.iter() {
        assert_eq!(hash_key(x), hash_key(x));
        assert_eq!(hash_key(x).len(), 32);
    }
    for (i, x) in inputs.iter().enumerate() {
        for (j, y) in inputs.iter().enumerate() {
            if i != j {
                assert_ne!(hash_key(x), hash_key(y));
            }
        }
    }
}

#[test]
fn entity_keys_are_namespaced() {
    assert_eq!(prefix_key(1234567890), "prefix/1234567890");
    assert_eq!(session_key(0), "session/0");
    assert_eq!(color_key("https://example.com/a.png"), "color/8c11d92f07c76baf29e49afd2301deb2");
}
