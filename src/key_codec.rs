//! Turns lookup keys into identifiers that are safe as path segments of the
//! remote cache service.

use vstd::prelude::*;
use crate::text::{decimal, push_char, push_decimal};

verus! {

/// `key` with every `/` replaced by `:`.
pub open spec fn sanitized(key: Seq<char>) -> Seq<char> {
    Seq::new(key.len(), |i: int| if key[i] == '/' { ':' } else { key[i] })
}

/// The lower-case hexadecimal MD5 digest of the UTF-8 bytes of `text`.
pub uninterp spec fn md5_hex(text: Seq<char>) -> Seq<char>;

/// `c` is a lower-case hexadecimal digit.
pub open spec fn is_lower_hex(c: char) -> bool {
    (48 <= (c as u32) <= 57) || (97 <= (c as u32) <= 102)
}

/// Relies on `md5::compute` and the `LowerHex` formatting of its `Digest`:
/// sixteen bytes, each written as two lower-case hexadecimal digits.
#[verifier::external_body]
fn md5_lower_hex(text: &str) -> (r: String)
    ensures
        r@ == md5_hex(text@),
        r@.len() == 32,
        forall|i: int| 0 <= i < r@.len() ==> #[trigger] is_lower_hex(r@[i]),
{
    format!("{:x}", md5::compute(text))
}

/// Replaces the characters that the cache service does not accept in a path
/// segment: every `/` becomes `:`.
pub fn sanitize_key(key: &str) -> (r: String)
    ensures
        r@ == sanitized(key@),
{
    let n = key.unicode_len();
    let mut out = String::new();
    let mut i: usize = 0;
    while i < n
        invariant
            n == key@.len(),
            i <= n,
            out@ =~= sanitized(key@.subrange(0, i as int)),
        decreases n - i,
    {
        let c = key.get_char(i);
        if c == '/' {
            push_char(&mut out, ':');
        } else {
            push_char(&mut out, c);
        }
        i = i + 1;
    }
    assert(key@.subrange(0, n as int) =~= key@);
    out
}

/// A fixed-length identifier for a key of any length: its MD5 digest in
/// lower-case hexadecimal.
pub fn hash_key(raw: &str) -> (r: String)
    ensures
        r@ == md5_hex(raw@),
        r@.len() == 32,
        forall|i: int| 0 <= i < r@.len() ==> #[trigger] is_lower_hex(r@[i]),
{
    md5_lower_hex(raw)
}

/// Hashing depends on the key alone: equal keys always give equal identifiers.
pub proof fn hash_is_deterministic(x: Seq<char>, y: Seq<char>)
    requires
        x == y,
    ensures
        md5_hex(x) == md5_hex(y),
{
}

/// A sanitized key holds no `/`, and has as many characters as the key.
pub proof fn sanitized_has_no_slash(key: Seq<char>)
    ensures
        sanitized(key).len() == key.len(),
        forall|i: int| 0 <= i < key.len() ==> sanitized(key)[i] != '/',
{
}

/// The cache key of a guild's prefix: `prefix/{guild_id}`.
pub open spec fn prefix_key_spec(guild_id: u64) -> Seq<char> {
    "prefix/"@ + decimal(guild_id as nat)
}

/// The cache key of a user's session: `session/{user_id}`.
pub open spec fn session_key_spec(user_id: u64) -> Seq<char> {
    "session/"@ + decimal(user_id as nat)
}

/// The cache key of an image's color: `color/{md5(image_url)}`.
pub open spec fn color_key_spec(image_url: Seq<char>) -> Seq<char> {
    "color/"@ + md5_hex(image_url)
}

/// The cache key of a guild's prefix.
pub fn prefix_key(guild_id: u64) -> (r: String)
    ensures
        r@ == prefix_key_spec(guild_id),
{
    let mut s = String::from_str("prefix/");
    push_decimal(&mut s, guild_id);
    s
}

/// The cache key of a user's session.
pub fn session_key(user_id: u64) -> (r: String)
    ensures
        r@ == session_key_spec(user_id),
{
    let mut s = String::from_str("session/");
    push_decimal(&mut s, user_id);
    s
}

/// The cache key of an image's color, hashed so that its length is fixed.
pub fn color_key(image_url: &str) -> (r: String)
    ensures
        r@ == color_key_spec(image_url@),
{
    let hash = hash_key(image_url);
    let mut s = String::from_str("color/");
    s.append(hash.as_str());
    s
}

} // verus!
