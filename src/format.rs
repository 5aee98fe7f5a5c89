//! Short renderings of text and durations for replies.

use vstd::prelude::*;
use vstd::string::StringSliceAdditionalSpecFns;
use vstd::utf8::{decode_utf8, encode_utf8, encode_utf8_decode_utf8, is_char_boundary};
use crate::text::{decimal, push_decimal};

verus! {

/// `text` cut to its first `max_length - 3` bytes followed by `...` when it is
/// longer than `max_length` bytes, and `text` itself otherwise.
pub open spec fn truncated(text: &str, max_length: usize) -> Seq<char> {
    if text.spec_bytes().len() > max_length {
        decode_utf8(text.spec_bytes().subrange(0, max_length - 3)) + "..."@
    } else {
        text@
    }
}

/// Truncates a string to a maximum length in bytes, marking the cut with
/// `...`. The cut must fall on a character boundary.
pub fn truncate_text(text: &str, max_length: usize) -> (r: String)
    requires
        text.spec_bytes().len() <= usize::MAX,
        text.spec_bytes().len() > max_length ==> max_length >= 3,
        text.spec_bytes().len() > max_length ==> is_char_boundary(
            text.spec_bytes(),
            max_length - 3,
        ),
    ensures
        r@ == truncated(text, max_length),
{
    broadcast use encode_utf8_decode_utf8;

    if text.len() > max_length {
        let (head, _) = text.split_at(max_length - 3);
        assert(head.spec_bytes() =~= text.spec_bytes().subrange(0, max_length - 3));
        assert(decode_utf8(encode_utf8(head@)) == head@);
        let mut r = head.to_owned();
        r.append("...");
        r
    } else {
        text.to_owned()
    }
}

/// `{d} days, {h} hours, {m} minutes, {s} seconds` for a number of seconds.
pub open spec fn uptime_text(seconds: nat) -> Seq<char> {
    decimal(seconds / 86_400) + " days, "@ + decimal((seconds % 86_400) / 3_600) + " hours, "@
        + decimal((seconds % 3_600) / 60) + " minutes, "@ + decimal(seconds % 60) + " seconds"@
}

/// Spells out a number of seconds in days, hours, minutes and seconds.
pub fn format_uptime(seconds: u64) -> (r: String)
    ensures
        r@ == uptime_text(seconds as nat),
{
    let mut s = String::new();
    push_decimal(&mut s, seconds / 86_400);
    s.append(" days, ");
    push_decimal(&mut s, (seconds % 86_400) / 3_600);
    s.append(" hours, ");
    push_decimal(&mut s, (seconds % 3_600) / 60);
    s.append(" minutes, ");
    push_decimal(&mut s, seconds % 60);
    s.append(" seconds");
    assert(s@ =~= uptime_text(seconds as nat));
    s
}

pub assume_specification[ std::time::Duration::as_secs ](d: &std::time::Duration) -> u64;

/// Spells out the whole seconds of a duration, as `format_uptime` does.
pub fn format_duration(duration: std::time::Duration) -> (r: String)
    ensures
        exists|s: u64| r@ == uptime_text(s as nat),
{
    format_uptime(duration.as_secs())
}

} // verus!
