//! Process configuration, built once at start-up and handed to each component.

use vstd::prelude::*;
use crate::text::{decimal, push_decimal, str_eq};

verus! {

/// All settings of a deployment.
pub struct Config {
    pub bot_id: u64,
    pub api: API,
    pub authentication: Authentication,
    pub database: Database,
    pub cache: CacheServer,
    pub prefix: Prefixes,
    pub logging_webhooks: LoggingWebhooks,
}

/// Credentials of the chat service and of the scrobble service.
pub struct Authentication {
    pub discord_token: String,
    pub lastfm_key: String,
    pub lastfm_secret: String,
    pub lastfm_redirect_uri: String,
}

/// Where the callback web service listens.
pub struct API {
    pub port: u16,
    pub host: String,
}

/// Where the remote cache service lives, and the token it expects.
pub struct CacheServer {
    pub host: String,
    pub token: String,
}

/// Connection settings of the relational store.
pub struct Database {
    pub host: String,
    pub username: String,
    pub password: String,
    pub database: String,
    pub port: u16,
}

/// The command prefixes used when a guild has none of its own.
pub struct Prefixes {
    pub default: String,
    pub development: String,
}

/// The webhooks that receive panics and errors.
pub struct LoggingWebhooks {
    pub panic: LoggingWebhook,
    pub error: LoggingWebhook,
    pub enable_webhooks: bool,
}

/// One webhook: its id and token.
#[derive(Clone)]
pub struct LoggingWebhook {
    pub token: String,
    pub id: u64,
}

/// The placeholder that stands for a masked host label.
pub open spec fn placeholder() -> Seq<char> {
    "***"@
}

/// The number of `.` in `s`.
pub open spec fn dot_count(s: Seq<char>) -> nat
    decreases s.len(),
{
    if s.len() == 0 {
        0
    } else {
        dot_count(s.drop_first()) + if s[0] == '.' { 1nat } else { 0nat }
    }
}

/// What follows the `k`-th `.` of `s` (all of `s` when `k` is zero).
pub open spec fn after_dots(s: Seq<char>, k: nat) -> Seq<char>
    decreases s.len(),
{
    if k == 0 {
        s
    } else if s.len() == 0 {
        s
    } else if s[0] == '.' {
        after_dots(s.drop_first(), (k - 1) as nat)
    } else {
        after_dots(s.drop_first(), k)
    }
}

/// `n` copies of `***.`.
pub open spec fn masked_labels(n: nat) -> Seq<char>
    decreases n,
{
    if n == 0 {
        Seq::empty()
    } else {
        masked_labels((n - 1) as nat) + placeholder() + "."@
    }
}

/// A host with every label but the last two replaced by the placeholder.
/// With two labels only the last is kept; with one label (or none) the whole
/// host is the placeholder.
pub open spec fn masked_host(host: Seq<char>) -> Seq<char> {
    let labels = dot_count(host) + 1;
    if labels > 2 {
        masked_labels((labels - 2) as nat) + after_dots(host, (labels - 2) as nat)
    } else if labels == 2 {
        placeholder() + "."@ + after_dots(host, 1)
    } else {
        placeholder()
    }
}

/// `postgres://{username}:{password}@{host}:{port}/{database}`.
pub open spec fn database_url(d: &Database) -> Seq<char> {
    "postgres://"@ + d.username@ + ":"@ + d.password@ + "@"@ + d.host@ + ":"@ + decimal(
        d.port as nat,
    ) + "/"@ + d.database@
}

/// `postgres://{username}@{masked host}:{port}/{database}`: no password, and
/// only the last two labels of the host.
pub open spec fn database_url_safe(d: &Database) -> Seq<char> {
    "postgres://"@ + d.username@ + "@"@ + masked_host(d.host@) + ":"@ + decimal(d.port as nat)
        + "/"@ + d.database@
}

proof fn lemma_dot_count_split(s: Seq<char>, i: int)
    requires
        0 <= i < s.len(),
    ensures
        dot_count(s.subrange(i, s.len() as int)) == dot_count(s.subrange(i + 1, s.len() as int))
            + if s[i] == '.' { 1nat } else { 0nat },
{
    assert(s.subrange(i, s.len() as int).drop_first() =~= s.subrange(i + 1, s.len() as int));
}

proof fn lemma_after_dots_step(s: Seq<char>, i: int, k: nat)
    requires
        0 <= i < s.len(),
        k > 0,
    ensures
        after_dots(s.subrange(i, s.len() as int), k) == if s[i] == '.' {
            after_dots(s.subrange(i + 1, s.len() as int), (k - 1) as nat)
        } else {
            after_dots(s.subrange(i + 1, s.len() as int), k)
        },
{
    assert(s.subrange(i, s.len() as int).drop_first() =~= s.subrange(i + 1, s.len() as int));
}

fn count_dots(s: &str) -> (r: u64)
    ensures
        r == dot_count(s@),
{
    let n = s.unicode_len();
    let mut i: usize = 0;
    let mut seen: u64 = 0;
    assert(s@.subrange(0, n as int) =~= s@);
    while i < n
        invariant
            n == s@.len(),
            i <= n,
            seen + dot_count(s@.subrange(i as int, n as int)) == dot_count(s@),
            seen <= i,
        decreases n - i,
    {
        proof {
            lemma_dot_count_split(s@, i as int);
        }
        if s.get_char(i) == '.' {
            seen = seen + 1;
        }
        i = i + 1;
    }
    assert(s@.subrange(n as int, n as int).len() == 0);
    seen
}

/// Appends to `out` what follows the `k`-th `.` of `s`.
fn push_after_dots(out: &mut String, s: &str, k: u64)
    requires
        k > 0,
    ensures
        final(out)@ == old(out)@ + after_dots(s@, k as nat),
{
    let n = s.unicode_len();
    let mut i: usize = 0;
    let mut left: u64 = k;
    assert(s@.subrange(0, n as int) =~= s@);
    while i < n && left > 0
        invariant
            n == s@.len(),
            i <= n,
            left <= k,
            after_dots(s@.subrange(i as int, n as int), left as nat) == after_dots(s@, k as nat),
        decreases n - i,
    {
        proof {
            if left > 0 {
                lemma_after_dots_step(s@, i as int, left as nat);
            }
        }
        if s.get_char(i) == '.' {
            left = left - 1;
        }
        i = i + 1;
    }
    let tail = s.substring_char(i, n);
    proof {
        let rest = s@.subrange(i as int, n as int);
        if left > 0 {
            assert(rest.len() == 0);
        }
        assert(after_dots(rest, left as nat) == rest);
    }
    out.append(tail);
}

impl Database {
    /// The full connection string, credentials included.
    #[must_use]
    pub fn to_url(&self) -> (r: String)
        ensures
            r@ == database_url(self),
    {
        let mut s = String::from_str("postgres://");
        s.append(self.username.as_str());
        s.append(":");
        s.append(self.password.as_str());
        s.append("@");
        s.append(self.host.as_str());
        s.append(":");
        push_decimal(&mut s, self.port as u64);
        s.append("/");
        s.append(self.database.as_str());
        s
    }

    /// The connection string for logs: no password, and a host of which only
    /// the last two labels stay visible.
    #[must_use]
    pub fn to_url_safe(&self) -> (r: String)
        ensures
            r@ == database_url_safe(self),
    {
        let mut s = String::from_str("postgres://");
        s.append(self.username.as_str());
        s.append("@");
        let ghost before = s@;
        let dots = count_dots(self.host.as_str());
        if dots > 1 {
            let mut j: u64 = 0;
            while j < dots - 1
                invariant
                    j <= dots - 1,
                    s@ == before + masked_labels(j as nat),
                decreases dots - 1 - j,
            {
                s.append("***");
                s.append(".");
                j = j + 1;
                proof {
                    reveal_strlit("***");
                }
                assert(s@ =~= before + masked_labels(j as nat));
            }
            push_after_dots(&mut s, self.host.as_str(), dots - 1);
            assert(s@ =~= before + masked_host(self.host@));
        } else if dots == 1 {
            s.append("***");
            s.append(".");
            push_after_dots(&mut s, self.host.as_str(), 1);
            assert(s@ =~= before + masked_host(self.host@));
        } else {
            s.append("***");
            assert(s@ =~= before + masked_host(self.host@));
        }
        s.append(":");
        push_decimal(&mut s, self.port as u64);
        s.append("/");
        s.append(self.database.as_str());
        assert(s@ =~= database_url_safe(self));
        s
    }
}

impl Prefixes {
    /// The prefix in force: the default one in production, where the
    /// `RUST_ENV` setting reads `production`, and the development one
    /// otherwise (the setting absent included).
    #[must_use]
    pub fn get(&self, rust_env: Option<&str>) -> (r: String)
        ensures
            r@ == (if rust_env matches Some(e) && e@ == "production"@ {
                self.default@
            } else {
                self.development@
            }),
    {
        match rust_env {
            Some(env) => {
                if str_eq(env, "production") {
                    self.default.clone()
                } else {
                    self.development.clone()
                }
            },
            None => self.development.clone(),
        }
    }
}

} // verus!
