//! The in-process tier: one capacity- and idle-time-bounded cache per entity
//! kind, held in `mini_moka` caches.
//!
//! Each cache is described by the entries written to it since it was built or
//! last cleared, each with its latest value. A read returns either nothing
//! (the entry was never written, or it was evicted) or that latest value.

use vstd::prelude::*;
use mini_moka::sync::Cache as MokaCache;
use crate::model::{opt_view, Lastfm, Prefix, SessionView};

verus! {

#[verifier::external_type_specification]
#[verifier::external_body]
#[verifier::reject_recursive_types(K)]
#[verifier::reject_recursive_types(V)]
#[verifier::reject_recursive_types(S)]
pub struct ExMokaCache<K, V, S>(mini_moka::sync::Cache<K, V, S>);

/// The longest idle time a cache accepts, in seconds: a thousand years.
pub const MAX_IDLE_SECS: u64 = 31_536_000_000;

/// `v` is the value of some entry of `entries`.
pub open spec fn is_entry_value(entries: Map<u64, Seq<char>>, v: Seq<char>) -> bool {
    exists|k: u64| #[trigger] entries.contains_key(k) && entries[k] == v
}

/// No prefix entry.
pub open spec fn no_prefixes() -> Map<u64, Seq<char>> {
    Map::empty()
}

/// No session entry.
pub open spec fn no_sessions() -> Map<u64, SessionView> {
    Map::empty()
}

/// No color entry.
pub open spec fn no_colors() -> Map<Seq<char>, Seq<u8>> {
    Map::empty()
}

/// The latest prefix written for each guild id.
pub uninterp spec fn prefix_entries(c: MokaCache<u64, String>) -> Map<u64, Seq<char>>;

/// The latest session written for each user id.
pub uninterp spec fn session_entries(c: MokaCache<u64, (i64, String, String, String)>) -> Map<
    u64,
    SessionView,
>;

/// The latest color written for each image URL.
pub uninterp spec fn color_entries(c: MokaCache<String, Vec<u8>>) -> Map<Seq<char>, Seq<u8>>;

/// Relies on `Cache::builder`, `max_capacity`, `time_to_idle` and `build`: a
/// new cache holds no entry; `build` panics on an idle time over 1000 years.
#[verifier::external_body]
fn new_prefix_cache(capacity: u64, idle_secs: u64) -> (r: MokaCache<u64, String>)
    requires
        idle_secs <= MAX_IDLE_SECS,
    ensures
        prefix_entries(r) == no_prefixes(),
{
    MokaCache::builder().max_capacity(capacity).time_to_idle(std::time::Duration::from_secs(idle_secs)).build()
}

/// Relies on `Cache::get`: it returns a clone of the value stored under the
/// key, if the entry is still present.
#[verifier::external_body]
fn prefix_cache_get(c: &MokaCache<u64, String>, key: u64) -> (r: Option<String>)
    ensures
        r matches Some(v) ==> prefix_entries(*c).contains_key(key) && v@ == prefix_entries(
            *c,
        )[key],
{
    c.get(&key)
}

/// Relies on `Cache::insert`: the value replaces any earlier one for the key.
#[verifier::external_body]
fn prefix_cache_insert(c: &mut MokaCache<u64, String>, key: u64, value: String)
    ensures
        prefix_entries(*final(c)) == prefix_entries(*old(c)).insert(key, value@),
{
    c.insert(key, value)
}

/// Relies on `Cache::invalidate_all`: no value inserted before the call is
/// returned by `get` after it.
#[verifier::external_body]
fn prefix_cache_clear(c: &mut MokaCache<u64, String>)
    ensures
        prefix_entries(*final(c)) == no_prefixes(),
{
    c.invalidate_all()
}


/// Relies on `Cache::entry_count`, which is only an estimate.
#[verifier::external_body]
fn prefix_cache_count(c: &MokaCache<u64, String>) -> u64 {
    c.entry_count()
}

/// Relies on `Cache::iter`: every value it yields is the latest value of an
/// entry written to the cache.
#[verifier::external_body]
fn prefix_cache_values(c: &MokaCache<u64, String>) -> (r: Vec<String>)
    ensures
        forall|i: int| 0 <= i < r@.len() ==> is_entry_value(prefix_entries(*c), #[trigger] r@[i]@),
{
    c.iter().map(|e| e.value().clone()).collect()
}

/// Relies on `Cache::builder`, `max_capacity`, `time_to_idle` and `build`: a
/// new cache holds no entry.
#[verifier::external_body]
fn new_session_cache(capacity: u64, idle_secs: u64) -> (r: MokaCache<u64, (i64, String, String, String)>)
    requires
        idle_secs <= MAX_IDLE_SECS,
    ensures
        session_entries(r) == no_sessions(),
{
    MokaCache::builder().max_capacity(capacity).time_to_idle(std::time::Duration::from_secs(idle_secs)).build()
}

/// Relies on `Cache::get`: a clone of the value stored under the key, if the
/// entry is still present.
#[verifier::external_body]
fn session_cache_get(c: &MokaCache<u64, (i64, String, String, String)>, key: u64) -> (r: Option<
    (i64, String, String, String),
>)
    ensures
        r matches Some(v) ==> session_entries(*c).contains_key(key) && (v.0, v.1@, v.2@, v.3@)
            == session_entries(*c)[key],
{
    c.get(&key)
}

/// Relies on `Cache::insert`: the value replaces any earlier one for the key.
#[verifier::external_body]
fn session_cache_insert(
    c: &mut MokaCache<u64, (i64, String, String, String)>,
    key: u64,
    value: (i64, String, String, String),
)
    ensures
        session_entries(*final(c)) == session_entries(*old(c)).insert(
            key,
            (value.0, value.1@, value.2@, value.3@),
        ),
{
    c.insert(key, value)
}

/// Relies on `Cache::invalidate_all`: no earlier value is returned after it.
#[verifier::external_body]
fn session_cache_clear(c: &mut MokaCache<u64, (i64, String, String, String)>)
    ensures
        session_entries(*final(c)) == no_sessions(),
{
    c.invalidate_all()
}

/// Relies on `Cache::builder`, `max_capacity`, `time_to_idle` and `build`: a
/// new cache holds no entry.
#[verifier::external_body]
fn new_color_cache(capacity: u64, idle_secs: u64) -> (r: MokaCache<String, Vec<u8>>)
    requires
        idle_secs <= MAX_IDLE_SECS,
    ensures
        color_entries(r) == no_colors(),
{
    MokaCache::builder().max_capacity(capacity).time_to_idle(std::time::Duration::from_secs(idle_secs)).build()
}

/// Relies on `Cache::get`: a clone of the value stored under the key, if the
/// entry is still present. Equal strings hash and compare equal.
#[verifier::external_body]
fn color_cache_get(c: &MokaCache<String, Vec<u8>>, key: &String) -> (r: Option<Vec<u8>>)
    ensures
        r matches Some(v) ==> color_entries(*c).contains_key(key@) && v@ == color_entries(
            *c,
        )[key@],
{
    c.get(key)
}

/// Relies on `Cache::insert`: the value replaces any earlier one for the key.
#[verifier::external_body]
fn color_cache_insert(c: &mut MokaCache<String, Vec<u8>>, key: String, value: Vec<u8>)
    ensures
        color_entries(*final(c)) == color_entries(*old(c)).insert(key@, value@),
{
    c.insert(key, value)
}

/// Relies on `Cache::invalidate_all`: no earlier value is returned after it.
#[verifier::external_body]
fn color_cache_clear(c: &mut MokaCache<String, Vec<u8>>)
    ensures
        color_entries(*final(c)) == no_colors(),
{
    c.invalidate_all()
}

/// The idle time after which an unread entry leaves a cache: three minutes.
pub const DEFAULT_IDLE_SECS: u64 = 180;

/// `found` is an answer that a cache whose entries are `entries` may give
/// for `key`: nothing, or the latest value written under it.
pub open spec fn may_answer<K, V>(entries: Map<K, V>, key: K, found: Option<V>) -> bool {
    found matches Some(v) ==> entries.contains_key(key) && entries[key] == v
}

/// The length in bytes of a text, as `str::len` reports it.
pub open spec fn byte_len(text: Seq<char>) -> nat {
    (vstd::utf8::encode_utf8(text).len() as usize) as nat
}

/// The total size of a sequence of prefixes: eight bytes of key and the
/// bytes of the text for each.
pub open spec fn prefixes_size(values: Seq<Seq<char>>) -> nat
    decreases values.len(),
{
    if values.len() == 0 {
        0
    } else {
        prefixes_size(values.drop_last()) + 8 + byte_len(values.last())
    }
}

/// The in-process caches of prefixes, sessions and image colors.
pub struct DatabaseCache {
    /// Guild prefixes, keyed by guild id.
    prefixes: MokaCache<u64, String>,
    /// Scrobble sessions, keyed by user id.
    sessions: MokaCache<u64, (i64, String, String, String)>,
    /// Average image colors, keyed by image URL.
    colors: MokaCache<String, Vec<u8>>,
}

impl DatabaseCache {
    /// The latest prefix written for each guild.
    pub closed spec fn prefixes_view(&self) -> Map<u64, Seq<char>> {
        prefix_entries(self.prefixes)
    }

    /// The latest session written for each user.
    pub closed spec fn sessions_view(&self) -> Map<u64, SessionView> {
        session_entries(self.sessions)
    }

    /// The latest color written for each image URL.
    pub closed spec fn colors_view(&self) -> Map<Seq<char>, Seq<u8>> {
        color_entries(self.colors)
    }

    /// Caches of 100,000 prefixes, effectively unbounded sessions and 1,000
    /// colors, each entry leaving after three minutes unread.
    pub fn new() -> (r: DatabaseCache)
        ensures
            r.prefixes_view() == no_prefixes(),
            r.sessions_view() == no_sessions(),
            r.colors_view() == no_colors(),
    {
        DatabaseCache::with_limits(100_000, u64::MAX, 1_000, DEFAULT_IDLE_SECS)
    }

    /// Caches with the given capacities and idle time.
    pub fn with_limits(
        prefix_capacity: u64,
        session_capacity: u64,
        color_capacity: u64,
        idle_secs: u64,
    ) -> (r: DatabaseCache)
        requires
            idle_secs <= MAX_IDLE_SECS,
        ensures
            r.prefixes_view() == no_prefixes(),
            r.sessions_view() == no_sessions(),
            r.colors_view() == no_colors(),
    {
        DatabaseCache {
            prefixes: new_prefix_cache(prefix_capacity, idle_secs),
            sessions: new_session_cache(session_capacity, idle_secs),
            colors: new_color_cache(color_capacity, idle_secs),
        }
    }

    /// The cached prefix of a guild, if it is still cached.
    pub fn get_prefix(&self, guild_id: u64) -> (r: Option<Prefix>)
        ensures
            may_answer(self.prefixes_view(), guild_id, opt_view(r)),
    {
        match prefix_cache_get(&self.prefixes, guild_id) {
            Some(text) => Some(Prefix { prefix: text }),
            None => None,
        }
    }

    /// Caches a guild's prefix, replacing any earlier one.
    pub fn set_prefix(&mut self, guild_id: u64, prefix: Prefix)
        ensures
            final(self).prefixes_view() == old(self).prefixes_view().insert(guild_id, prefix@),
            final(self).sessions_view() == old(self).sessions_view(),
            final(self).colors_view() == old(self).colors_view(),
    {
        prefix_cache_insert(&mut self.prefixes, guild_id, prefix.prefix);
    }

    /// An estimate of the number of cached prefixes.
    pub fn get_prefixes_cache_size(&self) -> usize {
        prefix_cache_count(&self.prefixes) as usize
    }

    /// The cached session of a user, if it is still cached.
    pub fn get_session(&self, user_id: u64) -> (r: Option<Lastfm>)
        ensures
            may_answer(self.sessions_view(), user_id, opt_view(r)),
    {
        match session_cache_get(&self.sessions, user_id) {
            Some(v) => Some(
                Lastfm { user_id: v.0, lastfm_username: v.1, session_key: v.2, token: v.3 },
            ),
            None => None,
        }
    }

    /// Caches a user's session, replacing any earlier one.
    pub fn set_session(&mut self, user_id: u64, session: Lastfm)
        ensures
            final(self).sessions_view() == old(self).sessions_view().insert(user_id, session@),
            final(self).prefixes_view() == old(self).prefixes_view(),
            final(self).colors_view() == old(self).colors_view(),
    {
        session_cache_insert(
            &mut self.sessions,
            user_id,
            (session.user_id, session.lastfm_username, session.session_key, session.token),
        );
    }

    /// The cached color of an image, if it is still cached.
    pub fn get_image_color(&self, image_url: &str) -> (r: Option<Vec<u8>>)
        ensures
            may_answer(self.colors_view(), image_url@, opt_view(r)),
    {
        let key = String::from_str(image_url);
        color_cache_get(&self.colors, &key)
    }

    /// Caches the color of an image, replacing any earlier one.
    pub fn set_image_color(&mut self, image_url: &str, colors: Vec<u8>)
        ensures
            final(self).colors_view() == old(self).colors_view().insert(image_url@, colors@),
            final(self).prefixes_view() == old(self).prefixes_view(),
            final(self).sessions_view() == old(self).sessions_view(),
    {
        color_cache_insert(&mut self.colors, String::from_str(image_url), colors);
    }

    /// Drops every cached entry of every kind.
    pub fn clear(&mut self)
        ensures
            final(self).prefixes_view() == no_prefixes(),
            final(self).sessions_view() == no_sessions(),
            final(self).colors_view() == no_colors(),
    {
        prefix_cache_clear(&mut self.prefixes);
        session_cache_clear(&mut self.sessions);
        color_cache_clear(&mut self.colors);
    }

    /// The memory held by the cached prefixes: eight bytes of key and the
    /// bytes of the text for each entry present, saturating at `u64::MAX`.
    pub fn size_of(&self) -> (r: u64)
        ensures
            exists|values: Seq<Seq<char>>|
                {
                    &&& forall|i: int|
                        0 <= i < values.len() ==> is_entry_value(
                            self.prefixes_view(),
                            #[trigger] values[i],
                        )
                    &&& r as nat == if prefixes_size(values) <= u64::MAX {
                        prefixes_size(values)
                    } else {
                        u64::MAX as nat
                    }
                },
    {
        let values = prefix_cache_values(&self.prefixes);
        prefixes_total(&values)
    }
}

/// The view of a sequence of strings.
pub open spec fn texts_view(values: Seq<String>) -> Seq<Seq<char>> {
    values.map_values(|v: String| v@)
}

/// The size of a sequence of prefixes, as `prefixes_size` gives it,
/// saturating at `u64::MAX`.
pub fn prefixes_total(values: &Vec<String>) -> (r: u64)
    ensures
        r as nat == if prefixes_size(texts_view(values@)) <= u64::MAX {
            prefixes_size(texts_view(values@))
        } else {
            u64::MAX as nat
        },
{
    let mut total: u64 = 0;
    let mut saturated = false;
    let mut i: usize = 0;
    let ghost view = values@.map_values(|v: String| v@);
    while i < values.len()
        invariant
            i <= values@.len(),
            view == values@.map_values(|v: String| v@),
            saturated ==> total == u64::MAX && prefixes_size(view.subrange(0, i as int))
                > u64::MAX,
            !saturated ==> total as nat == prefixes_size(view.subrange(0, i as int)),
        decreases values@.len() - i,
    {
        proof {
            assert(view.subrange(0, i + 1).drop_last() =~= view.subrange(0, i as int));
            assert(view[i as int] == values@[i as int]@);
        }
        let n = values[i].as_str().len();
        if !saturated {
            if total <= u64::MAX - 8 && n as u64 <= u64::MAX - 8 - total {
                total = total + 8 + n as u64;
            } else {
                saturated = true;
                total = u64::MAX;
            }
        }
        i = i + 1;
    }
    assert(view.subrange(0, values@.len() as int) =~= view);
    total
}

impl Default for DatabaseCache {
    /// The caches of `DatabaseCache::new`.
    fn default() -> (r: DatabaseCache)
        ensures
            r.prefixes_view() == no_prefixes(),
            r.sessions_view() == no_sessions(),
            r.colors_view() == no_colors(),
    {
        DatabaseCache::new()
    }
}

} // verus!
