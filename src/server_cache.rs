//! The client of the remote cache service, with the local tier colocated: it
//! builds the service's requests, reads its status codes, and keeps the local
//! tier in step with each lookup and write.
//!
//! The service is reached under `{base}/{key}` with `/` in the key replaced
//! by `:`; a write to `{base}/{key}!` creates or replaces the entry.

use vstd::prelude::*;
use crate::key_codec::{
    color_key, color_key_spec, prefix_key, prefix_key_spec, sanitize_key, sanitized, session_key,
    session_key_spec,
};
use crate::local_cache::{no_colors, no_prefixes, no_sessions, DatabaseCache};
use crate::model::{Lastfm, Prefix, SessionView};
use crate::tiered::{read_step, read_step_spec, CacheError, Lookup, ReadEvent, StoreError};

verus! {

/// The HTTP method of a request to the cache service.
#[derive(PartialEq, Eq, Structural, Debug, Clone, Copy)]
pub enum Method {
    Get,
    Put,
    Delete,
}

/// A request to the cache service. A `Put` carries the JSON encoding of the
/// value as its body.
pub struct CacheRequest {
    pub method: Method,
    pub url: String,
    /// The value of the `Authorization` header.
    pub authorization: String,
}

/// `{base}/{sanitized key}`, with a trailing `!` for a create-or-replace write.
pub open spec fn entry_url(base: Seq<char>, key: Seq<char>, upsert: bool) -> Seq<char> {
    base + "/"@ + sanitized(key) + if upsert { "!"@ } else { Seq::empty() }
}

/// `r` is what a lookup may decide from the local tier alone, whose entries
/// are `entries`: ask the remote cache, or return the entry's latest value
/// without filling any tier.
pub open spec fn local_lookup<K, V: View>(entries: Map<K, V::V>, key: K, r: Lookup<V>) -> bool {
    match r {
        Lookup::AskRemote => true,
        Lookup::Found { value, fill_local, fill_remote } => {
            &&& entries.contains_key(key)
            &&& entries[key] == value@
            &&& !fill_local
            &&& !fill_remote
        },
        _ => false,
    }
}

/// The local entries once a lookup's decision `r` has been carried out.
pub open spec fn filled<K, V: View>(entries: Map<K, V::V>, key: K, r: Lookup<V>) -> Map<K, V::V> {
    match r {
        Lookup::Found { value, fill_local, .. } => if fill_local {
            entries.insert(key, value@)
        } else {
            entries
        },
        _ => entries,
    }
}

/// A status code in the success range.
pub open spec fn is_success(status: u16) -> bool {
    200 <= status <= 299
}

/// Client of the remote cache service, with in-process caches in front.
pub struct ServerCache {
    /// Base URL of the cache service.
    base_url: String,
    /// Authentication token of the cache service.
    token: String,
    /// The local tier.
    local: DatabaseCache,
}

impl ServerCache {
    /// The base URL of the service.
    pub closed spec fn base(&self) -> Seq<char> {
        self.base_url@
    }

    /// The token sent with every request.
    pub closed spec fn auth(&self) -> Seq<char> {
        self.token@
    }

    /// The latest prefix cached locally for each guild.
    pub closed spec fn prefixes_view(&self) -> Map<u64, Seq<char>> {
        self.local.prefixes_view()
    }

    /// The latest session cached locally for each user.
    pub closed spec fn sessions_view(&self) -> Map<u64, SessionView> {
        self.local.sessions_view()
    }

    /// The latest color cached locally for each image URL.
    pub closed spec fn colors_view(&self) -> Map<Seq<char>, Seq<u8>> {
        self.local.colors_view()
    }

    /// A client of the service at `https://{host}/store`, with the local
    /// caches of `DatabaseCache::new`: 100,000 prefixes, effectively unbounded
    /// sessions and 1,000 colors, each entry leaving after three minutes
    /// unread.
    pub fn new(host: &str, token: &str) -> (r: ServerCache)
        ensures
            r.base() == "https://"@ + host@ + "/store"@,
            r.auth() == token@,
            r.prefixes_view() == no_prefixes(),
            r.sessions_view() == no_sessions(),
            r.colors_view() == no_colors(),
    {
        let mut base_url = String::from_str("https://");
        base_url.append(host);
        base_url.append("/store");
        ServerCache {
            base_url,
            token: String::from_str(token),
            local: DatabaseCache::new(),
        }
    }

    fn request(&self, method: Method, key: &str, upsert: bool) -> (r: CacheRequest)
        ensures
            r.method == method,
            r.url@ == entry_url(self.base(), key@, upsert),
            r.authorization@ == self.auth(),
    {
        let mut url = self.base_url.clone();
        url.append("/");
        let safe = sanitize_key(key);
        url.append(safe.as_str());
        if upsert {
            url.append("!");
        }
        let r = CacheRequest { method, url, authorization: self.token.clone() };
        assert(r.url@ =~= entry_url(self.base(), key@, upsert));
        r
    }

    /// The request that reads the entry under `key`.
    pub fn get(&self, key: &str) -> (r: CacheRequest)
        ensures
            r.method == Method::Get,
            r.url@ == entry_url(self.base(), key@, false),
            r.authorization@ == self.auth(),
    {
        self.request(Method::Get, key, false)
    }

    /// The request that stores a value under `key`; with `upsert` it creates
    /// or replaces the entry.
    pub fn set(&self, key: &str, upsert: bool) -> (r: CacheRequest)
        ensures
            r.method == Method::Put,
            r.url@ == entry_url(self.base(), key@, upsert),
            r.authorization@ == self.auth(),
    {
        self.request(Method::Put, key, upsert)
    }

    /// The request that deletes the entry under `key`.
    pub fn delete(&self, key: &str) -> (r: CacheRequest)
        ensures
            r.method == Method::Delete,
            r.url@ == entry_url(self.base(), key@, false),
            r.authorization@ == self.auth(),
    {
        self.request(Method::Delete, key, false)
    }

    /// What the status of a read says: `Ok(true)` on success (the body holds
    /// the value), `Ok(false)` on 404 (no entry), an error otherwise.
    pub fn read_status(status: u16) -> (r: Result<bool, CacheError>)
        ensures
            is_success(status) ==> r == Ok::<bool, CacheError>(true),
            status == 404 ==> r == Ok::<bool, CacheError>(false),
            !is_success(status) && status != 404 ==> r == Err::<bool, CacheError>(
                CacheError::Status(status),
            ),
    {
        if 200 <= status && status <= 299 {
            Ok(true)
        } else if status == 404 {
            Ok(false)
        } else {
            Err(CacheError::Status(status))
        }
    }

    /// What the status of a write or a delete says: success, or an error.
    pub fn write_status(status: u16) -> (r: Result<(), CacheError>)
        ensures
            is_success(status) ==> r == Ok::<(), CacheError>(()),
            !is_success(status) ==> r == Err::<(), CacheError>(CacheError::Status(status)),
    {
        if 200 <= status && status <= 299 {
            Ok(())
        } else {
            Err(CacheError::Status(status))
        }
    }

    /// Starts the lookup of a guild's prefix at the local tier.
    pub fn get_prefix(&self, guild_id: u64) -> (r: Lookup<Prefix>)
        ensures
            local_lookup(self.prefixes_view(), guild_id, r),
    {
        read_step(ReadEvent::Local(self.local.get_prefix(guild_id)))
    }

    /// Goes on with a prefix lookup once the remote cache has answered.
    pub fn prefix_from_remote(&mut self, guild_id: u64, answer: Result<Option<Prefix>, CacheError>) -> (r: Lookup<Prefix>)
        ensures
            r == read_step_spec(ReadEvent::Remote(answer)),
            final(self).prefixes_view() == filled(old(self).prefixes_view(), guild_id, r),
            final(self).sessions_view() == old(self).sessions_view(),
            final(self).colors_view() == old(self).colors_view(),
            final(self).base() == old(self).base(),
            final(self).auth() == old(self).auth(),
    {
        let r = read_step(ReadEvent::Remote(answer));
        if let Lookup::Found { value, fill_local, .. } = &r {
            if *fill_local {
                self.local.set_prefix(guild_id, value.duplicate());
            }
        }
        r
    }

    /// Goes on with a prefix lookup once the store has answered.
    pub fn prefix_from_source(&mut self, guild_id: u64, answer: Result<Option<Prefix>, StoreError>) -> (r: Lookup<Prefix>)
        ensures
            r == read_step_spec(ReadEvent::Source(answer)),
            final(self).prefixes_view() == filled(old(self).prefixes_view(), guild_id, r),
            final(self).sessions_view() == old(self).sessions_view(),
            final(self).colors_view() == old(self).colors_view(),
            final(self).base() == old(self).base(),
            final(self).auth() == old(self).auth(),
    {
        let r = read_step(ReadEvent::Source(answer));
        if let Lookup::Found { value, fill_local, .. } = &r {
            if *fill_local {
                self.local.set_prefix(guild_id, value.duplicate());
            }
        }
        r
    }

    /// Writes a guild's prefix to the local tier, and gives the request that
    /// writes it to the remote cache (create or replace).
    pub fn set_prefix(&mut self, guild_id: u64, prefix: &Prefix) -> (r: CacheRequest)
        ensures
            final(self).prefixes_view() == old(self).prefixes_view().insert(guild_id, prefix@),
            final(self).sessions_view() == old(self).sessions_view(),
            final(self).colors_view() == old(self).colors_view(),
            final(self).base() == old(self).base(),
            final(self).auth() == old(self).auth(),
            r.method == Method::Put,
            r.url@ == entry_url(old(self).base(), prefix_key_spec(guild_id), true),
            r.authorization@ == old(self).auth(),
    {
        self.local.set_prefix(guild_id, prefix.duplicate());
        let key = prefix_key(guild_id);
        self.set(key.as_str(), true)
    }

    /// Starts the lookup of a user's session at the local tier.
    pub fn get_session(&self, user_id: u64) -> (r: Lookup<Lastfm>)
        ensures
            local_lookup(self.sessions_view(), user_id, r),
    {
        read_step(ReadEvent::Local(self.local.get_session(user_id)))
    }

    /// Goes on with a session lookup once the remote cache has answered.
    pub fn session_from_remote(&mut self, user_id: u64, answer: Result<Option<Lastfm>, CacheError>) -> (r: Lookup<Lastfm>)
        ensures
            r == read_step_spec(ReadEvent::Remote(answer)),
            final(self).sessions_view() == filled(old(self).sessions_view(), user_id, r),
            final(self).prefixes_view() == old(self).prefixes_view(),
            final(self).colors_view() == old(self).colors_view(),
            final(self).base() == old(self).base(),
            final(self).auth() == old(self).auth(),
    {
        let r = read_step(ReadEvent::Remote(answer));
        if let Lookup::Found { value, fill_local, .. } = &r {
            if *fill_local {
                self.local.set_session(user_id, value.duplicate());
            }
        }
        r
    }

    /// Goes on with a session lookup once the store has answered.
    pub fn session_from_source(&mut self, user_id: u64, answer: Result<Option<Lastfm>, StoreError>) -> (r: Lookup<Lastfm>)
        ensures
            r == read_step_spec(ReadEvent::Source(answer)),
            final(self).sessions_view() == filled(old(self).sessions_view(), user_id, r),
            final(self).prefixes_view() == old(self).prefixes_view(),
            final(self).colors_view() == old(self).colors_view(),
            final(self).base() == old(self).base(),
            final(self).auth() == old(self).auth(),
    {
        let r = read_step(ReadEvent::Source(answer));
        if let Lookup::Found { value, fill_local, .. } = &r {
            if *fill_local {
                self.local.set_session(user_id, value.duplicate());
            }
        }
        r
    }

    /// Writes a user's session to the local tier, and gives the request that
    /// writes it to the remote cache (create or replace).
    pub fn set_session(&mut self, user_id: u64, session: &Lastfm) -> (r: CacheRequest)
        ensures
            final(self).sessions_view() == old(self).sessions_view().insert(user_id, session@),
            final(self).prefixes_view() == old(self).prefixes_view(),
            final(self).colors_view() == old(self).colors_view(),
            final(self).base() == old(self).base(),
            final(self).auth() == old(self).auth(),
            r.method == Method::Put,
            r.url@ == entry_url(old(self).base(), session_key_spec(user_id), true),
            r.authorization@ == old(self).auth(),
    {
        self.local.set_session(user_id, session.duplicate());
        let key = session_key(user_id);
        self.set(key.as_str(), true)
    }

    /// Starts the lookup of an image's color at the local tier.
    pub fn get_image_color(&self, image_url: &str) -> (r: Lookup<Vec<u8>>)
        ensures
            local_lookup(self.colors_view(), image_url@, r),
    {
        read_step(ReadEvent::Local(self.local.get_image_color(image_url)))
    }

    /// Goes on with a color lookup once the remote cache has answered.
    pub fn color_from_remote(&mut self, image_url: &str, answer: Result<Option<Vec<u8>>, CacheError>) -> (r: Lookup<Vec<u8>>)
        ensures
            r == read_step_spec(ReadEvent::Remote(answer)),
            final(self).colors_view() == filled(old(self).colors_view(), image_url@, r),
            final(self).prefixes_view() == old(self).prefixes_view(),
            final(self).sessions_view() == old(self).sessions_view(),
            final(self).base() == old(self).base(),
            final(self).auth() == old(self).auth(),
    {
        let r = read_step(ReadEvent::Remote(answer));
        if let Lookup::Found { value, fill_local, .. } = &r {
            if *fill_local {
                self.local.set_image_color(image_url, value.clone());
            }
        }
        r
    }

    /// Goes on with a color lookup once the color has been derived from the
    /// image (or the derivation failed).
    pub fn color_from_source(&mut self, image_url: &str, answer: Result<Option<Vec<u8>>, StoreError>) -> (r: Lookup<Vec<u8>>)
        ensures
            r == read_step_spec(ReadEvent::Source(answer)),
            final(self).colors_view() == filled(old(self).colors_view(), image_url@, r),
            final(self).prefixes_view() == old(self).prefixes_view(),
            final(self).sessions_view() == old(self).sessions_view(),
            final(self).base() == old(self).base(),
            final(self).auth() == old(self).auth(),
    {
        let r = read_step(ReadEvent::Source(answer));
        if let Lookup::Found { value, fill_local, .. } = &r {
            if *fill_local {
                self.local.set_image_color(image_url, value.clone());
            }
        }
        r
    }

    /// Writes an image's color to the local tier, and gives the request that
    /// writes it to the remote cache under the hash of the URL.
    pub fn set_image_color(&mut self, image_url: &str, colors: &Vec<u8>) -> (r: CacheRequest)
        ensures
            final(self).colors_view() == old(self).colors_view().insert(image_url@, colors@),
            final(self).prefixes_view() == old(self).prefixes_view(),
            final(self).sessions_view() == old(self).sessions_view(),
            final(self).base() == old(self).base(),
            final(self).auth() == old(self).auth(),
            r.method == Method::Put,
            r.url@ == entry_url(old(self).base(), color_key_spec(image_url@), true),
            r.authorization@ == old(self).auth(),
    {
        self.local.set_image_color(image_url, colors.clone());
        let key = color_key(image_url);
        self.set(key.as_str(), true)
    }

    /// Drops every locally cached entry; the remote cache keeps its own.
    pub fn clear_local(&mut self)
        ensures
            final(self).prefixes_view() == no_prefixes(),
            final(self).sessions_view() == no_sessions(),
            final(self).colors_view() == no_colors(),
            final(self).base() == old(self).base(),
            final(self).auth() == old(self).auth(),
    {
        self.local.clear();
    }
}


/// After `set_prefix(guild_id, prefix)`, a lookup of that guild that the
/// local tier answers returns `prefix` at once: it asks neither the remote
/// cache nor the store and fills no tier. The local tier may also have
/// evicted the entry, in which case the lookup goes on to the remote cache.
pub proof fn set_then_get_is_local(
    before: Map<u64, Seq<char>>,
    guild_id: u64,
    prefix: Prefix,
    lookup: Lookup<Prefix>,
)
    requires
        local_lookup(before.insert(guild_id, prefix@), guild_id, lookup),
    ensures
        lookup is AskRemote || lookup == (Lookup::Found {
            value: lookup->value,
            fill_local: false,
            fill_remote: false,
        }),
        lookup is Found ==> lookup->value@ == prefix@,
{
}

/// Cache-aside fill: once the local tier has been cleared, a lookup asks the
/// remote cache; when the remote cache still holds `value`, the lookup
/// returns it without asking the store, and copies it into the local tier.
/// A second lookup that the local tier answers then returns `value` asking
/// no other tier.
pub proof fn refill_after_clear(
    guild_id: u64,
    value: Prefix,
    first: Lookup<Prefix>,
    second: Lookup<Prefix>,
)
    requires
        local_lookup(no_prefixes(), guild_id, first),
        local_lookup(
            filled(
                no_prefixes(),
                guild_id,
                read_step_spec(ReadEvent::Remote(Ok::<Option<Prefix>, CacheError>(Some(value)))),
            ),
            guild_id,
            second,
        ),
    ensures
        first is AskRemote,
        read_step_spec(ReadEvent::Remote(Ok::<Option<Prefix>, CacheError>(Some(value))))
            == (Lookup::Found { value: value, fill_local: true, fill_remote: false }),
        filled(
            no_prefixes(),
            guild_id,
            read_step_spec(ReadEvent::Remote(Ok::<Option<Prefix>, CacheError>(Some(value)))),
        ) == no_prefixes().insert(guild_id, value@),
        second is Found ==> second->value@ == value@ && !second->fill_local
            && !second->fill_remote,
{
}

} // verus!
