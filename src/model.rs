//! The entities kept per guild and per user, and the rows of the relational
//! store.

use vstd::prelude::*;
use vstd::utf8::encode_utf8;

verus! {

/// The view of an optional value.
pub open spec fn opt_view<T: View>(o: Option<T>) -> Option<T::V> {
    match o {
        Some(v) => Some(v@),
        None => None,
    }
}

/// A guild's command prefix. One per guild, keyed by the guild's id.
#[derive(Clone)]
pub struct Prefix {
    /// The prefix string itself.
    pub prefix: String,
}

impl View for Prefix {
    type V = Seq<char>;

    open spec fn view(&self) -> Seq<char> {
        self.prefix@
    }
}

impl Prefix {
    /// A prefix holding the same text.
    pub fn duplicate(&self) -> (r: Prefix)
        ensures
            r@ == self@,
    {
        Prefix { prefix: self.prefix.clone() }
    }

    /// The size of the prefix text in bytes.
    #[must_use]
    pub fn size_of(&self) -> (r: u64)
        requires
            encode_utf8(self.prefix@).len() <= usize::MAX,
        ensures
            r as nat == encode_utf8(self.prefix@).len(),
    {
        self.prefix.as_str().len() as u64
    }
}

/// The abstract value of a linked scrobble account: user id, external user
/// name, session key and token.
pub type SessionView = (i64, Seq<char>, Seq<char>, Seq<char>);

/// A user's link to the scrobble service. The session key and the token are
/// secrets.
#[derive(Clone)]
pub struct Lastfm {
    /// The chat user's id.
    pub user_id: i64,
    /// The user's name on the scrobble service.
    pub lastfm_username: String,
    /// The session key handed out by the scrobble service.
    pub session_key: String,
    /// The one-time token the session was obtained with.
    pub token: String,
}

impl View for Lastfm {
    type V = SessionView;

    open spec fn view(&self) -> SessionView {
        (self.user_id, self.lastfm_username@, self.session_key@, self.token@)
    }
}

impl Lastfm {
    /// A session holding the same values.
    pub fn duplicate(&self) -> (r: Lastfm)
        ensures
            r@ == self@,
    {
        Lastfm {
            user_id: self.user_id,
            lastfm_username: self.lastfm_username.clone(),
            session_key: self.session_key.clone(),
            token: self.token.clone(),
        }
    }
}

/// The average color computed for an image, keyed by the image's URL.
#[derive(Clone)]
pub struct Colors {
    pub image_url: String,
    pub colors: Vec<u8>,
}

/// How often a command has been used.
pub struct CommandUsage {
    /// The name of the command.
    pub command_name: String,
    /// The number of times the command has been used.
    pub uses: i32,
}

/// A count returned by an aggregate query.
pub struct Count {
    pub count: i64,
}

/// The size of the database, as the store renders it.
pub struct DatabaseSize {
    pub size: String,
}

} // verus!
