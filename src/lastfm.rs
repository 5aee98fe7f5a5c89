//! The scrobble service's answers, the client's credentials and queries,
//! reading the session answer and picking image variants. Sending the
//! requests and decoding their JSON is left to the caller.

use vstd::prelude::*;
use crate::key_codec::{is_lower_hex, md5_hex};
use crate::model::Lastfm;
use crate::signing::{pairs_view, sign, signature_base};
use crate::text::{decimal, parse_i64, parsed_i64, push_decimal};

verus! {

/// The answer to a session request: a session, or an error code and message.
#[derive(Debug)]
pub struct LastFmSessionResponse {
    pub session: Option<LastFmSession>,
    pub error: Option<i32>,
    pub message: Option<String>,
}

/// A session of the scrobble service: the user's name and the session key.
#[derive(Debug)]
pub struct LastFmSession {
    pub name: String,
    pub key: String,
}

/// The answer to a recent-tracks request.
#[derive(Debug)]
pub struct LastFmRecentTracksResponse {
    pub recenttracks: RecentTracks,
}

/// A page of recent scrobbles, newest first.
#[derive(Debug)]
pub struct RecentTracks {
    pub track: Vec<Track>,
}

/// The artist of a chart entry.
#[derive(Debug, Clone)]
pub struct TrackArtist {
    pub name: String,
}

/// A scrobbled track.
#[derive(Debug, Clone)]
pub struct Track {
    pub name: String,
    pub artist: Artist,
    pub attr: Option<TrackAttr>,
    pub mbid: String,
    pub album: Option<Album>,
    pub image: Vec<Image>,
    pub streamable: String,
    pub url: String,
    pub date: Option<Date>,
}

/// The album of a track.
#[derive(Debug, Clone)]
pub struct Album {
    pub mbid: String,
    pub text: String,
}

/// The size tag of an image variant.
#[derive(Debug, Clone, Copy, PartialEq, Eq, Structural)]
pub enum ImageSizes {
    Small,
    Medium,
    Large,
    ExtraLarge,
}

/// One sized variant of an image.
#[derive(Debug, Clone)]
pub struct Image {
    pub size: ImageSizes,
    pub text: String,
}

/// The artist of a track.
#[derive(Debug, Clone)]
pub struct Artist {
    pub mbid: String,
    pub text: String,
}

/// The attributes of a scrobble; `nowplaying` is `"true"` while it plays.
#[derive(Debug, Clone)]
pub struct TrackAttr {
    pub nowplaying: Option<String>,
}

/// When a track was scrobbled: seconds since the epoch, and as text.
#[derive(Debug, Clone)]
pub struct Date {
    pub uts: String,
    pub text: String,
}

/// The answer to a track-info request.
#[derive(Debug)]
pub struct LastFmTrackInfoResponse {
    pub track: TrackInfo,
}

/// Play counts of a track: overall, and by the user.
#[derive(Debug)]
pub struct TrackInfo {
    pub playcount: String,
    pub userplaycount: String,
}

/// A user's profile and totals.
#[derive(Debug)]
pub struct UserInfo {
    pub name: String,
    pub realname: String,
    pub playcount: String,
    pub artist_count: String,
    pub album_count: String,
    pub country: String,
    pub url: String,
    pub image: Vec<Image>,
}

/// The answer to a user-info request.
#[derive(Debug)]
pub struct LastFmUserInfoResponse {
    pub user: UserInfo,
}

/// The answer to a weekly-chart-list request.
#[derive(Debug)]
pub struct WeeklyChartListResponse {
    pub weekly_chart_list: WeeklyChartList,
}

/// The weeks for which charts exist.
#[derive(Debug)]
pub struct WeeklyChartList {
    pub charts: Vec<ChartRange>,
}

/// One chart week, as epoch seconds.
#[derive(Debug)]
pub struct ChartRange {
    pub from: String,
    pub to: String,
}

/// The answer to a weekly-track-chart request.
#[derive(Debug)]
pub struct WeeklyTrackChartResponse {
    pub weekly_track_chart: WeeklyTrackChart,
}

/// A user's weekly track chart.
#[derive(Debug)]
pub struct WeeklyTrackChart {
    pub track: Vec<WeeklyTrack>,
}

/// One entry of a weekly track chart.
#[derive(Debug, Clone)]
pub struct WeeklyTrack {
    pub name: String,
    pub playcount: String,
    pub artist: TrackArtist,
}

/// The album name used when an album has none.
pub open spec fn default_album_spec() -> Seq<char> {
    "Unknown Album"@
}

/// The placeholder image of the scrobble service.
pub open spec fn default_image_spec() -> Seq<char> {
    "https://lastfm.freetls.fastly.net/i/u/64s/2a96cbd8b46e442fc41c2b86b821562f.png"@
}

/// The album name used when an album has none.
pub fn default_album_text() -> (r: String)
    ensures
        r@ == default_album_spec(),
{
    String::from_str("Unknown Album")
}

/// The placeholder image URL of the scrobble service.
pub fn default_image_url() -> (r: String)
    ensures
        r@ == default_image_spec(),
{
    String::from_str("https://lastfm.freetls.fastly.net/i/u/64s/2a96cbd8b46e442fc41c2b86b821562f.png")
}

/// Why a call to the scrobble service gave no result.
#[derive(Debug)]
pub enum LastFmError {
    /// The user has not linked an account.
    NotLinked,
    /// The service answered with an error code and message.
    Upstream { code: i32, message: String },
    /// The service's answer lacks the session.
    MissingSession,
    /// No image variant of the given size.
    MissingImage(ImageSizes),
}

/// The pairs of an owned query, as text.
pub open spec fn query_view(q: Seq<(String, String)>) -> Seq<(Seq<char>, Seq<char>)> {
    q.map_values(|p: (String, String)| (p.0@, p.1@))
}

fn pair(k: &str, v: &str) -> (r: (String, String))
    ensures
        r.0@ == k@,
        r.1@ == v@,
{
    (String::from_str(k), String::from_str(v))
}

/// Client of the scrobble service: the application's key and secret, and
/// where the service sends users back after they authorise it.
pub struct LastFmClient {
    api_key: String,
    api_secret: String,
    redirect_uri: String,
}

/// `{base}/?api_key={key}&cb={redirect}/{user}`.
pub open spec fn auth_url(key: Seq<char>, redirect: Seq<char>, user: Seq<char>) -> Seq<char> {
    "https://www.last.fm/api/auth/?api_key="@ + key + "&cb="@ + redirect + "/"@ + user
}

impl LastFmClient {
    /// The application's key.
    pub closed spec fn key(&self) -> Seq<char> {
        self.api_key@
    }

    /// The shared secret that signs requests.
    pub closed spec fn secret(&self) -> Seq<char> {
        self.api_secret@
    }

    /// Where users are sent back after authorising the application.
    pub closed spec fn redirect(&self) -> Seq<char> {
        self.redirect_uri@
    }

    /// A client with the given credentials.
    pub fn new(api_key: &str, api_secret: &str, redirect_uri: &str) -> (r: LastFmClient)
        ensures
            r.key() == api_key@,
            r.secret() == api_secret@,
            r.redirect() == redirect_uri@,
    {
        LastFmClient {
            api_key: String::from_str(api_key),
            api_secret: String::from_str(api_secret),
            redirect_uri: String::from_str(redirect_uri),
        }
    }

    /// The page where a chat user authorises the application; the service
    /// then calls back `{redirect}/{user id}`.
    pub fn generate_auth_url(&self, discord_user_id: &str) -> (r: String)
        ensures
            r@ == auth_url(self.key(), self.redirect(), discord_user_id@),
    {
        let mut s = String::from_str("https://www.last.fm/api/auth/?api_key=");
        s.append(self.api_key.as_str());
        s.append("&cb=");
        s.append(self.redirect_uri.as_str());
        s.append("/");
        s.append(discord_user_id);
        s
    }

    /// The signature of a request with this client's secret.
    pub fn generate_signature(&self, params: &[(&str, &str)]) -> (r: String)
        ensures
            r@ == md5_hex(signature_base(pairs_view(params@), self.secret())),
            r@.len() == 32,
            forall|i: int| 0 <= i < r@.len() ==> #[trigger] is_lower_hex(r@[i]),
    {
        sign(params, self.api_secret.as_str())
    }

    /// The query that exchanges a one-time token for a session: method,
    /// key and token, the signature of those three, and the JSON format.
    pub fn get_session_params(&self, token: &str) -> (r: Vec<(String, String)>)
        ensures
            query_view(r@) == seq![
                ("method"@, "auth.getSession"@),
                ("api_key"@, self.key()),
                ("token"@, token@),
                ("api_sig"@, md5_hex(signature_base(seq![
                    ("method"@, "auth.getSession"@),
                    ("api_key"@, self.key()),
                    ("token"@, token@),
                ], self.secret()))),
                ("format"@, "json"@),
            ],
    {
        let signed = [("method", "auth.getSession"), ("api_key", self.api_key.as_str()), ("token", token)];
        let signature = self.generate_signature(&signed);
        assert(pairs_view(signed@) =~= seq![
            ("method"@, "auth.getSession"@),
            ("api_key"@, self.key()),
            ("token"@, token@),
        ]);
        let r = vec![
            pair("method", "auth.getSession"),
            pair("api_key", self.api_key.as_str()),
            pair("token", token),
            pair("api_sig", signature.as_str()),
            pair("format", "json"),
        ];
        assert(query_view(r@) =~= seq![
            ("method"@, "auth.getSession"@),
            ("api_key"@, self.key()),
            ("token"@, token@),
            ("api_sig"@, signature@),
            ("format"@, "json"@),
        ]);
        r
    }

    /// The query for the latest `limit` scrobbles of a user, page `page`.
    pub fn recent_tracks_params(&self, username: &str, limit: u64, page: u64) -> (r: Vec<(String, String)>)
        ensures
            query_view(r@) == seq![
                ("method"@, "user.getRecentTracks"@),
                ("user"@, username@),
                ("api_key"@, self.key()),
                ("limit"@, decimal(limit as nat)),
                ("page"@, decimal(page as nat)),
                ("format"@, "json"@),
            ],
    {
        let mut limit_text = String::new();
        push_decimal(&mut limit_text, limit);
        let mut page_text = String::new();
        push_decimal(&mut page_text, page);
        let r = vec![
            pair("method", "user.getRecentTracks"),
            pair("user", username),
            pair("api_key", self.api_key.as_str()),
            (String::from_str("limit"), limit_text),
            (String::from_str("page"), page_text),
            pair("format", "json"),
        ];
        assert(query_view(r@) =~= seq![
            ("method"@, "user.getRecentTracks"@),
            ("user"@, username@),
            ("api_key"@, self.key()),
            ("limit"@, decimal(limit as nat)),
            ("page"@, decimal(page as nat)),
            ("format"@, "json"@),
        ]);
        r
    }

    /// The query for a user's play counts of a track.
    pub fn get_track_info(&self, username: &str, artist: &str, track_name: &str) -> (r: Vec<(String, String)>)
        ensures
            query_view(r@) == seq![
                ("method"@, "track.getInfo"@),
                ("artist"@, artist@),
                ("track"@, track_name@),
                ("username"@, username@),
                ("api_key"@, self.key()),
                ("format"@, "json"@),
            ],
    {
        let r = vec![
            pair("method", "track.getInfo"),
            pair("artist", artist),
            pair("track", track_name),
            pair("username", username),
            pair("api_key", self.api_key.as_str()),
            pair("format", "json"),
        ];
        assert(query_view(r@) =~= seq![
            ("method"@, "track.getInfo"@),
            ("artist"@, artist@),
            ("track"@, track_name@),
            ("username"@, username@),
            ("api_key"@, self.key()),
            ("format"@, "json"@),
        ]);
        r
    }

    /// The query for a user's profile and totals.
    pub fn get_user_info(&self, username: &str) -> (r: Vec<(String, String)>)
        ensures
            query_view(r@) == seq![
                ("method"@, "user.getInfo"@),
                ("user"@, username@),
                ("api_key"@, self.key()),
                ("format"@, "json"@),
            ],
    {
        let r = vec![
            pair("method", "user.getInfo"),
            pair("user", username),
            pair("api_key", self.api_key.as_str()),
            pair("format", "json"),
        ];
        assert(query_view(r@) =~= seq![
            ("method"@, "user.getInfo"@),
            ("user"@, username@),
            ("api_key"@, self.key()),
            ("format"@, "json"@),
        ]);
        r
    }

    /// The query for a user's weekly track chart.
    pub fn get_weekly_track_chart(&self, username: &str) -> (r: Vec<(String, String)>)
        ensures
            query_view(r@) == seq![
                ("method"@, "user.getWeeklyTrackChart"@),
                ("user"@, username@),
                ("api_key"@, self.key()),
                ("format"@, "json"@),
            ],
    {
        let r = vec![
            pair("method", "user.getWeeklyTrackChart"),
            pair("user", username),
            pair("api_key", self.api_key.as_str()),
            pair("format", "json"),
        ];
        assert(query_view(r@) =~= seq![
            ("method"@, "user.getWeeklyTrackChart"@),
            ("user"@, username@),
            ("api_key"@, self.key()),
            ("format"@, "json"@),
        ]);
        r
    }
}

/// What a session answer says: the service's error when it reports one (its
/// message, or nothing, verbatim), else the session, else that the session is
/// missing.
pub fn get_session(response: LastFmSessionResponse) -> (r: Result<LastFmSession, LastFmError>)
    ensures
        match response.error {
            Some(code) => r matches Err(LastFmError::Upstream { code: c, message: m }) && c == code
                && m@ == match response.message {
                Some(t) => t@,
                None => Seq::<char>::empty(),
            },
            None => match response.session {
                Some(s) => r matches Ok(t) && t.name@ == s.name@ && t.key@ == s.key@,
                None => r matches Err(LastFmError::MissingSession),
            },
        },
{
    match response.error {
        Some(code) => {
            let message = match response.message {
                Some(t) => t,
                None => String::new(),
            };
            Err(LastFmError::Upstream { code, message })
        },
        None => match response.session {
            Some(s) => Ok(s),
            None => Err(LastFmError::MissingSession),
        },
    }
}

/// The record stored once a user has authorised the application: the
/// session's user name and key, and the token it was obtained with.
pub fn handle_callback(session: LastFmSession, token: &str, user_id: u64) -> (r: Lastfm)
    ensures
        r.user_id == user_id as i64,
        r.lastfm_username@ == session.name@,
        r.session_key@ == session.key@,
        r.token@ == token@,
{
    Lastfm {
        user_id: user_id as i64,
        lastfm_username: session.name,
        session_key: session.key,
        token: String::from_str(token),
    }
}

/// The session of a user, or `NotLinked` when the user has none.
pub fn get_user_session(cached: Option<Lastfm>) -> (r: Result<Lastfm, LastFmError>)
    ensures
        match cached {
            Some(s) => r == Ok::<Lastfm, LastFmError>(s),
            None => r matches Err(LastFmError::NotLinked),
        },
{
    match cached {
        Some(s) => Ok(s),
        None => Err(LastFmError::NotLinked),
    }
}


/// When `t` was scrobbled, if it carries a timestamp that parses.
pub open spec fn scrobble_time(t: Track) -> Option<i64> {
    match t.date {
        Some(d) => parsed_i64(d.uts@),
        None => None,
    }
}

/// The time of a scrobble, if it carries one that parses.
pub fn track_time(t: &Track) -> (r: Option<i64>)
    ensures
        r == scrobble_time(*t),
{
    match &t.date {
        Some(d) => parse_i64(d.uts.as_str()),
        None => None,
    }
}

/// The URL of the first image variant of the given size.
pub open spec fn first_text(images: Seq<Image>, size: ImageSizes) -> Option<Seq<char>>
    decreases images.len(),
{
    if images.len() == 0 {
        None
    } else if images[0].size == size {
        Some(images[0].text@)
    } else {
        first_text(images.drop_first(), size)
    }
}

fn find_size<'a>(images: &'a [Image], size: ImageSizes) -> (r: Option<&'a str>)
    ensures
        match first_text(images@, size) {
            Some(t) => r matches Some(u) && u@ == t,
            None => r is None,
        },
{
    let mut i: usize = 0;
    assert(images@.subrange(0, images@.len() as int) =~= images@);
    while i < images.len()
        invariant
            i <= images@.len(),
            first_text(images@.subrange(i as int, images@.len() as int), size) == first_text(
                images@,
                size,
            ),
        decreases images@.len() - i,
    {
        let ghost rest = images@.subrange(i as int, images@.len() as int);
        assert(rest.drop_first() =~= images@.subrange(i + 1, images@.len() as int));
        if images[i].size == size {
            return Some(images[i].text.as_str());
        }
        i = i + 1;
    }
    None
}

impl LastFmClient {
    /// The small, large and extra-large variants of an image, each the first
    /// of its size; a size that is missing is an error naming it (looked for in
    /// that order).
    pub fn get_image_urls<'a>(&self, images: &'a [Image]) -> (r: Result<(&'a str, &'a str, &'a str), LastFmError>)
        ensures
            match (
                first_text(images@, ImageSizes::Small),
                first_text(images@, ImageSizes::Large),
                first_text(images@, ImageSizes::ExtraLarge),
            ) {
                (Some(s), Some(l), Some(x)) => r matches Ok(u) && u.0@ == s && u.1@ == l && u.2@
                    == x,
                (None, _, _) => r matches Err(LastFmError::MissingImage(ImageSizes::Small)),
                (Some(_), None, _) => r matches Err(LastFmError::MissingImage(ImageSizes::Large)),
                (Some(_), Some(_), None) => r matches Err(
                    LastFmError::MissingImage(ImageSizes::ExtraLarge),
                ),
            },
    {
        let small = match find_size(images, ImageSizes::Small) {
            Some(u) => u,
            None => return Err(LastFmError::MissingImage(ImageSizes::Small)),
        };
        let large = match find_size(images, ImageSizes::Large) {
            Some(u) => u,
            None => return Err(LastFmError::MissingImage(ImageSizes::Large)),
        };
        let extra_large = match find_size(images, ImageSizes::ExtraLarge) {
            Some(u) => u,
            None => return Err(LastFmError::MissingImage(ImageSizes::ExtraLarge)),
        };
        Ok((small, large, extra_large))
    }
}


} // verus!
