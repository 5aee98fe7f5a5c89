//! Which of the most recent scrobbles is the current track, and why.

use vstd::prelude::*;
use crate::lastfm::{scrobble_time, track_time, Track};
use crate::text::str_eq;

verus! {

/// How long a track stays current after its scrobble, in seconds.
pub const JUST_PLAYED_SECS: i64 = 90;

/// Which rule picked the current track.
#[derive(Debug, Clone, Copy, PartialEq, Eq, Structural)]
pub enum CurrentTrackRule {
    /// The service marks the track as playing now.
    NowPlaying,
    /// It was scrobbled less than 90 seconds ago: still playing, or paused.
    JustPlayed,
    /// Neither: it is simply the most recent scrobble.
    MostRecent,
}

/// The current track and the rule that picked it.
#[derive(Debug)]
pub struct CurrentTrack {
    pub track: Track,
    pub rule: CurrentTrackRule,
}

/// The service marks `t` as playing now.
pub open spec fn now_playing_flag(t: Track) -> bool {
    t.attr matches Some(a) && a.nowplaying matches Some(s) && s@ == "true"@
}

/// The rule that applies to the most recent scrobble `first` at time `now`.
pub open spec fn rule_of(first: Track, now: i64) -> CurrentTrackRule {
    if now_playing_flag(first) {
        CurrentTrackRule::NowPlaying
    } else if scrobble_time(first) matches Some(ts) && (now as int) - (ts as int)
        < JUST_PLAYED_SECS {
        CurrentTrackRule::JustPlayed
    } else {
        CurrentTrackRule::MostRecent
    }
}

/// Which rule makes `first`, the most recent scrobble, the current track at
/// time `now` (seconds since the epoch).
pub fn current_track_rule(first: &Track, now: i64) -> (r: CurrentTrackRule)
    ensures
        r == rule_of(*first, now),
{
    let playing = match &first.attr {
        Some(a) => match &a.nowplaying {
            Some(flag) => str_eq(flag.as_str(), "true"),
            None => false,
        },
        None => false,
    };
    if playing {
        return CurrentTrackRule::NowPlaying;
    }
    match track_time(first) {
        Some(ts) => {
            if (now as i128) - (ts as i128) < JUST_PLAYED_SECS as i128 {
                CurrentTrackRule::JustPlayed
            } else {
                CurrentTrackRule::MostRecent
            }
        },
        None => CurrentTrackRule::MostRecent,
    }
}

/// The current track among the most recent scrobbles, newest first: the
/// first one, if any, with the rule that applies to it at time `now`.
pub fn get_current_track(tracks: Vec<Track>, now: i64) -> (r: Option<CurrentTrack>)
    ensures
        tracks@.len() == 0 ==> r is None,
        tracks@.len() > 0 ==> (r matches Some(c) && c.track == tracks@[0] && c.rule == rule_of(
            tracks@[0],
            now,
        )),
{
    let mut tracks = tracks;
    if tracks.len() == 0 {
        return None;
    }
    let first = tracks.remove(0);
    let rule = current_track_rule(&first, now);
    Some(CurrentTrack { track: first, rule })
}

/// Relies on `chrono::Utc::now` and `DateTime::timestamp`: the time now, in
/// seconds since the epoch. Nothing is known of its value.
#[verifier::external_body]
fn unix_now() -> i64 {
    chrono::Utc::now().timestamp()
}

/// The current track at the time of the call.
pub fn get_current_track_now(tracks: Vec<Track>) -> (r: Option<CurrentTrack>)
    ensures
        tracks@.len() == 0 ==> r is None,
        tracks@.len() > 0 ==> (r matches Some(c) && c.track == tracks@[0] && exists|now: i64|
            c.rule == rule_of(tracks@[0], now)),
{
    get_current_track(tracks, unix_now())
}

} // verus!
