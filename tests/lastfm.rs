use tiered_data::lastfm::{
    default_album_text, default_image_url, get_session, get_user_session, handle_callback, Artist,
    Date, Image, ImageSizes, LastFmClient, LastFmError, LastFmSession, LastFmSessionResponse, Track,
    TrackAttr,
};
use tiered_data::now_playing::{current_track_rule, get_current_track, get_current_track_now, CurrentTrackRule};
use tiered_data::play_counts::{get_track_play_counts, PlayCounter};
use tiered_data::model::Lastfm;

const NOW: i64 = 1_700_000_000;
const DAY: i64 = 86_400;

fn track(name: &str, artist: &str, uts: Option<i64>, playing: Option<&str>) -> Track {
    Track {
        name: name.to_string(),
        artist: Artist { mbid: String::new(), text: artist.to_string() },
        attr: playing.map(|p| TrackAttr { nowplaying: Some(p.to_string()) }),
        mbid: String::new(),
        album: None,
        image: vec![],
        streamable: "0".to_string(),
        url: "https://www.last.fm/music/x".to_string(),
        date: uts.map(|t| Date { uts: t.to_string(), text: String::new() }),
    }
}

fn client() -> LastFmClient {
    LastFmClient::new("key", "secret", "https://bot.example.com/lastfm_callback")
}

#[test]
fn defaults() {
    assert_eq!(default_album_text(), "Unknown Album");
    assert_eq!(default_image_url(), "https://lastfm.freetls.fastly.net/i/u/64s/2a96cbd8b46e442fc41c2b86b821562f.png");
}

#[test]
fn auth_url() {
    assert_eq!(
        client().generate_auth_url("123"),
        "https://www.last.fm/api/auth/?api_key=key&cb=https://bot.example.com/lastfm_callback/123"
    );
}

#[test]
fn signature_sorts_by_key_and_appends_secret() {
    let params = [("method", "auth.getSession"), ("api_key", "key"), ("token", "tok")];
    assert_eq!(client().generate_signature(&params), "04e870be4bb79756721b7bc1937fe83d");
    let shuffled = [("token", "tok"), ("method", "auth.getSession"), ("api_key", "key")];
    assert_eq!(client().generate_signature(&shuffled), "04e870be4bb79756721b7bc1937fe83d");
}

#[test]
fn session_query_is_signed() {
    let q = client().get_session_params("tok");
    let pairs: Vec<(&str, &str)> = q.iter().map(|(k, v)| (k.as_str(), v.as_str())).collect();
    assert_eq!(
        pairs,
        vec![
            ("method", "auth.getSession"),
            ("api_key", "key"),
            ("token", "tok"),
            ("api_sig", "04e870be4bb79756721b7bc1937fe83d"),
            ("format", "json"),
        ]
    );
}

#[test]
fn other_queries() {
    let q = client().recent_tracks_params("rj", 200, 3);
    assert_eq!(q[3], ("limit".to_string(), "200".to_string()));
    assert_eq!(q[4], ("page".to_string(), "3".to_string()));
    assert_eq!(client().get_track_info("rj", "A", "T")[0].1, "track.getInfo");
    assert_eq!(client().get_user_info("rj")[1], ("user".to_string(), "rj".to_string()));
    assert_eq!(client().get_weekly_track_chart("rj")[0].1, "user.getWeeklyTrackChart");
}

#[test]
fn session_answers() {
    let ok = get_session(LastFmSessionResponse {
        session: Some(LastFmSession { name: "rj".to_string(), key: "k".to_string() }),
        error: None,
        message: None,
    });
    assert_eq!(ok.unwrap().name, "rj");
    let err = get_session(LastFmSessionResponse { session: None, error: Some(4), message: Some("Invalid token".to_string()) });
    assert!(matches!(err, Err(LastFmError::Upstream { code: 4, ref message }) if message == "Invalid token"));
    let bare = get_session(LastFmSessionResponse { session: None, error: Some(9), message: None });
    assert!(matches!(bare, Err(LastFmError::Upstream { code: 9, ref message }) if message.is_empty()));
    let missing = get_session(LastFmSessionResponse { session: None, error: None, message: None });
    assert!(matches!(missing, Err(LastFmError::MissingSession)));
}

#[test]
fn callback_builds_the_record() {
    let rec = handle_callback(LastFmSession { name: "rj".to_string(), key: "k".to_string() }, "tok", 77);
    assert_eq!((rec.user_id, rec.lastfm_username.as_str(), rec.session_key.as_str(), rec.token.as_str()), (77, "rj", "k", "tok"));
}

#[test]
fn unlinked_user() {
    assert!(matches!(get_user_session(None), Err(LastFmError::NotLinked)));
    let s = Lastfm { user_id: 1, lastfm_username: "a".to_string(), session_key: "b".to_string(), token: "c".to_string() };
    assert_eq!(get_user_session(Some(s)).unwrap().lastfm_username, "a");
}

#[test]
fn current_track_now_playing() {
    let tracks = vec![track("One", "A", None, Some("true")), track("Two", "B", Some(NOW - 1000), None)];
    let c = get_current_track(tracks, NOW).unwrap();
    assert_eq!(c.track.name, "One");
    assert_eq!(c.rule, CurrentTrackRule::NowPlaying);
}

#[test]
fn current_track_just_played() {
    let c = get_current_track(vec![track("One", "A", Some(NOW - 30), Some("false"))], NOW).unwrap();
    assert_eq!(c.track.name, "One");
    assert_eq!(c.rule, CurrentTrackRule::JustPlayed);
    let c = get_current_track(vec![track("One", "A", Some(NOW - 30), None)], NOW).unwrap();
    assert_eq!(c.rule, CurrentTrackRule::JustPlayed);
}

#[test]
fn current_track_falls_back_to_first() {
    let c = get_current_track(vec![track("One", "A", Some(NOW - 200), None), track("Two", "B", None, Some("true"))], NOW).unwrap();
    assert_eq!(c.track.name, "One");
    assert_eq!(c.rule, CurrentTrackRule::MostRecent);
    assert_eq!(current_track_rule(&track("x", "y", Some(NOW - 90), None), NOW), CurrentTrackRule::MostRecent);
    assert_eq!(current_track_rule(&track("x", "y", Some(NOW - 89), None), NOW), CurrentTrackRule::JustPlayed);
    let mut bad = track("x", "y", None, None);
    bad.date = Some(Date { uts: "soon".to_string(), text: String::new() });
    assert_eq!(current_track_rule(&bad, NOW), CurrentTrackRule::MostRecent);
}

#[test]
fn current_track_of_nothing() {
    assert!(get_current_track(vec![], NOW).is_none());
}

#[test]
fn image_variants() {
    let img = |size, url: &str| Image { size, text: url.to_string() };
    let images = vec![img(ImageSizes::Small, "s"), img(ImageSizes::Medium, "m"), img(ImageSizes::Large, "l"), img(ImageSizes::ExtraLarge, "x"), img(ImageSizes::Small, "s2")];
    assert_eq!(client().get_image_urls(&images).unwrap(), ("s", "l", "x"));
    let no_small = vec![img(ImageSizes::Large, "l"), img(ImageSizes::ExtraLarge, "x")];
    assert!(matches!(client().get_image_urls(&no_small), Err(LastFmError::MissingImage(ImageSizes::Small))));
    let no_large = vec![img(ImageSizes::Small, "s"), img(ImageSizes::ExtraLarge, "x")];
    assert!(matches!(client().get_image_urls(&no_large), Err(LastFmError::MissingImage(ImageSizes::Large))));
    let no_xl = vec![img(ImageSizes::Small, "s"), img(ImageSizes::Large, "l")];
    assert!(matches!(client().get_image_urls(&no_xl), Err(LastFmError::MissingImage(ImageSizes::ExtraLarge))));
}

#[test]
fn usage_aggregation_three_pages() {
    let page1: Vec<Track> = (0..200).map(|_| track("Song", "Band", Some(NOW - 2 * DAY), None)).collect();
    let mut page2: Vec<Track> = (0..50).map(|_| track("SONG", "band", Some(NOW - 10 * DAY), None)).collect();
    page2.extend((0..150).map(|_| track("Other", "Band", Some(NOW - 10 * DAY), None)));
    let mut page3: Vec<Track> = (0..5).map(|_| track("Song", "Band", Some(NOW - 20 * DAY), None)).collect();
    page3.extend((0..195).map(|_| track("Song", "Band", Some(NOW - 40 * DAY), None)));
    let page4: Vec<Track> = (0..200).map(|_| track("Song", "Band", Some(NOW - 2 * DAY), None)).collect();
    let (weekly, monthly, read) = get_track_play_counts(&vec![page1, page2, page3, page4], "band", "song", NOW);
    assert_eq!(weekly, 200);
    assert_eq!(monthly, 255);
    assert_eq!(read, 3);
}

#[test]
fn usage_aggregation_short_page_stops() {
    let page1: Vec<Track> = (0..3).map(|_| track("Song", "Band", Some(NOW - DAY), None)).collect();
    let page2: Vec<Track> = (0..3).map(|_| track("Song", "Band", Some(NOW - DAY), None)).collect();
    assert_eq!(get_track_play_counts(&vec![page1, page2], "Band", "Song", NOW), (3, 3, 1));
}

#[test]
fn usage_counter_skips_untimed_and_pages() {
    let mut counter = PlayCounter::new("Band", "Song", NOW);
    assert_eq!(counter.next_page(), 1);
    let mut page: Vec<Track> = vec![track("Song", "Band", None, Some("true"))];
    page.extend((0..199).map(|_| track("Song", "Band", Some(NOW - 8 * DAY), None)));
    assert_eq!(counter.absorb_page(&page), Some(2));
    assert_eq!(counter.counts(), (0, 199));
    assert_eq!(counter.absorbed(), 200);
    let last = vec![track("Song", "Band", Some(NOW - 31 * DAY), None), track("Song", "Band", Some(NOW - DAY), None)];
    assert_eq!(counter.absorb_page(&last), None);
    assert_eq!(counter.counts(), (0, 199));
}

#[test]
fn current_track_at_the_real_time() {
    let c = get_current_track_now(vec![track("One", "A", None, Some("true"))]).unwrap();
    assert_eq!(c.rule, CurrentTrackRule::NowPlaying);
    let c = get_current_track_now(vec![track("Old", "A", Some(1_000), None)]).unwrap();
    assert_eq!(c.rule, CurrentTrackRule::MostRecent);
    assert!(get_current_track_now(vec![]).is_none());
}

#[test]
fn usage_matching_is_exact_but_case_blind() {
    let page = vec![
        track("creep", "RADIOHEAD", Some(NOW - DAY), None),
        track("Creep", "Radiohead ", Some(NOW - DAY), None),
        track("Creep - Remastered", "Radiohead", Some(NOW - DAY), None),
        track("Creep", "Radiohead", None, Some("true")),
    ];
    assert_eq!(get_track_play_counts(&vec![page.clone()], "Radiohead", "Creep", NOW), (1, 1, 1));
    assert_eq!(get_track_play_counts(&vec![page], "radiohead", "CREEP", NOW), (1, 1, 1));
}
