//! Counting the recent plays of one track over pages of scrobbles, newest
//! first, within seven and within thirty days.

use vstd::prelude::*;
use crate::lastfm::{scrobble_time, track_time, Track};
use crate::text::{eq_ignore_ascii_case, str_eq_ignore_ascii_case};

verus! {

/// The number of scrobbles asked for per page when counting plays.
pub const PAGE_SIZE: usize = 200;

/// Seven days, in seconds.
pub const WEEK_SECS: i64 = 604_800;

/// Thirty days, in seconds.
pub const MONTH_SECS: i64 = 2_592_000;

/// `t` was scrobbled more than thirty days before `now`.
pub open spec fn is_old(t: Track, now: i64) -> bool {
    scrobble_time(t) matches Some(ts) && (now as int) - (ts as int) > MONTH_SECS
}

/// `t` has a timestamp and is a play of `title` by `artist`, ignoring the
/// case of ASCII letters.
pub open spec fn is_play_of(t: Track, artist: Seq<char>, title: Seq<char>) -> bool {
    &&& scrobble_time(t) is Some
    &&& eq_ignore_ascii_case(t.artist.text@, artist)
    &&& eq_ignore_ascii_case(t.name@, title)
}

/// `t` was scrobbled at most seven days before `now`.
pub open spec fn in_week(t: Track, now: i64) -> bool {
    scrobble_time(t) matches Some(ts) && (now as int) - (ts as int) <= WEEK_SECS
}

/// The plays of `title` by `artist` among scrobbles `ts`, newest first, up to
/// the first one older than thirty days: how many fall within seven days,
/// how many within thirty, and whether an older one was reached.
pub open spec fn tally(ts: Seq<Track>, now: i64, artist: Seq<char>, title: Seq<char>) -> (nat, nat, bool)
    decreases ts.len(),
{
    if ts.len() == 0 {
        (0, 0, false)
    } else {
        let prev = tally(ts.drop_last(), now, artist, title);
        let t = ts.last();
        if prev.2 || is_old(t, now) {
            (prev.0, prev.1, true)
        } else if is_play_of(t, artist, title) {
            (prev.0 + if in_week(t, now) { 1nat } else { 0nat }, prev.1 + 1, false)
        } else {
            prev
        }
    }
}

/// Once a scrobble older than thirty days has been reached, later scrobbles
/// change nothing: neither count, whatever they hold.
pub proof fn counts_stop_at_cutoff(
    a: Seq<Track>,
    b: Seq<Track>,
    now: i64,
    artist: Seq<char>,
    title: Seq<char>,
)
    requires
        tally(a, now, artist, title).2,
    ensures
        tally(a + b, now, artist, title) == tally(a, now, artist, title),
    decreases b.len(),
{
    if b.len() > 0 {
        counts_stop_at_cutoff(a, b.drop_last(), now, artist, title);
        assert((a + b).drop_last() =~= a + b.drop_last());
    } else {
        assert(a + b =~= a);
    }
}

/// Plays within seven days are among the plays within thirty days, which are
/// among the scrobbles.
pub proof fn weekly_within_monthly(ts: Seq<Track>, now: i64, artist: Seq<char>, title: Seq<char>)
    ensures
        tally(ts, now, artist, title).0 <= tally(ts, now, artist, title).1,
        tally(ts, now, artist, title).1 <= ts.len(),
    decreases ts.len(),
{
    if ts.len() > 0 {
        weekly_within_monthly(ts.drop_last(), now, artist, title);
    }
}

/// Counts the recent plays of one track, page by page of scrobbles, newest
/// first. Paging stops at the first scrobble older than thirty days, or at a
/// page shorter than `PAGE_SIZE`.
pub struct PlayCounter {
    artist: String,
    title: String,
    now: i64,
    weekly: u64,
    monthly: u64,
    reached_cutoff: bool,
    next_page: u64,
    finished: bool,
    absorbed: u64,
    seen: Ghost<Seq<Track>>,
}

impl PlayCounter {
    /// The counts agree with the scrobbles seen so far.
    pub closed spec fn wf(&self) -> bool {
        &&& (self.weekly as nat, self.monthly as nat, self.reached_cutoff) == tally(
            self.seen@,
            self.now,
            self.artist@,
            self.title@,
        )
        &&& self.weekly <= self.monthly
        &&& self.monthly <= self.absorbed
        &&& self.absorbed == self.seen@.len()
        &&& 1 <= self.next_page <= self.absorbed + 1
    }

    /// The scrobbles counted so far, newest first.
    pub closed spec fn seen(&self) -> Seq<Track> {
        self.seen@
    }

    /// The artist whose plays are counted.
    pub closed spec fn artist(&self) -> Seq<char> {
        self.artist@
    }

    /// The title whose plays are counted.
    pub closed spec fn title(&self) -> Seq<char> {
        self.title@
    }

    /// The time the ages of scrobbles are measured from.
    pub closed spec fn now(&self) -> i64 {
        self.now
    }

    /// Whether no further page is wanted.
    pub closed spec fn is_finished(&self) -> bool {
        self.finished
    }

    /// The page that is wanted next, counting from one.
    pub closed spec fn page(&self) -> u64 {
        self.next_page
    }

    /// A counter of the plays of `title` by `artist`, ages measured from
    /// `now`; it wants page one first.
    pub fn new(artist: &str, title: &str, now: i64) -> (r: PlayCounter)
        ensures
            r.wf(),
            r.seen() == Seq::<Track>::empty(),
            r.artist() == artist@,
            r.title() == title@,
            r.now() == now,
            !r.is_finished(),
            r.page() == 1,
    {
        PlayCounter {
            artist: String::from_str(artist),
            title: String::from_str(title),
            now,
            weekly: 0,
            monthly: 0,
            reached_cutoff: false,
            next_page: 1,
            finished: false,
            absorbed: 0,
            seen: Ghost(Seq::empty()),
        }
    }

    /// The number of scrobbles counted so far.
    pub fn absorbed(&self) -> (r: u64)
        requires
            self.wf(),
        ensures
            r == self.seen().len(),
    {
        self.absorbed
    }

    /// The page that is wanted next.
    pub fn next_page(&self) -> (r: u64)
        ensures
            r == self.page(),
    {
        self.next_page
    }

    /// The plays within seven days and within thirty days among the scrobbles
    /// counted so far.
    pub fn counts(&self) -> (r: (u64, u64))
        requires
            self.wf(),
        ensures
            r.0 as nat == tally(self.seen(), self.now(), self.artist(), self.title()).0,
            r.1 as nat == tally(self.seen(), self.now(), self.artist(), self.title()).1,
    {
        (self.weekly, self.monthly)
    }

    /// Counts one page of scrobbles, newest first, and says which page to
    /// fetch next: none once a scrobble older than thirty days has been met
    /// or the page is shorter than `PAGE_SIZE`.
    pub fn absorb_page(&mut self, page: &Vec<Track>) -> (r: Option<u64>)
        requires
            old(self).wf(),
            !old(self).is_finished(),
            old(self).seen().len() + page@.len() < u64::MAX,
        ensures
            final(self).wf(),
            final(self).seen() == old(self).seen() + page@,
            final(self).artist() == old(self).artist(),
            final(self).title() == old(self).title(),
            final(self).now() == old(self).now(),
            r == if tally(final(self).seen(), old(self).now(), old(self).artist(), old(self).title()).2
                || page@.len() < PAGE_SIZE {
                None
            } else {
                Some((old(self).page() + 1) as u64)
            },
            final(self).is_finished() == r is None,
            r matches Some(p) ==> final(self).page() == p,
    {
        let mut i: usize = 0;
        let ghost start = self.seen@;
        while i < page.len()
            invariant
                i <= page@.len(),
                self.seen@ == start + page@.subrange(0, i as int),
                (self.weekly as nat, self.monthly as nat, self.reached_cutoff) == tally(
                    self.seen@,
                    self.now,
                    self.artist@,
                    self.title@,
                ),
                self.weekly <= self.monthly,
                self.monthly <= self.absorbed,
                self.absorbed == self.seen@.len(),
                start.len() + page@.len() < u64::MAX,
                1 <= self.next_page <= start.len() + 1,
                !self.finished,
                self.artist == old(self).artist,
                self.title == old(self).title,
                self.now == old(self).now,
                self.next_page == old(self).next_page,
            decreases page@.len() - i,
        {
            let t = &page[i];
            let ghost before = self.seen@;
            proof {
                self.seen@ = self.seen@.push(*t);
                assert(self.seen@ =~= start + page@.subrange(0, i + 1));
                assert(self.seen@.drop_last() =~= before);
            }
            self.absorbed = self.absorbed + 1;
            if !self.reached_cutoff {
                match track_time(t) {
                    Some(ts) => {
                        let age = (self.now as i128) - (ts as i128);
                        if age > MONTH_SECS as i128 {
                            self.reached_cutoff = true;
                        } else if str_eq_ignore_ascii_case(t.artist.text.as_str(), self.artist.as_str())
                            && str_eq_ignore_ascii_case(t.name.as_str(), self.title.as_str()) {
                            self.monthly = self.monthly + 1;
                            if age <= WEEK_SECS as i128 {
                                self.weekly = self.weekly + 1;
                            }
                        }
                    },
                    None => {},
                }
            }
            i = i + 1;
        }
        assert(page@.subrange(0, page@.len() as int) =~= page@);
        if self.reached_cutoff || page.len() < PAGE_SIZE {
            self.finished = true;
            None
        } else {
            self.next_page = self.next_page + 1;
            Some(self.next_page)
        }
    }
}

/// How many of the pages `ps`, from page `n` (counting from zero) on, are
/// read: reading ends with the first page that reaches a scrobble older than
/// thirty days or holds fewer than `PAGE_SIZE` scrobbles, else with the last
/// page.
pub open spec fn read_from(
    ps: Seq<Seq<Track>>,
    n: nat,
    now: i64,
    artist: Seq<char>,
    title: Seq<char>,
) -> nat
    decreases ps.len() - n,
{
    if n >= ps.len() {
        ps.len()
    } else if tally(ps.subrange(0, n + 1 as int).flatten(), now, artist, title).2 || ps[n as int].len()
        < PAGE_SIZE {
        n + 1
    } else {
        read_from(ps, n + 1, now, artist, title)
    }
}

/// How many of the pages `ps` are read.
pub open spec fn pages_read(ps: Seq<Seq<Track>>, now: i64, artist: Seq<char>, title: Seq<char>) -> nat {
    read_from(ps, 0, now, artist, title)
}

/// The plays of `title` by `artist` within seven and within thirty days of
/// `now`, from pages of scrobbles fetched newest first, and how many pages
/// were read: reading stops at the first scrobble older than thirty days or
/// at a page shorter than `PAGE_SIZE`, and the later pages are not read.
pub fn get_track_play_counts(pages: &Vec<Vec<Track>>, artist: &str, title: &str, now: i64) -> (r: (u64, u64, usize))
    requires
        forall|i: int| 0 <= i < pages@.len() ==> #[trigger] pages@[i]@.len() <= PAGE_SIZE,
        pages@.len() * PAGE_SIZE < u64::MAX,
    ensures
        r.2 <= pages@.len(),
        r.2 == pages_read(pages@.map_values(|p: Vec<Track>| p@), now, artist@, title@),
        ({
            let read = pages@.subrange(0, r.2 as int).map_values(|p: Vec<Track>| p@).flatten();
            let t = tally(read, now, artist@, title@);
            r.0 as nat == t.0 && r.1 as nat == t.1
        }),
{
    let mut counter = PlayCounter::new(artist, title, now);
    let mut n: usize = 0;
    let ghost ps = pages@.map_values(|p: Vec<Track>| p@);
    while n < pages.len()
        invariant_except_break
            !counter.is_finished(),
        invariant
            n <= pages@.len(),
            pages@.len() * PAGE_SIZE < u64::MAX,
            forall|i: int| 0 <= i < pages@.len() ==> #[trigger] pages@[i]@.len() <= PAGE_SIZE,
            counter.seen() == pages@.subrange(0, n as int).map_values(|p: Vec<Track>| p@).flatten(),
            counter.seen().len() <= n * PAGE_SIZE,
            counter.artist() == artist@,
            counter.title() == title@,
            counter.now() == now,
            counter.wf(),
            ps == pages@.map_values(|p: Vec<Track>| p@),
            !counter.is_finished() ==> read_from(ps, 0, now, artist@, title@) == read_from(
                ps,
                n as nat,
                now,
                artist@,
                title@,
            ),
            counter.is_finished() ==> read_from(ps, 0, now, artist@, title@) == n,
        ensures
            counter.is_finished() || n == pages@.len(),
        decreases pages@.len() - n,
    {
        let ghost before = counter.seen();
        proof {
            assert(pages@[n as int]@.len() <= PAGE_SIZE);
            assert(counter.seen().len() + pages@[n as int]@.len() <= (n + 1) * PAGE_SIZE) by (nonlinear_arith)
                requires
                    counter.seen().len() <= n * PAGE_SIZE,
                    pages@[n as int]@.len() <= PAGE_SIZE,
            ;
            assert((n + 1) * PAGE_SIZE <= pages@.len() * PAGE_SIZE) by (nonlinear_arith)
                requires
                    n < pages@.len(),
            ;
        }
        let next = counter.absorb_page(&pages[n]);
        proof {
            let done = pages@.subrange(0, n + 1).map_values(|p: Vec<Track>| p@);
            assert(done.drop_last() =~= pages@.subrange(0, n as int).map_values(|p: Vec<Track>| p@));
            assert(done =~= done.drop_last().push(pages@[n as int]@));
            done.drop_last().lemma_flatten_push(pages@[n as int]@);
            assert(ps.subrange(0, n + 1) =~= done);
            assert(ps[n as int] == pages@[n as int]@);
        }
        n = n + 1;
        if next.is_none() {
            break;
        }
    }
    proof {
        if !counter.is_finished() {
            assert(n == pages@.len());
            assert(ps.len() == pages@.len());
            assert(read_from(ps, n as nat, now, artist@, title@) == n);
        }
    }
    let (weekly, monthly) = counter.counts();
    (weekly, monthly, n)
}

} // verus!
