//! The play queue: an ordered list of tracks with one current marker, and the
//! kind of collection that is playing.

use crate::text::{clone_opt_string, decimal, joined, opt_view, decimal_text};
use crate::track::{Track, TrackStatus};
use vstd::prelude::*;

verus! {

#[derive(Debug, Clone, PartialEq, Eq)]
pub struct AlbumTracklist {
    pub title: String,
    pub id: String,
    pub image: Option<String>,
}

#[derive(Debug, Clone, PartialEq, Eq)]
pub struct PlaylistTracklist {
    pub title: String,
    pub id: u32,
    pub image: Option<String>,
}

#[derive(Debug, Clone, PartialEq, Eq)]
pub struct TopTracklist {
    pub artist_name: String,
    pub id: u32,
    pub image: Option<String>,
}

#[derive(Debug, Clone, PartialEq, Eq)]
pub struct SingleTracklist {
    pub track_title: String,
    pub album_id: Option<String>,
    pub image: Option<String>,
}

/// What kind of collection the queue was made from, with its display metadata.
#[derive(Debug, Clone, PartialEq, Eq)]
pub enum TracklistType {
    Album(AlbumTracklist),
    Playlist(PlaylistTracklist),
    TopTracks(TopTracklist),
    Track(SingleTracklist),
    Empty,
}

/// The play queue.
#[derive(Debug, Clone, PartialEq)]
pub struct Tracklist {
    pub queue: Vec<Track>,
    pub list_type: TracklistType,
}

/// What a display shows of the collection that is playing.
#[derive(Debug, Clone, PartialEq, Eq)]
pub struct Entity {
    pub title: Option<String>,
    pub link: Option<String>,
    pub cover_link: Option<String>,
}

/// The track with its status replaced.
pub open spec fn with_status(t: Track, s: TrackStatus) -> Track {
    Track { status: s, ..t }
}

/// The first index at or after `i` whose track has status `s`.
pub open spec fn first_with_from(q: Seq<Track>, s: TrackStatus, i: int) -> Option<int>
    decreases q.len() - i,
{
    if i < 0 || i >= q.len() {
        None
    } else if q[i].status == s {
        Some(i)
    } else {
        first_with_from(q, s, i + 1)
    }
}

/// The first index whose track has status `s`.
pub open spec fn first_with(q: Seq<Track>, s: TrackStatus) -> Option<int> {
    first_with_from(q, s, 0)
}

/// The index of the playing track, or 0 when none plays.
pub open spec fn position_of(q: Seq<Track>) -> int {
    match first_with(q, TrackStatus::Playing) {
        Some(i) => i,
        None => 0,
    }
}

/// The playing track, if any.
pub open spec fn current_of(q: Seq<Track>) -> Option<Track> {
    match first_with(q, TrackStatus::Playing) {
        Some(i) => Some(q[i]),
        None => None,
    }
}

/// The track after the current position, if any.
pub open spec fn next_of(q: Seq<Track>) -> Option<Track> {
    if position_of(q) + 1 < q.len() {
        Some(q[position_of(q) + 1])
    } else {
        None
    }
}

/// The status that `skip_to_track(n)` gives to index `i`.
pub open spec fn skip_status(i: int, n: int) -> TrackStatus {
    if i < n {
        TrackStatus::Played
    } else if i == n {
        TrackStatus::Playing
    } else {
        TrackStatus::Unplayed
    }
}

/// The queue after a skip to position `n >= 0`.
pub open spec fn skipped(q: Seq<Track>, n: int) -> Seq<Track> {
    Seq::new(q.len(), |i: int| with_status(q[i], skip_status(i, n)))
}

/// The queue with every played or playing track back to unplayed.
pub open spec fn cleared(q: Seq<Track>) -> Seq<Track> {
    Seq::new(
        q.len(),
        |i: int|
            if q[i].status == TrackStatus::Played || q[i].status == TrackStatus::Playing {
                with_status(q[i], TrackStatus::Unplayed)
            } else {
                q[i]
            },
    )
}

/// The queue after a reset: cleared, then its first unplayed track playing.
pub open spec fn reset_of(q: Seq<Track>) -> Seq<Track> {
    let c = cleared(q);
    match first_with(c, TrackStatus::Unplayed) {
        Some(k) => c.update(k, with_status(c[k], TrackStatus::Playing)),
        None => c,
    }
}

/// No two tracks play.
pub open spec fn at_most_one_playing(q: Seq<Track>) -> bool {
    forall|i: int, j: int|
        0 <= i < q.len() && 0 <= j < q.len() && q[i].status == TrackStatus::Playing
            && q[j].status == TrackStatus::Playing ==> i == j
}

/// What a display shows: title, link and cover, given the kind of list and
/// the playing track.
pub open spec fn entity_of(lt: TracklistType, cur: Option<Track>) -> (
    Option<Seq<char>>,
    Option<Seq<char>>,
    Option<Seq<char>>,
) {
    let cover = match cur {
        Some(t) => opt_view(t.image),
        None => None,
    };
    match lt {
        TracklistType::Album(a) => (Some(a.title@), Some("/album/"@ + a.id@), cover),
        TracklistType::Playlist(p) => (
            Some(p.title@),
            Some("/playlist/"@ + decimal(p.id as nat)),
            cover,
        ),
        TracklistType::TopTracks(t) => (
            Some(t.artist_name@),
            Some("/artist/"@ + decimal(t.id as nat)),
            cover,
        ),
        TracklistType::Track(s) => (
            match cur {
                Some(t) => opt_view(t.album_title),
                None => None,
            },
            match s.album_id {
                Some(id) => Some("/album/"@ + id@),
                None => None,
            },
            cover,
        ),
        TracklistType::Empty => (None, None, cover),
    }
}

/// What `first_with_from` finds: a track with that status, and none before it.
pub proof fn lemma_first_with_from(q: Seq<Track>, s: TrackStatus, i: int)
    requires
        0 <= i,
    ensures
        match first_with_from(q, s, i) {
            Some(k) => i <= k < q.len() && q[k].status == s && forall|j: int|
                i <= j < k ==> q[j].status != s,
            None => forall|j: int| i <= j < q.len() ==> q[j].status != s,
        },
    decreases q.len() - i,
{
    if i < q.len() && q[i].status != s {
        lemma_first_with_from(q, s, i + 1);
    }
}

/// `first_with` finds the first track with the status, or none exists.
pub proof fn lemma_first_with(q: Seq<Track>, s: TrackStatus)
    ensures
        match first_with(q, s) {
            Some(k) => 0 <= k < q.len() && q[k].status == s && forall|j: int|
                0 <= j < k ==> q[j].status != s,
            None => forall|j: int| 0 <= j < q.len() ==> q[j].status != s,
        },
{
    lemma_first_with_from(q, s, 0);
}

/// A track with that status at `k`, and none before it, is what `first_with` finds.
pub proof fn lemma_first_with_at(q: Seq<Track>, s: TrackStatus, k: int)
    requires
        0 <= k < q.len(),
        q[k].status == s,
        forall|j: int| 0 <= j < k ==> q[j].status != s,
    ensures
        first_with(q, s) == Some(k),
{
    lemma_first_with(q, s);
    match first_with(q, s) {
        Some(m) => {
            if m < k {
            } else if m > k {
            }
        },
        None => {},
    }
}

/// The queue after `skip_to_track(n)`: unchanged for a negative `n`.
pub open spec fn skip_of(q: Seq<Track>, n: int) -> Seq<Track> {
    if n < 0 {
        q
    } else {
        skipped(q, n)
    }
}

/// The queue after `skip_to_track` with each position of `ns` in turn.
pub open spec fn skip_all(q: Seq<Track>, ns: Seq<int>) -> Seq<Track>
    decreases ns.len(),
{
    if ns.len() == 0 {
        q
    } else {
        skip_of(skip_all(q, ns.drop_last()), ns.last())
    }
}

/// A skip to a non-negative position leaves at most one track playing.
pub proof fn lemma_skipped_one_playing(q: Seq<Track>, n: int)
    requires
        n >= 0,
    ensures
        at_most_one_playing(skipped(q, n)),
{
}

/// After any sequence of skips, at most one track plays, provided that the
/// queue had at most one playing track or that one skip went to a
/// non-negative position (a negative one changes nothing).
pub proof fn lemma_skips_keep_one_playing(q: Seq<Track>, ns: Seq<int>)
    requires
        at_most_one_playing(q) || exists|k: int| 0 <= k < ns.len() && ns[k] >= 0,
    ensures
        at_most_one_playing(skip_all(q, ns)),
    decreases ns.len(),
{
    if ns.len() > 0 {
        if ns.last() >= 0 {
            lemma_skipped_one_playing(skip_all(q, ns.drop_last()), ns.last());
        } else {
            if !at_most_one_playing(q) {
                let k = choose|k: int| 0 <= k < ns.len() && ns[k] >= 0;
                assert(ns.drop_last()[k] >= 0);
            }
            lemma_skips_keep_one_playing(q, ns.drop_last());
        }
    }
}

/// A skip to a position at or past the end marks every track played, so
/// none plays.
pub proof fn lemma_skip_past_end(q: Seq<Track>, n: int)
    requires
        n >= q.len(),
    ensures
        forall|i: int| 0 <= i < q.len() ==> skipped(q, n)[i].status == TrackStatus::Played,
        first_with(skipped(q, n), TrackStatus::Playing) is None,
{
    lemma_first_with(skipped(q, n), TrackStatus::Playing);
}

/// Resetting a queue whose tracks were all played makes the first track
/// play and leaves the others unplayed.
pub proof fn lemma_reset_all_played(q: Seq<Track>)
    requires
        q.len() > 0,
        forall|i: int| 0 <= i < q.len() ==> q[i].status == TrackStatus::Played,
    ensures
        reset_of(q).len() == q.len(),
        reset_of(q)[0].status == TrackStatus::Playing,
        forall|i: int| 0 < i < q.len() ==> reset_of(q)[i].status == TrackStatus::Unplayed,
{
    lemma_first_with_at(cleared(q), TrackStatus::Unplayed, 0);
}

impl Tracklist {
    pub open spec fn tracks(&self) -> Seq<Track> {
        self.queue@
    }

    pub fn new() -> (r: Tracklist)
        ensures
            r.tracks().len() == 0,
            r.list_type == TracklistType::Empty,
    {
        Tracklist { queue: Vec::new(), list_type: TracklistType::Empty }
    }

    pub fn queue(&self) -> (r: &Vec<Track>)
        ensures
            r@ == self.tracks(),
    {
        &self.queue
    }

    pub fn total(&self) -> (r: usize)
        ensures
            r == self.tracks().len(),
    {
        self.queue.len()
    }

    pub fn list_type(&self) -> (r: &TracklistType)
        ensures
            *r == self.list_type,
    {
        &self.list_type
    }

    fn find_status(&self, s: TrackStatus) -> (r: Option<usize>)
        ensures
            match r {
                Some(k) => k < self.tracks().len() && first_with(self.tracks(), s) == Some(k as int),
                None => first_with(self.tracks(), s) is None,
            },
    {
        proof {
            lemma_first_with(self.tracks(), s);
        }
        let mut i: usize = 0;
        while i < self.queue.len()
            invariant
                i <= self.queue.len(),
                first_with(self.tracks(), s) == first_with_from(self.tracks(), s, i as int),
            decreases self.queue.len() - i,
        {
            if self.queue[i].status == s {
                return Some(i);
            }
            i += 1;
        }
        None
    }

    /// The id of the playing track, if any.
    pub fn currently_playing(&self) -> (r: Option<u32>)
        ensures
            r == (match current_of(self.tracks()) {
                Some(t) => Some(t.id),
                None => None,
            }),
    {
        match self.find_status(TrackStatus::Playing) {
            Some(k) => Some(self.queue[k].id),
            None => None,
        }
    }

    /// The index of the playing track, or 0 when none plays.
    pub fn current_position(&self) -> (r: usize)
        ensures
            r as int == position_of(self.tracks()),
    {
        match self.find_status(TrackStatus::Playing) {
            Some(k) => k,
            None => 0,
        }
    }

    /// The playing track, if any.
    pub fn current_track(&self) -> (r: Option<&Track>)
        ensures
            match r {
                Some(t) => current_of(self.tracks()) == Some(*t),
                None => current_of(self.tracks()) is None,
            },
    {
        match self.find_status(TrackStatus::Playing) {
            Some(k) => Some(&self.queue[k]),
            None => None,
        }
    }

    /// The track after the current position, if any.
    pub fn next_track(&self) -> (r: Option<&Track>)
        ensures
            match r {
                Some(t) => next_of(self.tracks()) == Some(*t),
                None => next_of(self.tracks()) is None,
            },
    {
        proof {
            lemma_first_with(self.tracks(), TrackStatus::Playing);
        }
        let current_position = self.current_position();
        assert(current_position < self.queue.len() || current_position == 0);
        let next_position = current_position + 1;
        if self.queue.len() <= next_position {
            return None;
        }
        Some(&self.queue[next_position])
    }

    /// Every played or playing track back to unplayed, then the first
    /// unplayed track playing.
    pub fn reset(&mut self)
        ensures
            final(self).tracks() == reset_of(old(self).tracks()),
            final(self).tracks().len() == old(self).tracks().len(),
            final(self).list_type == old(self).list_type,
    {
        let ghost q = self.tracks();
        let mut i: usize = 0;
        while i < self.queue.len()
            invariant
                i <= self.queue.len(),
                self.queue@.len() == q.len(),
                self.list_type == old(self).list_type,
                q == old(self).tracks(),
                forall|j: int| 0 <= j < i ==> self.queue@[j] == cleared(q)[j],
                forall|j: int| i <= j < q.len() ==> self.queue@[j] == q[j],
            decreases self.queue.len() - i,
        {
            let s = self.queue[i].status;
            if s == TrackStatus::Played || s == TrackStatus::Playing {
                self.queue[i].status = TrackStatus::Unplayed;
            }
            i += 1;
        }
        assert(self.queue@ =~= cleared(q));
        match self.find_status(TrackStatus::Unplayed) {
            Some(k) => {
                self.queue[k].status = TrackStatus::Playing;
                assert(self.queue@ =~= cleared(q).update(
                    k as int,
                    with_status(cleared(q)[k as int], TrackStatus::Playing),
                ));
            },
            None => {},
        }
    }

    /// Every track before `new_position` played, the one at it playing (and
    /// returned), those after it unplayed. A negative position changes nothing.
    pub fn skip_to_track(&mut self, new_position: i32) -> (r: Option<&Track>)
        ensures
            new_position < 0 ==> r is None && *final(self) == *old(self),
            new_position >= 0 ==> final(self).tracks() == skipped(
                old(self).tracks(),
                new_position as int,
            ),
            final(self).list_type == old(self).list_type,
            match r {
                Some(t) => 0 <= new_position < old(self).tracks().len() && *t
                    == final(self).tracks()[new_position as int],
                None => new_position < 0 || new_position >= old(self).tracks().len(),
            },
    {
        if new_position < 0 {
            return None;
        }
        let ghost q = self.tracks();
        let n = new_position as usize;
        let mut i: usize = 0;
        while i < self.queue.len()
            invariant
                i <= self.queue.len(),
                self.queue@.len() == q.len(),
                self.list_type == old(self).list_type,
                q == old(self).tracks(),
                n == new_position,
                forall|j: int| 0 <= j < i ==> self.queue@[j] == skipped(q, n as int)[j],
                forall|j: int| i <= j < q.len() ==> self.queue@[j] == q[j],
            decreases self.queue.len() - i,
        {
            if i < n {
                self.queue[i].status = TrackStatus::Played;
            } else if i == n {
                self.queue[i].status = TrackStatus::Playing;
            } else {
                self.queue[i].status = TrackStatus::Unplayed;
            }
            i += 1;
        }
        assert(self.queue@ =~= skipped(q, n as int));
        if n < self.queue.len() {
            Some(&self.queue[n])
        } else {
            None
        }
    }

    /// The title, link and cover that a display shows for what is playing.
    pub fn entity_playing(&self) -> (r: Entity)
        ensures
            (opt_view(r.title), opt_view(r.link), opt_view(r.cover_link)) == entity_of(
                self.list_type,
                current_of(self.tracks()),
            ),
    {
        let current_track = self.current_track();
        let cover_link = match current_track {
            Some(t) => clone_opt_string(&t.image),
            None => None,
        };
        match &self.list_type {
            TracklistType::Album(t) => Entity {
                title: Some(t.title.clone()),
                link: Some(joined("/album/", t.id.as_str())),
                cover_link,
            },
            TracklistType::Playlist(t) => {
                let id = decimal_text(t.id as u128);
                Entity {
                    title: Some(t.title.clone()),
                    link: Some(joined("/playlist/", id.as_str())),
                    cover_link,
                }
            },
            TracklistType::TopTracks(t) => {
                let id = decimal_text(t.id as u128);
                Entity {
                    title: Some(t.artist_name.clone()),
                    link: Some(joined("/artist/", id.as_str())),
                    cover_link,
                }
            },
            TracklistType::Track(t) => Entity {
                title: match current_track {
                    Some(c) => clone_opt_string(&c.album_title),
                    None => None,
                },
                link: match &t.album_id {
                    Some(id) => Some(joined("/album/", id.as_str())),
                    None => None,
                },
                cover_link,
            },
            TracklistType::Empty => Entity { title: None, link: None, cover_link },
        }
    }
}

} // verus!
