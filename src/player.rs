//! The player's state machine. Each operation updates the queue, the target
//! status and the position clock, and returns the outside work that goes
//! with it, in order, for the event loop to carry out.

use crate::sink::QueryTrackResult;
use crate::timer::Timer;
use crate::track::{Track, TrackStatus};
use crate::tracklist::{
    current_of, lemma_first_with_at, next_of, position_of, reset_of, skip_of,
    skipped, with_status, AlbumTracklist, PlaylistTracklist, SingleTracklist, TopTracklist,
    Tracklist, TracklistType,
};
use crate::Status;
use rand::seq::SliceRandom;
use vstd::prelude::*;
use vstd::string::StringExecFns;

verus! {

/// The longest queue the player holds: every position fits an `i32`, one
/// past the end included.
pub const MAX_QUEUE: usize = 0x7fff_fffe;

/// How far into a track a step back restarts it instead, in milliseconds.
pub const REWIND_THRESHOLD_MS: u64 = 1000;

/// How far a jump moves, in milliseconds.
pub const JUMP_MS: u64 = 10_000;

/// How close to its end a track has its successor fetched, in seconds.
pub const READ_AHEAD_SECS: u64 = 60;

/// Outside work that a step asks for.
#[derive(Debug, Clone, PartialEq, Eq)]
pub enum Effect {
    /// Drop the output device and its queue.
    ClearSink,
    /// Drop what waits in the device's queue, keeping what plays.
    ClearSinkQueue,
    PlaySink,
    PauseSink,
    /// Seek the device to this many milliseconds.
    SeekSink(u64),
    /// Resolve the track's URL and make sure its audio is in the cache.
    Download(Track),
    /// Store and publish the queue as it now stands.
    PublishTracklist,
}

/// The player's state, in the terms of the contracts.
pub struct PlayerView {
    pub tracks: Seq<Track>,
    pub list_type: TracklistType,
    pub status: Status,
    pub timer: Timer,
    pub position_ms: u64,
    pub next_track_is_queried: bool,
    pub first_track_queried: bool,
    pub next_track_in_queue: bool,
}

/// The player's state: the queue, the status the user intends, the
/// position clock and the last position published, and what it knows of
/// the tracks fetched ahead.
pub struct Player {
    tracklist: Tracklist,
    target_status: Status,
    timer: Timer,
    position_ms: u64,
    next_track_is_queried: bool,
    first_track_queried: bool,
    next_track_in_queue: bool,
}

impl View for Player {
    type V = PlayerView;

    closed spec fn view(&self) -> PlayerView {
        PlayerView {
            tracks: self.tracklist.tracks(),
            list_type: self.tracklist.list_type,
            status: self.target_status,
            timer: self.timer,
            position_ms: self.position_ms,
            next_track_is_queried: self.next_track_is_queried,
            first_track_queried: self.first_track_queried,
            next_track_in_queue: self.next_track_in_queue,
        }
    }
}

pub open spec fn seek_step(v: PlayerView, ms: u64, now: u64) -> (PlayerView, Seq<Effect>) {
    (PlayerView { timer: v.timer.set_to(ms, now), position_ms: ms, ..v }, seq![Effect::SeekSink(ms)])
}

pub open spec fn pause_step(v: PlayerView, now: u64) -> (PlayerView, Seq<Effect>) {
    (
        PlayerView {
            status: Status::Paused,
            timer: v.timer.paused(now),
            position_ms: v.timer.elapsed_at(now),
            ..v
        },
        seq![Effect::PauseSink],
    )
}

pub open spec fn play_step(v: PlayerView, now: u64) -> (PlayerView, Seq<Effect>) {
    let w = PlayerView {
        status: Status::Playing,
        timer: v.timer.started(now),
        position_ms: v.timer.elapsed_at(now),
        ..v
    };
    match current_of(v.tracks) {
        Some(t) => if !v.first_track_queried {
            (
                PlayerView { first_track_queried: true, ..w },
                seq![Effect::Download(t), Effect::PlaySink],
            )
        } else {
            (w, seq![Effect::PlaySink])
        },
        None => (w, seq![Effect::PlaySink]),
    }
}

pub open spec fn play_pause_step(v: PlayerView, now: u64) -> (PlayerView, Seq<Effect>) {
    match v.status {
        Status::Paused => play_step(v, now),
        _ => pause_step(v, now),
    }
}

/// Where a jump forward lands: ten seconds on, but not past the track's end.
pub open spec fn jump_forward_target(elapsed: u64, duration_seconds: u32) -> u64 {
    let d = duration_seconds * 1000;
    if elapsed + JUMP_MS < d {
        (elapsed + JUMP_MS) as u64
    } else {
        d as u64
    }
}

/// Where a jump back lands: ten seconds back, but not before the start.
pub open spec fn jump_backward_target(elapsed: u64) -> u64 {
    if elapsed < JUMP_MS {
        0
    } else {
        (elapsed - JUMP_MS) as u64
    }
}

pub open spec fn jump_forward_step(v: PlayerView, now: u64) -> (PlayerView, Seq<Effect>) {
    match current_of(v.tracks) {
        Some(t) => seek_step(
            v,
            jump_forward_target(v.timer.elapsed_at(now), t.duration_seconds),
            now,
        ),
        None => (v, seq![]),
    }
}

pub open spec fn jump_backward_step(v: PlayerView, now: u64) -> (PlayerView, Seq<Effect>) {
    seek_step(v, jump_backward_target(v.timer.elapsed_at(now)), now)
}

pub open spec fn skip_step(v: PlayerView, n: int, force: bool, now: u64) -> (
    PlayerView,
    Seq<Effect>,
) {
    if !force && n < position_of(v.tracks) && v.position_ms > REWIND_THRESHOLD_MS {
        seek_step(v, 0, now)
    } else if 0 <= n < v.tracks.len() {
        let q = skipped(v.tracks, n);
        (
            PlayerView {
                tracks: q,
                status: Status::Buffering,
                timer: v.timer.stopped().started(now),
                position_ms: 0,
                next_track_is_queried: false,
                first_track_queried: true,
                ..v
            },
            seq![Effect::ClearSink, Effect::Download(q[n]), Effect::PublishTracklist],
        )
    } else {
        (
            PlayerView {
                tracks: reset_of(skip_of(v.tracks, n)),
                status: Status::Paused,
                timer: v.timer.stopped(),
                position_ms: 0,
                next_track_is_queried: false,
                first_track_queried: false,
                ..v
            },
            seq![Effect::ClearSink, Effect::PauseSink, Effect::PublishTracklist],
        )
    }
}

pub open spec fn next_step(v: PlayerView, now: u64) -> (PlayerView, Seq<Effect>) {
    skip_step(v, position_of(v.tracks) + 1, true, now)
}

pub open spec fn previous_step(v: PlayerView, now: u64) -> (PlayerView, Seq<Effect>) {
    skip_step(v, position_of(v.tracks) - 1, false, now)
}

pub open spec fn new_queue_step(v: PlayerView, q: Seq<Track>, lt: TracklistType, now: u64) -> (
    PlayerView,
    Seq<Effect>,
) {
    let w = PlayerView {
        tracks: q,
        list_type: lt,
        status: Status::Buffering,
        timer: v.timer.stopped(),
        position_ms: 0,
        next_track_is_queried: false,
        ..v
    };
    match current_of(q) {
        Some(t) => (
            PlayerView { first_track_queried: true, ..w },
            seq![Effect::ClearSink, Effect::Download(t), Effect::PublishTracklist],
        ),
        None => (w, seq![Effect::ClearSink, Effect::PublishTracklist]),
    }
}

pub open spec fn update_queue_step(v: PlayerView, q: Seq<Track>) -> (PlayerView, Seq<Effect>) {
    (
        PlayerView { tracks: q, next_track_is_queried: false, ..v },
        seq![Effect::ClearSinkQueue, Effect::PublishTracklist],
    )
}

/// Where a track played next goes: after the current one, or at the end of
/// an empty queue.
pub open spec fn insert_next_index(q: Seq<Track>) -> int {
    if position_of(q) + 1 <= q.len() {
        position_of(q) + 1
    } else {
        q.len() as int
    }
}

/// The queue in the order that `order` gives by index.
pub open spec fn reordered(q: Seq<Track>, order: Seq<usize>) -> Seq<Track> {
    Seq::new(order.len(), |k: int| q[order[k] as int])
}

pub open spec fn track_finished_step(v: PlayerView, now: u64) -> (PlayerView, Seq<Effect>) {
    let n = position_of(v.tracks) + 1;
    if n < v.tracks.len() {
        let q = skipped(v.tracks, n);
        (
            PlayerView {
                tracks: q,
                status: if v.next_track_is_queried {
                    v.status
                } else {
                    Status::Buffering
                },
                timer: if v.next_track_is_queried {
                    v.timer.stopped().started(now)
                } else {
                    v.timer.stopped()
                },
                position_ms: 0,
                next_track_is_queried: false,
                ..v
            },
            if v.next_track_in_queue {
                seq![Effect::PublishTracklist]
            } else {
                seq![Effect::ClearSink, Effect::Download(q[n]), Effect::PublishTracklist]
            },
        )
    } else {
        (
            PlayerView {
                tracks: reset_of(skipped(v.tracks, n)),
                status: Status::Paused,
                timer: v.timer.stopped(),
                position_ms: 0,
                first_track_queried: false,
                next_track_is_queried: false,
                ..v
            },
            seq![Effect::PauseSink, Effect::ClearSink, Effect::PublishTracklist],
        )
    }
}

pub open spec fn tick_step(v: PlayerView, now: u64) -> (PlayerView, Seq<Effect>) {
    if v.status != Status::Playing {
        (v, seq![])
    } else {
        let pos = v.timer.elapsed_at(now);
        let w = PlayerView { position_ms: pos, ..v };
        match current_of(v.tracks) {
            None => (w, seq![]),
            Some(t) => {
                let secs = pos / 1000;
                if t.duration_seconds <= secs {
                    track_finished_step(w, now)
                } else if t.duration_seconds - secs < READ_AHEAD_SECS && !v.next_track_is_queried {
                    match next_of(v.tracks) {
                        Some(nt) => (
                            PlayerView {
                                first_track_queried: true,
                                next_track_is_queried: true,
                                ..w
                            },
                            seq![Effect::Download(nt)],
                        ),
                        None => (w, seq![]),
                    }
                } else {
                    (w, seq![])
                }
            },
        }
    }
}

pub open spec fn done_buffering_step(v: PlayerView, outcome: Option<QueryTrackResult>, now: u64) -> PlayerView {
    let w = if v.status != Status::Playing {
        PlayerView {
            status: Status::Playing,
            timer: v.timer.set_to(0, now).started(now),
            position_ms: 0,
            ..v
        }
    } else {
        v
    };
    match outcome {
        Some(QueryTrackResult::Queued) => PlayerView { next_track_in_queue: true, ..w },
        Some(QueryTrackResult::NotQueued) => PlayerView { next_track_in_queue: false, ..w },
        None => w,
    }
}

/// The available tracks, in order.
pub open spec fn available_of(ts: Seq<Track>) -> Seq<Track>
    decreases ts.len(),
{
    if ts.len() == 0 {
        ts
    } else {
        let p = available_of(ts.drop_last());
        if ts.last().available {
            p.push(ts.last())
        } else {
            p
        }
    }
}

/// How many tracks are unavailable.
pub open spec fn unavailable_count(ts: Seq<Track>) -> nat
    decreases ts.len(),
{
    if ts.len() == 0 {
        0
    } else {
        unavailable_count(ts.drop_last()) + if ts.last().available {
            0nat
        } else {
            1nat
        }
    }
}

/// The position in the queue of available tracks that stands for catalog
/// position `index`: the index less the unavailable tracks before it.
pub open spec fn collection_target(ts: Seq<Track>, index: nat) -> int {
    index - unavailable_count(ts.take(if index <= ts.len() { index as int } else { ts.len() as int }))
}

/// A collection played from position `target` of its queue `q`.
pub open spec fn play_collection_step(
    v: PlayerView,
    lt: TracklistType,
    q: Seq<Track>,
    target: int,
    now: u64,
) -> (PlayerView, Seq<Effect>) {
    new_queue_step(v, skipped(q, target), lt, now)
}

/// The list that a single track makes.
pub open spec fn single_list_of(t: Track) -> TracklistType {
    TracklistType::Track(
        SingleTracklist { track_title: t.title, album_id: t.album_id, image: t.image },
    )
}

pub open spec fn play_track_step(v: PlayerView, t: Track, now: u64) -> (PlayerView, Seq<Effect>) {
    new_queue_step(v, seq![with_status(t, TrackStatus::Playing)], single_list_of(t), now)
}

/// Relies on rand's `SliceRandom::shuffle` with the thread-local generator:
/// it permutes the items in place.
#[verifier::external_body]
fn shuffle_tracks(tracks: &mut Vec<Track>)
    ensures
        final(tracks)@.len() == old(tracks)@.len(),
        final(tracks)@.to_multiset() == old(tracks)@.to_multiset(),
{
    tracks.shuffle(&mut rand::rng());
}

proof fn lemma_available_len(ts: Seq<Track>)
    ensures
        available_of(ts).len() + unavailable_count(ts) == ts.len(),
    decreases ts.len(),
{
    if ts.len() > 0 {
        lemma_available_len(ts.drop_last());
    }
}

proof fn lemma_available_keeps(ts: Seq<Track>, index: int, j: int)
    requires
        0 <= index < j <= ts.len(),
        ts[index].available,
    ensures
        available_of(ts.take(index)).len() < available_of(ts.take(j)).len(),
        available_of(ts.take(j))[available_of(ts.take(index)).len() as int] == ts[index],
    decreases j - index,
{
    if j == index + 1 {
        assert(ts.take(j).drop_last() =~= ts.take(index));
    } else {
        lemma_available_keeps(ts, index, j - 1);
        assert(ts.take(j).drop_last() =~= ts.take(j - 1));
    }
}

/// Playing a collection from an available track at catalog position
/// `index` queues the available tracks only, and the track that plays is
/// the one chosen.
pub proof fn lemma_chosen_track_plays(ts: Seq<Track>, index: nat)
    requires
        index < ts.len(),
        ts[index as int].available,
    ensures
        0 <= collection_target(ts, index) < available_of(ts).len(),
        available_of(ts)[collection_target(ts, index)] == ts[index as int],
        current_of(skipped(available_of(ts), collection_target(ts, index))) == Some(
            with_status(ts[index as int], TrackStatus::Playing),
        ),
{
    let i = index as int;
    lemma_available_len(ts.take(i));
    lemma_available_keeps(ts, i, ts.len() as int);
    assert(ts.take(ts.len() as int) =~= ts);
    let q = skipped(available_of(ts), collection_target(ts, index));
    lemma_first_with_at(q, TrackStatus::Playing, collection_target(ts, index));
}

/// A command for the player, with what the catalog returned for it already
/// fetched.
pub enum Request {
    Album { album: AlbumTracklist, tracks: Vec<Track>, index: u32 },
    Playlist { playlist: PlaylistTracklist, tracks: Vec<Track>, index: u32, shuffle: bool },
    ArtistTopTracks { artist: TopTracklist, tracks: Vec<Track>, index: u32 },
    Track { track: Track },
    SkipToPosition { new_position: u32, force: bool },
    Next,
    Previous,
    PlayPause,
    Play,
    Pause,
    JumpForward,
    JumpBackward,
    Seek { time_ms: u64 },
    AddTrackToQueue { track: Track },
    RemoveIndexFromQueue { index: u32 },
    PlayTrackNext { track: Track },
    ReorderQueue { new_order: Vec<usize> },
}

/// Why the player turned a command down.
#[derive(Debug, Clone, Copy, PartialEq, Eq, Structural)]
pub enum PlayerError {
    /// The queue would grow past `MAX_QUEUE` tracks.
    QueueFull,
    /// A queue index past the end.
    IndexOutOfRange,
}

impl PlayerError {
    /// A message for the user.
    pub fn message(&self) -> (r: String)
        ensures
            r@ == (match self {
                PlayerError::QueueFull => "The queue is full"@,
                PlayerError::IndexOutOfRange => "No track at that queue position"@,
            }),
    {
        match self {
            PlayerError::QueueFull => String::from_str("The queue is full"),
            PlayerError::IndexOutOfRange => String::from_str("No track at that queue position"),
        }
    }
}

/// The command succeeded with this step.
pub open spec fn done_with(
    after: PlayerView,
    r: Result<Vec<Effect>, PlayerError>,
    step: (PlayerView, Seq<Effect>),
) -> bool {
    match r {
        Ok(e) => (after, e@) == step,
        Err(_) => false,
    }
}

/// The command was turned down and nothing changed.
pub open spec fn refused(
    before: PlayerView,
    after: PlayerView,
    r: Result<Vec<Effect>, PlayerError>,
    e: PlayerError,
) -> bool {
    r == Err::<Vec<Effect>, PlayerError>(e) && after == before
}

/// Every index of `order` is a position of a queue of length `len`.
pub open spec fn order_in_range(order: Seq<usize>, len: nat) -> bool {
    forall|k: int| 0 <= k < order.len() ==> order[k] < len
}

fn order_fits(order: &Vec<usize>, len: usize) -> (r: bool)
    ensures
        r == order_in_range(order@, len as nat),
{
    let mut k: usize = 0;
    while k < order.len()
        invariant
            k <= order@.len(),
            forall|j: int| 0 <= j < k ==> order@[j] < len,
        decreases order.len() - k,
    {
        if order[k] >= len {
            return false;
        }
        k += 1;
    }
    true
}

/// A step back more than a second into a track restarts it: the queue
/// stays, the position goes to zero. A second step back, now at the start
/// of the track, goes to the previous track, or, at the first track, starts
/// the queue over from the top, paused at zero.
pub proof fn lemma_previous_twice(v: PlayerView, now1: u64, now2: u64)
    requires
        v.position_ms > REWIND_THRESHOLD_MS,
        v.tracks.len() <= MAX_QUEUE,
    ensures
        ({
            let (v1, e1) = previous_step(v, now1);
            let (v2, e2) = previous_step(v1, now2);
            let c = position_of(v.tracks);
            &&& v1.tracks == v.tracks
            &&& v1.position_ms == 0
            &&& e1 == seq![Effect::SeekSink(0)]
            &&& c > 0 ==> v2.tracks == skipped(v.tracks, c - 1) && current_of(v2.tracks) == Some(
                with_status(v.tracks[c - 1], TrackStatus::Playing),
            ) && v2.status == Status::Buffering
            &&& c == 0 ==> v2.tracks == reset_of(v.tracks) && v2.status == Status::Paused
                && v2.position_ms == 0
        }),
{
    crate::tracklist::lemma_first_with(v.tracks, TrackStatus::Playing);
    let c = position_of(v.tracks);
    if c > 0 {
        lemma_first_with_at(skipped(v.tracks, c - 1), TrackStatus::Playing, c - 1);
    }
}

impl Player {
    /// The queue fits the player's positions.
    pub open spec fn wf(&self) -> bool {
        self@.tracks.len() <= MAX_QUEUE
    }

    /// A paused player at position zero over `tracklist`, nothing fetched yet.
    pub fn new(tracklist: Tracklist) -> (r: Player)
        requires
            tracklist.tracks().len() <= MAX_QUEUE,
        ensures
            r.wf(),
            r@.tracks == tracklist.tracks(),
            r@.list_type == tracklist.list_type,
            r@.status == Status::Paused,
            r@.timer == (Timer { running_since: None, accumulated_ms: 0 }),
            r@.position_ms == 0,
            !r@.next_track_is_queried && !r@.first_track_queried && !r@.next_track_in_queue,
    {
        Player {
            tracklist,
            target_status: Status::Paused,
            timer: Timer::new(),
            position_ms: 0,
            next_track_is_queried: false,
            first_track_queried: false,
            next_track_in_queue: false,
        }
    }

    pub fn tracklist(&self) -> (r: &Tracklist)
        ensures
            r.tracks() == self@.tracks,
            r.list_type == self@.list_type,
    {
        &self.tracklist
    }

    /// The status the user intends.
    pub fn status(&self) -> (r: Status)
        ensures
            r == self@.status,
    {
        self.target_status
    }

    /// The position last published, in milliseconds.
    pub fn position_ms(&self) -> (r: u64)
        ensures
            r == self@.position_ms,
    {
        self.position_ms
    }

    /// The position clock.
    pub fn timer(&self) -> (r: Timer)
        ensures
            r == self@.timer,
    {
        self.timer
    }

    /// Moves the position to `ms`.
    pub fn seek(&mut self, ms: u64, now: u64) -> (r: Vec<Effect>)
        requires
            old(self).wf(),
        ensures
            final(self).wf(),
            (final(self)@, r@) == seek_step(old(self)@, ms, now),
    {
        self.timer.set_time(ms, now);
        self.position_ms = ms;
        let r = vec![Effect::SeekSink(ms)];
        assert(r@ =~= seq![Effect::SeekSink(ms)]);
        r
    }

    pub fn pause(&mut self, now: u64) -> (r: Vec<Effect>)
        requires
            old(self).wf(),
        ensures
            final(self).wf(),
            (final(self)@, r@) == pause_step(old(self)@, now),
    {
        self.target_status = Status::Paused;
        self.timer.pause(now);
        self.position_ms = self.timer.elapsed(now);
        let r = vec![Effect::PauseSink];
        assert(r@ =~= seq![Effect::PauseSink]);
        r
    }

    /// Plays on; the first time, the current track is fetched first.
    pub fn play(&mut self, now: u64) -> (r: Vec<Effect>)
        requires
            old(self).wf(),
        ensures
            final(self).wf(),
            (final(self)@, r@) == play_step(old(self)@, now),
    {
        let mut r: Vec<Effect> = Vec::new();
        if !self.first_track_queried {
            match self.tracklist.current_track() {
                Some(t) => {
                    let t = t.clone();
                    self.target_status = Status::Buffering;
                    r.push(Effect::Download(t));
                    self.first_track_queried = true;
                },
                None => {},
            }
        }
        self.target_status = Status::Playing;
        r.push(Effect::PlaySink);
        self.timer.start(now);
        self.position_ms = self.timer.elapsed(now);
        proof {
            let v = old(self)@;
            match current_of(v.tracks) {
                Some(t) => if !v.first_track_queried {
                    assert(r@ =~= seq![Effect::Download(t), Effect::PlaySink]);
                } else {
                    assert(r@ =~= seq![Effect::PlaySink]);
                },
                None => {
                    assert(r@ =~= seq![Effect::PlaySink]);
                },
            }
        }
        r
    }

    pub fn play_pause(&mut self, now: u64) -> (r: Vec<Effect>)
        requires
            old(self).wf(),
        ensures
            final(self).wf(),
            (final(self)@, r@) == play_pause_step(old(self)@, now),
    {
        match self.target_status {
            Status::Paused => self.play(now),
            _ => self.pause(now),
        }
    }

    /// Seeks ten seconds on, but not past the end of the current track.
    pub fn jump_forward(&mut self, now: u64) -> (r: Vec<Effect>)
        requires
            old(self).wf(),
        ensures
            final(self).wf(),
            (final(self)@, r@) == jump_forward_step(old(self)@, now),
    {
        let duration = match self.tracklist.current_track() {
            Some(t) => Some(t.duration_seconds),
            None => None,
        };
        match duration {
            Some(secs) => {
                let d = secs as u64 * 1000;
                let elapsed = self.timer.elapsed(now);
                let target = if elapsed < d && d - elapsed > JUMP_MS {
                    elapsed + JUMP_MS
                } else {
                    d
                };
                self.seek(target, now)
            },
            None => {
                let r: Vec<Effect> = Vec::new();
                assert(r@ =~= seq![]);
                r
            },
        }
    }

    /// Seeks ten seconds back, but not before the start.
    pub fn jump_backward(&mut self, now: u64) -> (r: Vec<Effect>)
        requires
            old(self).wf(),
        ensures
            final(self).wf(),
            (final(self)@, r@) == jump_backward_step(old(self)@, now),
    {
        let elapsed = self.timer.elapsed(now);
        if elapsed < JUMP_MS {
            self.seek(0, now)
        } else {
            self.seek(elapsed - JUMP_MS, now)
        }
    }
    /// Goes to position `new_position` of the queue. Unless forced, a step
    /// back more than a second into a track restarts the track instead.
    /// With no track there, the queue starts over from the top, paused.
    pub fn skip_to_position(&mut self, new_position: i32, force: bool, now: u64) -> (r: Vec<
        Effect,
    >)
        requires
            old(self).wf(),
        ensures
            final(self).wf(),
            (final(self)@, r@) == skip_step(old(self)@, new_position as int, force, now),
    {
        proof {
            crate::tracklist::lemma_first_with(self.tracklist.tracks(), TrackStatus::Playing);
        }
        let current_position = self.tracklist.current_position();
        if !force && (new_position as i64) < (current_position as i64) && self.position_ms
            > REWIND_THRESHOLD_MS {
            return self.seek(0, now);
        }
        self.timer.stop();
        self.target_status = Status::Buffering;
        self.position_ms = 0;
        let mut r: Vec<Effect> = Vec::new();
        let next = match self.tracklist.skip_to_track(new_position) {
            Some(t) => Some(t.clone()),
            None => None,
        };
        match next {
            Some(t) => {
                r.push(Effect::ClearSink);
                self.next_track_is_queried = false;
                r.push(Effect::Download(t));
                self.first_track_queried = true;
                self.timer.start(now);
            },
            None => {
                self.tracklist.reset();
                r.push(Effect::ClearSink);
                self.next_track_is_queried = false;
                self.first_track_queried = false;
                self.target_status = Status::Paused;
                r.push(Effect::PauseSink);
            },
        }
        r.push(Effect::PublishTracklist);
        proof {
            let v = old(self)@;
            let n = new_position as int;
            if 0 <= n < v.tracks.len() {
                assert(r@ =~= seq![
                    Effect::ClearSink,
                    Effect::Download(skipped(v.tracks, n)[n]),
                    Effect::PublishTracklist,
                ]);
            } else {
                assert(r@ =~= seq![Effect::ClearSink, Effect::PauseSink, Effect::PublishTracklist]);
            }
        }
        r
    }

    /// Goes to the next track.
    pub fn next(&mut self, now: u64) -> (r: Vec<Effect>)
        requires
            old(self).wf(),
        ensures
            final(self).wf(),
            (final(self)@, r@) == next_step(old(self)@, now),
    {
        proof {
            crate::tracklist::lemma_first_with(self.tracklist.tracks(), TrackStatus::Playing);
        }
        let current_position = self.tracklist.current_position();
        self.skip_to_position((current_position + 1) as i32, true, now)
    }

    /// Goes to the previous track, or back to the start of this one when more
    /// than a second of it has played.
    pub fn previous(&mut self, now: u64) -> (r: Vec<Effect>)
        requires
            old(self).wf(),
        ensures
            final(self).wf(),
            (final(self)@, r@) == previous_step(old(self)@, now),
    {
        proof {
            crate::tracklist::lemma_first_with(self.tracklist.tracks(), TrackStatus::Playing);
        }
        let current_position = self.tracklist.current_position();
        self.skip_to_position(current_position as i32 - 1, false, now)
    }

    /// Replaces the whole queue and fetches its current track.
    pub fn new_queue(&mut self, tracklist: Tracklist, now: u64) -> (r: Vec<Effect>)
        requires
            old(self).wf(),
            tracklist.tracks().len() <= MAX_QUEUE,
        ensures
            final(self).wf(),
            (final(self)@, r@) == new_queue_step(
                old(self)@,
                tracklist.tracks(),
                tracklist.list_type,
                now,
            ),
    {
        self.timer.stop();
        self.position_ms = 0;
        let mut r: Vec<Effect> = Vec::new();
        r.push(Effect::ClearSink);
        self.next_track_is_queried = false;
        self.target_status = Status::Buffering;
        match tracklist.current_track() {
            Some(t) => {
                r.push(Effect::Download(t.clone()));
                self.first_track_queried = true;
            },
            None => {},
        }
        self.tracklist = tracklist;
        r.push(Effect::PublishTracklist);
        proof {
            match current_of(tracklist.tracks()) {
                Some(t) => {
                    assert(r@ =~= seq![Effect::ClearSink, Effect::Download(t), Effect::PublishTracklist]);
                },
                None => {
                    assert(r@ =~= seq![Effect::ClearSink, Effect::PublishTracklist]);
                },
            }
        }
        r
    }

    fn update_queue(&mut self) -> (r: Vec<Effect>)
        requires
            old(self).wf(),
        ensures
            final(self).wf(),
            (final(self)@, r@) == update_queue_step(old(self)@, old(self)@.tracks),
    {
        self.next_track_is_queried = false;
        let r = vec![Effect::ClearSinkQueue, Effect::PublishTracklist];
        assert(r@ =~= seq![Effect::ClearSinkQueue, Effect::PublishTracklist]);
        r
    }

    /// Takes the track at `index` out of the queue.
    pub fn remove_index_from_queue(&mut self, index: usize) -> (r: Vec<Effect>)
        requires
            old(self).wf(),
            index < old(self)@.tracks.len(),
        ensures
            final(self).wf(),
            (final(self)@, r@) == update_queue_step(
                old(self)@,
                old(self)@.tracks.remove(index as int),
            ),
    {
        self.tracklist.queue.remove(index);
        self.update_queue()
    }

    /// Adds a track at the end of the queue.
    pub fn add_track_to_queue(&mut self, track: Track) -> (r: Vec<Effect>)
        requires
            old(self).wf(),
            old(self)@.tracks.len() < MAX_QUEUE,
        ensures
            final(self).wf(),
            (final(self)@, r@) == update_queue_step(old(self)@, old(self)@.tracks.push(track)),
    {
        self.tracklist.queue.push(track);
        self.update_queue()
    }

    /// Puts a track right after the current one.
    pub fn play_track_next(&mut self, track: Track) -> (r: Vec<Effect>)
        requires
            old(self).wf(),
            old(self)@.tracks.len() < MAX_QUEUE,
        ensures
            final(self).wf(),
            (final(self)@, r@) == update_queue_step(
                old(self)@,
                old(self)@.tracks.insert(insert_next_index(old(self)@.tracks), track),
            ),
    {
        proof {
            crate::tracklist::lemma_first_with(self.tracklist.tracks(), TrackStatus::Playing);
        }
        let current_index = self.tracklist.current_position();
        let len = self.tracklist.queue.len();
        let at = if current_index + 1 <= len {
            current_index + 1
        } else {
            len
        };
        self.tracklist.queue.insert(at, track);
        self.update_queue()
    }

    /// Puts the queue in the order that `new_order` gives by index.
    pub fn reorder_queue(&mut self, new_order: Vec<usize>) -> (r: Vec<Effect>)
        requires
            old(self).wf(),
            new_order@.len() <= MAX_QUEUE,
            forall|k: int| 0 <= k < new_order@.len() ==> new_order@[k] < old(self)@.tracks.len(),
        ensures
            final(self).wf(),
            (final(self)@, r@) == update_queue_step(
                old(self)@,
                reordered(old(self)@.tracks, new_order@),
            ),
    {
        let mut reordered_queue: Vec<Track> = Vec::new();
        let mut k: usize = 0;
        while k < new_order.len()
            invariant
                k <= new_order@.len(),
                self == old(self),
                forall|j: int| 0 <= j < new_order@.len() ==> new_order@[j] < self@.tracks.len(),
                reordered_queue@ =~= reordered(self@.tracks, new_order@.take(k as int)),
            decreases new_order.len() - k,
        {
            let t = self.tracklist.queue[new_order[k]].clone();
            reordered_queue.push(t);
            k += 1;
            assert(reordered_queue@ =~= reordered(self@.tracks, new_order@.take(k as int)));
        }
        assert(new_order@.take(new_order@.len() as int) =~= new_order@);
        self.tracklist.queue = reordered_queue;
        self.update_queue()
    }
    /// The current track has ended: on to the next one, or, past the end,
    /// back to the top of the queue, paused.
    pub fn track_finished(&mut self, now: u64) -> (r: Vec<Effect>)
        requires
            old(self).wf(),
        ensures
            final(self).wf(),
            (final(self)@, r@) == track_finished_step(old(self)@, now),
    {
        proof {
            crate::tracklist::lemma_first_with(self.tracklist.tracks(), TrackStatus::Playing);
        }
        self.timer.stop();
        self.position_ms = 0;
        let current_position = self.tracklist.current_position();
        let new_position = current_position + 1;
        let mut r: Vec<Effect> = Vec::new();
        let next = match self.tracklist.skip_to_track(new_position as i32) {
            Some(t) => Some(t.clone()),
            None => None,
        };
        match next {
            Some(t) => {
                if !self.next_track_in_queue {
                    r.push(Effect::ClearSink);
                    r.push(Effect::Download(t));
                }
                if self.next_track_is_queried {
                    self.timer.start(now);
                } else {
                    self.target_status = Status::Buffering;
                }
            },
            None => {
                self.tracklist.reset();
                self.target_status = Status::Paused;
                r.push(Effect::PauseSink);
                r.push(Effect::ClearSink);
                self.first_track_queried = false;
            },
        }
        self.next_track_is_queried = false;
        r.push(Effect::PublishTracklist);
        proof {
            let v = old(self)@;
            let n = position_of(v.tracks) + 1;
            if n < v.tracks.len() {
                if v.next_track_in_queue {
                    assert(r@ =~= seq![Effect::PublishTracklist]);
                } else {
                    assert(r@ =~= seq![
                        Effect::ClearSink,
                        Effect::Download(skipped(v.tracks, n)[n]),
                        Effect::PublishTracklist,
                    ]);
                }
            } else {
                assert(r@ =~= seq![Effect::PauseSink, Effect::ClearSink, Effect::PublishTracklist]);
            }
        }
        r
    }

    /// The periodic tick: while playing, publishes the position, finishes a
    /// track that has run out, and fetches the next one when the current
    /// one is within a minute of its end.
    pub fn tick(&mut self, now: u64) -> (r: Vec<Effect>)
        requires
            old(self).wf(),
        ensures
            final(self).wf(),
            (final(self)@, r@) == tick_step(old(self)@, now),
    {
        if self.target_status != Status::Playing {
            let r: Vec<Effect> = Vec::new();
            assert(r@ =~= seq![]);
            return r;
        }
        let position = self.timer.elapsed(now);
        self.position_ms = position;
        let duration = match self.tracklist.current_track() {
            Some(t) => Some(t.duration_seconds),
            None => None,
        };
        let mut r: Vec<Effect> = Vec::new();
        match duration {
            Some(duration) => {
                let secs = position / 1000;
                if duration as u64 <= secs {
                    return self.track_finished(now);
                }
                if (duration as u64 - secs) < READ_AHEAD_SECS && !self.next_track_is_queried {
                    let next = match self.tracklist.next_track() {
                        Some(t) => Some(t.clone()),
                        None => None,
                    };
                    match next {
                        Some(t) => {
                            r.push(Effect::Download(t));
                            self.first_track_queried = true;
                            self.next_track_is_queried = true;
                        },
                        None => {},
                    }
                }
            },
            None => {},
        }
        proof {
            let v = old(self)@;
            match current_of(v.tracks) {
                Some(t) => {
                    let secs = v.timer.elapsed_at(now) / 1000;
                    if t.duration_seconds - secs < READ_AHEAD_SECS && !v.next_track_is_queried {
                        match next_of(v.tracks) {
                            Some(nt) => {
                                assert(r@ =~= seq![Effect::Download(nt)]);
                            },
                            None => {
                                assert(r@ =~= seq![]);
                            },
                        }
                    } else {
                        assert(r@ =~= seq![]);
                    }
                },
                None => {
                    assert(r@ =~= seq![]);
                },
            }
        }
        r
    }

    /// The downloader has a track ready and the output has been handed it,
    /// with `outcome` (`None` when the output failed). Playback flows from
    /// here: a player that was not playing starts its clock from zero.
    pub fn done_buffering(&mut self, outcome: Option<QueryTrackResult>, now: u64)
        requires
            old(self).wf(),
        ensures
            final(self).wf(),
            final(self)@ == done_buffering_step(old(self)@, outcome, now),
    {
        if self.target_status != Status::Playing {
            self.timer.reset(now);
            self.timer.start(now);
            self.position_ms = self.timer.elapsed(now);
            self.target_status = Status::Playing;
        }
        match outcome {
            Some(QueryTrackResult::Queued) => {
                self.next_track_in_queue = true;
            },
            Some(QueryTrackResult::NotQueued) => {
                self.next_track_in_queue = false;
            },
            None => {},
        }
    }
    fn play_collection(
        &mut self,
        list_type: TracklistType,
        tracks: Vec<Track>,
        index: u32,
        shuffle: bool,
        now: u64,
    ) -> (r: Vec<Effect>)
        requires
            old(self).wf(),
            tracks@.len() <= MAX_QUEUE,
        ensures
            final(self).wf(),
            !shuffle ==> (final(self)@, r@) == play_collection_step(
                old(self)@,
                list_type,
                available_of(tracks@),
                collection_target(tracks@, index as nat),
                now,
            ),
            shuffle ==> exists|q: Seq<Track>|
                q.to_multiset() == available_of(tracks@).to_multiset() && (final(self)@, r@)
                    == play_collection_step(
                    old(self)@,
                    list_type,
                    q,
                    collection_target(tracks@, index as nat),
                    now,
                ),
    {
        let mut queue: Vec<Track> = Vec::new();
        let mut unavailable: u32 = 0;
        let mut i: usize = 0;
        while i < tracks.len()
            invariant
                i <= tracks@.len(),
                tracks@.len() <= MAX_QUEUE,
                queue@ == available_of(tracks@.take(i as int)),
                unavailable as nat == unavailable_count(
                    tracks@.take(if i <= index { i as int } else { index as int }),
                ),
                unavailable <= i,
                unavailable <= index,
            decreases tracks.len() - i,
        {
            proof {
                assert(tracks@.take(i as int + 1).drop_last() =~= tracks@.take(i as int));
            }
            let t = &tracks[i];
            if t.available {
                queue.push(t.clone());
            } else if i < index as usize {
                unavailable += 1;
            }
            i += 1;
        }
        proof {
            assert(tracks@.take(tracks@.len() as int) =~= tracks@);
            lemma_available_len(tracks@);
        }
        let ghost available = queue@;
        if shuffle {
            shuffle_tracks(&mut queue);
        }
        let target = index as i64 - unavailable as i64;
        let position: i32 = if target > 0x7fff_ffff {
            0x7fff_ffff
        } else {
            target as i32
        };
        let mut tracklist = Tracklist { queue, list_type };
        let ghost q = tracklist.tracks();
        tracklist.skip_to_track(position);
        proof {
            assert(skipped(q, position as int) =~= skipped(q, target as int));
        }
        let r = self.new_queue(tracklist, now);
        proof {
            assert(target as int == collection_target(tracks@, index as nat));
            assert(q.to_multiset() == available.to_multiset());
            assert((self@, r@) == play_collection_step(old(self)@, list_type, q, target as int, now));
        }
        r
    }

    /// Plays the available tracks of an album, from catalog position `index`.
    pub fn play_album(&mut self, album: AlbumTracklist, tracks: Vec<Track>, index: u32, now: u64) -> (r: Vec<
        Effect,
    >)
        requires
            old(self).wf(),
            tracks@.len() <= MAX_QUEUE,
        ensures
            final(self).wf(),
            (final(self)@, r@) == play_collection_step(
                old(self)@,
                TracklistType::Album(album),
                available_of(tracks@),
                collection_target(tracks@, index as nat),
                now,
            ),
    {
        self.play_collection(TracklistType::Album(album), tracks, index, false, now)
    }

    /// Plays the available top tracks of an artist, from position `index`.
    pub fn play_top_tracks(
        &mut self,
        artist: TopTracklist,
        tracks: Vec<Track>,
        index: u32,
        now: u64,
    ) -> (r: Vec<Effect>)
        requires
            old(self).wf(),
            tracks@.len() <= MAX_QUEUE,
        ensures
            final(self).wf(),
            (final(self)@, r@) == play_collection_step(
                old(self)@,
                TracklistType::TopTracks(artist),
                available_of(tracks@),
                collection_target(tracks@, index as nat),
                now,
            ),
    {
        self.play_collection(TracklistType::TopTracks(artist), tracks, index, false, now)
    }

    /// Plays the available tracks of a playlist, shuffled or not, from the
    /// queue position that catalog position `index` has before shuffling.
    pub fn play_playlist(
        &mut self,
        playlist: PlaylistTracklist,
        tracks: Vec<Track>,
        index: u32,
        shuffle: bool,
        now: u64,
    ) -> (r: Vec<Effect>)
        requires
            old(self).wf(),
            tracks@.len() <= MAX_QUEUE,
        ensures
            final(self).wf(),
            !shuffle ==> (final(self)@, r@) == play_collection_step(
                old(self)@,
                TracklistType::Playlist(playlist),
                available_of(tracks@),
                collection_target(tracks@, index as nat),
                now,
            ),
            shuffle ==> exists|q: Seq<Track>|
                q.to_multiset() == available_of(tracks@).to_multiset() && (final(self)@, r@)
                    == play_collection_step(
                    old(self)@,
                    TracklistType::Playlist(playlist),
                    q,
                    collection_target(tracks@, index as nat),
                    now,
                ),
    {
        self.play_collection(TracklistType::Playlist(playlist), tracks, index, shuffle, now)
    }

    /// Plays one track on its own.
    pub fn play_track(&mut self, track: Track, now: u64) -> (r: Vec<Effect>)
        requires
            old(self).wf(),
        ensures
            final(self).wf(),
            (final(self)@, r@) == play_track_step(old(self)@, track, now),
    {
        let list_type = TracklistType::Track(
            SingleTracklist {
                track_title: track.title.clone(),
                album_id: crate::text::clone_opt_string(&track.album_id),
                image: crate::text::clone_opt_string(&track.image),
            },
        );
        let mut track = track;
        track.status = TrackStatus::Playing;
        let tracklist = Tracklist { queue: vec![track], list_type };
        proof {
            assert(tracklist.tracks() =~= seq![with_status(track, TrackStatus::Playing)]);
        }
        self.new_queue(tracklist, now)
    }
    /// Carries out one command. Commands that would overfill the queue or
    /// name a position past its end are turned down, changing nothing.
    pub fn handle_message(&mut self, request: Request, now: u64) -> (r: Result<Vec<Effect>, PlayerError>)
        requires
            old(self).wf(),
        ensures
            final(self).wf(),
            match request {
                Request::Album { album, tracks, index } => if tracks@.len() > MAX_QUEUE {
                    refused(old(self)@, final(self)@, r, PlayerError::QueueFull)
                } else {
                    done_with(
                        final(self)@,
                        r,
                        play_collection_step(
                            old(self)@,
                            TracklistType::Album(album),
                            available_of(tracks@),
                            collection_target(tracks@, index as nat),
                            now,
                        ),
                    )
                },
                Request::Playlist { playlist, tracks, index, shuffle } => if tracks@.len()
                    > MAX_QUEUE {
                    refused(old(self)@, final(self)@, r, PlayerError::QueueFull)
                } else if shuffle {
                    exists|q: Seq<Track>|
                        q.to_multiset() == available_of(tracks@).to_multiset() && done_with(
                            final(self)@,
                            r,
                            play_collection_step(
                                old(self)@,
                                TracklistType::Playlist(playlist),
                                q,
                                collection_target(tracks@, index as nat),
                                now,
                            ),
                        )
                } else {
                    done_with(
                        final(self)@,
                        r,
                        play_collection_step(
                            old(self)@,
                            TracklistType::Playlist(playlist),
                            available_of(tracks@),
                            collection_target(tracks@, index as nat),
                            now,
                        ),
                    )
                },
                Request::ArtistTopTracks { artist, tracks, index } => if tracks@.len()
                    > MAX_QUEUE {
                    refused(old(self)@, final(self)@, r, PlayerError::QueueFull)
                } else {
                    done_with(
                        final(self)@,
                        r,
                        play_collection_step(
                            old(self)@,
                            TracklistType::TopTracks(artist),
                            available_of(tracks@),
                            collection_target(tracks@, index as nat),
                            now,
                        ),
                    )
                },
                Request::Track { track } => done_with(
                    final(self)@,
                    r,
                    play_track_step(old(self)@, track, now),
                ),
                Request::SkipToPosition { new_position, force } => done_with(
                    final(self)@,
                    r,
                    skip_step(old(self)@, new_position as int, force, now),
                ),
                Request::Next => done_with(final(self)@, r, next_step(old(self)@, now)),
                Request::Previous => done_with(final(self)@, r, previous_step(old(self)@, now)),
                Request::PlayPause => done_with(final(self)@, r, play_pause_step(old(self)@, now)),
                Request::Play => done_with(final(self)@, r, play_step(old(self)@, now)),
                Request::Pause => done_with(final(self)@, r, pause_step(old(self)@, now)),
                Request::JumpForward => done_with(
                    final(self)@,
                    r,
                    jump_forward_step(old(self)@, now),
                ),
                Request::JumpBackward => done_with(
                    final(self)@,
                    r,
                    jump_backward_step(old(self)@, now),
                ),
                Request::Seek { time_ms } => done_with(
                    final(self)@,
                    r,
                    seek_step(old(self)@, time_ms, now),
                ),
                Request::AddTrackToQueue { track } => if old(self)@.tracks.len() >= MAX_QUEUE {
                    refused(old(self)@, final(self)@, r, PlayerError::QueueFull)
                } else {
                    done_with(
                        final(self)@,
                        r,
                        update_queue_step(old(self)@, old(self)@.tracks.push(track)),
                    )
                },
                Request::RemoveIndexFromQueue { index } => if index >= old(self)@.tracks.len() {
                    refused(old(self)@, final(self)@, r, PlayerError::IndexOutOfRange)
                } else {
                    done_with(
                        final(self)@,
                        r,
                        update_queue_step(old(self)@, old(self)@.tracks.remove(index as int)),
                    )
                },
                Request::PlayTrackNext { track } => if old(self)@.tracks.len() >= MAX_QUEUE {
                    refused(old(self)@, final(self)@, r, PlayerError::QueueFull)
                } else {
                    done_with(
                        final(self)@,
                        r,
                        update_queue_step(
                            old(self)@,
                            old(self)@.tracks.insert(insert_next_index(old(self)@.tracks), track),
                        ),
                    )
                },
                Request::ReorderQueue { new_order } => if new_order@.len() > MAX_QUEUE {
                    refused(old(self)@, final(self)@, r, PlayerError::QueueFull)
                } else if !order_in_range(new_order@, old(self)@.tracks.len()) {
                    refused(old(self)@, final(self)@, r, PlayerError::IndexOutOfRange)
                } else {
                    done_with(
                        final(self)@,
                        r,
                        update_queue_step(old(self)@, reordered(old(self)@.tracks, new_order@)),
                    )
                },
            },
    {
        match request {
            Request::Album { album, tracks, index } => {
                if tracks.len() > MAX_QUEUE {
                    return Err(PlayerError::QueueFull);
                }
                Ok(self.play_album(album, tracks, index, now))
            },
            Request::Playlist { playlist, tracks, index, shuffle } => {
                if tracks.len() > MAX_QUEUE {
                    return Err(PlayerError::QueueFull);
                }
                Ok(self.play_playlist(playlist, tracks, index, shuffle, now))
            },
            Request::ArtistTopTracks { artist, tracks, index } => {
                if tracks.len() > MAX_QUEUE {
                    return Err(PlayerError::QueueFull);
                }
                Ok(self.play_top_tracks(artist, tracks, index, now))
            },
            Request::Track { track } => Ok(self.play_track(track, now)),
            Request::SkipToPosition { new_position, force } => {
                let position: i32 = if new_position > 0x7fff_ffff {
                    0x7fff_ffff
                } else {
                    new_position as i32
                };
                proof {
                    let v = self@;
                    crate::tracklist::lemma_first_with(v.tracks, TrackStatus::Playing);
                    assert(skipped(v.tracks, position as int) =~= skipped(
                        v.tracks,
                        new_position as int,
                    ));
                    assert(skip_step(v, position as int, force, now) == skip_step(
                        v,
                        new_position as int,
                        force,
                        now,
                    ));
                }
                Ok(self.skip_to_position(position, force, now))
            },
            Request::Next => Ok(self.next(now)),
            Request::Previous => Ok(self.previous(now)),
            Request::PlayPause => Ok(self.play_pause(now)),
            Request::Play => Ok(self.play(now)),
            Request::Pause => Ok(self.pause(now)),
            Request::JumpForward => Ok(self.jump_forward(now)),
            Request::JumpBackward => Ok(self.jump_backward(now)),
            Request::Seek { time_ms } => Ok(self.seek(time_ms, now)),
            Request::AddTrackToQueue { track } => {
                if self.tracklist.queue.len() >= MAX_QUEUE {
                    return Err(PlayerError::QueueFull);
                }
                Ok(self.add_track_to_queue(track))
            },
            Request::RemoveIndexFromQueue { index } => {
                if index as usize >= self.tracklist.queue.len() {
                    return Err(PlayerError::IndexOutOfRange);
                }
                Ok(self.remove_index_from_queue(index as usize))
            },
            Request::PlayTrackNext { track } => {
                if self.tracklist.queue.len() >= MAX_QUEUE {
                    return Err(PlayerError::QueueFull);
                }
                Ok(self.play_track_next(track))
            },
            Request::ReorderQueue { new_order } => {
                if new_order.len() > MAX_QUEUE {
                    return Err(PlayerError::QueueFull);
                }
                if !order_fits(&new_order, self.tracklist.queue.len()) {
                    return Err(PlayerError::IndexOutOfRange);
                }
                Ok(self.reorder_queue(new_order))
            },
        }
    }
}

} // verus!
