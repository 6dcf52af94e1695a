//! The decisions of the downloader: a cached track is ready at once, any
//! other is fetched by a new task, and a new request always cancels the task
//! in flight, so that a player has at most one.

use vstd::prelude::*;

verus! {

/// What to do for a requested track.
#[derive(Debug, Clone, Copy, PartialEq, Eq, Structural)]
pub enum DownloadAction {
    /// The file is in the cache: signal it ready, with no network call.
    Ready,
    /// Start fetching task `id`: write a temporary sibling, rename it into
    /// place, then report the task done.
    Fetch(u64),
}

/// The answer to a request: a task to cancel first, if any, and the action.
#[derive(Debug, Clone, Copy, PartialEq, Eq, Structural)]
pub struct DownloadPlan {
    pub abort: Option<u64>,
    pub action: DownloadAction,
}

/// The download tasks of one player: the number the next task gets, and
/// the task in flight.
#[derive(Debug, Clone, Copy, PartialEq, Eq, Structural)]
pub struct Downloader {
    pub next_task: u64,
    pub in_flight: Option<u64>,
}

/// Every task in flight has a number below the next one.
pub open spec fn downloader_wf(d: Downloader) -> bool {
    match d.in_flight {
        Some(t) => t < d.next_task,
        None => true,
    }
}

/// A request for a track, `cached` telling whether its file is on disk.
pub open spec fn request_step(d: Downloader, cached: bool) -> (Downloader, DownloadPlan) {
    if cached {
        (
            Downloader { in_flight: None, ..d },
            DownloadPlan { abort: d.in_flight, action: DownloadAction::Ready },
        )
    } else {
        (
            Downloader {
                next_task: if d.next_task < u64::MAX {
                    (d.next_task + 1) as u64
                } else {
                    d.next_task
                },
                in_flight: Some(d.next_task),
            },
            DownloadPlan { abort: d.in_flight, action: DownloadAction::Fetch(d.next_task) },
        )
    }
}

/// Task `task` reports its file in place: accepted only from the task in
/// flight, which then is done.
pub open spec fn finish_step(d: Downloader, task: u64) -> (Downloader, bool) {
    if d.in_flight == Some(task) {
        (Downloader { in_flight: None, ..d }, true)
    } else {
        (d, false)
    }
}

impl Downloader {
    /// No task yet.
    pub fn new() -> (r: Downloader)
        ensures
            r == (Downloader { next_task: 0, in_flight: None }),
            downloader_wf(r),
    {
        Downloader { next_task: 0, in_flight: None }
    }

    /// Decides how a requested track becomes available: the task in flight
    /// is cancelled, then a cached file is ready at once and any other is
    /// fetched by a new task.
    pub fn ensure_track_is_downloaded(&mut self, cached: bool) -> (r: DownloadPlan)
        ensures
            (*final(self), r) == request_step(*old(self), cached),
            downloader_wf(*old(self)) && old(self).next_task < u64::MAX ==> downloader_wf(
                *final(self),
            ),
    {
        let abort = self.in_flight;
        if cached {
            self.in_flight = None;
            DownloadPlan { abort, action: DownloadAction::Ready }
        } else {
            let id = self.next_task;
            self.in_flight = Some(id);
            self.next_task = self.next_task.saturating_add(1);
            DownloadPlan { abort, action: DownloadAction::Fetch(id) }
        }
    }

    /// Task `task` has its file in place. Returns whether the file is to be
    /// signalled ready: only the task in flight counts, a cancelled one
    /// that finished anyway does not.
    pub fn task_finished(&mut self, task: u64) -> (r: bool)
        ensures
            (*final(self), r) == finish_step(*old(self), task),
            downloader_wf(*old(self)) ==> downloader_wf(*final(self)),
    {
        if self.in_flight == Some(task) {
            self.in_flight = None;
            true
        } else {
            false
        }
    }
}

/// After any request at most one task is in flight, and it is the one the
/// request started, if any: a request for a cached track leaves none.
pub proof fn lemma_at_most_one_in_flight(d: Downloader, cached: bool)
    ensures
        ({
            let (after, plan) = request_step(d, cached);
            &&& plan.abort == d.in_flight
            &&& match plan.action {
                DownloadAction::Ready => after.in_flight is None,
                DownloadAction::Fetch(t) => after.in_flight == Some(t),
            }
        }),
{
}

/// A request for a cached track makes no network call and leaves no task.
pub proof fn lemma_cached_is_ready(d: Downloader)
    ensures
        request_step(d, true).1.action == DownloadAction::Ready,
        request_step(d, true).0.in_flight is None,
{
}

/// Two requests for uncached tracks in a row: the second cancels the first
/// task, and only the second task's file is ever signalled: the first one's
/// report is turned down, the second one's accepted.
pub proof fn lemma_second_request_supersedes(d: Downloader)
    requires
        downloader_wf(d),
        d.next_task < u64::MAX - 1,
    ensures
        ({
            let (after_first, first) = request_step(d, false);
            let (after_second, second) = request_step(after_first, false);
            &&& first.action == DownloadAction::Fetch(d.next_task)
            &&& second.abort == Some(d.next_task)
            &&& second.action == DownloadAction::Fetch((d.next_task + 1) as u64)
            &&& !finish_step(after_second, d.next_task).1
            &&& finish_step(after_second, (d.next_task + 1) as u64).1
            &&& !finish_step(finish_step(after_second, (d.next_task + 1) as u64).0, d.next_task).1
        }),
{
}

} // verus!
