use qobuz_player_controls::download::{DownloadAction, DownloadPlan, Downloader};
use qobuz_player_controls::simple_cache::SimpleCache;
use qobuz_player_controls::sink::{next_attempt, plan_query, DeviceAttempt, QueryTrackResult};
use qobuz_player_controls::timer::Timer;

#[test]
fn cached_track_is_ready_without_fetch() {
    let mut d = Downloader::new();
    let plan = d.ensure_track_is_downloaded(true);
    assert_eq!(
        plan,
        DownloadPlan {
            abort: None,
            action: DownloadAction::Ready
        }
    );
    assert_eq!(d.in_flight, None);
}

#[test]
fn second_request_cancels_first() {
    let mut d = Downloader::new();
    let first = d.ensure_track_is_downloaded(false);
    assert_eq!(first.action, DownloadAction::Fetch(0));
    let second = d.ensure_track_is_downloaded(false);
    assert_eq!(second.abort, Some(0));
    assert_eq!(second.action, DownloadAction::Fetch(1));
    assert!(!d.task_finished(0));
    assert!(d.task_finished(1));
    assert!(!d.task_finished(1));
}

#[test]
fn cache_hit_cancels_fetch_in_flight() {
    let mut d = Downloader::new();
    d.ensure_track_is_downloaded(false);
    let plan = d.ensure_track_is_downloaded(true);
    assert_eq!(plan.abort, Some(0));
    assert_eq!(plan.action, DownloadAction::Ready);
    assert!(!d.task_finished(0));
}

#[test]
fn test_cache_expires_after_ttl() {
    let mut cache = SimpleCache::new(100);
    cache.set("test_value".to_string(), 1_000);
    assert_eq!(cache.get(1_000).cloned(), Some("test_value".to_string()));
    assert_eq!(cache.get(1_150).cloned(), None);
}

#[test]
fn cache_clear_forgets() {
    let mut cache = SimpleCache::new(100);
    cache.set(5u32, 0);
    assert_eq!(cache.get(99), Some(&5));
    cache.clear();
    assert_eq!(cache.get(0), None);
}

#[test]
fn sink_queues_only_at_same_rate() {
    assert_eq!(plan_query(Some(44_100), 44_100), QueryTrackResult::Queued);
    assert_eq!(plan_query(Some(44_100), 96_000), QueryTrackResult::NotQueued);
    assert_eq!(plan_query(None, 44_100), QueryTrackResult::NotQueued);
}

#[test]
fn timer_runs_pauses_and_sets() {
    let mut t = Timer::new();
    assert_eq!(t.elapsed(500), 0);
    t.start(1_000);
    assert_eq!(t.elapsed(3_500), 2_500);
    t.pause(4_000);
    assert_eq!(t.elapsed(9_000), 3_000);
    t.start(10_000);
    assert_eq!(t.elapsed(11_000), 4_000);
    t.set_time(500, 12_000);
    assert_eq!(t.elapsed(12_250), 750);
    t.stop();
    assert_eq!(t.elapsed(20_000), 0);
    assert!(!t.is_running());
}

#[test]
fn devices_tried_in_turn() {
    let mut a = next_attempt(DeviceAttempt::Default, 2);
    assert_eq!(a, DeviceAttempt::Device(0));
    a = next_attempt(a, 2);
    assert_eq!(a, DeviceAttempt::Device(1));
    a = next_attempt(a, 2);
    assert_eq!(a, DeviceAttempt::GiveUp);
    assert_eq!(next_attempt(DeviceAttempt::Default, 0), DeviceAttempt::GiveUp);
    assert_eq!(next_attempt(DeviceAttempt::GiveUp, 5), DeviceAttempt::GiveUp);
}
