use qobuz_player_controls::player::{Effect, Player, PlayerError, Request};
use qobuz_player_controls::sink::QueryTrackResult;
use qobuz_player_controls::track::TrackStatus::{Played, Playing, Unplayed};
use qobuz_player_controls::track::{Track, TrackStatus};
use qobuz_player_controls::tracklist::{
    AlbumTracklist, PlaylistTracklist, Tracklist, TracklistType,
};
use qobuz_player_controls::Status;

fn track(id: u32, available: bool, duration_seconds: u32, status: TrackStatus) -> Track {
    Track {
        id,
        number: id,
        title: format!("Track {id}"),
        album_title: Some("Album".to_string()),
        album_id: Some("alb".to_string()),
        artist_name: Some("Artist".to_string()),
        artist_id: Some(1),
        duration_seconds,
        explicit: false,
        hires_available: false,
        available,
        image: None,
        status,
    }
}

fn player_with(statuses: &[TrackStatus], duration_seconds: u32) -> Player {
    let queue = statuses
        .iter()
        .enumerate()
        .map(|(i, s)| track(i as u32, true, duration_seconds, *s))
        .collect();
    Player::new(Tracklist {
        queue,
        list_type: TracklistType::Empty,
    })
}

fn ids(p: &Player) -> Vec<u32> {
    p.tracklist().queue().iter().map(|t| t.id).collect()
}

fn album() -> AlbumTracklist {
    AlbumTracklist {
        title: "Album".to_string(),
        id: "alb".to_string(),
        image: None,
    }
}

#[test]
fn jump_forward_clamps_to_track_end() {
    let mut p = player_with(&[TrackStatus::Playing], 60);
    p.seek(55_000, 0);
    let e = p.jump_forward(0);
    assert_eq!(e, vec![Effect::SeekSink(60_000)]);
    assert_eq!(p.position_ms(), 60_000);
}

#[test]
fn jump_forward_moves_ten_seconds() {
    let mut p = player_with(&[TrackStatus::Playing], 60);
    p.seek(20_000, 0);
    assert_eq!(p.jump_forward(0), vec![Effect::SeekSink(30_000)]);
}

#[test]
fn jump_backward_clamps_to_start() {
    let mut p = player_with(&[TrackStatus::Playing], 60);
    p.seek(5_000, 0);
    assert_eq!(p.jump_backward(0), vec![Effect::SeekSink(0)]);
    assert_eq!(p.position_ms(), 0);
    p.seek(25_000, 0);
    assert_eq!(p.jump_backward(0), vec![Effect::SeekSink(15_000)]);
}

#[test]
fn previous_restarts_then_goes_back() {
    let mut p = player_with(&[Played, Playing, Unplayed], 60);
    p.seek(30_000, 0);
    let e = p.previous(0);
    assert_eq!(e, vec![Effect::SeekSink(0)]);
    assert_eq!(p.tracklist().current_position(), 1);
    assert_eq!(p.position_ms(), 0);

    let e = p.previous(500);
    assert_eq!(p.tracklist().current_position(), 0);
    assert_eq!(p.status(), Status::Buffering);
    assert_eq!(
        e,
        vec![
            Effect::ClearSink,
            Effect::Download(track(0, true, 60, Playing)),
            Effect::PublishTracklist
        ]
    );
}

#[test]
fn previous_at_first_track_stays_at_start() {
    let mut p = player_with(&[Playing, Unplayed], 60);
    let e = p.previous(0);
    assert_eq!(p.tracklist().current_position(), 0);
    assert_eq!(p.status(), Status::Paused);
    assert_eq!(p.position_ms(), 0);
    assert_eq!(
        e,
        vec![Effect::ClearSink, Effect::PauseSink, Effect::PublishTracklist]
    );
}

#[test]
fn play_album_skips_unavailable_tracks() {
    let mut p = Player::new(Tracklist::new());
    let tracks = vec![
        track(10, false, 60, TrackStatus::Unplayed),
        track(11, false, 60, TrackStatus::Unplayed),
        track(12, true, 60, TrackStatus::Unplayed),
        track(13, true, 60, TrackStatus::Unplayed),
        track(14, true, 60, TrackStatus::Unplayed),
    ];
    let e = p.play_album(album(), tracks, 3, 0);
    assert_eq!(ids(&p), vec![12, 13, 14]);
    assert_eq!(p.tracklist().current_position(), 1);
    assert_eq!(p.tracklist().currently_playing(), Some(13));
    assert_eq!(p.status(), Status::Buffering);
    assert_eq!(
        e,
        vec![
            Effect::ClearSink,
            Effect::Download(track(13, true, 60, TrackStatus::Playing)),
            Effect::PublishTracklist
        ]
    );
}

#[test]
fn play_playlist_shuffled_keeps_tracks() {
    let mut p = Player::new(Tracklist::new());
    let tracks: Vec<Track> = (0..30)
        .map(|i| track(i, i % 3 != 0, 60, TrackStatus::Unplayed))
        .collect();
    let playlist = PlaylistTracklist {
        title: "Mix".to_string(),
        id: 5,
        image: None,
    };
    let mut orders = Vec::new();
    for _ in 0..3 {
        p.play_playlist(playlist.clone(), tracks.clone(), 0, true, 0);
        let got = ids(&p);
        let mut sorted = got.clone();
        sorted.sort();
        let want: Vec<u32> = (0..30).filter(|i| i % 3 != 0).collect();
        assert_eq!(sorted, want);
        assert_eq!(p.tracklist().current_position(), 0);
        orders.push(got);
    }
    let unshuffled: Vec<u32> = (0..30).filter(|i| i % 3 != 0).collect();
    assert!(orders.iter().any(|o| *o != unshuffled));
}

#[test]
fn play_then_done_buffering_starts_clock() {
    let mut p = player_with(&[TrackStatus::Playing, TrackStatus::Unplayed], 100);
    let e = p.play(1_000);
    assert_eq!(
        e,
        vec![
            Effect::Download(track(0, true, 100, TrackStatus::Playing)),
            Effect::PlaySink
        ]
    );
    assert_eq!(p.status(), Status::Playing);
    assert_eq!(p.play_pause(2_000), vec![Effect::PauseSink]);
    assert_eq!(p.status(), Status::Paused);
    assert_eq!(p.play(3_000), vec![Effect::PlaySink]);
    p.done_buffering(Some(QueryTrackResult::Queued), 3_000);
    assert_eq!(p.status(), Status::Playing);
}

#[test]
fn tick_fetches_next_track_near_the_end() {
    let mut p = player_with(&[TrackStatus::Playing, TrackStatus::Unplayed], 100);
    p.play(0);
    assert_eq!(p.tick(10_000), vec![]);
    assert_eq!(p.position_ms(), 10_000);
    let e = p.tick(50_000);
    assert_eq!(
        e,
        vec![Effect::Download(track(1, true, 100, TrackStatus::Unplayed))]
    );
    assert_eq!(p.tick(51_000), vec![]);
}

#[test]
fn tick_does_nothing_while_paused() {
    let mut p = player_with(&[TrackStatus::Playing], 100);
    assert_eq!(p.tick(500_000), vec![]);
    assert_eq!(p.position_ms(), 0);
}

#[test]
fn finished_last_track_starts_over_paused() {
    let mut p = player_with(&[TrackStatus::Played, TrackStatus::Playing], 10);
    p.play(0);
    p.done_buffering(Some(QueryTrackResult::NotQueued), 0);
    let e = p.tick(10_000);
    assert_eq!(
        e,
        vec![Effect::PauseSink, Effect::ClearSink, Effect::PublishTracklist]
    );
    assert_eq!(p.status(), Status::Paused);
    assert_eq!(p.tracklist().current_position(), 0);
}

#[test]
fn finished_track_moves_on_to_queued_next() {
    let mut p = player_with(&[TrackStatus::Playing, TrackStatus::Unplayed], 70);
    p.play(0);
    p.done_buffering(Some(QueryTrackResult::Queued), 0);
    p.tick(20_000);
    p.done_buffering(Some(QueryTrackResult::Queued), 20_000);
    let e = p.tick(70_000);
    assert_eq!(e, vec![Effect::PublishTracklist]);
    assert_eq!(p.tracklist().current_position(), 1);
    assert_eq!(p.status(), Status::Playing);
}

#[test]
fn queue_edits_clear_pending_queue() {
    let mut p = player_with(&[TrackStatus::Playing, TrackStatus::Unplayed], 60);
    let e = p.play_track_next(track(9, true, 60, TrackStatus::Unplayed));
    assert_eq!(e, vec![Effect::ClearSinkQueue, Effect::PublishTracklist]);
    assert_eq!(ids(&p), vec![0, 9, 1]);
    p.add_track_to_queue(track(8, true, 60, TrackStatus::Unplayed));
    assert_eq!(ids(&p), vec![0, 9, 1, 8]);
    p.remove_index_from_queue(1);
    assert_eq!(ids(&p), vec![0, 1, 8]);
    p.reorder_queue(vec![2, 0, 1]);
    assert_eq!(ids(&p), vec![8, 0, 1]);
}

#[test]
fn commands_past_the_queue_are_refused() {
    let mut p = player_with(&[TrackStatus::Playing], 60);
    let r = p.handle_message(Request::RemoveIndexFromQueue { index: 1 }, 0);
    assert_eq!(r, Err(PlayerError::IndexOutOfRange));
    let r = p.handle_message(
        Request::ReorderQueue {
            new_order: vec![0, 3],
        },
        0,
    );
    assert_eq!(r, Err(PlayerError::IndexOutOfRange));
    assert_eq!(ids(&p), vec![0]);
    assert_eq!(
        PlayerError::IndexOutOfRange.message(),
        "No track at that queue position"
    );
    assert_eq!(PlayerError::QueueFull.message(), "The queue is full");
}

#[test]
fn commands_dispatch_to_steps() {
    let mut p = Player::new(Tracklist::new());
    let r = p.handle_message(
        Request::Track {
            track: track(4, true, 60, TrackStatus::Unplayed),
        },
        0,
    );
    assert_eq!(
        r,
        Ok(vec![
            Effect::ClearSink,
            Effect::Download(track(4, true, 60, TrackStatus::Playing)),
            Effect::PublishTracklist
        ])
    );
    assert!(matches!(p.tracklist().list_type(), TracklistType::Track(_)));
    let r = p.handle_message(
        Request::SkipToPosition {
            new_position: 4_000_000_000,
            force: true,
        },
        0,
    );
    assert!(r.is_ok());
    assert_eq!(p.status(), Status::Paused);
    assert_eq!(p.tracklist().current_position(), 0);
    let r = p.handle_message(Request::Seek { time_ms: 1_234 }, 0);
    assert_eq!(r, Ok(vec![Effect::SeekSink(1_234)]));
}
