use qobuz_player_controls::track::TrackStatus::{Played, Playing, Unplayable, Unplayed};
use qobuz_player_controls::track::{Track, TrackStatus};
use qobuz_player_controls::tracklist::{
    AlbumTracklist, PlaylistTracklist, SingleTracklist, TopTracklist, Tracklist, TracklistType,
};

fn track(id: u32, status: TrackStatus) -> Track {
    Track {
        id,
        number: id,
        title: format!("Track {id}"),
        album_title: Some("Album".to_string()),
        album_id: Some("alb1".to_string()),
        artist_name: Some("Artist".to_string()),
        artist_id: Some(7),
        duration_seconds: 60,
        explicit: false,
        hires_available: false,
        available: true,
        image: Some(format!("cover{id}")),
        status,
    }
}

fn list(statuses: &[TrackStatus]) -> Tracklist {
    Tracklist {
        queue: statuses
            .iter()
            .enumerate()
            .map(|(i, s)| track(i as u32, *s))
            .collect(),
        list_type: TracklistType::Empty,
    }
}

fn statuses(t: &Tracklist) -> Vec<TrackStatus> {
    t.queue().iter().map(|t| t.status).collect()
}

fn playing_count(t: &Tracklist) -> usize {
    t.queue()
        .iter()
        .filter(|t| t.status == TrackStatus::Playing)
        .count()
}

#[test]
fn skip_marks_before_after_and_current() {
    let mut t = list(&[Unplayed, Unplayed, Unplayed, Unplayed]);
    let got = t.skip_to_track(2).map(|t| t.id);
    assert_eq!(got, Some(2));
    assert_eq!(statuses(&t), vec![Played, Played, Playing, Unplayed]);
    assert_eq!(t.current_position(), 2);
    assert_eq!(t.currently_playing(), Some(2));
}

#[test]
fn skips_leave_at_most_one_playing() {
    let mut t = list(&[Playing, Playing, Unplayed, Played, Unplayed]);
    for n in [3, 0, 4, -1, 1, 7, 2] {
        t.skip_to_track(n);
        assert!(playing_count(&t) <= 1);
    }
    assert_eq!(playing_count(&t), 1);
}

#[test]
fn skip_to_length_plays_nothing() {
    let mut t = list(&[Unplayed, Playing, Unplayed]);
    assert!(t.skip_to_track(3).is_none());
    assert_eq!(statuses(&t), vec![Played, Played, Played]);
    assert!(t.current_track().is_none());
    assert_eq!(t.current_position(), 0);
}

#[test]
fn skip_to_negative_changes_nothing() {
    let mut t = list(&[Played, Playing, Unplayed]);
    assert!(t.skip_to_track(-1).is_none());
    assert_eq!(statuses(&t), vec![Played, Playing, Unplayed]);
}

#[test]
fn reset_after_all_played_starts_at_first() {
    let mut t = list(&[Played, Played, Played]);
    t.reset();
    assert_eq!(statuses(&t), vec![Playing, Unplayed, Unplayed]);
}

#[test]
fn reset_skips_unplayable_tracks() {
    let mut t = list(&[Unplayable, Played, Playing]);
    t.reset();
    assert_eq!(statuses(&t), vec![Unplayable, Playing, Unplayed]);
}

#[test]
fn empty_tracklist_is_total() {
    let mut t = Tracklist::new();
    assert_eq!(t.total(), 0);
    assert_eq!(t.current_position(), 0);
    assert!(t.current_track().is_none());
    assert!(t.next_track().is_none());
    assert!(t.skip_to_track(0).is_none());
    t.reset();
    assert_eq!(t.total(), 0);
    let e = t.entity_playing();
    assert_eq!(e.title, None);
    assert_eq!(e.link, None);
    assert_eq!(e.cover_link, None);
}

#[test]
fn next_track_follows_current() {
    let t = list(&[Played, Playing, Unplayed]);
    assert_eq!(t.next_track().map(|t| t.id), Some(2));
    let t = list(&[Played, Played, Playing]);
    assert!(t.next_track().is_none());
    let t = list(&[Unplayed, Unplayed]);
    assert_eq!(t.next_track().map(|t| t.id), Some(1));
}

#[test]
fn entity_for_each_list_type() {
    let mut t = list(&[Unplayed, Playing]);
    t.list_type = TracklistType::Album(AlbumTracklist {
        title: "Blue".to_string(),
        id: "abc".to_string(),
        image: None,
    });
    let e = t.entity_playing();
    assert_eq!(e.title.as_deref(), Some("Blue"));
    assert_eq!(e.link.as_deref(), Some("/album/abc"));
    assert_eq!(e.cover_link.as_deref(), Some("cover1"));

    t.list_type = TracklistType::Playlist(PlaylistTracklist {
        title: "Mix".to_string(),
        id: 12,
        image: None,
    });
    let e = t.entity_playing();
    assert_eq!(e.title.as_deref(), Some("Mix"));
    assert_eq!(e.link.as_deref(), Some("/playlist/12"));

    t.list_type = TracklistType::TopTracks(TopTracklist {
        artist_name: "Someone".to_string(),
        id: 4057,
        image: None,
    });
    let e = t.entity_playing();
    assert_eq!(e.title.as_deref(), Some("Someone"));
    assert_eq!(e.link.as_deref(), Some("/artist/4057"));

    t.list_type = TracklistType::Track(SingleTracklist {
        track_title: "Track 1".to_string(),
        album_id: Some("alb1".to_string()),
        image: None,
    });
    let e = t.entity_playing();
    assert_eq!(e.title.as_deref(), Some("Album"));
    assert_eq!(e.link.as_deref(), Some("/album/alb1"));

    t.list_type = TracklistType::Empty;
    let e = t.entity_playing();
    assert_eq!(e.title, None);
    assert_eq!(e.link, None);
    assert_eq!(e.cover_link.as_deref(), Some("cover1"));
}
