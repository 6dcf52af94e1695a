//! A track of the catalog, as the player sees it.

use crate::text::clone_opt_string;
use vstd::prelude::*;

verus! {

/// Where a track stands in the queue.
#[derive(Debug, Clone, Copy, PartialEq, Eq, Structural)]
pub enum TrackStatus {
    Played,
    Playing,
    Unplayed,
    Unplayable,
}

/// The metadata of a track that playback and the cache layout read.
#[derive(Debug, PartialEq, Eq)]
pub struct Track {
    pub id: u32,
    pub number: u32,
    pub title: String,
    pub album_title: Option<String>,
    pub album_id: Option<String>,
    pub artist_name: Option<String>,
    pub artist_id: Option<u32>,
    pub duration_seconds: u32,
    pub explicit: bool,
    pub hires_available: bool,
    pub available: bool,
    pub image: Option<String>,
    pub status: TrackStatus,
}

impl Clone for Track {
    fn clone(&self) -> (r: Track)
        ensures
            r == *self,
    {
        Track {
            id: self.id,
            number: self.number,
            title: self.title.clone(),
            album_title: clone_opt_string(&self.album_title),
            album_id: clone_opt_string(&self.album_id),
            artist_name: clone_opt_string(&self.artist_name),
            artist_id: self.artist_id,
            duration_seconds: self.duration_seconds,
            explicit: self.explicit,
            hires_available: self.hires_available,
            available: self.available,
            image: clone_opt_string(&self.image),
            status: self.status,
        }
    }
}

} // verus!
