//! Named orderings of tracks, owned and mutated by the caller.

use vstd::prelude::*;

use crate::track::{keeps_other_paths, remove_tracks_with_path, Track};

verus! {

/// A named list of tracks.
pub struct Playlist {
    pub name: String,
    pub tracks: Vec<Track>,
}

impl Playlist {
    /// An empty playlist with the given name.
    pub fn new(name: String) -> (p: Playlist)
        ensures
            p.name == name,
            p.tracks@.len() == 0,
    {
        Playlist { name, tracks: Vec::new() }
    }

    /// Append a track at the end of the playlist.
    pub fn add_track(&mut self, track: Track)
        ensures
            final(self).tracks@ == old(self).tracks@.push(track),
            final(self).name == old(self).name,
    {
        self.tracks.push(track);
    }

    /// Remove every entry with the given track's file path, keeping the
    /// order of the rest.
    pub fn remove_track(&mut self, track: Track)
        ensures
            final(self).tracks@ == keeps_other_paths(old(self).tracks@, track.file_path@),
            final(self).name == old(self).name,
    {
        remove_tracks_with_path(&mut self.tracks, &track.file_path);
    }

    /// Give the playlist a new name; its tracks are untouched.
    pub fn rename(&mut self, name: String)
        ensures
            final(self).name == name,
            final(self).tracks@ == old(self).tracks@,
    {
        self.name = name;
    }

    /// Empty the playlist; its name is untouched.
    pub fn delete(&mut self)
        ensures
            final(self).tracks@.len() == 0,
            final(self).name == old(self).name,
    {
        self.tracks.clear();
    }
}

} // verus!
