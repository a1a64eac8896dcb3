//! The explicit play queue: an ordered FIFO of tracks, appended by user
//! action and consumed from the front by the continuation policy.

use vstd::prelude::*;

use crate::track::{keeps_other_paths, remove_tracks_with_path, Track};

verus! {

/// FIFO of explicitly queued tracks.
pub struct Queue {
    pub tracks: Vec<Track>,
}

impl Queue {
    /// An empty queue.
    pub fn new() -> (q: Queue)
        ensures
            q.tracks@.len() == 0,
    {
        Queue { tracks: Vec::new() }
    }

    /// Append a track at the back of the queue.
    pub fn add_track(&mut self, track: Track)
        ensures
            final(self).tracks@ == old(self).tracks@.push(track),
    {
        self.tracks.push(track);
    }

    /// Remove every queued track with the given track's file path, keeping
    /// the order of the rest.
    pub fn remove_track(&mut self, track: Track)
        ensures
            final(self).tracks@ == keeps_other_paths(old(self).tracks@, track.file_path@),
    {
        remove_tracks_with_path(&mut self.tracks, &track.file_path);
    }

    /// The queued tracks, front first.
    pub fn get_tracks(&self) -> (r: Vec<Track>)
        ensures
            r@ == self.tracks@,
    {
        clone_tracks(&self.tracks)
    }
}

/// Copy a track list, keeping every entry and the order.
pub fn clone_tracks(tracks: &Vec<Track>) -> (r: Vec<Track>)
    ensures
        r@ == tracks@,
{
    let mut out: Vec<Track> = Vec::new();
    let mut i: usize = 0;
    while i < tracks.len()
        invariant
            0 <= i <= tracks@.len(),
            out@ == tracks@.subrange(0, i as int),
        decreases tracks@.len() - i,
    {
        let t = tracks[i].clone();
        out.push(t);
        proof {
            assert(out@ =~= tracks@.subrange(0, i + 1));
        }
        i = i + 1;
    }
    proof {
        assert(tracks@.subrange(0, tracks@.len() as int) =~= tracks@);
    }
    out
}

} // verus!
