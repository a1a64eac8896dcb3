//! Continuation policy: what plays next once the active session reaches
//! `Empty`. Explicitly queued tracks always win; with nothing queued the
//! session stays idle. The policy runs on the caller's side of the protocol,
//! since the queue belongs to the caller: it reads a reported state and
//! decides which `PlaySong` command, if any, to issue.

use vstd::prelude::*;

use crate::protocol::AudioState;
use crate::queue::Queue;

verus! {

/// Decide the next load after observing `state`. Exactly when the session is
/// `Empty` and the queue holds something, the front of the queue is removed
/// and its file path is returned for a `PlaySong` command; otherwise nothing
/// happens.
pub fn continue_playback(state: AudioState, queue: &mut Queue) -> (next: Option<String>)
    ensures
        state is Empty && old(queue).tracks@.len() > 0 ==> ({
            &&& next matches Some(path) && path == old(queue).tracks@[0].file_path
            &&& final(queue).tracks@ == old(queue).tracks@.subrange(
                1,
                old(queue).tracks@.len() as int,
            )
        }),
        !(state is Empty && old(queue).tracks@.len() > 0) ==> {
            next is None && final(queue).tracks@ == old(queue).tracks@
        },
{
    match state {
        AudioState::Empty => {
            if queue.tracks.len() > 0 {
                let front = queue.tracks.remove(0);
                proof {
                    assert(queue.tracks@ =~= old(queue).tracks@.subrange(
                        1,
                        old(queue).tracks@.len() as int,
                    ));
                }
                Some(front.file_path)
            } else {
                None
            }
        },
        _ => None,
    }
}

} // verus!
