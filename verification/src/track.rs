//! Track descriptors: an opaque file identifier plus display title and
//! optional timing data. The caller (directory enumerator, queue, playlist)
//! owns the tracks; the processor only ever borrows one file identifier at a
//! time.

use vstd::prelude::*;
use vstd::string::StrSliceExecFns;
use vstd::string::StringExecFns;

verus! {

/// What comes after the last occurrence of `sep` in `s`, or all of `s` when
/// `sep` does not occur.
pub open spec fn suffix_after_last(s: Seq<char>, sep: char) -> Seq<char>
    decreases s.len(),
{
    if s.len() == 0 {
        s
    } else if s.last() == sep {
        Seq::empty()
    } else {
        suffix_after_last(s.drop_last(), sep).push(s.last())
    }
}

/// The display title of a file path: everything after the last `/`, or the
/// whole path when it has none.
pub open spec fn title_of(path: Seq<char>) -> Seq<char> {
    suffix_after_last(path, '/')
}

/// The extension of a file path: everything after the last `.`, or the whole
/// path when it has none.
pub open spec fn extension_of(path: Seq<char>) -> Seq<char> {
    suffix_after_last(path, '.')
}

/// `suffix_after_last` is the suffix that starts at a cut point: an index
/// preceded by `sep` (or the start) with no `sep` anywhere after it.
proof fn lemma_suffix_at_cut(s: Seq<char>, sep: char, cut: int)
    requires
        0 <= cut <= s.len(),
        cut == 0 || s[cut - 1] == sep,
        forall|j: int| cut <= j < s.len() ==> s[j] != sep,
    ensures
        suffix_after_last(s, sep) == s.subrange(cut, s.len() as int),
    decreases s.len(),
{
    if cut == s.len() {
        if s.len() == 0 {
            assert(suffix_after_last(s, sep) =~= s.subrange(cut, s.len() as int));
        } else {
            assert(s.last() == sep);
            assert(suffix_after_last(s, sep) =~= s.subrange(cut, s.len() as int));
        }
    } else {
        assert(s.last() != sep);
        lemma_suffix_at_cut(s.drop_last(), sep, cut);
        assert(suffix_after_last(s, sep) =~= s.subrange(cut, s.len() as int));
    }
}

/// One playable track.
pub struct Track {
    /// Display title: the file name part of the path.
    pub title: String,
    /// Opaque identifier handed to the decoder: the file path.
    pub file_path: String,
    /// Total duration in ms, once known.
    pub duration: Option<u64>,
    /// Saved playback position in ms, once known.
    pub track_progress: Option<u64>,
}

impl Clone for Track {
    /// Cloning keeps every field.
    fn clone(&self) -> (t: Track)
        ensures
            t == *self,
    {
        Track {
            title: self.title.clone(),
            file_path: self.file_path.clone(),
            duration: self.duration,
            track_progress: self.track_progress,
        }
    }
}

impl Track {
    /// Build a descriptor for `file_path`: the title is the file name part
    /// of the path, and duration and saved position start at zero. Always
    /// succeeds.
    pub fn new(file_path: String) -> (r: Result<Track, String>)
        ensures
            r matches Ok(t) && t.file_path == file_path && t.title@ == title_of(file_path@)
                && t.duration == Some(0u64) && t.track_progress == Some(0u64),
    {
        let title = file_name_of(file_path.as_str());
        Ok(Track { title, file_path, duration: Some(0), track_progress: Some(0) })
    }
}

/// What comes after the last occurrence of `sep` in `path`, or all of `path`
/// when `sep` does not occur.
pub fn suffix_after_last_sep(path: &str, sep: char) -> (r: String)
    ensures
        r@ == suffix_after_last(path@, sep),
{
    let n: usize = path.unicode_len();
    let mut cut: usize = 0;
    let mut i: usize = 0;
    while i < n
        invariant
            n == path@.len(),
            0 <= cut <= i <= n,
            cut == 0 || path@[cut - 1] == sep,
            forall|j: int| cut <= j < i ==> path@[j] != sep,
        decreases n - i,
    {
        if path.get_char(i) == sep {
            cut = i + 1;
        }
        i = i + 1;
    }
    proof {
        lemma_suffix_at_cut(path@, sep, cut as int);
    }
    let tail = path.substring_char(cut, n);
    String::from_str(tail)
}

/// The file name part of a path: everything after its last `/`.
pub fn file_name_of(path: &str) -> (r: String)
    ensures
        r@ == title_of(path@),
{
    suffix_after_last_sep(path, '/')
}

/// Supported container formats, resolved from the file extension once at
/// load time.
#[derive(Clone, Copy, Debug, PartialEq, Eq, Structural)]
pub enum ContainerFormat {
    Mp3,
    Wav,
}

/// Choose the decoder for a path by its file extension: `mp3` and `wav` are
/// supported, every other extension is rejected with an error message.
pub fn format_of_path(path: &str) -> (r: Result<ContainerFormat, String>)
    ensures
        r matches Ok(f) ==> (f is Mp3 <==> extension_of(path@) == "mp3"@) && (f is Wav
            <==> extension_of(path@) == "wav"@),
        r is Err <==> extension_of(path@) != "mp3"@ && extension_of(path@) != "wav"@,
        r matches Err(m) ==> m@ == "Unsupported file format"@,
{
    proof {
        reveal_strlit("mp3");
        reveal_strlit("wav");
        assert("mp3"@[0] != "wav"@[0]);
    }
    let ext = suffix_after_last_sep(path, '.');
    let mp3: String = "mp3".to_owned();
    let wav: String = "wav".to_owned();
    if ext == mp3 {
        Ok(ContainerFormat::Mp3)
    } else if ext == wav {
        Ok(ContainerFormat::Wav)
    } else {
        Err("Unsupported file format".to_owned())
    }
}

/// Drop every track whose file path equals `file_path`, keeping the order of
/// the rest: the removal rule queues and playlists share.
pub fn remove_tracks_with_path(tracks: &mut Vec<Track>, file_path: &String)
    ensures
        final(tracks)@ == keeps_other_paths(old(tracks)@, file_path@),
{
    let ghost full = tracks@;
    let mut kept: Vec<Track> = Vec::new();
    let mut i: usize = 0;
    while i < tracks.len()
        invariant
            tracks@ == full,
            0 <= i <= full.len(),
            kept@ == keeps_other_paths(full.subrange(0, i as int), file_path@),
        decreases full.len() - i,
    {
        proof {
            let pred = |t: Track| t.file_path@ != file_path@;
            assert(full.subrange(0, i + 1) =~= full.subrange(0, i as int) + seq![full[i as int]]);
            Seq::filter_distributes_over_add(
                full.subrange(0, i as int),
                seq![full[i as int]],
                pred,
            );
            reveal_with_fuel(Seq::filter, 2);
            assert(seq![full[i as int]].drop_last() =~= Seq::<Track>::empty());
            assert(seq![full[i as int]].filter(pred) =~= if pred(full[i as int]) {
                seq![full[i as int]]
            } else {
                Seq::<Track>::empty()
            });
        }
        if !(tracks[i].file_path == *file_path) {
            let t = tracks[i].clone();
            kept.push(t);
        }
        i = i + 1;
    }
    proof {
        assert(full.subrange(0, full.len() as int) =~= full);
    }
    *tracks = kept;
}

/// The tracks of `s` whose file path differs from `path`, in order.
pub open spec fn keeps_other_paths(s: Seq<Track>, path: Seq<char>) -> Seq<Track> {
    s.filter(|t: Track| t.file_path@ != path)
}

} // verus!
