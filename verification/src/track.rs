use vstd::prelude::*;
use vstd::string::StringExecFns;

verus! {

/// One track of the remote catalog, as the session core sees it: a title
/// (also the cache key for the downloaded audio file) and the total duration
/// in milliseconds, both known at catalog-fetch time. The download itself is
/// the surrounding process's work; the core never touches the file.
#[derive(Debug)]
pub struct Track {
    pub title: String,
    pub total_duration_ms: u64,
}

impl Track {
    pub fn new(title: String, total_duration_ms: u64) -> (t: Track)
        ensures
            t == (Track { title, total_duration_ms }),
    {
        Track { title, total_duration_ms }
    }

    /// The track's title, as shown in the playlist pane.
    pub fn title(&self) -> (r: String)
        ensures
            r == self.title,
    {
        self.title.clone()
    }

    /// The name of the local cache file holding this track's audio: the
    /// cache is keyed by the title, with no invalidation.
    pub fn filename(&self) -> (r: String)
        ensures
            r@ == self.title@ + ".mp3"@,
    {
        self.title.clone().concat(".mp3")
    }

    /// Total duration in milliseconds, known from the catalog before any
    /// download.
    pub fn total_duration(&self) -> (r: Option<u64>)
        ensures
            r == Some(self.total_duration_ms),
    {
        Some(self.total_duration_ms)
    }
}

impl Clone for Track {
    fn clone(&self) -> (r: Track)
        ensures
            r == *self,
    {
        Track { title: self.title.clone(), total_duration_ms: self.total_duration_ms }
    }
}

/// Copy a playlist element by element; the copy holds the same tracks in the
/// same order.
pub fn clone_tracks(tracks: &Vec<Track>) -> (r: Vec<Track>)
    ensures
        r@ == tracks@,
{
    let mut r: Vec<Track> = Vec::new();
    let mut i: usize = 0;
    while i < tracks.len()
        invariant
            i <= tracks.len(),
            r@ == tracks@.subrange(0, i as int),
        decreases tracks.len() - i,
    {
        r.push(tracks[i].clone());
        assert(r@ =~= tracks@.subrange(0, i + 1 as int));
        i += 1;
    }
    assert(r@ =~= tracks@);
    r
}

} // verus!
