use vstd::prelude::*;
use crate::track::Track;

verus! {

/// The ordered track list shown to the user, plus a cyclic single-selection
/// cursor. Replacing the list clears the selection; moving the cursor on an
/// empty list is a defined no-op, never an out-of-bounds fault.
pub struct DisplayedTracks {
    pub tracks: Vec<Track>,
    pub selected: Option<usize>,
}

impl DisplayedTracks {
    /// A present selection always lies inside the track list.
    pub open spec fn wf(&self) -> bool {
        self.selected matches Some(i) ==> i < self.tracks.len()
    }

    /// Where the cursor stands after `next`: wraps from the last track to the
    /// first; with no selection it falls into the first track; on an empty
    /// list it stays absent.
    pub open spec fn spec_next_index(&self) -> Option<usize> {
        if self.tracks.len() == 0 {
            self.selected
        } else {
            match self.selected {
                Some(i) => if i + 1 >= self.tracks.len() {
                    Some(0usize)
                } else {
                    Some((i + 1) as usize)
                },
                None => Some(0usize),
            }
        }
    }

    /// Where the cursor stands after `previous`: wraps from the first track
    /// to the last; with no selection it falls into the first track; on an
    /// empty list it stays absent.
    pub open spec fn spec_previous_index(&self) -> Option<usize> {
        if self.tracks.len() == 0 {
            self.selected
        } else {
            match self.selected {
                Some(i) => if i == 0 {
                    Some((self.tracks.len() - 1) as usize)
                } else {
                    Some((i - 1) as usize)
                },
                None => Some(0usize),
            }
        }
    }

    /// The whole value after `next`.
    pub open spec fn spec_next(self) -> Self {
        DisplayedTracks { selected: self.spec_next_index(), ..self }
    }

    /// The whole value after `previous`.
    pub open spec fn spec_previous(self) -> Self {
        DisplayedTracks { selected: self.spec_previous_index(), ..self }
    }

    pub fn new() -> (s: Self)
        ensures
            s.tracks@.len() == 0,
            s.selected is None,
            s.wf(),
    {
        DisplayedTracks { tracks: Vec::new(), selected: None }
    }

    /// Replace the list and clear the selection.
    pub fn set_tracks(&mut self, tracks: Vec<Track>)
        ensures
            final(self).tracks == tracks,
            final(self).selected is None,
            final(self).wf(),
    {
        self.tracks = tracks;
        self.selected = None;
    }

    /// Advance the cursor cyclically; a defined no-op on an empty list.
    pub fn next(&mut self)
        requires
            old(self).wf(),
        ensures
            *final(self) == old(self).spec_next(),
            final(self).wf(),
    {
        if self.tracks.len() == 0 {
            return ;
        }
        let i: usize = match self.selected {
            Some(i) => if i >= self.tracks.len() - 1 {
                0
            } else {
                i + 1
            },
            None => 0,
        };
        self.selected = Some(i);
    }

    /// Retreat the cursor cyclically; a defined no-op on an empty list.
    pub fn previous(&mut self)
        requires
            old(self).wf(),
        ensures
            *final(self) == old(self).spec_previous(),
            final(self).wf(),
    {
        if self.tracks.len() == 0 {
            return ;
        }
        let i: usize = match self.selected {
            Some(i) => if i == 0 {
                self.tracks.len() - 1
            } else {
                i - 1
            },
            None => 0,
        };
        self.selected = Some(i);
    }

    /// Clear the selection, keeping the list.
    pub fn unselect(&mut self)
        ensures
            final(self).selected is None,
            final(self).tracks == old(self).tracks,
            final(self).wf(),
    {
        self.selected = None;
    }

    /// The current cursor position, if any.
    pub fn selected(&self) -> (r: Option<usize>)
        ensures
            r == self.selected,
    {
        self.selected
    }
}

/// `n` applications of `next`, innermost first.
pub open spec fn next_n(s: DisplayedTracks, n: nat) -> DisplayedTracks
    decreases n,
{
    if n == 0 {
        s
    } else {
        next_n(s.spec_next(), (n - 1) as nat)
    }
}

/// `n` applications of `previous`, innermost first.
pub open spec fn previous_n(s: DisplayedTracks, n: nat) -> DisplayedTracks
    decreases n,
{
    if n == 0 {
        s
    } else {
        previous_n(s.spec_previous(), (n - 1) as nat)
    }
}

/// Law: on a non-empty list with a present selection, `previous` undoes
/// `next`.
pub proof fn lemma_previous_undoes_next(s: DisplayedTracks)
    requires
        s.wf(),
        s.tracks@.len() > 0,
        s.selected is Some,
    ensures
        s.spec_next().spec_previous() == s,
{
    let len = s.tracks@.len();
    let i = s.selected->0;
    if i + 1 >= len {
        assert(s.spec_next().selected == Some(0usize));
        assert(s.spec_next().spec_previous().selected == Some(((len - 1) as usize)));
        assert(i == len - 1);
    } else {
        assert(s.spec_next().selected == Some(((i + 1) as usize)));
        assert(s.spec_next().spec_previous().selected == Some(i));
    }
    assert(s.spec_next().spec_previous() == s);
}

/// `next_n` can also be unfolded at the outside: applying `next` once more
/// after `n` steps.
proof fn lemma_next_n_unfold_outer(s: DisplayedTracks, n: nat)
    ensures
        next_n(s, n + 1) == next_n(s, n).spec_next(),
    decreases n,
{
    if n == 0 {
        assert(next_n(s, 1) == next_n(s.spec_next(), 0));
        assert(next_n(s.spec_next(), 0) == s.spec_next());
    } else {
        lemma_next_n_unfold_outer(s.spec_next(), (n - 1) as nat);
        assert(next_n(s, n + 1) == next_n(s.spec_next(), n));
        assert(next_n(s, n) == next_n(s.spec_next(), (n - 1) as nat));
    }
}

/// `next` keeps the list and a present selection present.
proof fn lemma_next_n_wf(s: DisplayedTracks, n: nat)
    requires
        s.wf(),
        s.tracks@.len() > 0,
        s.selected is Some,
    ensures
        next_n(s, n).wf(),
        next_n(s, n).tracks == s.tracks,
        next_n(s, n).tracks@.len() > 0,
        next_n(s, n).selected is Some,
    decreases n,
{
    if n > 0 {
        lemma_next_n_wf(s.spec_next(), (n - 1) as nat);
    }
}

/// Law: on a non-empty list with a present selection, `next` composed `n`
/// times followed by `previous` composed `n` times returns to the original
/// selection, for every `n`.
pub proof fn lemma_next_previous_roundtrip(s: DisplayedTracks, n: nat)
    requires
        s.wf(),
        s.tracks@.len() > 0,
        s.selected is Some,
    ensures
        previous_n(next_n(s, n), n) == s,
    decreases n,
{
    if n > 0 {
        lemma_next_n_unfold_outer(s, (n - 1) as nat);
        lemma_next_n_wf(s, (n - 1) as nat);
        lemma_previous_undoes_next(next_n(s, (n - 1) as nat));
        lemma_next_previous_roundtrip(s, (n - 1) as nat);
    }
}

} // verus!
