use vstd::prelude::*;

verus! {

/// The observable "now playing" snapshot that the render layer reads each
/// frame: nothing yet, or the elapsed and total duration (milliseconds) of
/// the current track. It is a projection of the player's state, refreshed on
/// every tick, never independently mutated.
#[derive(Copy, Clone, Debug, PartialEq, Eq, Structural)]
pub enum AppState {
    Init,
    Initialized { duration: u64, total_duration: u64 },
}

impl AppState {
    /// The snapshot after a refresh with the given elapsed time: only an
    /// initialized snapshot changes, and only its elapsed field.
    pub open spec fn spec_refreshed(self, elapsed: u64) -> AppState {
        match self {
            AppState::Initialized { total_duration, .. } => AppState::Initialized {
                duration: elapsed,
                total_duration,
            },
            AppState::Init => AppState::Init,
        }
    }

    /// A fresh snapshot for a track of the given total duration, with no
    /// time elapsed yet.
    pub fn initialized(total_duration: u64) -> (s: Self)
        ensures
            s == (AppState::Initialized { duration: 0u64, total_duration }),
    {
        AppState::Initialized { duration: 0, total_duration }
    }

    pub fn is_initialized(&self) -> (r: bool)
        ensures
            r == (*self is Initialized),
    {
        matches!(self, AppState::Initialized { .. })
    }

    /// Refresh the elapsed time in place; legal (and a change) only once
    /// initialized.
    pub fn update_duration(&mut self, current_duration: u64)
        ensures
            *final(self) == old(self).spec_refreshed(current_duration),
    {
        if let AppState::Initialized { duration, .. } = self {
            *duration = current_duration;
        }
    }

    /// Elapsed milliseconds of the current track, once initialized.
    pub fn duration(&self) -> (r: Option<u64>)
        ensures
            r == (match *self {
                AppState::Initialized { duration, .. } => Some(duration),
                AppState::Init => None,
            }),
    {
        if let AppState::Initialized { duration, .. } = self {
            Some(*duration)
        } else {
            None
        }
    }

    /// Total milliseconds of the current track, once initialized.
    pub fn total_duration(&self) -> (r: Option<u64>)
        ensures
            r == (match *self {
                AppState::Initialized { total_duration, .. } => Some(total_duration),
                AppState::Init => None,
            }),
    {
        if let AppState::Initialized { total_duration, .. } = self {
            Some(*total_duration)
        } else {
            None
        }
    }
}

impl Default for AppState {
    fn default() -> (s: Self)
        ensures
            s is Init,
    {
        AppState::Init
    }
}

/// Split a duration in milliseconds into whole minutes and leftover seconds,
/// as the duration gauge displays it.
pub fn duration_clock(ms: u64) -> (r: (u64, u64))
    ensures
        r.0 == ms / 1000 / 60,
        r.1 == (ms / 1000) % 60,
        r.1 < 60,
{
    let secs = ms / 1000;
    (secs / 60, secs % 60)
}

} // verus!
