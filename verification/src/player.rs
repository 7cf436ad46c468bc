use vstd::prelude::*;
use crate::status::Status;
use crate::track::Track;

verus! {

/// Model of the exclusively owned audio-output resource: whether audio is
/// queued in it and whether it is paused. The surrounding process drives the
/// real output device to mirror every transition the player commands, and
/// reports the device draining (natural end of track) through
/// [`Player::sink_drained`].
#[derive(Copy, Clone, Debug, PartialEq, Eq, Structural)]
pub struct Sink {
    pub queued: bool,
    pub paused: bool,
}

impl Sink {
    /// An idle sink holds no audio.
    pub open spec fn spec_is_idle(self) -> bool {
        !self.queued
    }

    pub fn is_idle(&self) -> (r: bool)
        ensures
            r == self.spec_is_idle(),
    {
        !self.queued
    }
}

/// Error of a transport operation: rejected rather than aborting the
/// process.
#[derive(Copy, Clone, Debug, PartialEq, Eq, Structural)]
pub enum PlayerError {
    /// `play` or `pause` was called with nothing loaded: an illegal
    /// transition, reported to the caller as a rejected command.
    NothingLoaded,
}

/// Owner of the audio sink, the current transport status, and the
/// zero-or-one loaded track. Enforces the legal transitions of the playback
/// session; every clock instant enters as a millisecond value from the
/// caller.
pub struct Player {
    pub sink: Sink,
    pub status: Status,
    pub current: Option<Track>,
}

impl Player {
    /// Sink and status stay consistent: a paused status means a paused sink,
    /// a playing status a running one, and the empty status holds exactly
    /// when no track is loaded, with the sink idle.
    pub open spec fn wf(&self) -> bool {
        &&& self.status is Paused ==> self.sink.paused
        &&& self.status is Playing ==> !self.sink.paused
        &&& self.status is Empty ==> !self.sink.queued
        &&& (self.status is Empty <==> self.current is None)
    }

    /// The clock value `now` is usable with the current status.
    pub open spec fn valid_at(&self, now: u64) -> bool {
        self.status.valid_at(now)
    }

    /// The player freshly loaded with `track`: a new sink holding the track's
    /// audio, paused, with no time elapsed — independent of any prior state.
    pub open spec fn spec_loaded(track: Track) -> Player {
        Player {
            sink: Sink { queued: true, paused: true },
            status: Status::Paused(0),
            current: Some(track),
        }
    }

    /// The player after a `play` call at `now` (meaningful when a track is
    /// loaded).
    pub open spec fn spec_play(self, now: u64) -> Player {
        Player {
            status: self.status.spec_play(now),
            sink: Sink { paused: false, ..self.sink },
            ..self
        }
    }

    /// The player after a `pause` call at `now` (meaningful when a track is
    /// loaded).
    pub open spec fn spec_pause(self, now: u64) -> Player {
        Player {
            status: self.status.spec_pause(now),
            sink: Sink { paused: true, ..self.sink },
            ..self
        }
    }

    /// The fully stopped player: sink released and idle, nothing loaded.
    pub open spec fn spec_stopped() -> Player {
        Player {
            sink: Sink { queued: false, paused: false },
            status: Status::Empty,
            current: None,
        }
    }

    /// The player after the lazy reconciliation that every status query
    /// performs: a drained sink forces the empty status and drops the track
    /// reference.
    pub open spec fn spec_reconciled(self) -> Player {
        if self.sink.queued {
            self
        } else {
            Player { status: Status::Empty, current: None, ..self }
        }
    }

    /// A player with nothing loaded and an idle sink.
    pub fn new() -> (p: Player)
        ensures
            p == Player::spec_stopped(),
            p.wf(),
    {
        Player {
            sink: Sink { queued: false, paused: false },
            status: Status::Empty,
            current: None,
        }
    }

    /// Load `track`: discard whatever was loaded, take a fresh sink holding
    /// the new audio, and force the status to paused at zero elapsed time —
    /// regardless of prior state, so a mid-playback load never keeps old
    /// accounting and a decoder default can never autoplay.
    pub fn load(&mut self, track: Track)
        ensures
            *final(self) == Player::spec_loaded(track),
            final(self).status == Status::Paused(0u64),
            final(self).wf(),
    {
        self.sink = Sink { queued: true, paused: true };
        self.status = Status::Paused(0);
        self.current = Some(track);
    }

    /// Start (or keep) playing at instant `now_ms`. With nothing loaded the
    /// call is rejected and nothing changes.
    pub fn play(&mut self, now_ms: u64) -> (r: Result<(), PlayerError>)
        requires
            old(self).wf(),
            old(self).valid_at(now_ms),
        ensures
            final(self).wf(),
            r is Ok <==> !(old(self).status is Empty),
            old(self).status is Empty ==> *final(self) == *old(self) && r == Err::<
                (),
                PlayerError,
            >(PlayerError::NothingLoaded),
            !(old(self).status is Empty) ==> *final(self) == old(self).spec_play(now_ms)
                && final(self).status is Playing,
            final(self).status.spec_elapsed(now_ms) == old(self).status.spec_elapsed(now_ms),
    {
        match self.status {
            Status::Empty => Err(PlayerError::NothingLoaded),
            _ => {
                self.sink.paused = false;
                self.status.play(now_ms);
                Ok(())
            },
        }
    }

    /// Pause (or keep paused) at instant `now_ms`, folding the running time
    /// into the accumulated play time. With nothing loaded the call is
    /// rejected and nothing changes.
    pub fn pause(&mut self, now_ms: u64) -> (r: Result<(), PlayerError>)
        requires
            old(self).wf(),
            old(self).valid_at(now_ms),
        ensures
            final(self).wf(),
            r is Ok <==> !(old(self).status is Empty),
            old(self).status is Empty ==> *final(self) == *old(self) && r == Err::<
                (),
                PlayerError,
            >(PlayerError::NothingLoaded),
            !(old(self).status is Empty) ==> *final(self) == old(self).spec_pause(now_ms)
                && final(self).status is Paused,
            final(self).status.spec_elapsed(now_ms) == old(self).status.spec_elapsed(now_ms),
    {
        match self.status {
            Status::Empty => Err(PlayerError::NothingLoaded),
            _ => {
                self.sink.paused = true;
                self.status.pause(now_ms);
                Ok(())
            },
        }
    }

    /// Release the sink and reset to the empty state, in one step, from any
    /// prior state: afterwards the status is empty and the sink idle.
    pub fn stop(&mut self)
        ensures
            *final(self) == Player::spec_stopped(),
            final(self).status is Empty,
            final(self).sink.spec_is_idle(),
            final(self).wf(),
    {
        self.sink = Sink { queued: false, paused: false };
        self.status = Status::Empty;
        self.current = None;
    }

    /// The surrounding process reports that the output device has run out of
    /// audio (natural end of track): the sink outlives its content until the
    /// next status query reconciles.
    pub fn sink_drained(&mut self)
        requires
            old(self).wf(),
        ensures
            *final(self) == (Player { sink: (Sink { queued: false, ..old(self).sink }), ..*old(
                self,
            ) }),
            final(self).wf(),
    {
        self.sink.queued = false;
    }

    /// A snapshot of the current status, reconciling lazily first: if the
    /// sink holds no audio and the status is not already empty, the player
    /// falls to the empty state. After every query, the sink holds audio
    /// exactly when the status is playing or paused.
    pub fn status(&mut self) -> (r: Status)
        requires
            old(self).wf(),
        ensures
            *final(self) == old(self).spec_reconciled(),
            r == final(self).status,
            final(self).wf(),
            !final(self).sink.queued <==> final(self).status is Empty,
    {
        if !self.sink.queued {
            match self.status {
                Status::Empty => {},
                _ => {
                    self.status = Status::Empty;
                    self.current = None;
                },
            }
        }
        self.status
    }
}

impl Default for Player {
    fn default() -> (p: Self)
        ensures
            p == Player::spec_stopped(),
            p.wf(),
    {
        Player::new()
    }
}

} // verus!
