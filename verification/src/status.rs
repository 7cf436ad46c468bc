use vstd::prelude::*;

verus! {

/// Transport state of the playback session, together with its elapsed-time
/// accounting. All instants are milliseconds on a monotone clock that the
/// caller supplies; durations are milliseconds of play time.
#[derive(Copy, Clone, Debug, PartialEq, Eq, Structural)]
pub enum Status {
    /// Audio has been running since the recorded instant; the second field is
    /// the play time accumulated over earlier play/pause cycles.
    Playing(u64, u64),
    /// Audio is paused with the given accumulated play time.
    Paused(u64),
    /// Nothing is loaded.
    Empty,
}

impl Status {
    /// The clock value `now` is usable with this status: it is not before the
    /// recorded start instant, and the elapsed-time sum fits in `u64`.
    pub open spec fn valid_at(self, now: u64) -> bool {
        self matches Status::Playing(start, acc) ==> start <= now && acc + (now - start)
            <= u64::MAX
    }

    /// Elapsed play time at instant `now`: the accumulated time, plus the
    /// current run when playing. Nothing loaded counts as zero.
    pub open spec fn spec_elapsed(self, now: u64) -> int {
        match self {
            Status::Playing(start, acc) => acc + (now - start),
            Status::Paused(acc) => acc as int,
            Status::Empty => 0,
        }
    }

    /// The status after a `play` call at instant `now`: a paused session
    /// starts running; a running one is left alone.
    pub open spec fn spec_play(self, now: u64) -> Status {
        match self {
            Status::Paused(acc) => Status::Playing(now, acc),
            _ => self,
        }
    }

    /// The status after a `pause` call at instant `now`: a running session
    /// folds the current run into its accumulated time; a paused one is left
    /// alone.
    pub open spec fn spec_pause(self, now: u64) -> Status {
        match self {
            Status::Playing(start, acc) => Status::Paused((acc + (now - start)) as u64),
            _ => self,
        }
    }

    /// Elapsed play time at instant `now_ms`. Side-effect free; defined as
    /// zero when nothing is loaded.
    pub fn elapsed(self, now_ms: u64) -> (r: u64)
        requires
            self.valid_at(now_ms),
        ensures
            r == self.spec_elapsed(now_ms),
    {
        match self {
            Status::Paused(acc) => acc,
            Status::Playing(start, acc) => acc + (now_ms - start),
            Status::Empty => 0,
        }
    }

    /// Start (or keep) playing at instant `now_ms`. Calling this with nothing
    /// loaded is an illegal transition and is excluded by the precondition;
    /// the caller rejects it first.
    pub fn play(&mut self, now_ms: u64)
        requires
            !(*old(self) is Empty),
            old(self).valid_at(now_ms),
        ensures
            *final(self) == old(self).spec_play(now_ms),
            *final(self) is Playing,
            final(self).spec_elapsed(now_ms) == old(self).spec_elapsed(now_ms),
            final(self).valid_at(now_ms),
    {
        *self = match *self {
            Status::Playing(start, acc) => Status::Playing(start, acc),
            Status::Paused(acc) => Status::Playing(now_ms, acc),
            Status::Empty => Status::Empty,
        };
    }

    /// Pause (or keep paused) at instant `now_ms`. Illegal with nothing
    /// loaded, symmetrically to `play`.
    pub fn pause(&mut self, now_ms: u64)
        requires
            !(*old(self) is Empty),
            old(self).valid_at(now_ms),
        ensures
            *final(self) == old(self).spec_pause(now_ms),
            *final(self) is Paused,
            final(self).spec_elapsed(now_ms) == old(self).spec_elapsed(now_ms),
    {
        *self = match *self {
            Status::Playing(start, acc) => Status::Paused(acc + (now_ms - start)),
            Status::Paused(acc) => Status::Paused(acc),
            Status::Empty => Status::Empty,
        };
    }
}

/// Law: for a fixed status, elapsed play time never decreases as the clock
/// advances.
pub proof fn lemma_elapsed_monotone(s: Status, t1: u64, t2: u64)
    requires
        s.valid_at(t1),
        s.valid_at(t2),
        t1 <= t2,
    ensures
        s.spec_elapsed(t1) <= s.spec_elapsed(t2),
{
}

/// One call of a play/pause sequence, together with the instant at which it
/// is made.
#[derive(Copy, Clone, Debug, PartialEq, Eq, Structural)]
pub enum TransportOp {
    Play,
    Pause,
}

/// The status after one transport call at instant `t`.
pub open spec fn apply_op(s: Status, op: TransportOp, t: u64) -> Status {
    match op {
        TransportOp::Play => s.spec_play(t),
        TransportOp::Pause => s.spec_pause(t),
    }
}

/// The status after running the timed calls in order.
pub open spec fn run_transport(s: Status, ops: Seq<(TransportOp, u64)>) -> Status
    decreases ops.len(),
{
    if ops.len() == 0 {
        s
    } else {
        run_transport(apply_op(s, ops[0].0, ops[0].1), ops.drop_first())
    }
}

/// The calls' instants are non-decreasing and none is before `t`.
pub open spec fn ordered_from(ops: Seq<(TransportOp, u64)>, t: u64) -> bool
    decreases ops.len(),
{
    ops.len() == 0 || (t <= ops[0].1 && ordered_from(ops.drop_first(), ops[0].1))
}

/// The instant of the last call, or `t` if there is none.
pub open spec fn last_instant(ops: Seq<(TransportOp, u64)>, t: u64) -> u64
    decreases ops.len(),
{
    if ops.len() == 0 {
        t
    } else {
        last_instant(ops.drop_first(), ops[0].1)
    }
}

/// Wall-clock time spent in the playing state while the timed calls run,
/// watched from instant `from` until instant `end`.
pub open spec fn play_time(s: Status, ops: Seq<(TransportOp, u64)>, from: u64, end: u64) -> int
    decreases ops.len(),
{
    if ops.len() == 0 {
        if s is Playing {
            end - from
        } else {
            0
        }
    } else {
        (if s is Playing {
            ops[0].1 - from
        } else {
            0
        }) + play_time(apply_op(s, ops[0].0, ops[0].1), ops.drop_first(), ops[0].1, end)
    }
}

proof fn lemma_last_instant_ge(ops: Seq<(TransportOp, u64)>, t: u64)
    requires
        ordered_from(ops, t),
    ensures
        t <= last_instant(ops, t),
    decreases ops.len(),
{
    if ops.len() > 0 {
        lemma_last_instant_ge(ops.drop_first(), ops[0].1);
    }
}

/// Law: over any sequence of play and pause calls at non-decreasing
/// instants, the elapsed time observed at the end equals the elapsed time at
/// the start plus exactly the wall-clock time spent in the playing state —
/// however many pause/play cycles occurred, with nothing counted twice.
pub proof fn lemma_elapsed_is_play_time(
    s: Status,
    ops: Seq<(TransportOp, u64)>,
    from: u64,
    end: u64,
)
    requires
        s.valid_at(from),
        ordered_from(ops, from),
        last_instant(ops, from) <= end,
        s.spec_elapsed(from) + (end - from) <= u64::MAX,
    ensures
        run_transport(s, ops).spec_elapsed(end) == s.spec_elapsed(from) + play_time(
            s,
            ops,
            from,
            end,
        ),
        run_transport(s, ops).valid_at(end),
    decreases ops.len(),
{
    if ops.len() > 0 {
        let t1 = ops[0].1;
        let s1 = apply_op(s, ops[0].0, t1);
        lemma_last_instant_ge(ops.drop_first(), t1);
        assert(s.spec_elapsed(t1) == s.spec_elapsed(from) + (if s is Playing {
            t1 - from
        } else {
            0
        }));
        assert(s1.spec_elapsed(t1) == s.spec_elapsed(t1));
        assert(s1.valid_at(t1));
        lemma_elapsed_is_play_time(s1, ops.drop_first(), t1, end);
    }
}

/// Law: the time spent playing is never negative, so along such a sequence
/// the elapsed time is monotonically non-decreasing.
pub proof fn lemma_elapsed_nondecreasing(
    s: Status,
    ops: Seq<(TransportOp, u64)>,
    from: u64,
    end: u64,
)
    requires
        s.valid_at(from),
        ordered_from(ops, from),
        last_instant(ops, from) <= end,
        s.spec_elapsed(from) + (end - from) <= u64::MAX,
    ensures
        play_time(s, ops, from, end) >= 0,
        s.spec_elapsed(from) <= run_transport(s, ops).spec_elapsed(end),
    decreases ops.len(),
{
    lemma_elapsed_is_play_time(s, ops, from, end);
    if ops.len() > 0 {
        let t1 = ops[0].1;
        let s1 = apply_op(s, ops[0].0, t1);
        lemma_last_instant_ge(ops.drop_first(), t1);
        assert(s1.spec_elapsed(t1) == s.spec_elapsed(t1));
        lemma_elapsed_nondecreasing(s1, ops.drop_first(), t1, end);
    }
}

/// Law: one play/pause cycle starting paused accumulates exactly the
/// wall-clock time spent playing, and repeating `play` or repeating `pause`
/// does not double-count.
pub proof fn lemma_no_double_count(acc: u64, t1: u64, t2: u64, t3: u64)
    requires
        t1 <= t2 <= t3,
        acc + (t3 - t1) <= u64::MAX,
    ensures
        Status::Paused(acc).spec_play(t1).spec_play(t2) == Status::Paused(acc).spec_play(t1),
        Status::Paused(acc).spec_play(t1).spec_pause(t2) == Status::Paused(
            (acc + (t2 - t1)) as u64,
        ),
        Status::Paused(acc).spec_play(t1).spec_pause(t2).spec_pause(t3) == Status::Paused(
            acc,
        ).spec_play(t1).spec_pause(t2),
{
}

} // verus!
