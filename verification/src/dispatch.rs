use vstd::prelude::*;

verus! {

/// A work item the interactive role submits for asynchronous execution: a
/// background fetch or download, or the report that the running track ended.
#[derive(Copy, Clone, Debug, PartialEq, Eq, Structural)]
pub enum IoEvent {
    /// Fetch the daily playlist, download its first track, and commit both.
    Initialize,
    /// Download the track at this playlist index, then load and play it.
    SwitchTrack(usize),
    /// The running track ended: advance to the next one.
    SongIsOver,
}

/// Why a submission was refused. A refusal is immediately recoverable: the
/// dispatcher is left exactly as it was, so the loading indicator can never
/// hang on a failed submission.
#[derive(Copy, Clone, Debug, PartialEq, Eq, Structural)]
pub enum DispatchError {
    /// The bounded request queue is at capacity (or the outstanding counter
    /// is at the machine limit).
    QueueFull,
    /// The request channel was closed; no further work can be submitted.
    Closed,
}

/// The mathematical state of a [`Dispatcher`]: the queued work items in
/// submission order, the queue bound, whether the channel is closed, and how
/// many submitted items are not yet committed.
#[verifier::ext_equal]
pub struct DispatcherModel {
    pub queue: Seq<IoEvent>,
    pub capacity: nat,
    pub closed: bool,
    pub outstanding: nat,
}

impl DispatcherModel {
    /// The queue never exceeds its capacity.
    pub open spec fn wf(self) -> bool {
        self.queue.len() <= self.capacity
    }

    /// Whether a submission would be accepted.
    pub open spec fn accepts(self) -> bool {
        !self.closed && self.queue.len() < self.capacity && self.outstanding < usize::MAX
    }

    /// The state after a successful submission: the item joins the back of
    /// the queue and counts as outstanding.
    pub open spec fn submitted(self, event: IoEvent) -> DispatcherModel {
        DispatcherModel {
            queue: self.queue.push(event),
            outstanding: self.outstanding + 1,
            ..self
        }
    }

    /// The state after the worker takes the front work item.
    pub open spec fn taken(self) -> DispatcherModel {
        DispatcherModel { queue: self.queue.drop_first(), ..self }
    }

    /// The state after one taken work item has been committed.
    pub open spec fn completed(self) -> DispatcherModel {
        if self.outstanding > 0 {
            DispatcherModel { outstanding: (self.outstanding - 1) as nat, ..self }
        } else {
            self
        }
    }
}

/// The bounded FIFO request queue between the interactive role and the
/// worker role, together with the count of submitted work items not yet
/// committed. The loading flag shown to the user is `outstanding > 0`, so it
/// turns false only once every outstanding request has been drained.
pub struct Dispatcher {
    pub queue: Vec<IoEvent>,
    pub capacity: usize,
    pub closed: bool,
    pub outstanding: usize,
}

impl View for Dispatcher {
    type V = DispatcherModel;

    open spec fn view(&self) -> DispatcherModel {
        DispatcherModel {
            queue: self.queue@,
            capacity: self.capacity as nat,
            closed: self.closed,
            outstanding: self.outstanding as nat,
        }
    }
}

impl Dispatcher {
    pub open spec fn wf(&self) -> bool {
        self@.wf()
    }

    pub fn new(capacity: usize) -> (d: Dispatcher)
        ensures
            d@ == (DispatcherModel {
                queue: Seq::<IoEvent>::empty(),
                capacity: capacity as nat,
                closed: false,
                outstanding: 0,
            }),
            d.wf(),
    {
        let d = Dispatcher { queue: Vec::new(), capacity, closed: false, outstanding: 0 };
        assert(d@.queue =~= Seq::<IoEvent>::empty());
        d
    }

    /// Whether any submitted work item is still uncommitted: the loading
    /// flag the render layer shows.
    pub fn is_busy(&self) -> (r: bool)
        ensures
            r == (self@.outstanding > 0),
    {
        self.outstanding > 0
    }

    /// Submit a work item. On success it joins the back of the queue and
    /// counts as outstanding; when the channel is closed or the queue full,
    /// the item is refused and the dispatcher is unchanged.
    pub fn submit(&mut self, event: IoEvent) -> (r: Result<(), DispatchError>)
        requires
            old(self).wf(),
        ensures
            final(self).wf(),
            r is Ok <==> old(self)@.accepts(),
            old(self)@.accepts() ==> final(self)@ == old(self)@.submitted(event),
            !old(self)@.accepts() ==> *final(self) == *old(self) && r == Err::<
                (),
                DispatchError,
            >(if old(self).closed {
                DispatchError::Closed
            } else {
                DispatchError::QueueFull
            }),
    {
        if self.closed {
            return Err(DispatchError::Closed);
        }
        if self.queue.len() >= self.capacity || self.outstanding == usize::MAX {
            return Err(DispatchError::QueueFull);
        }
        self.queue.push(event);
        self.outstanding = self.outstanding + 1;
        Ok(())
    }

    /// The worker takes the next work item, in submission order. The item
    /// stays counted as outstanding until `completed`.
    pub fn take(&mut self) -> (r: Option<IoEvent>)
        requires
            old(self).wf(),
        ensures
            final(self).wf(),
            old(self)@.queue.len() == 0 ==> r is None && *final(self) == *old(self),
            old(self)@.queue.len() > 0 ==> r == Some(old(self)@.queue[0]) && final(self)@ == old(
                self,
            )@.taken(),
    {
        if self.queue.len() == 0 {
            return None;
        }
        let event = self.queue.remove(0);
        assert(self.queue@ =~= old(self).queue@.drop_first());
        Some(event)
    }

    /// The worker reports one work item committed; with none outstanding
    /// this is a defined no-op.
    pub fn completed(&mut self)
        ensures
            final(self)@ == old(self)@.completed(),
            final(self).queue == old(self).queue,
            final(self).wf() == old(self).wf(),
    {
        if self.outstanding > 0 {
            self.outstanding = self.outstanding - 1;
        }
    }

    /// Close the channel: all further submissions are refused.
    pub fn close(&mut self)
        ensures
            final(self)@ == (DispatcherModel { closed: true, ..old(self)@ }),
            final(self).wf() == old(self).wf(),
    {
        self.closed = true;
    }
}

/// Law: two work items submitted in quick succession to an idle dispatcher
/// are accepted, the worker takes them in submission order, and the loading
/// flag stays raised until both have been committed — and only then falls.
pub proof fn lemma_submission_order(d: DispatcherModel, e1: IoEvent, e2: IoEvent)
    requires
        d.wf(),
        !d.closed,
        d.queue.len() == 0,
        d.outstanding == 0,
        d.capacity >= 2,
    ensures
        ({
            let d2 = d.submitted(e1).submitted(e2);
            &&& d.accepts()
            &&& d.submitted(e1).accepts()
            &&& d2.queue =~= seq![e1, e2]
            &&& d2.queue[0] == e1
            &&& d2.taken().queue[0] == e2
            &&& d2.taken().completed().outstanding > 0
            &&& d2.taken().completed().taken().completed().outstanding == 0
        }),
{
    let d2 = d.submitted(e1).submitted(e2);
    assert(d2.queue =~= seq![e1, e2]);
    assert(d2.taken().queue =~= seq![e2]);
    assert(d2.taken().completed().taken().queue =~= Seq::<IoEvent>::empty());
}

} // verus!
