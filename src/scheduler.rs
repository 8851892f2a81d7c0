use vstd::prelude::*;

verus! {

/// The run queue of one network worker's cooperative scheduler.
///
/// Fibers are named by the ids that `spawn` hands out. A fiber runs until it
/// finishes or yields; a yielding fiber goes to the back of the queue, so the
/// ready fibers take turns.
pub struct FiberQueue {
    ready: Vec<usize>,
    next_id: usize,
}

impl FiberQueue {
    /// The ready fibers, front first.
    pub closed spec fn ready(&self) -> Seq<usize> {
        self.ready@
    }

    /// How many ids have been handed out.
    pub closed spec fn issued(&self) -> nat {
        self.next_id as nat
    }

    /// Every ready fiber has an id that was handed out, and none is queued twice.
    pub open spec fn wf(&self) -> bool {
        &&& forall|i: int| 0 <= i < self.ready().len() ==> #[trigger] self.ready()[i] < self.issued()
        &&& self.ready().no_duplicates()
    }

    /// A scheduler with no fiber.
    pub fn new() -> (r: FiberQueue)
        ensures
            r.wf(),
            r.ready() == Seq::<usize>::empty(),
            r.issued() == 0,
    {
        FiberQueue { ready: Vec::new(), next_id: 0 }
    }

    /// The number of ready fibers.
    pub fn len(&self) -> (r: usize)
        ensures
            r == self.ready().len(),
    {
        self.ready.len()
    }

    /// Makes a new fiber ready at the back of the queue and returns its id;
    /// `None` once every id has been handed out.
    pub fn spawn(&mut self) -> (r: Option<usize>)
        requires
            old(self).wf(),
        ensures
            final(self).wf(),
            old(self).issued() < usize::MAX ==> {
                &&& r == Some(old(self).issued() as usize)
                &&& final(self).ready() == old(self).ready().push(old(self).issued() as usize)
                &&& final(self).issued() == old(self).issued() + 1
            },
            old(self).issued() == usize::MAX ==> r is None && *final(self) == *old(self),
    {
        if self.next_id == usize::MAX {
            return None;
        }
        let id = self.next_id;
        self.ready.push(id);
        self.next_id = self.next_id + 1;
        assert(forall|i: int| 0 <= i < old(self).ready().len() ==> old(self).ready()[i] != id);
        Some(id)
    }

    /// Takes the fiber at the front of the queue to run it, if any.
    pub fn next(&mut self) -> (r: Option<usize>)
        requires
            old(self).wf(),
        ensures
            final(self).wf(),
            final(self).issued() == old(self).issued(),
            old(self).ready().len() == 0 ==> r is None && final(self).ready() == old(self).ready(),
            old(self).ready().len() > 0 ==> {
                &&& r == Some(old(self).ready()[0])
                &&& final(self).ready() == old(self).ready().drop_first()
            },
    {
        if self.ready.len() == 0 {
            return None;
        }
        let id = self.ready.remove(0);
        assert(self.ready@ =~= old(self).ready().drop_first());
        Some(id)
    }

    /// Puts a fiber that yielded back at the end of the queue.
    pub fn yield_now(&mut self, id: usize)
        requires
            old(self).wf(),
            id < old(self).issued(),
            !old(self).ready().contains(id),
        ensures
            final(self).wf(),
            final(self).issued() == old(self).issued(),
            final(self).ready() == old(self).ready().push(id),
    {
        self.ready.push(id);
    }
}

/// What a connection fiber observed on its latest turn.
#[derive(Clone, Copy, Debug, PartialEq, Eq, Structural)]
pub enum ConnEvent {
    /// The non-blocking read had no data yet.
    WouldBlock,
    /// The peer closed the stream.
    EndOfStream,
    /// The bytes read did not form a batch.
    Undecodable,
    /// A batch was run; `closed` tells whether it held a `Close`.
    Served { closed: bool },
}

/// What a connection fiber does next.
#[derive(Clone, Copy, Debug, PartialEq, Eq, Structural)]
pub enum ConnAction {
    /// Give the worker to another fiber and retry the read on a later turn.
    Yield,
    /// Send the batch's reply, then read the next batch.
    Reply,
    /// End this connection; the other fibers go on.
    Terminate,
}

/// The step of a connection fiber's loop that follows an event.
pub fn next_action(event: ConnEvent) -> (r: ConnAction)
    ensures
        r == (match event {
            ConnEvent::WouldBlock => ConnAction::Yield,
            ConnEvent::Served { closed } => if closed { ConnAction::Terminate } else { ConnAction::Reply },
            _ => ConnAction::Terminate,
        }),
{
    match event {
        ConnEvent::WouldBlock => ConnAction::Yield,
        ConnEvent::EndOfStream => ConnAction::Terminate,
        ConnEvent::Undecodable => ConnAction::Terminate,
        ConnEvent::Served { closed } => if closed { ConnAction::Terminate } else { ConnAction::Reply },
    }
}

} // verus!
