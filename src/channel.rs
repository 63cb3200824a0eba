use std::collections::VecDeque;
use vstd::prelude::*;

verus! {

/// What a receiver gets when it asks the channel for work.
pub enum Received<J> {
    /// The oldest pending job, now handed to this receiver alone.
    Job(J),
    /// Nothing is pending but the channel is still open: wait and ask again.
    Empty,
    /// The channel is closed and drained: no more work will ever come.
    Closed,
}

/// Why a send was refused; the job is handed back untouched.
pub enum SendError<J> {
    /// The sending end was already closed.
    Closed(J),
    /// Every receiver has gone, so nobody could ever run the job.
    Disconnected(J),
}

/// An unbounded FIFO queue of jobs with an open/closed state, shared by the
/// receivers of a pool.
///
/// Besides the pending jobs it keeps, as ghost state, the history of every job
/// that was accepted, every job that was handed to a receiver, and every job
/// that was dropped because no receiver remained.
pub struct WorkChannel<J> {
    items: VecDeque<J>,
    open: bool,
    receivers: usize,
    sent: Ghost<Seq<J>>,
    delivered: Ghost<Seq<J>>,
    lost: Ghost<Seq<J>>,
}

impl<J> WorkChannel<J> {
    /// The jobs waiting to be received, oldest first.
    pub closed spec fn pending(&self) -> Seq<J> {
        self.items@
    }

    pub closed spec fn is_open_spec(&self) -> bool {
        self.open
    }

    /// How many receivers are still attached.
    pub closed spec fn receivers_spec(&self) -> nat {
        self.receivers as nat
    }

    /// Every job the channel has accepted, in the order it accepted them.
    pub closed spec fn sent(&self) -> Seq<J> {
        self.sent@
    }

    /// Every job handed to a receiver, in the order they were handed out.
    pub closed spec fn delivered(&self) -> Seq<J> {
        self.delivered@
    }

    /// Jobs that were pending when the last receiver detached.
    pub closed spec fn lost(&self) -> Seq<J> {
        self.lost@
    }

    /// Accepted jobs are exactly those delivered, then those lost, then those
    /// pending. Jobs are lost only once no receiver remains, and then none is
    /// pending.
    pub closed spec fn wf(&self) -> bool {
        &&& self.sent@ == self.delivered@ + self.lost@ + self.items@
        &&& self.receivers == 0 ==> self.items@.len() == 0
        &&& self.lost@.len() > 0 ==> self.receivers == 0
    }

    /// An open, empty channel with `receivers` receivers attached.
    pub fn new(receivers: usize) -> (r: Self)
        ensures
            r.wf(),
            r.is_open_spec(),
            r.receivers_spec() == receivers,
            r.pending() == Seq::<J>::empty(),
            r.sent() == Seq::<J>::empty(),
            r.delivered() == Seq::<J>::empty(),
            r.lost() == Seq::<J>::empty(),
    {
        WorkChannel {
            items: VecDeque::new(),
            open: true,
            receivers,
            sent: Ghost(Seq::empty()),
            delivered: Ghost(Seq::empty()),
            lost: Ghost(Seq::empty()),
        }
    }

    /// Queues `job` behind every job already pending.
    ///
    /// A closed channel refuses with `Closed`; an open one whose receivers
    /// have all gone refuses with `Disconnected`. Either way the job comes back.
    pub fn send(&mut self, job: J) -> (r: Result<(), SendError<J>>)
        requires
            old(self).wf(),
        ensures
            final(self).wf(),
            final(self).is_open_spec() == old(self).is_open_spec(),
            final(self).receivers_spec() == old(self).receivers_spec(),
            final(self).delivered() == old(self).delivered(),
            final(self).lost() == old(self).lost(),
            match r {
                Ok(()) => {
                    &&& old(self).is_open_spec()
                    &&& old(self).receivers_spec() > 0
                    &&& final(self).pending() == old(self).pending().push(job)
                    &&& final(self).sent() == old(self).sent().push(job)
                },
                Err(SendError::Closed(j)) => {
                    &&& !old(self).is_open_spec()
                    &&& j == job
                    &&& final(self).pending() == old(self).pending()
                    &&& final(self).sent() == old(self).sent()
                },
                Err(SendError::Disconnected(j)) => {
                    &&& old(self).is_open_spec()
                    &&& old(self).receivers_spec() == 0
                    &&& j == job
                    &&& final(self).pending() == old(self).pending()
                    &&& final(self).sent() == old(self).sent()
                },
            },
    {
        if !self.open {
            return Err(SendError::Closed(job));
        }
        if self.receivers == 0 {
            return Err(SendError::Disconnected(job));
        }
        proof {
            self.sent@ = self.sent@.push(job);
            assert(self.sent@ == self.delivered@ + self.lost@ + self.items@.push(job));
        }
        self.items.push_back(job);
        Ok(())
    }

    /// Takes the oldest pending job, if there is one.
    ///
    /// Pending jobs are still handed out after the channel closes; `Closed`
    /// comes only once none is left, and `Empty` only while it is open.
    pub fn receive(&mut self) -> (r: Received<J>)
        requires
            old(self).wf(),
        ensures
            final(self).wf(),
            final(self).is_open_spec() == old(self).is_open_spec(),
            final(self).receivers_spec() == old(self).receivers_spec(),
            final(self).sent() == old(self).sent(),
            final(self).lost() == old(self).lost(),
            match r {
                Received::Job(j) => {
                    &&& old(self).pending().len() > 0
                    &&& j == old(self).pending()[0]
                    &&& final(self).pending() == old(self).pending().drop_first()
                    &&& final(self).delivered() == old(self).delivered().push(j)
                },
                Received::Empty => {
                    &&& old(self).pending().len() == 0
                    &&& old(self).is_open_spec()
                    &&& final(self).pending() == old(self).pending()
                    &&& final(self).delivered() == old(self).delivered()
                },
                Received::Closed => {
                    &&& old(self).pending().len() == 0
                    &&& !old(self).is_open_spec()
                    &&& final(self).pending() == old(self).pending()
                    &&& final(self).delivered() == old(self).delivered()
                },
            },
    {
        match self.items.pop_front() {
            Some(job) => {
                proof {
                    let ghost rest = self.items@;
                    assert(self.lost@ =~= Seq::<J>::empty());
                    assert(old(self).sent@ =~= self.delivered@.push(job) + rest);
                    self.delivered@ = self.delivered@.push(job);
                }
                Received::Job(job)
            },
            None => {
                if self.open {
                    Received::Empty
                } else {
                    Received::Closed
                }
            },
        }
    }

    /// Closes the sending side; returns whether this call did the closing.
    ///
    /// Closing twice changes nothing: a closed channel never reopens.
    pub fn close(&mut self) -> (r: bool)
        requires
            old(self).wf(),
        ensures
            final(self).wf(),
            r == old(self).is_open_spec(),
            !final(self).is_open_spec(),
            final(self).receivers_spec() == old(self).receivers_spec(),
            final(self).pending() == old(self).pending(),
            final(self).sent() == old(self).sent(),
            final(self).delivered() == old(self).delivered(),
            final(self).lost() == old(self).lost(),
    {
        let was_open = self.open;
        self.open = false;
        was_open
    }

    /// Records that one receiver has gone for good.
    ///
    /// When the last one goes, the jobs still pending can never run: they are
    /// dropped, and from then on every send is refused.
    pub fn detach_receiver(&mut self)
        requires
            old(self).wf(),
            old(self).receivers_spec() > 0,
        ensures
            final(self).wf(),
            final(self).receivers_spec() == old(self).receivers_spec() - 1,
            final(self).is_open_spec() == old(self).is_open_spec(),
            final(self).sent() == old(self).sent(),
            final(self).delivered() == old(self).delivered(),
            final(self).receivers_spec() > 0 ==> {
                &&& final(self).pending() == old(self).pending()
                &&& final(self).lost() == old(self).lost()
            },
            final(self).receivers_spec() == 0 ==> {
                &&& final(self).pending() == Seq::<J>::empty()
                &&& final(self).lost() == old(self).lost() + old(self).pending()
            },
    {
        self.receivers = self.receivers - 1;
        if self.receivers == 0 {
            proof {
                self.lost@ = self.lost@ + self.items@;
                assert(self.sent@ =~= self.delivered@ + self.lost@ + Seq::<J>::empty());
            }
            self.items.clear();
        }
    }

    pub fn is_open(&self) -> (r: bool)
        ensures
            r == self.is_open_spec(),
    {
        self.open
    }

    /// Number of jobs waiting to be received.
    pub fn len(&self) -> (r: usize)
        ensures
            r == self.pending().len(),
    {
        self.items.len()
    }

    pub fn receivers(&self) -> (r: usize)
        ensures
            r == self.receivers_spec(),
    {
        self.receivers
    }
}

/// Every job a channel accepted has been handed to exactly one receiver, has
/// been dropped with the last receiver, or is still pending, and in that order:
/// nothing is duplicated and nothing vanishes.
pub proof fn lemma_every_job_accounted<J>(ch: &WorkChannel<J>)
    requires
        ch.wf(),
    ensures
        ch.sent() == ch.delivered() + ch.lost() + ch.pending(),
{
}

/// Once a channel with a receiver still attached has no job pending, every job
/// it ever accepted was handed out exactly once, in the order it was accepted.
pub proof fn lemma_drained_delivers_all_in_order<J>(ch: &WorkChannel<J>)
    requires
        ch.wf(),
        ch.receivers_spec() > 0,
        ch.pending().len() == 0,
    ensures
        ch.delivered() == ch.sent(),
{
    assert(ch.lost() =~= Seq::<J>::empty());
    assert(ch.pending() =~= Seq::<J>::empty());
    assert(ch.sent() =~= ch.delivered());
}

} // verus!
