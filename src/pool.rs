use vstd::prelude::*;

use crate::channel::{SendError, WorkChannel};

verus! {

/// The ways in which the pool refuses a request.
#[derive(PartialEq, Eq, Structural, Clone, Copy, Debug)]
pub enum PoolError {
    /// A pool was asked for with no workers.
    ZeroSize,
    /// A job was submitted after shutdown had begun.
    ShutDown,
    /// A job was submitted after every worker had gone.
    Disconnected,
}

/// Where a pool stands in its life. No step leads back from `Terminated`.
#[derive(PartialEq, Eq, Structural, Clone, Copy, Debug)]
pub enum Phase {
    /// The sending end is held and jobs are accepted.
    Running,
    /// The sending end has been dropped; workers are being joined.
    Closing,
    /// Every worker has been joined.
    Terminated,
}

/// What the owner of a pool must do next while tearing it down.
#[derive(PartialEq, Eq, Structural, Clone, Copy, Debug)]
pub enum ShutdownStep {
    /// Drop the sending end, which closes the work channel.
    CloseChannel,
    /// Join the thread of the worker with this id.
    Join(usize),
    /// Nothing is left to do.
    Done,
}

/// The bookkeeping of a pool's life: its fixed size, its phase, and which
/// worker threads have been joined.
///
/// Worker handles are consumed in id order, so the handles still held are
/// exactly those whose id is at least `joined`.
pub struct Lifecycle {
    phase: Phase,
    size: usize,
    joined: usize,
}

impl Lifecycle {
    pub closed spec fn phase_spec(&self) -> Phase {
        self.phase
    }

    /// The number of workers, fixed at construction.
    pub closed spec fn size_spec(&self) -> nat {
        self.size as nat
    }

    /// How many workers have been joined so far.
    pub closed spec fn joined_spec(&self) -> nat {
        self.joined as nat
    }

    /// Whether closing the channel is still among the teardown steps: one
    /// step while running, none after.
    pub open spec fn closing_steps(&self) -> int {
        if self.phase_spec() == Phase::Running {
            1
        } else {
            0
        }
    }

    /// Whether the thread handle of worker `id` is still held, not yet joined.
    pub closed spec fn handle_present(&self, id: int) -> bool {
        self.joined <= id < self.size
    }

    /// How many more steps a shutdown takes from here.
    pub closed spec fn steps_left(&self) -> nat {
        match self.phase {
            Phase::Running => (self.size - self.joined + 2) as nat,
            Phase::Closing => (self.size - self.joined + 1) as nat,
            Phase::Terminated => 0,
        }
    }

    /// A pool has at least one worker; none is joined while it runs, and all
    /// are once it has terminated.
    pub closed spec fn wf(&self) -> bool {
        &&& self.size > 0
        &&& self.joined <= self.size
        &&& self.phase == Phase::Running ==> self.joined == 0
        &&& self.phase == Phase::Terminated ==> self.joined == self.size
    }

    /// A running pool of `size` workers, each with its handle held.
    ///
    /// A pool with no workers could never run a job, so `size == 0` is refused.
    pub fn new(size: usize) -> (r: Result<Lifecycle, PoolError>)
        ensures
            size == 0 <==> r == Err::<Lifecycle, PoolError>(PoolError::ZeroSize),
            r is Ok <==> size > 0,
            r matches Ok(l) ==> {
                &&& l.wf()
                &&& l.phase_spec() == Phase::Running
                &&& l.size_spec() == size
                &&& l.joined_spec() == 0
                &&& forall|id: int| 0 <= id < size ==> l.handle_present(id)
            },
    {
        if size == 0 {
            Err(PoolError::ZeroSize)
        } else {
            Ok(Lifecycle { phase: Phase::Running, size, joined: 0 })
        }
    }

    /// Whether a job may be submitted now: only while running.
    pub fn check_submit(&self) -> (r: Result<(), PoolError>)
        ensures
            r is Ok <==> self.phase_spec() == Phase::Running,
            r is Err ==> r == Err::<(), PoolError>(PoolError::ShutDown),
    {
        match self.phase {
            Phase::Running => Ok(()),
            _ => Err(PoolError::ShutDown),
        }
    }

    /// Advances the teardown by one step and says what the owner must do.
    ///
    /// From `Running` the channel is closed first, once; then each worker is
    /// joined once, in id order; then the pool is `Terminated` and every
    /// further call answers `Done`.
    pub fn shutdown_step(&mut self) -> (r: ShutdownStep)
        requires
            old(self).wf(),
        ensures
            final(self).wf(),
            final(self).size_spec() == old(self).size_spec(),
            r == ShutdownStep::CloseChannel <==> old(self).phase_spec() == Phase::Running,
            r == ShutdownStep::Done <==> final(self).phase_spec() == Phase::Terminated,
            r != ShutdownStep::Done ==> final(self).steps_left() < old(self).steps_left(),
            old(self).phase_spec() == Phase::Terminated ==> *final(self) == *old(self),
            old(self).phase_spec() != Phase::Running ==> final(self).phase_spec() != Phase::Running,
            r == ShutdownStep::CloseChannel ==> final(self).phase_spec() == Phase::Closing,
            forall|id: int| #[trigger]
                final(self).handle_present(id) ==> old(self).handle_present(id),
            match r {
                ShutdownStep::Join(id) => {
                    &&& old(self).phase_spec() == Phase::Closing
                    &&& old(self).handle_present(id as int)
                    &&& !final(self).handle_present(id as int)
                    &&& id == old(self).joined_spec()
                    &&& final(self).joined_spec() == old(self).joined_spec() + 1
                    &&& forall|k: int|
                        k != id ==> #[trigger] final(self).handle_present(k)
                            == old(self).handle_present(k)
                },
                _ => {
                    &&& final(self).joined_spec() == old(self).joined_spec()
                    &&& forall|k: int| #[trigger]
                        final(self).handle_present(k) == old(self).handle_present(k)
                },
            },
    {
        match self.phase {
            Phase::Running => {
                self.phase = Phase::Closing;
                ShutdownStep::CloseChannel
            },
            Phase::Closing => {
                if self.joined < self.size {
                    let id = self.joined;
                    self.joined = self.joined + 1;
                    ShutdownStep::Join(id)
                } else {
                    self.phase = Phase::Terminated;
                    ShutdownStep::Done
                }
            },
            Phase::Terminated => ShutdownStep::Done,
        }
    }

    /// Runs the whole teardown and lists the steps the owner must take, in
    /// order, ending with `Done`.
    ///
    /// For a running pool that is: close the channel once, join worker `0`,
    /// `1`, ... up to the last one, each exactly once, then `Done`.
    pub fn shutdown_all(&mut self) -> (r: Vec<ShutdownStep>)
        requires
            old(self).wf(),
        ensures
            final(self).wf(),
            final(self).phase_spec() == Phase::Terminated,
            final(self).size_spec() == old(self).size_spec(),
            r@.len() > 0,
            r@.last() == ShutdownStep::Done,
            old(self).phase_spec() == Phase::Terminated ==> r@ == seq![ShutdownStep::Done],
            old(self).phase_spec() != Phase::Terminated ==> r@.len() == old(self).closing_steps()
                + old(self).size_spec() - old(self).joined_spec() + 1,
            old(self).phase_spec() == Phase::Running ==> {
                &&& r@.len() == old(self).size_spec() + 2
                &&& r@[0] == ShutdownStep::CloseChannel
                &&& forall|id: int|
                    0 <= id < old(self).size_spec() ==> #[trigger] r@[id + 1] == ShutdownStep::Join(
                        id as usize,
                    )
            },
            forall|id: int|
                old(self).handle_present(id) ==> #[trigger] r@[old(self).closing_steps() + id
                    - old(self).joined_spec()] == ShutdownStep::Join(id as usize),
    {
        let ghost start = *self;
        let mut steps: Vec<ShutdownStep> = Vec::new();
        let mut done = false;
        while !done
            invariant
                self.wf(),
                self.size == start.size,
                start.wf(),
                done <==> steps@.len() > 0 && steps@.last() == ShutdownStep::Done,
                done ==> self.phase == Phase::Terminated,
                self.phase == Phase::Terminated && start.phase != Phase::Terminated ==> done,
                start.phase == Phase::Terminated ==> steps@.len() == 0 || steps@ == seq![
                    ShutdownStep::Done,
                ],
                self.joined >= start.joined,
                self.phase == Phase::Running ==> start.phase == Phase::Running,
                start.phase == Phase::Terminated ==> self.phase == Phase::Terminated,
                self.phase == Phase::Running ==> steps@.len() == 0,
                self.phase == Phase::Closing ==> steps@.len() == start.closing_steps() + self.joined
                    - start.joined,
                self.phase == Phase::Terminated && start.phase != Phase::Terminated ==> steps@.len()
                    == start.closing_steps() + self.size - start.joined + 1,
                start.phase == Phase::Running && steps@.len() > 0 ==> steps@[0]
                    == ShutdownStep::CloseChannel,
                start.phase == Phase::Running ==> forall|id: int|
                    0 <= id < self.joined ==> #[trigger] steps@[id + 1] == ShutdownStep::Join(
                        id as usize,
                    ),
                forall|id: int|
                    start.joined <= id < self.joined ==> #[trigger] steps@[start.closing_steps() + id
                        - start.joined] == ShutdownStep::Join(id as usize),
            decreases self.steps_left() + if done { 0int } else { 1int },
        {
            let ghost prev = steps@;
            let step = self.shutdown_step();
            steps.push(step);
            proof {
                assert(forall|i: int| 0 <= i < prev.len() ==> steps@[i] == prev[i]);
            }
            if step == ShutdownStep::Done {
                done = true;
            }
        }
        steps
    }

    pub fn phase(&self) -> (r: Phase)
        ensures
            r == self.phase_spec(),
    {
        self.phase
    }

    /// The number of workers.
    pub fn size(&self) -> (r: usize)
        ensures
            r == self.size_spec(),
    {
        self.size
    }

    /// Whether worker `id` still has its thread handle held.
    pub fn has_handle(&self, id: usize) -> (r: bool)
        ensures
            r == self.handle_present(id as int),
    {
        self.joined <= id && id < self.size
    }
}

/// Submits `job`: checks that the pool is running, then sends the job.
///
/// It is refused with `ShutDown` once shutdown has begun (or the channel was
/// closed), and with `Disconnected` when no worker is left to receive it.
pub fn submit<J>(life: &Lifecycle, chan: &mut WorkChannel<J>, job: J) -> (r: Result<(), PoolError>)
    requires
        old(chan).wf(),
    ensures
        final(chan).wf(),
        final(chan).is_open_spec() == old(chan).is_open_spec(),
        final(chan).receivers_spec() == old(chan).receivers_spec(),
        final(chan).delivered() == old(chan).delivered(),
        final(chan).lost() == old(chan).lost(),
        r is Ok <==> {
            &&& life.phase_spec() == Phase::Running
            &&& old(chan).is_open_spec()
            &&& old(chan).receivers_spec() > 0
        },
        r == Err::<(), PoolError>(PoolError::ShutDown) <==> (life.phase_spec() != Phase::Running
            || !old(chan).is_open_spec()),
        r == Err::<(), PoolError>(PoolError::Disconnected) <==> {
            &&& life.phase_spec() == Phase::Running
            &&& old(chan).is_open_spec()
            &&& old(chan).receivers_spec() == 0
        },
        r is Ok ==> {
            &&& final(chan).pending() == old(chan).pending().push(job)
            &&& final(chan).sent() == old(chan).sent().push(job)
        },
        r is Err ==> {
            &&& final(chan).pending() == old(chan).pending()
            &&& final(chan).sent() == old(chan).sent()
        },
{
    match life.check_submit() {
        Err(e) => Err(e),
        Ok(()) => match chan.send(job) {
            Ok(()) => Ok(()),
            Err(SendError::Closed(_)) => Err(PoolError::ShutDown),
            Err(SendError::Disconnected(_)) => Err(PoolError::Disconnected),
        },
    }
}

/// A pool that has finished shutting down holds no worker handle: each of its
/// workers has been joined.
pub proof fn lemma_terminated_joined_every_worker(l: &Lifecycle)
    requires
        l.wf(),
        l.phase_spec() == Phase::Terminated,
    ensures
        forall|id: int| 0 <= id < l.size_spec() ==> !l.handle_present(id),
        l.steps_left() == 0,
{
}

} // verus!
