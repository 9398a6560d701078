use vstd::prelude::*;

use std::collections::VecDeque;

verus! {

/// Why a pool cannot be created.
#[derive(Debug, Clone, Copy, PartialEq, Eq, Structural)]
pub enum PoolCreationError {
    /// A pool needs at least one worker.
    InvalidPoolSize,
}

/// What a worker that asks for work is to do next.
pub enum WorkerStep<J> {
    /// Run this job, then report it finished.
    Run(J),
    /// Nothing is queued yet: wait for a submission or for the queue to close.
    Wait,
    /// The queue is closed and empty: stop.
    Exit,
}

/// How many workers are busy.
pub open spec fn count_busy(busy: Seq<bool>) -> nat
    decreases busy.len(),
{
    if busy.len() == 0 {
        0
    } else {
        count_busy(busy.drop_last()) + if busy.last() {
            1nat
        } else {
            0nat
        }
    }
}

proof fn lemma_count_busy_bounded(busy: Seq<bool>)
    ensures
        count_busy(busy) <= busy.len(),
    decreases busy.len(),
{
    if busy.len() > 0 {
        lemma_count_busy_bounded(busy.drop_last());
    }
}

proof fn lemma_count_busy_update(busy: Seq<bool>, i: int, b: bool)
    requires
        0 <= i < busy.len(),
    ensures
        count_busy(busy.update(i, b)) + (if busy[i] {
            1nat
        } else {
            0nat
        }) == count_busy(busy) + (if b {
            1nat
        } else {
            0nat
        }),
    decreases busy.len(),
{
    let u = busy.update(i, b);
    if i == busy.len() - 1 {
        assert(u.drop_last() =~= busy.drop_last());
    } else {
        lemma_count_busy_update(busy.drop_last(), i, b);
        assert(u.drop_last() =~= busy.drop_last().update(i, b));
    }
}

proof fn lemma_count_busy_all_idle(n: nat)
    ensures
        count_busy(Seq::new(n, |i: int| false)) == 0,
    decreases n,
{
    if n > 0 {
        lemma_count_busy_all_idle((n - 1) as nat);
        assert(Seq::new(n, |i: int| false).drop_last() =~= Seq::new((n - 1) as nat, |i: int| false));
    }
}

/// The shared queue of a worker pool and the state of its workers.
///
/// Jobs leave the queue in the order they came, each to exactly one worker,
/// and a worker runs one job at a time. Once the queue is closed it takes no
/// more jobs, and workers stop only when nothing is left in it.
pub struct JobQueue<J> {
    size: usize,
    pending: VecDeque<J>,
    busy: Vec<bool>,
    running: usize,
    closed: bool,
    submitted: Ghost<Seq<J>>,
    started: Ghost<nat>,
    finished: Ghost<nat>,
}

impl<J> JobQueue<J> {
    /// The number of workers.
    pub closed spec fn size(&self) -> nat {
        self.size as nat
    }

    /// Every job accepted so far, in the order of submission.
    pub closed spec fn submitted(&self) -> Seq<J> {
        self.submitted@
    }

    /// How many jobs have been handed to workers: the first ones submitted.
    pub closed spec fn started(&self) -> nat {
        self.started@
    }

    /// How many handed-out jobs have been reported finished.
    pub closed spec fn finished(&self) -> nat {
        self.finished@
    }

    /// The jobs that wait for a worker, oldest first.
    pub closed spec fn pending(&self) -> Seq<J> {
        self.pending@
    }

    /// Whether a worker is running a job.
    pub closed spec fn is_busy(&self, worker: nat) -> bool {
        self.busy@[worker as int]
    }

    /// How many workers are running a job.
    pub closed spec fn running(&self) -> nat {
        count_busy(self.busy@)
    }

    /// Whether the queue refuses new jobs.
    pub closed spec fn is_closed(&self) -> bool {
        self.closed
    }

    /// The queue's invariant.
    pub closed spec fn wf(&self) -> bool {
        &&& self.size >= 1
        &&& self.busy@.len() == self.size
        &&& self.running as nat == count_busy(self.busy@)
        &&& self.started@ <= self.submitted@.len()
        &&& self.pending@ == self.submitted@.subrange(self.started@ as int, self.submitted@.len() as int)
        &&& self.finished@ + count_busy(self.busy@) == self.started@
    }

    /// Whether the queue is closed and every job it took has finished.
    pub open spec fn drained(&self) -> bool {
        &&& self.is_closed()
        &&& self.pending().len() == 0
        &&& self.running() == 0
    }

    /// A queue for a pool of `size` workers; there must be at least one.
    pub fn new(size: usize) -> (r: Result<JobQueue<J>, PoolCreationError>)
        ensures
            size == 0 <==> r is Err,
            r matches Err(e) ==> e == PoolCreationError::InvalidPoolSize,
            r matches Ok(q) ==> {
                &&& q.wf()
                &&& q.size() == size
                &&& q.submitted().len() == 0
                &&& q.pending().len() == 0
                &&& q.started() == 0
                &&& q.finished() == 0
                &&& q.running() == 0
                &&& !q.is_closed()
                &&& forall|w: nat| w < size ==> !q.is_busy(w)
            },
    {
        if size == 0 {
            return Err(PoolCreationError::InvalidPoolSize);
        }
        let mut busy: Vec<bool> = Vec::new();
        let mut i: usize = 0;
        while i < size
            invariant
                i <= size,
                busy@ =~= Seq::new(i as nat, |k: int| false),
            decreases size - i,
        {
            busy.push(false);
            i = i + 1;
        }
        proof {
            lemma_count_busy_all_idle(size as nat);
        }
        let q = JobQueue {
            size,
            pending: VecDeque::new(),
            busy,
            running: 0,
            closed: false,
            submitted: Ghost(Seq::empty()),
            started: Ghost(0),
            finished: Ghost(0),
        };
        assert(q.pending@ =~= q.submitted@.subrange(0, 0));
        Ok(q)
    }

    /// The number of workers.
    pub fn pool_size(&self) -> (r: usize)
        ensures
            r == self.size(),
    {
        self.size
    }

    /// Queues a job, unless the queue is closed: then the job comes back.
    /// Never waits for a worker to be free.
    pub fn submit(&mut self, job: J) -> (r: Result<(), J>)
        requires
            old(self).wf(),
        ensures
            final(self).wf(),
            final(self).size() == old(self).size(),
            final(self).is_closed() == old(self).is_closed(),
            final(self).started() == old(self).started(),
            final(self).finished() == old(self).finished(),
            final(self).running() == old(self).running(),
            forall|w: nat| w < old(self).size() ==> final(self).is_busy(w) == old(self).is_busy(w),
            old(self).is_closed() ==> {
                &&& r == Err::<(), J>(job)
                &&& final(self).submitted() == old(self).submitted()
                &&& final(self).pending() == old(self).pending()
            },
            !old(self).is_closed() ==> {
                &&& r is Ok
                &&& final(self).submitted() == old(self).submitted().push(job)
                &&& final(self).pending() == old(self).pending().push(job)
            },
    {
        if self.closed {
            return Err(job);
        }
        self.pending.push_back(job);
        self.submitted = Ghost(self.submitted@.push(job));
        assert(self.pending@ =~= self.submitted@.subrange(
            self.started@ as int,
            self.submitted@.len() as int,
        ));
        Ok(())
    }

    /// The next step of an idle worker: the oldest queued job, if any; else
    /// to stop if the queue is closed, or to wait.
    pub fn next_job(&mut self, worker: usize) -> (r: WorkerStep<J>)
        requires
            old(self).wf(),
            worker < old(self).size(),
            !old(self).is_busy(worker as nat),
        ensures
            final(self).wf(),
            final(self).size() == old(self).size(),
            final(self).submitted() == old(self).submitted(),
            final(self).is_closed() == old(self).is_closed(),
            final(self).finished() == old(self).finished(),
            old(self).pending().len() > 0 ==> {
                &&& r == WorkerStep::Run(old(self).pending()[0])
                &&& old(self).pending()[0] == old(self).submitted()[old(self).started() as int]
                &&& final(self).pending() == old(self).pending().drop_first()
                &&& final(self).started() == old(self).started() + 1
                &&& final(self).running() == old(self).running() + 1
                &&& final(self).is_busy(worker as nat)
                &&& forall|w: nat|
                    w < old(self).size() && w != worker ==> final(self).is_busy(w) == old(
                        self,
                    ).is_busy(w)
            },
            old(self).pending().len() == 0 ==> {
                &&& (if old(self).is_closed() {
                    r is Exit
                } else {
                    r is Wait
                })
                &&& final(self).pending() == old(self).pending()
                &&& final(self).started() == old(self).started()
                &&& final(self).running() == old(self).running()
                &&& forall|w: nat| w < old(self).size() ==> final(self).is_busy(w) == old(
                    self,
                ).is_busy(w)
            },
    {
        match self.pending.pop_front() {
            Some(job) => {
                proof {
                    lemma_count_busy_update(self.busy@, worker as int, true);
                    lemma_count_busy_bounded(self.busy@.update(worker as int, true));
                }
                self.busy.set(worker, true);
                self.running = self.running + 1;
                self.started = Ghost(self.started@ + 1);
                assert(self.pending@ =~= self.submitted@.subrange(
                    self.started@ as int,
                    self.submitted@.len() as int,
                ));
                WorkerStep::Run(job)
            },
            None => {
                if self.closed {
                    WorkerStep::Exit
                } else {
                    WorkerStep::Wait
                }
            },
        }
    }

    /// Records that a worker has finished its job; it is idle again.
    pub fn finish(&mut self, worker: usize)
        requires
            old(self).wf(),
            worker < old(self).size(),
            old(self).is_busy(worker as nat),
        ensures
            final(self).wf(),
            final(self).size() == old(self).size(),
            final(self).submitted() == old(self).submitted(),
            final(self).pending() == old(self).pending(),
            final(self).is_closed() == old(self).is_closed(),
            final(self).started() == old(self).started(),
            final(self).finished() == old(self).finished() + 1,
            final(self).running() + 1 == old(self).running(),
            !final(self).is_busy(worker as nat),
            forall|w: nat|
                w < old(self).size() && w != worker ==> final(self).is_busy(w) == old(
                    self,
                ).is_busy(w),
    {
        proof {
            lemma_count_busy_update(self.busy@, worker as int, false);
        }
        self.busy.set(worker, false);
        self.running = self.running - 1;
        self.finished = Ghost(self.finished@ + 1);
    }

    /// Closes the queue: it takes no more jobs, and workers stop once it is empty.
    pub fn close(&mut self)
        requires
            old(self).wf(),
        ensures
            final(self).wf(),
            final(self).is_closed(),
            final(self).size() == old(self).size(),
            final(self).submitted() == old(self).submitted(),
            final(self).pending() == old(self).pending(),
            final(self).started() == old(self).started(),
            final(self).finished() == old(self).finished(),
            final(self).running() == old(self).running(),
            forall|w: nat| w < old(self).size() ==> final(self).is_busy(w) == old(self).is_busy(w),
    {
        self.closed = true;
    }

    /// Whether the queue is closed and every job it took has finished.
    pub fn is_drained(&self) -> (r: bool)
        requires
            self.wf(),
        ensures
            r == self.drained(),
    {
        self.closed && self.pending.len() == 0 && self.running == 0
    }

    /// How many workers are running a job.
    pub fn running_jobs(&self) -> (r: usize)
        requires
            self.wf(),
        ensures
            r == self.running(),
    {
        self.running
    }

    /// No more jobs run at once than the pool has workers.
    pub proof fn lemma_running_within_size(&self)
        requires
            self.wf(),
        ensures
            self.running() <= self.size(),
    {
        lemma_count_busy_bounded(self.busy@);
    }

    /// Every submitted job is either handed out, exactly once and in the
    /// order of submission, or still queued: none is lost or handed out twice.
    pub proof fn lemma_jobs_accounted(&self)
        requires
            self.wf(),
        ensures
            self.started() <= self.submitted().len(),
            self.submitted() == self.submitted().subrange(0, self.started() as int) + self.pending(),
            self.finished() + self.running() == self.started(),
    {
        assert(self.submitted@ =~= self.submitted@.subrange(0, self.started@ as int)
            + self.pending@);
    }

    /// Once drained, every job that was ever submitted has run to completion.
    pub proof fn lemma_drained_all_finished(&self)
        requires
            self.wf(),
            self.drained(),
        ensures
            self.finished() == self.submitted().len(),
    {
    }
}

} // verus!
