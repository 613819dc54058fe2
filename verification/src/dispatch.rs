//! The job-dispatch core: a FIFO queue of one-shot jobs feeding a fixed set
//! of workers.
//!
//! `ThreadPool` is the queue's state: the jobs still pending, in submission
//! order, and (as ghost history) the jobs already handed out, in the order
//! they were handed out. A worker takes the job at the front under the
//! caller's mutual exclusion and runs it to completion before taking
//! another; the contracts here pin down what each step does to the queue,
//! and the lemmas state the laws that hold of every reachable state: no job
//! is lost or duplicated, and jobs are handed out in submission order.

use vstd::prelude::*;
use vstd::seq_lib::lemma_multiset_commutative;

verus! {

/// A one-shot unit of work. It owns exactly one accepted connection, named
/// here by the plain handle the surrounding process gave it.
#[derive(Clone, Copy, PartialEq, Eq, Structural, Debug)]
pub struct Job {
    pub conn: u64,
}

/// The shared queue of a fixed-size worker pool.
pub struct ThreadPool {
    n_threads: usize,
    pending: Vec<Job>,
    started: Ghost<Seq<Job>>,
}

impl ThreadPool {
    /// The fixed worker count chosen at construction.
    pub closed spec fn pool_size(self) -> usize {
        self.n_threads
    }

    /// The jobs submitted and not yet taken, in submission order.
    pub closed spec fn pending_jobs(self) -> Seq<Job> {
        self.pending@
    }

    /// The jobs already handed to workers, in the order they were taken.
    pub closed spec fn started_jobs(self) -> Seq<Job> {
        self.started@
    }

    /// Every job ever submitted, in submission order.
    pub open spec fn submitted_jobs(self) -> Seq<Job> {
        self.started_jobs() + self.pending_jobs()
    }

    /// A fresh pool: no job submitted yet, none handed out.
    pub fn new(n_threads: usize) -> (pool: ThreadPool)
        ensures
            pool.pool_size() == n_threads,
            pool.pending_jobs() == Seq::<Job>::empty(),
            pool.started_jobs() == Seq::<Job>::empty(),
    {
        ThreadPool { n_threads, pending: Vec::new(), started: Ghost(Seq::empty()) }
    }

    /// The fixed worker count, as configured.
    pub fn size(&self) -> (n: usize)
        ensures
            n == self.pool_size(),
    {
        self.n_threads
    }

    /// How many jobs are waiting in the queue.
    pub fn pending_count(&self) -> (n: usize)
        ensures
            n == self.pending_jobs().len(),
    {
        self.pending.len()
    }

    /// Submits a job: it joins the back of the queue and nothing else
    /// moves. Never blocks, never rejects — the queue has no capacity
    /// bound, so under sustained overload it grows without limit.
    pub fn execute(&mut self, job: Job)
        ensures
            final(self).pending_jobs() == old(self).pending_jobs().push(job),
            final(self).started_jobs() == old(self).started_jobs(),
            final(self).submitted_jobs() == old(self).submitted_jobs().push(job),
            final(self).pool_size() == old(self).pool_size(),
    {
        self.pending.push(job);
        proof {
            assert(self.submitted_jobs() =~= old(self).submitted_jobs().push(job));
        }
    }

    /// Removes and returns the job at the front of the queue, or returns
    /// nothing and leaves the pool untouched when the queue is empty. Either
    /// way the submission history is conserved: a dequeue loses no job and
    /// duplicates none.
    pub fn take_job(&mut self) -> (r: Option<Job>)
        ensures
            final(self).submitted_jobs() == old(self).submitted_jobs(),
            final(self).pool_size() == old(self).pool_size(),
            old(self).pending_jobs().len() == 0 ==> r is None && *final(self) == *old(self),
            old(self).pending_jobs().len() > 0 ==> {
                &&& r == Some(old(self).pending_jobs()[0])
                &&& final(self).pending_jobs() == old(self).pending_jobs().drop_first()
                &&& final(self).started_jobs() == old(self).started_jobs().push(
                    old(self).pending_jobs()[0],
                )
            },
    {
        if self.pending.len() == 0 {
            None
        } else {
            let job = self.pending.remove(0);
            self.started = Ghost(self.started@.push(job));
            proof {
                assert(self.pending@ =~= old(self).pending@.drop_first());
                assert(self.submitted_jobs() =~= old(self).submitted_jobs());
            }
            Some(job)
        }
    }
}

/// Exactly-once accounting: in every reachable pool state, each submitted
/// job is counted once between the jobs handed to workers and the jobs
/// still pending — none is lost, none is duplicated.
pub proof fn lemma_exactly_once(pool: ThreadPool)
    ensures
        forall|j: Job|
            pool.submitted_jobs().to_multiset().count(j) == pool.started_jobs().to_multiset().count(
                j,
            ) + pool.pending_jobs().to_multiset().count(j),
{
    lemma_multiset_commutative(pool.started_jobs(), pool.pending_jobs());
}

/// FIFO discipline: the jobs handed to workers are exactly the first
/// `started_jobs().len()` jobs ever submitted, in submission order, and the
/// pending jobs are exactly the rest, still in submission order.
pub proof fn lemma_fifo(pool: ThreadPool)
    ensures
        pool.started_jobs() == pool.submitted_jobs().take(pool.started_jobs().len() as int),
        pool.pending_jobs() == pool.submitted_jobs().skip(pool.started_jobs().len() as int),
{
    assert(pool.started_jobs() =~= pool.submitted_jobs().take(pool.started_jobs().len() as int));
    assert(pool.pending_jobs() =~= pool.submitted_jobs().skip(pool.started_jobs().len() as int));
}

/// Once the queue has drained, the jobs handed to workers are exactly the
/// jobs ever submitted, in submission order: each submitted job was taken
/// exactly once, none zero times, none twice.
pub proof fn lemma_drained_exactly_once(pool: ThreadPool)
    requires
        pool.pending_jobs().len() == 0,
    ensures
        pool.started_jobs() == pool.submitted_jobs(),
{
    assert(pool.started_jobs() =~= pool.submitted_jobs());
}

/// One worker of the fixed set. It is idle or running exactly one job; it
/// must finish that job before it can take another, so a slow job occupies
/// its worker for the job's whole duration.
pub struct Worker {
    id: usize,
    running: Option<Job>,
}

impl Worker {
    /// The worker's index within the pool.
    pub closed spec fn worker_id(self) -> usize {
        self.id
    }

    /// Whether the worker is between jobs.
    pub closed spec fn is_idle(self) -> bool {
        self.running is None
    }

    /// The job the worker is running, when it is not idle.
    pub closed spec fn running_job(self) -> Option<Job> {
        self.running
    }

    /// A fresh, idle worker.
    pub fn new(id: usize) -> (w: Worker)
        ensures
            w.worker_id() == id,
            w.is_idle(),
    {
        Worker { id, running: Option::None }
    }

    /// Whether the worker is between jobs.
    pub fn idle(&self) -> (b: bool)
        ensures
            b == self.is_idle(),
    {
        self.running.is_none()
    }

    /// One dispatch step: an idle worker takes the job at the front of the
    /// queue and starts running it, or stays idle when the queue is empty
    /// and consumes nothing.
    pub fn fetch_job(&mut self, pool: &mut ThreadPool) -> (r: Option<Job>)
        requires
            old(self).is_idle(),
        ensures
            final(self).worker_id() == old(self).worker_id(),
            final(pool).submitted_jobs() == old(pool).submitted_jobs(),
            final(pool).pool_size() == old(pool).pool_size(),
            old(pool).pending_jobs().len() == 0 ==> r is None && final(self).is_idle()
                && *final(pool) == *old(pool),
            old(pool).pending_jobs().len() > 0 ==> {
                &&& r == Some(old(pool).pending_jobs()[0])
                &&& final(self).running_job() == r
                &&& !final(self).is_idle()
                &&& final(pool).pending_jobs() == old(pool).pending_jobs().drop_first()
                &&& final(pool).started_jobs() == old(pool).started_jobs().push(
                    old(pool).pending_jobs()[0],
                )
            },
    {
        let r = pool.take_job();
        self.running = r;
        r
    }

    /// The running job is done: the worker returns it and is idle again.
    pub fn complete(&mut self) -> (j: Job)
        requires
            !old(self).is_idle(),
        ensures
            final(self).worker_id() == old(self).worker_id(),
            final(self).is_idle(),
            Some(j) == old(self).running_job(),
    {
        let job = self.running.unwrap();
        self.running = Option::None;
        job
    }
}

} // verus!
