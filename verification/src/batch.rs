//! A batch of jobs: the state of each job, the bound on how many run at
//! once, and the outcome of each job.
//!
//! The library decides; the caller performs. The caller asks `acquire` for
//! the next job to start, does the job's work, and reports where the job
//! stands with `report`. A job's failure is recorded for that job alone.

use vstd::prelude::*;
use crate::error::AppError;

verus! {

/// How many jobs of a batch run at the same time.
pub const MAX_CONCURRENT_DOWNLOADS: usize = 3;

/// Where a job of a batch stands.
#[derive(Clone, Debug, PartialEq, Eq)]
pub enum JobState {
    /// Waiting for a free slot.
    Queued,
    /// Started; the entry is being completed to a full track.
    Resolving,
    /// An encoding is picked; where its bytes are is being asked for.
    Selecting,
    /// The asset and its cover are being fetched and stored.
    Fetching,
    /// Done; the file stands at this path.
    Succeeded(String),
    /// Done; this is why it failed.
    Failed(AppError),
}

/// The three groups of states that a batch tells apart.
#[derive(Clone, Copy, Debug, PartialEq, Eq)]
pub enum Phase {
    /// Queued.
    Waiting,
    /// Started and not finished; such a job holds a slot.
    Running,
    /// Finished, fine or failed.
    Done,
}

impl JobState {
    /// The group of a state.
    pub open spec fn phase(self) -> Phase {
        match self {
            JobState::Queued => Phase::Waiting,
            JobState::Succeeded(_) | JobState::Failed(_) => Phase::Done,
            _ => Phase::Running,
        }
    }

    /// A finished job, fine or failed.
    pub open spec fn is_terminal(self) -> bool {
        self.phase() == Phase::Done
    }

    /// How far a job has come: 0 for a queued one, 4 for a finished one.
    pub open spec fn rank(self) -> nat {
        match self {
            JobState::Queued => 0,
            JobState::Resolving => 1,
            JobState::Selecting => 2,
            JobState::Fetching => 3,
            _ => 4,
        }
    }

    /// The state that a job is in after `next` is reported of it: `next`,
    /// where the job is running and `next` is no step back; else the state
    /// it was in. So a queued job is started by `acquire` alone, and a
    /// finished job stays as it is.
    pub open spec fn moved_to(self, next: JobState) -> JobState {
        if self.phase() == Phase::Running && self.rank() <= next.rank() {
            next
        } else {
            self
        }
    }

    /// How far the job has come.
    pub fn stage(&self) -> (r: u8)
        ensures
            r == self.rank(),
    {
        match self {
            JobState::Queued => 0,
            JobState::Resolving => 1,
            JobState::Selecting => 2,
            JobState::Fetching => 3,
            _ => 4,
        }
    }

    /// Whether the job is finished.
    pub fn is_done(&self) -> (r: bool)
        ensures
            r == self.is_terminal(),
    {
        match self {
            JobState::Succeeded(_) | JobState::Failed(_) => true,
            _ => false,
        }
    }
}

/// A finished job stays as it is, whatever is reported of it.
pub proof fn lemma_terminal_is_final(state: JobState, next: JobState)
    requires
        state.is_terminal(),
    ensures
        state.moved_to(next) == state,
{
}

/// A job never goes back, and never back into the queue.
pub proof fn lemma_jobs_move_forward(state: JobState, next: JobState)
    ensures
        state.rank() <= state.moved_to(next).rank(),
        state.moved_to(next) is Queued ==> state is Queued,
{
}

/// How many of `jobs` are in `phase`.
pub open spec fn count_in(jobs: Seq<JobState>, phase: Phase) -> nat
    decreases jobs.len(),
{
    if jobs.len() == 0 {
        0
    } else {
        count_in(jobs.drop_last(), phase) + if jobs.last().phase() == phase {
            1nat
        } else {
            0nat
        }
    }
}

/// Replacing one job moves the counts by that job alone.
pub proof fn lemma_count_update(jobs: Seq<JobState>, i: int, state: JobState, phase: Phase)
    requires
        0 <= i < jobs.len(),
    ensures
        count_in(jobs.update(i, state), phase) + (if jobs[i].phase() == phase {
            1nat
        } else {
            0nat
        }) == count_in(jobs, phase) + (if state.phase() == phase {
            1nat
        } else {
            0nat
        }),
    decreases jobs.len(),
{
    let next = jobs.update(i, state);
    if i == jobs.len() - 1 {
        assert(next.drop_last() == jobs.drop_last());
    } else {
        assert(next.drop_last() == jobs.drop_last().update(i, state));
        lemma_count_update(jobs.drop_last(), i, state, phase);
    }
}

/// No more jobs are in a phase than there are jobs, and all are exactly when
/// each one is.
pub proof fn lemma_count_bounds(jobs: Seq<JobState>, phase: Phase)
    ensures
        count_in(jobs, phase) <= jobs.len(),
        count_in(jobs, phase) == jobs.len() <==> forall|i: int|
            0 <= i < jobs.len() ==> (#[trigger] jobs[i]).phase() == phase,
        count_in(jobs, phase) == 0 <==> forall|i: int|
            0 <= i < jobs.len() ==> (#[trigger] jobs[i]).phase() != phase,
    decreases jobs.len(),
{
    if jobs.len() > 0 {
        let head = jobs.drop_last();
        lemma_count_bounds(head, phase);
        assert forall|i: int| 0 <= i < head.len() implies head[i] == jobs[i] by {}
    }
}

/// A batch of jobs with a bound on how many run at once.
///
/// Jobs leave the queue in the order in which they were submitted, and only
/// while fewer than `limit` are running. They finish in any order.
pub struct Batch {
    limit: usize,
    jobs: Vec<JobState>,
    admitted: usize,
    running: usize,
    finished: usize,
}

impl Batch {
    /// The states of the jobs, in the order of submission.
    pub closed spec fn jobs(&self) -> Seq<JobState> {
        self.jobs@
    }

    /// How many jobs may run at the same time.
    pub closed spec fn limit(&self) -> nat {
        self.limit as nat
    }

    /// How many jobs are running.
    pub open spec fn in_flight(&self) -> nat {
        count_in(self.jobs(), Phase::Running)
    }

    /// How many jobs are finished.
    pub open spec fn processed(&self) -> nat {
        count_in(self.jobs(), Phase::Done)
    }

    /// `i` is the job that leaves the queue next.
    pub open spec fn is_next(&self, i: int) -> bool {
        &&& 0 <= i < self.jobs().len()
        &&& self.jobs()[i] is Queued
        &&& forall|j: int| 0 <= j < i ==> !(self.jobs()[j] is Queued)
    }

    /// The batch is consistent: the counters agree with the states, the queue
    /// is what has not been started yet, and no more jobs run than may.
    pub closed spec fn wf(&self) -> bool {
        &&& self.admitted <= self.jobs.len()
        &&& forall|i: int| 0 <= i < self.admitted ==> !(self.jobs@[i] is Queued)
        &&& forall|i: int| self.admitted <= i < self.jobs.len() ==> self.jobs@[i] is Queued
        &&& self.running == count_in(self.jobs@, Phase::Running)
        &&& self.finished == count_in(self.jobs@, Phase::Done)
        &&& self.running <= self.limit
    }

    /// A batch of `total` queued jobs, of which `limit` may run at once.
    pub fn new(total: usize, limit: usize) -> (batch: Batch)
        ensures
            batch.wf(),
            batch.limit() == limit,
            batch.jobs().len() == total,
            forall|i: int| 0 <= i < total ==> batch.jobs()[i] == JobState::Queued,
            batch.in_flight() == 0,
            batch.processed() == 0,
    {
        let mut jobs: Vec<JobState> = Vec::new();
        while jobs.len() < total
            invariant
                jobs.len() <= total,
                forall|i: int| 0 <= i < jobs.len() ==> jobs@[i] == JobState::Queued,
            decreases total - jobs.len(),
        {
            jobs.push(JobState::Queued);
        }
        proof {
            lemma_count_bounds(jobs@, Phase::Running);
            lemma_count_bounds(jobs@, Phase::Done);
        }
        Batch { limit, jobs, admitted: 0, running: 0, finished: 0 }
    }

    /// Takes a slot for the next queued job, if one is free, and
    /// says which job it is. That job is `Resolving` from now on. Nothing changes
    /// where every slot is taken or the queue empty.
    pub fn acquire(&mut self) -> (r: Option<usize>)
        requires
            old(self).wf(),
        ensures
            final(self).wf(),
            final(self).limit() == old(self).limit(),
            r is Some <==> old(self).in_flight() < old(self).limit() && exists|j: int|
                old(self).is_next(j),
            match r {
                Some(i) => {
                    &&& old(self).in_flight() < old(self).limit()
                    &&& old(self).is_next(i as int)
                    &&& final(self).jobs() == old(self).jobs().update(
                        i as int,
                        JobState::Resolving,
                    )
                    &&& final(self).in_flight() == old(self).in_flight() + 1
                    &&& final(self).processed() == old(self).processed()
                },
                None => {
                    &&& final(self).jobs() == old(self).jobs()
                    &&& (old(self).in_flight() >= old(self).limit() || forall|j: int|
                        0 <= j < old(self).jobs().len() ==> !(old(self).jobs()[j] is Queued))
                },
            },
    {
        if self.running >= self.limit || self.admitted >= self.jobs.len() {
            return None;
        }
        let i = self.admitted;
        proof {
            assert(self.is_next(i as int));
            lemma_count_update(self.jobs@, i as int, JobState::Resolving, Phase::Running);
            lemma_count_update(self.jobs@, i as int, JobState::Resolving, Phase::Done);
        }
        self.jobs.set(i, JobState::Resolving);
        self.admitted = i + 1;
        self.running = self.running + 1;
        Some(i)
    }

    /// Records where one job stands. The other jobs are left as they are,
    /// and so is the batch where there is no such job. A job that finishes
    /// gives its slot back.
    pub fn report(&mut self, item: usize, state: JobState)
        requires
            old(self).wf(),
        ensures
            final(self).wf(),
            final(self).limit() == old(self).limit(),
            final(self).jobs() == if item < old(self).jobs().len() {
                old(self).jobs().update(item as int, old(self).jobs()[item as int].moved_to(state))
            } else {
                old(self).jobs()
            },
            forall|j: int|
                0 <= j < old(self).jobs().len() && j != item ==> final(self).jobs()[j] == old(
                    self,
                ).jobs()[j],
            final(self).jobs().len() == old(self).jobs().len(),
            final(self).in_flight() + final(self).processed() == old(self).in_flight() + old(
                self,
            ).processed(),
            final(self).processed() == old(self).processed() + if item < old(self).jobs().len()
                && !old(self).jobs()[item as int].is_terminal() && old(self).jobs()[item as int].moved_to(
                state,
            ).is_terminal() {
                1nat
            } else {
                0nat
            },
    {
        if item >= self.jobs.len() {
            return ;
        }
        let ghost before = self.jobs@;
        let from = self.jobs[item].stage();
        let to = state.stage();
        if from == 0 || from == 4 || to < from {
            return ;
        }
        proof {
            lemma_count_update(before, item as int, state, Phase::Running);
            lemma_count_update(before, item as int, state, Phase::Done);
            lemma_count_bounds(before, Phase::Done);
            lemma_count_bounds(before, Phase::Running);
        }
        self.jobs.set(item, state);
        if to == 4 {
            self.running = self.running - 1;
            self.finished = self.finished + 1;
        }
    }

    /// Whether every job is finished.
    pub fn is_finished(&self) -> (r: bool)
        requires
            self.wf(),
        ensures
            r == forall|i: int| 0 <= i < self.jobs().len() ==> self.jobs()[i].is_terminal(),
    {
        proof {
            lemma_count_bounds(self.jobs(), Phase::Done);
        }
        self.finished == self.jobs.len()
    }

    /// The progress of the batch: how many jobs are finished, and how many
    /// there are.
    pub fn progress(&self) -> (r: (usize, usize))
        requires
            self.wf(),
        ensures
            r.0 == self.processed(),
            r.1 == self.jobs().len(),
    {
        (self.finished, self.jobs.len())
    }

    /// How many jobs hold a slot.
    pub fn running(&self) -> (r: usize)
        requires
            self.wf(),
        ensures
            r == self.in_flight(),
            r <= self.limit(),
    {
        self.running
    }

    /// The state of one job; `None` where there is no such job.
    pub fn job(&self, item: usize) -> (r: Option<&JobState>)
        ensures
            r == if item < self.jobs().len() {
                Some(&self.jobs()[item as int])
            } else {
                None
            },
    {
        if item < self.jobs.len() {
            Some(&self.jobs[item])
        } else {
            None
        }
    }

    /// The states of all jobs, in the order of submission.
    pub fn into_jobs(self) -> (r: Vec<JobState>)
        ensures
            r@ == self.jobs(),
    {
        self.jobs
    }
}

/// What a run of one job alone comes to: the job's failure is the failure
/// of the run, for there is no batch to protect. A run without a job, or
/// with a job that did not fail, is fine.
pub open spec fn lone(jobs: Seq<JobState>) -> Result<(), AppError> {
    if jobs.len() == 0 {
        Ok(())
    } else {
        match jobs[0] {
            JobState::Failed(e) => Err(e),
            _ => Ok(()),
        }
    }
}

/// What a run of one job alone comes to, from the states that the batch of
/// that one job ended with.
pub fn lone_outcome(jobs: Vec<JobState>) -> (r: Result<(), AppError>)
    ensures
        r == lone(jobs@),
{
    let mut jobs = jobs;
    if jobs.len() == 0 {
        return Ok(());
    }
    match jobs.remove(0) {
        JobState::Failed(e) => Err(e),
        _ => Ok(()),
    }
}

/// In every consistent batch no more jobs run than the limit allows.
pub proof fn lemma_limit_holds(batch: Batch)
    requires
        batch.wf(),
    ensures
        batch.in_flight() <= batch.limit(),
        batch.in_flight() + batch.processed() <= batch.jobs().len(),
{
    lemma_phases_partition(batch.jobs());
}

/// A batch that is not finished always has something to do: a job is
/// running, or the next one can be started.
pub proof fn lemma_batch_never_stalls(batch: Batch)
    requires
        batch.wf(),
        batch.limit() > 0,
        batch.processed() < batch.jobs().len(),
        batch.in_flight() == 0,
    ensures
        exists|i: int| batch.is_next(i),
{
    let jobs = batch.jobs();
    lemma_phases_partition(jobs);
    lemma_count_bounds(jobs, Phase::Waiting);
    let i = batch.admitted as int;
    if i >= jobs.len() {
        assert forall|j: int| 0 <= j < jobs.len() implies (#[trigger] jobs[j]).phase()
            != Phase::Waiting by {}
    }
    assert(batch.is_next(i));
}

/// Every job is in one of the three phases.
pub proof fn lemma_phases_partition(jobs: Seq<JobState>)
    ensures
        count_in(jobs, Phase::Waiting) + count_in(jobs, Phase::Running) + count_in(
            jobs,
            Phase::Done,
        ) == jobs.len(),
    decreases jobs.len(),
{
    if jobs.len() > 0 {
        lemma_phases_partition(jobs.drop_last());
    }
}

} // verus!
