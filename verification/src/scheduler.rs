//! The scheduler harness: a set of recurring jobs, each with its own
//! cadence, polled against a clock. A failing invocation is logged at
//! Error severity and never disturbs the schedule: the next invocation of
//! that job — and of every other job — still happens at its normal slot.
//! Running the jobs and the clock is the caller's side effect.

use vstd::prelude::*;
use vstd::string::StringExecFns;
use crate::logfmt::LogRecord;
use crate::severity::Severity;
use crate::timefmt::{dec_seq, u64_dec, Timestamp};

verus! {

/// What a caller asks for: a job identity and its cadence in seconds.
#[derive(Clone, Copy, PartialEq, Eq, Structural, Debug)]
pub struct JobDescriptor {
    pub id: u64,
    /// Fixed interval between invocations, in seconds; must be positive.
    pub interval: u64,
}

/// One job as the scheduler tracks it.
#[derive(Clone, Copy, PartialEq, Eq, Structural, Debug)]
pub struct JobState {
    pub id: u64,
    pub interval: u64,
    /// The next scheduling slot, as seconds on the caller's clock.
    pub next_due: u64,
}

/// Why the scheduler refused to start.
#[derive(Clone, Copy, PartialEq, Eq, Structural, Debug)]
pub enum SchedulerError {
    /// Some descriptor carries a zero interval.
    InvalidCadence,
}

/// The scheduler: its jobs and whether it still issues invocations.
pub struct Scheduler {
    pub jobs: Vec<JobState>,
    pub running: bool,
}

/// The slot after `due`, saturating at the top of the clock.
pub open spec fn spec_advance(due: u64, interval: u64) -> u64 {
    if due + interval > u64::MAX {
        u64::MAX
    } else {
        (due + interval) as u64
    }
}

/// Computes the slot after `due`.
pub fn advance_slot(due: u64, interval: u64) -> (r: u64)
    ensures
        r == spec_advance(due, interval),
{
    if due > u64::MAX - interval {
        u64::MAX
    } else {
        due + interval
    }
}

/// The jobs after one poll at `now`: every due job moves to its next slot;
/// no other job changes.
pub open spec fn spec_advanced_jobs(jobs: Seq<JobState>, now: u64) -> Seq<JobState> {
    jobs.map_values(
        |j: JobState|
            if j.next_due <= now {
                JobState { next_due: spec_advance(j.next_due, j.interval), ..j }
            } else {
                j
            },
    )
}

/// The ids of the jobs due at `now`, in job order.
pub open spec fn spec_due_ids(jobs: Seq<JobState>, now: u64) -> Seq<u64>
    decreases jobs.len(),
{
    if jobs.len() == 0 {
        Seq::empty()
    } else {
        spec_due_ids(jobs.drop_last(), now) + if jobs.last().next_due <= now {
            seq![jobs.last().id]
        } else {
            Seq::empty()
        }
    }
}

/// A job that is due appears in the due list.
pub proof fn lemma_due_ids_contains(jobs: Seq<JobState>, now: u64, i: int)
    requires
        0 <= i < jobs.len(),
        jobs[i].next_due <= now,
    ensures
        spec_due_ids(jobs, now).contains(jobs[i].id),
    decreases jobs.len(),
{
    if i == jobs.len() - 1 {
        let ids = spec_due_ids(jobs, now);
        assert(ids.last() == jobs[i].id);
        assert(ids.contains(jobs[i].id));
    } else {
        lemma_due_ids_contains(jobs.drop_last(), now, i);
        let sub = spec_due_ids(jobs.drop_last(), now);
        let k = choose|k: int| 0 <= k < sub.len() && sub[k] == jobs[i].id;
        assert(spec_due_ids(jobs, now)[k] == jobs[i].id);
    }
}

impl Scheduler {
    /// Validity: every cadence is positive.
    pub open spec fn wf(self) -> bool {
        forall|i: int| 0 <= i < self.jobs@.len() ==> (#[trigger] self.jobs@[i]).interval > 0
    }

    /// Starts the scheduler over the given descriptors at clock `now`.
    /// Succeeds if and only if every descriptor carries a positive
    /// interval; each job's first slot is one interval after `now`. Once
    /// this returns, the dispatch loop is registered: the scheduler is
    /// "started" even though no job has yet run.
    pub fn start(descriptors: &Vec<JobDescriptor>, now: u64) -> (r: Result<
        Scheduler,
        SchedulerError,
    >)
        ensures
            r is Ok <==> (forall|i: int|
                0 <= i < descriptors@.len() ==> (#[trigger] descriptors@[i]).interval > 0),
            r matches Ok(s) ==> {
                &&& s.wf()
                &&& s.running
                &&& s.jobs@.len() == descriptors@.len()
                &&& forall|i: int|
                    0 <= i < descriptors@.len() ==> (#[trigger] s.jobs@[i]) == (JobState {
                        id: descriptors@[i].id,
                        interval: descriptors@[i].interval,
                        next_due: spec_advance(now, descriptors@[i].interval),
                    })
            },
            r matches Err(e) ==> e == SchedulerError::InvalidCadence,
    {
        let n = descriptors.len();
        let mut jobs: Vec<JobState> = Vec::new();
        let mut i: usize = 0;
        while i < n
            invariant
                0 <= i <= n,
                n == descriptors@.len(),
                jobs@.len() == i,
                forall|k: int|
                    0 <= k < i ==> (#[trigger] descriptors@[k]).interval > 0,
                forall|k: int|
                    0 <= k < i ==> (#[trigger] jobs@[k]) == (JobState {
                        id: descriptors@[k].id,
                        interval: descriptors@[k].interval,
                        next_due: spec_advance(now, descriptors@[k].interval),
                    }),
            decreases n - i,
        {
            let d = descriptors[i];
            if d.interval == 0 {
                return Err(SchedulerError::InvalidCadence);
            }
            jobs.push(JobState { id: d.id, interval: d.interval, next_due: advance_slot(now, d.interval) });
            i = i + 1;
        }
        Ok(Scheduler { jobs, running: true })
    }

    /// Polls the scheduler at clock `now`: returns the ids of the jobs
    /// whose slot has elapsed, in job order, and moves each to its next
    /// slot. A stopped scheduler issues nothing and changes nothing. No
    /// job's invocation N+1 is issued before its slot N has elapsed,
    /// because each slot only ever moves forward by a full interval.
    pub fn poll(&mut self, now: u64) -> (due: Vec<u64>)
        ensures
            !old(self).running ==> *final(self) == *old(self) && due@.len() == 0,
            old(self).running ==> {
                &&& final(self).running
                &&& final(self).jobs@ == spec_advanced_jobs(old(self).jobs@, now)
                &&& due@ == spec_due_ids(old(self).jobs@, now)
            },
            old(self).wf() ==> final(self).wf(),
    {
        if !self.running {
            return Vec::new();
        }
        let n = self.jobs.len();
        let mut due: Vec<u64> = Vec::new();
        let mut updated: Vec<JobState> = Vec::new();
        let mut i: usize = 0;
        while i < n
            invariant
                0 <= i <= n,
                n == self.jobs@.len(),
                updated@.len() == i,
                updated@ == spec_advanced_jobs(self.jobs@.take(i as int), now),
                due@ == spec_due_ids(self.jobs@.take(i as int), now),
            decreases n - i,
        {
            let job = self.jobs[i];
            proof {
                assert(self.jobs@.take(i as int + 1).drop_last() =~= self.jobs@.take(i as int));
                assert(self.jobs@.take(i as int + 1).last() == self.jobs@[i as int]);
            }
            if job.next_due <= now {
                due.push(job.id);
                updated.push(
                    JobState { id: job.id, interval: job.interval, next_due: advance_slot(job.next_due, job.interval) },
                );
            } else {
                updated.push(job);
            }
            proof {
                assert(updated@ =~= spec_advanced_jobs(self.jobs@.take(i as int + 1), now));
            }
            i = i + 1;
        }
        proof {
            assert(self.jobs@.take(n as int) =~= self.jobs@);
        }
        self.jobs = updated;
        due
    }

    /// Stops the scheduler: no future invocation is issued. An invocation
    /// already in progress is the caller's to finish; nothing here forces
    /// it to stop.
    pub fn stop(&mut self)
        ensures
            !final(self).running,
            final(self).jobs@ == old(self).jobs@,
    {
        self.running = false;
    }
}

/// The message of the record logged for a failed invocation of job `id`.
pub open spec fn spec_failure_message(id: u64) -> Seq<char> {
    "job "@ + dec_seq(id as nat) + " invocation failed"@
}

/// Handles one invocation outcome at the per-invocation boundary. A
/// success needs no record. A failure yields a record at Error severity
/// tagged with the scheduler's component — and nothing else: the schedule
/// itself is untouched, so the next invocation still happens at its slot.
pub fn on_job_result(ts: Timestamp, id: u64, succeeded: bool) -> (r: Option<LogRecord>)
    ensures
        succeeded ==> r is None,
        !succeeded ==> (r matches Some(rec) && {
            &&& rec.timestamp == ts
            &&& rec.severity == Severity::Error
            &&& rec.component@ == "scheduler"@
            &&& rec.file is None
            &&& rec.line is None
            &&& rec.message@ == spec_failure_message(id)
        }),
{
    if succeeded {
        None
    } else {
        let mut message = "job ".to_owned();
        let piece = u64_dec(id);
        message.append(piece.as_str());
        message.append(" invocation failed");
        Some(
            LogRecord {
                timestamp: ts,
                severity: Severity::Error,
                component: "scheduler".to_owned(),
                file: None,
                line: None,
                message,
            },
        )
    }
}

/// Scheduler resilience: a job due at `now` is issued at this poll, and —
/// whatever its invocation returned, since handling an outcome touches no
/// scheduler state — the same job is issued again at any later poll whose
/// clock has reached the job's next slot. A slow or failing job never
/// blocks another job's schedule: every other due job is issued at this
/// same poll.
pub proof fn lemma_failure_keeps_cadence(s: Scheduler, i: int, now: u64, later: u64)
    requires
        s.running,
        0 <= i < s.jobs@.len(),
        s.jobs@[i].next_due <= now,
        spec_advance(s.jobs@[i].next_due, s.jobs@[i].interval) <= later,
    ensures
        spec_due_ids(s.jobs@, now).contains(s.jobs@[i].id),
        spec_due_ids(spec_advanced_jobs(s.jobs@, now), later).contains(s.jobs@[i].id),
        forall|k: int|
            0 <= k < s.jobs@.len() && (#[trigger] s.jobs@[k]).next_due <= now ==> spec_due_ids(
                s.jobs@,
                now,
            ).contains(s.jobs@[k].id),
{
    lemma_due_ids_contains(s.jobs@, now, i);
    let advanced = spec_advanced_jobs(s.jobs@, now);
    assert(advanced[i].next_due <= later);
    assert(advanced[i].id == s.jobs@[i].id);
    lemma_due_ids_contains(advanced, later, i);
    assert forall|k: int|
        0 <= k < s.jobs@.len() && (#[trigger] s.jobs@[k]).next_due <= now implies spec_due_ids(
        s.jobs@,
        now,
    ).contains(s.jobs@[k].id) by {
        lemma_due_ids_contains(s.jobs@, now, k);
    }
}

} // verus!
