//! Which jobs are known, and when they run.

use super::cron;
use super::cron::find_next;
use super::types::ScheduledJob;
use crate::time::Timestamp;
use std::collections::HashMap;
use vstd::prelude::*;
use vstd::std_specs::iter::IteratorSpec;

verus! {

/// The pause between two looks at the jobs, in seconds.
pub const CHECK_PAUSE_SECS: u64 = 60;

/// After how many looks the jobs are read from the database again.
pub const CHECKS_PER_RELOAD: u32 = 5;

/// A job, and when it last ran.
pub struct JobState {
    pub job: ScheduledJob,
    pub last_run: Option<Timestamp>,
}

/// When a job last ran, as far as it is known.
pub open spec fn last_run_of(states: Map<i32, JobState>, id: i32) -> Option<Timestamp> {
    if states.dom().contains(id) {
        states[id].last_run
    } else {
        None
    }
}

/// What is known of the jobs, by their numbers, once the enabled jobs were read again: those that
/// are not among them are dropped, and a job that was known keeps the time of its last run.
pub open spec fn reloaded(states: Map<i32, JobState>, enabled: Seq<ScheduledJob>) -> Map<
    i32,
    JobState,
>
    decreases enabled.len(),
{
    if enabled.len() == 0 {
        Map::empty()
    } else {
        let job = enabled.last();
        reloaded(states, enabled.drop_last()).insert(
            job.id,
            JobState { job, last_run: last_run_of(states, job.id) },
        )
    }
}

/// Takes the enabled jobs as the database has them.
pub fn reload_jobs(job_states: &mut HashMap<i32, JobState>, enabled_jobs: &Vec<ScheduledJob>)
    ensures
        final(job_states)@ == reloaded(old(job_states)@, enabled_jobs@),
{
    broadcast use vstd::std_specs::hash::group_hash_axioms;

    let mut next: HashMap<i32, JobState> = HashMap::new();
    let mut k: usize = 0;
    while k < enabled_jobs.len()
        invariant
            k <= enabled_jobs@.len(),
            job_states@ == old(job_states)@,
            next@ == reloaded(job_states@, enabled_jobs@.take(k as int)),
        decreases enabled_jobs@.len() - k,
    {
        let job = enabled_jobs[k].clone();
        let id: i32 = job.id;
        let last_run = match job_states.get(&id) {
            Some(state) => state.last_run,
            None => None,
        };
        next.insert(id, JobState { job, last_run });
        proof {
            assert(enabled_jobs@.take(k + 1).drop_last() =~= enabled_jobs@.take(k as int));
        }
        k += 1;
    }
    proof {
        assert(enabled_jobs@.take(k as int) =~= enabled_jobs@);
    }
    *job_states = next;
}

/// The point behind which the next run is looked for: the last run, or 1970 for a job that never
/// ran.
pub open spec fn look_behind(last_run: Option<Timestamp>) -> Timestamp {
    match last_run {
        Some(t) => t,
        None => Timestamp { seconds: 0, nanos: 0 },
    }
}

/// Whether the last run lies inside the calendar.
pub open spec fn run_is_valid(last_run: Option<Timestamp>) -> bool {
    look_behind(last_run).valid() && cron::inside_calendar(look_behind(last_run).seconds as int)
}

/// Whether a point in time can be noted as a run: it lies inside the calendar.
pub fn can_be_noted(now: Timestamp) -> (r: bool)
    ensures
        r == run_is_valid(Some(now)),
{
    now.nanos < 1_000_000_000 && -8_334_601_142_401 <= now.seconds && now.seconds
        < 8_210_264_198_399
}

/// Whether a run that was due at some point in time has come.
pub open spec fn has_come(next: Option<(i64, u32)>, now: Timestamp) -> bool {
    match next {
        Some((seconds, nanos)) => (Timestamp { seconds, nanos }).instant() <= now.instant(),
        None => false,
    }
}

/// Whether a run that was due at some point in time has come.
pub fn run_has_come(next: Option<Timestamp>, now: Timestamp) -> (r: bool)
    requires
        next matches Some(t) ==> t.valid(),
        now.valid(),
    ensures
        r == has_come(cron::parts_view(next), now),
{
    match next {
        Some(t) => t.not_after(now),
        None => false,
    }
}

/// Whether a job should run.
pub open spec fn is_due(job: ScheduledJob, last_run: Option<Timestamp>, now: Timestamp) -> bool {
    let behind = look_behind(last_run);
    has_come(cron::next_run(job.cron_schedule@, behind.seconds, behind.nanos), now)
}

/// Whether a job should run: whether the first run behind the last one has come. A job that ran
/// does not run again in the same second, and one whose schedule cannot be read never runs.
pub fn should_run_job(job: &ScheduledJob, last_run: Option<Timestamp>, now: Timestamp) -> (r: bool)
    requires
        run_is_valid(last_run),
        now.valid(),
    ensures
        r == is_due(*job, last_run, now),
        r ==> look_behind(last_run).seconds < now.seconds,
        cron::cron_error(job.cron_schedule@) is Some ==> !r,
{
    let after = match last_run {
        Some(t) => t,
        None => Timestamp { seconds: 0, nanos: 0 },
    };
    let next = find_next(job.cron_schedule.as_str(), after);
    run_has_come(next, now)
}

// ---------------------------------------------------------------------------------------------
// The service

/// What is known of the jobs once the run of one was noted. A job that is not known is left alone.
pub open spec fn after_run(states: Map<i32, JobState>, id: i32, now: Timestamp) -> Map<
    i32,
    JobState,
> {
    if states.dom().contains(id) {
        states.insert(id, JobState { job: states[id].job, last_run: Some(now) })
    } else {
        states
    }
}

/// Whether the database is to be read again at the next look, after a number of looks.
pub open spec fn is_reload_look(looks: nat) -> bool {
    looks + 1 >= CHECKS_PER_RELOAD
}

/// How many looks were taken since the database was read, once one more was taken.
pub open spec fn looks_after(looks: nat) -> nat {
    if is_reload_look(looks) {
        0
    } else {
        looks + 1
    }
}

/// The jobs that are known, by their numbers, and when the database is read again.
pub struct Scheduler {
    states: HashMap<i32, JobState>,
    checks: u32,
}

impl Scheduler {
    /// The jobs that are known, by their numbers.
    pub closed spec fn jobs(self) -> Map<i32, JobState> {
        self.states@
    }

    /// How many looks were taken since the database was read.
    pub closed spec fn checks(self) -> nat {
        self.checks as nat
    }

    /// Whether every job is known by its own number, every last run lies inside the calendar, and
    /// the database is never overdue.
    pub open spec fn well_formed(self) -> bool {
        &&& forall|id: i32| #[trigger]
            self.jobs().dom().contains(id) ==> self.jobs()[id].job.id == id && run_is_valid(
                self.jobs()[id].last_run,
            )
        &&& self.checks() < CHECKS_PER_RELOAD
    }

    /// No jobs.
    pub fn new() -> (r: Self)
        ensures
            r.well_formed(),
            r.jobs() == Map::<i32, JobState>::empty(),
            r.checks() == 0,
    {
        broadcast use vstd::std_specs::hash::group_hash_axioms;

        Scheduler { states: HashMap::new(), checks: 0 }
    }

    /// How many jobs are known.
    pub fn len(&self) -> (r: usize)
        ensures
            r == self.jobs().len(),
    {
        broadcast use vstd::std_specs::hash::group_hash_axioms;

        self.states.len()
    }

    /// The job with a number.
    pub fn job(&self, id: i32) -> (r: Option<&JobState>)
        ensures
            match r {
                Some(state) => self.jobs().dom().contains(id) && *state == self.jobs()[id],
                None => !self.jobs().dom().contains(id),
            },
    {
        broadcast use vstd::std_specs::hash::group_hash_axioms;

        self.states.get(&id)
    }

    /// Takes the enabled jobs as the database has them.
    pub fn reload(&mut self, enabled_jobs: &Vec<ScheduledJob>)
        requires
            old(self).well_formed(),
        ensures
            final(self).well_formed(),
            final(self).checks() == old(self).checks(),
            final(self).jobs() == reloaded(old(self).jobs(), enabled_jobs@),
    {
        let ghost before = self.states@;
        reload_jobs(&mut self.states, enabled_jobs);
        proof {
            let after = self.states@;
            assert forall|id: i32| #[trigger] after.dom().contains(id) implies after[id].job.id == id
                && run_is_valid(after[id].last_run) by {
                lemma_reloaded(before, enabled_jobs@, id);
                assert(before.dom().contains(id) ==> run_is_valid(before[id].last_run));
            }
        }
    }

    /// The numbers of the jobs that should run, each once, in no particular order. None of the
    /// jobs has a schedule that cannot be read.
    pub fn due_jobs(&self, now: Timestamp) -> (r: Vec<i32>)
        requires
            self.well_formed(),
            now.valid(),
        ensures
            r@.no_duplicates(),
            forall|id: i32| #[trigger] r@.contains(id) <==> is_due_in(self.jobs(), id, now),
            forall|id: i32| #[trigger]
                r@.contains(id) ==> cron::cron_error(self.jobs()[id].job.cron_schedule@) is None,
    {
        broadcast use vstd::std_specs::hash::group_hash_axioms;

        let mut out: Vec<i32> = Vec::new();
        let walk = self.states.keys();
        let ghost keys = walk.remaining();
        for key in it: walk
            invariant
                it.seq() == keys,
                self.well_formed(),
                self.jobs() == self.states@,
                now.valid(),
                it.seq().unref().to_set() == self.states@.dom(),
                it.seq().no_duplicates(),
                out@.no_duplicates(),
                forall|id: i32| #[trigger]
                    out@.contains(id) <==> is_due_in(self.jobs(), id, now) && exists|i: int|
                        0 <= i < it.index() && *(#[trigger] it.seq()[i]) == id,
                forall|id: i32| #[trigger]
                    out@.contains(id) ==> cron::cron_error(
                        self.jobs()[id].job.cron_schedule@,
                    ) is None,
        {
            let id: i32 = *key;
            let ghost before = out@;
            let ghost at = it.index();
            proof {
                assert(it.seq()[at] == key);
                assert(it.seq().unref()[at] == id);
                assert(it.seq().unref().to_set().contains(id));
                assert(!before.contains(id)) by {
                    if before.contains(id) {
                        let i = choose|i: int| 0 <= i < at && *(#[trigger] it.seq()[i]) == id;
                        assert(it.seq()[i] == it.seq()[at]);
                    }
                }
            }
            if let Some(state) = self.states.get(&id) {
                if should_run_job(&state.job, state.last_run, now) {
                    out.push(id);
                    proof {
                        lemma_push_contains(before, id);
                    }
                }
            }
            proof {
                assert forall|other: i32| #[trigger]
                    out@.contains(other) <==> is_due_in(self.jobs(), other, now) && exists|i: int|
                        0 <= i < at + 1 && *(#[trigger] it.seq()[i]) == other by {
                    if other == id {
                        assert(*it.seq()[at] == other);
                    } else {
                        assert(out@.contains(other) == before.contains(other));
                        if exists|i: int| 0 <= i < at + 1 && *(#[trigger] it.seq()[i]) == other {
                            let i = choose|i: int|
                                0 <= i < at + 1 && *(#[trigger] it.seq()[i]) == other;
                            assert(i < at);
                        }
                    }
                }
            }
        }
        proof {
            assert forall|id: i32| #[trigger] out@.contains(id) <==> is_due_in(
                self.jobs(),
                id,
                now,
            ) by {
                if is_due_in(self.jobs(), id, now) {
                    assert(keys.unref().to_set().contains(id));
                    let i = choose|i: int|
                        0 <= i < keys.unref().len() && keys.unref()[i] == id;
                    assert(*keys[i] == id);
                }
            }
        }
        out
    }

    /// Notes that a job ran, whether or not it succeeded, so that it is not tried over and over.
    /// A job that is not known is left alone.
    pub fn record_run(&mut self, id: i32, now: Timestamp)
        requires
            old(self).well_formed(),
            run_is_valid(Some(now)),
        ensures
            final(self).well_formed(),
            final(self).checks() == old(self).checks(),
            final(self).jobs() == after_run(old(self).jobs(), id, now),
    {
        broadcast use vstd::std_specs::hash::group_hash_axioms;

        let job = match self.states.get(&id) {
            Some(state) => Some(state.job.clone()),
            None => None,
        };
        if let Some(job) = job {
            self.states.insert(id, JobState { job, last_run: Some(now) });
        }
    }

    /// Notes that a pause is over, and says whether the database is to be read again.
    pub fn take_check(&mut self) -> (r: bool)
        requires
            old(self).well_formed(),
        ensures
            final(self).well_formed(),
            final(self).jobs() == old(self).jobs(),
            r == is_reload_look(old(self).checks()),
            final(self).checks() == looks_after(old(self).checks()),
    {
        self.checks += 1;
        if self.checks >= CHECKS_PER_RELOAD {
            self.checks = 0;
            return true;
        }
        false
    }
}

/// Whether the job with a number is known and should run.
pub open spec fn is_due_in(states: Map<i32, JobState>, id: i32, now: Timestamp) -> bool {
    states.dom().contains(id) && is_due(states[id].job, states[id].last_run, now)
}

proof fn lemma_push_contains(list: Seq<i32>, added: i32)
    ensures
        forall|id: i32| #[trigger]
            list.push(added).contains(id) <==> list.contains(id) || id == added,
        list.no_duplicates() && !list.contains(added) ==> list.push(added).no_duplicates(),
{
    let longer = list.push(added);
    assert forall|id: i32| #[trigger] longer.contains(id) <==> list.contains(id) || id == added by {
        if list.contains(id) {
            let i = choose|i: int| 0 <= i < list.len() && list[i] == id;
            assert(longer[i] == id);
        }
        if id == added {
            assert(longer[list.len() as int] == id);
        }
    }
}

/// Each job that is known after the jobs were read again is known by its own number, with the last
/// run that was known before.
proof fn lemma_reloaded(states: Map<i32, JobState>, enabled: Seq<ScheduledJob>, id: i32)
    requires
        reloaded(states, enabled).dom().contains(id),
    ensures
        reloaded(states, enabled)[id].job.id == id,
        reloaded(states, enabled)[id].last_run == last_run_of(states, id),
    decreases enabled.len(),
{
    if enabled.last().id != id {
        lemma_reloaded(states, enabled.drop_last(), id);
    }
}

/// What the chat is told of a job that failed.
pub fn failure_notice(job_name: &str, error: &str) -> (r: String)
    ensures
        r@ == "⚠️ Scheduled job '"@ + job_name@ + "' failed:\n"@ + error@,
{
    let mut out = "⚠️ Scheduled job '".to_owned();
    out.append(job_name);
    out.append("' failed:\n");
    out.append(error);
    out
}

// ---------------------------------------------------------------------------------------------
// Laws

/// Reading the jobs again never makes a job run twice: one that stays enabled keeps the time of its
/// last run, whatever else of it changed.
pub proof fn law_reload_keeps_last_runs(
    states: Map<i32, JobState>,
    enabled: Seq<ScheduledJob>,
    id: i32,
)
    requires
        states.dom().contains(id),
        reloaded(states, enabled).dom().contains(id),
    ensures
        reloaded(states, enabled)[id].last_run == states[id].last_run,
{
    lemma_reloaded(states, enabled, id);
}

/// Only enabled jobs are known after the jobs were read again.
pub proof fn law_disabled_jobs_are_dropped(
    states: Map<i32, JobState>,
    enabled: Seq<ScheduledJob>,
    id: i32,
)
    requires
        forall|i: int| 0 <= i < enabled.len() ==> #[trigger] enabled[i].id != id,
    ensures
        !reloaded(states, enabled).dom().contains(id),
    decreases enabled.len(),
{
    if enabled.len() > 0 {
        assert(enabled[enabled.len() - 1].id != id);
        law_disabled_jobs_are_dropped(states, enabled.drop_last(), id);
    }
}

/// Every enabled job is known after the jobs were read again, as it was read.
pub proof fn law_enabled_jobs_are_known(
    states: Map<i32, JobState>,
    enabled: Seq<ScheduledJob>,
    i: int,
)
    requires
        0 <= i < enabled.len(),
        forall|k: int| i < k < enabled.len() ==> #[trigger] enabled[k].id != enabled[i].id,
    ensures
        reloaded(states, enabled).dom().contains(enabled[i].id),
        reloaded(states, enabled)[enabled[i].id].job == enabled[i],
    decreases enabled.len(),
{
    if i < enabled.len() - 1 {
        assert(enabled[enabled.len() - 1].id != enabled[i].id);
        law_enabled_jobs_are_known(states, enabled.drop_last(), i);
    }
}

/// A job that was not known before has no last run, and one that was has the one it had; what is
/// known of a job is what was read last.
pub proof fn law_new_jobs_have_not_run(
    states: Map<i32, JobState>,
    enabled: Seq<ScheduledJob>,
    id: i32,
)
    requires
        reloaded(states, enabled).dom().contains(id),
    ensures
        reloaded(states, enabled)[id].job.id == id,
        !states.dom().contains(id) ==> reloaded(states, enabled)[id].last_run is None,
        states.dom().contains(id) ==> reloaded(states, enabled)[id].last_run
            == states[id].last_run,
{
    lemma_reloaded(states, enabled, id);
}

/// A job is due just where the first run of its schedule behind its last one, or behind 1970 where
/// it never ran, is not later than now; without such a run it is not due.
pub proof fn law_jobs_are_due_once_their_run_has_come(
    job: ScheduledJob,
    last_run: Option<Timestamp>,
    now: Timestamp,
)
    ensures
        ({
            let next = match last_run {
                Some(t) => cron::next_run(job.cron_schedule@, t.seconds, t.nanos),
                None => cron::next_run(job.cron_schedule@, 0, 0),
            };
            is_due(job, last_run, now) <==> (next matches Some((seconds, nanos)) && seconds
                * 1_000_000_000 + nanos <= now.seconds * 1_000_000_000 + now.nanos)
        }),
{
}

/// A run that has come stays come, and one that has not come had not come before.
pub proof fn law_due_jobs_stay_due(next: Option<(i64, u32)>, now: Timestamp, later: Timestamp)
    requires
        now.instant() <= later.instant(),
        has_come(next, now),
    ensures
        has_come(next, later),
        next is Some,
{
}

/// A run can be noted just at a point in time with less than a second of nanoseconds, from which the
/// search for the next one stays inside the calendar; a job that never ran is always sound.
pub proof fn law_runs_lie_inside_the_calendar(t: Timestamp)
    ensures
        run_is_valid(None),
        run_is_valid(Some(t)) <==> t.nanos < 1_000_000_000 && -8_334_601_142_401 <= t.seconds
            < 8_210_264_198_399,
{
}

/// A job should run just where it is known and due.
pub proof fn law_only_known_jobs_run(states: Map<i32, JobState>, id: i32, now: Timestamp)
    ensures
        is_due_in(states, id, now) <==> states.dom().contains(id) && is_due(
            states[id].job,
            states[id].last_run,
            now,
        ),
{
}

/// A run is noted with its own job: the job itself stays as it was, no other job changes, and no job
/// becomes known or unknown.
pub proof fn law_runs_are_noted(states: Map<i32, JobState>, id: i32, now: Timestamp, other: i32)
    ensures
        after_run(states, id, now).dom() == states.dom(),
        states.dom().contains(id) ==> after_run(states, id, now)[id].last_run == Some(now)
            && after_run(states, id, now)[id].job == states[id].job,
        other != id && states.dom().contains(other) ==> after_run(states, id, now)[other]
            == states[other],
{
    assert(after_run(states, id, now).dom() =~= states.dom());
}

/// How many looks were taken since the database was read, after a number of looks in all.
pub open spec fn looks_since_reload(looks: nat) -> nat
    decreases looks,
{
    if looks == 0 {
        0
    } else {
        looks_after(looks_since_reload((looks - 1) as nat))
    }
}

/// The database is read again at every fifth look, and at no other.
pub proof fn law_every_fifth_look_reads_the_jobs_again(looks: nat)
    ensures
        looks_since_reload(looks) == looks % 5,
        is_reload_look(looks_since_reload(looks)) <==> (looks + 1) % 5 == 0,
    decreases looks,
{
    if looks > 0 {
        law_every_fifth_look_reads_the_jobs_again((looks - 1) as nat);
    }
}

} // verus!
