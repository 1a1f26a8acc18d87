//! Cancellation state of running batch jobs, keyed by job id.

use vstd::prelude::*;
use vstd::hash_map::StringHashMap;

verus! {

#[derive(Debug, Clone, Copy, PartialEq, Eq, Structural)]
pub enum JobState {
    Running,
    CancelRequested,
}

/// Registered jobs and their cancellation state.
pub struct JobRegistry {
    jobs: StringHashMap<JobState>,
}

/// The registry after a cancel request for `id`, and whether the request
/// took effect: only a running job flips to cancel-requested.
pub open spec fn cancel_spec(m: Map<Seq<char>, JobState>, id: Seq<char>) -> (bool, Map<Seq<char>, JobState>) {
    if m.contains_key(id) && m[id] == JobState::Running {
        (true, m.insert(id, JobState::CancelRequested))
    } else {
        (false, m)
    }
}

/// Whether a cancel was requested for `id`.
pub open spec fn cancel_requested_spec(m: Map<Seq<char>, JobState>, id: Seq<char>) -> bool {
    m.contains_key(id) && m[id] == JobState::CancelRequested
}

impl JobRegistry {
    pub closed spec fn view(&self) -> Map<Seq<char>, JobState> {
        self.jobs@
    }

    /// An empty registry.
    pub fn new() -> (r: Self)
        ensures
            r.view() == Map::<Seq<char>, JobState>::empty(),
    {
        JobRegistry { jobs: StringHashMap::new() }
    }

    /// Registers `job_id` as running (re-registering resets it to running).
    pub fn register(&mut self, job_id: &str)
        ensures
            final(self).view() == old(self).view().insert(job_id@, JobState::Running),
    {
        self.jobs.insert(job_id.to_owned(), JobState::Running);
    }

    /// Forgets `job_id`.
    pub fn unregister(&mut self, job_id: &str)
        ensures
            final(self).view() == old(self).view().remove(job_id@),
    {
        self.jobs.remove(job_id);
    }

    /// Flips a running job into the cancel-requested state. Returns `false`
    /// when the job is unknown or already canceling.
    pub fn cancel(&mut self, job_id: &str) -> (flipped: bool)
        ensures
            (flipped, final(self).view()) == cancel_spec(old(self).view(), job_id@),
    {
        match self.jobs.get(job_id) {
            Some(state) => {
                if *state == JobState::Running {
                    self.jobs.insert(job_id.to_owned(), JobState::CancelRequested);
                    true
                } else {
                    false
                }
            },
            None => false,
        }
    }

    /// Whether a cancel was requested for `job_id`.
    pub fn is_cancel_requested(&self, job_id: &str) -> (b: bool)
        ensures
            b == cancel_requested_spec(self.view(), job_id@),
    {
        match self.jobs.get(job_id) {
            Some(state) => *state == JobState::CancelRequested,
            None => false,
        }
    }
}

/// A freshly registered job is running: it is not canceling, and a cancel
/// request flips it and takes effect exactly once.
pub proof fn law_cancel_running_job_flips_state(m: Map<Seq<char>, JobState>, id: Seq<char>)
    ensures
        !cancel_requested_spec(m.insert(id, JobState::Running), id),
        cancel_spec(m.insert(id, JobState::Running), id).0,
        cancel_requested_spec(cancel_spec(m.insert(id, JobState::Running), id).1, id),
        !cancel_spec(cancel_spec(m.insert(id, JobState::Running), id).1, id).0,
        !cancel_requested_spec(cancel_spec(m.insert(id, JobState::Running), id).1.remove(id), id),
{
}

/// Canceling a job that was never registered (or was unregistered) has no
/// effect and reports `false`.
pub proof fn law_cancel_unknown_job_is_refused(m: Map<Seq<char>, JobState>, id: Seq<char>)
    requires
        !m.contains_key(id),
    ensures
        cancel_spec(m, id) == (false, m),
        !cancel_requested_spec(m, id),
{
}

/// A cancel request for one job never changes another job's state.
pub proof fn law_cancel_is_local(m: Map<Seq<char>, JobState>, id: Seq<char>, other: Seq<char>)
    requires
        id != other,
    ensures
        cancel_spec(m, id).1.contains_key(other) == m.contains_key(other),
        m.contains_key(other) ==> cancel_spec(m, id).1[other] == m[other],
{
}

} // verus!
