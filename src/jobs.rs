//! The job registry and scheduler: jobs move from queued to running to a
//! terminal state, and no more than a fixed number run at once.
use vstd::prelude::*;

use crate::project::{find_tool, find_tool_exec, project_tools, GisTool, ProjectConfig};

verus! {

#[derive(Clone, Copy, Debug, PartialEq, Eq, Structural)]
pub enum JobStatus {
    Queued,
    Running,
    Completed,
    Failed,
    Cancelled,
}

/// A request to run one tool of a project.
#[derive(Debug)]
pub struct JobRequest {
    pub project: String,
    pub tool: String,
    /// Input values by parameter name, each as the text handed to the tool.
    pub inputs: Vec<(String, String)>,
    pub output_dir: Option<String>,
}

/// A processing job. Times are seconds since the Unix epoch.
#[derive(Debug)]
pub struct Job {
    pub id: u128,
    pub request: JobRequest,
    pub status: JobStatus,
    pub created_at: i64,
    pub started_at: Option<i64>,
    pub completed_at: Option<i64>,
    pub container_id: Option<String>,
    pub error: Option<String>,
    pub logs: Vec<String>,
}

#[derive(Debug)]
pub enum JobError {
    NotFound,
    /// The project, the tool or a required input is missing.
    Validation(String),
    /// The job's state does not allow the transition.
    InvalidTransition(JobStatus),
    /// The identifier is already taken.
    DuplicateId,
    /// As many jobs as allowed already run.
    AtCapacity,
}

/// What the caller does to finish a cancellation.
#[derive(Debug)]
pub enum CancelAction {
    /// The job was still queued and is cancelled: nothing runs.
    Cancelled,
    /// The job runs: stop and remove this container, then call `finish_cancel`.
    StopAndRemove(String),
}

pub open spec fn is_running(j: Job) -> bool {
    j.status == JobStatus::Running
}

pub open spec fn is_terminal(s: JobStatus) -> bool {
    s == JobStatus::Completed || s == JobStatus::Failed || s == JobStatus::Cancelled
}

pub open spec fn count_running(s: Seq<Job>) -> nat
    decreases s.len(),
{
    if s.len() == 0 {
        0
    } else {
        count_running(s.drop_last()) + if is_running(s.last()) { 1nat } else { 0nat }
    }
}

/// The jobs a listing shows: queued and running ones, and the others only
/// where asked for.
pub open spec fn listed(s: Seq<Job>, include_terminal: bool) -> Seq<Job>
    decreases s.len(),
{
    if s.len() == 0 {
        Seq::empty()
    } else {
        let rest = listed(s.drop_last(), include_terminal);
        if include_terminal || !is_terminal(s.last().status) {
            rest.push(s.last())
        } else {
            rest
        }
    }
}

pub open spec fn derefs(s: Seq<&Job>) -> Seq<Job> {
    s.map_values(|j: &Job| *j)
}

/// Identifiers of the queued jobs, in the order they were submitted.
pub open spec fn queued_ids(s: Seq<Job>) -> Seq<u128>
    decreases s.len(),
{
    if s.len() == 0 {
        Seq::empty()
    } else {
        let rest = queued_ids(s.drop_last());
        if s.last().status == JobStatus::Queued {
            rest.push(s.last().id)
        } else {
            rest
        }
    }
}

pub open spec fn has_id(s: Seq<Job>, id: u128) -> bool {
    exists|i: int| 0 <= i < s.len() && (#[trigger] s[i]).id == id
}

pub open spec fn is_required(p: crate::project::ToolParameter) -> bool {
    p.required != Some(false)
}

pub open spec fn has_input(inputs: Seq<(String, String)>, name: Seq<char>) -> bool {
    exists|j: int| 0 <= j < inputs.len() && (#[trigger] inputs[j]).0@ == name
}

/// Whether a required input of the tool is absent from the request.
pub open spec fn missing_required(t: GisTool, inputs: Seq<(String, String)>) -> bool {
    match t.inputs {
        Some(ps) => exists|k: int|
            0 <= k < ps@.len() && is_required(#[trigger] ps@[k]) && !has_input(inputs, ps@[k].name@),
        None => false,
    }
}

/// Whether a request names an existing project and tool and carries every
/// input the tool requires.
pub open spec fn request_valid(req: JobRequest, project: Option<ProjectConfig>) -> bool {
    match project {
        None => false,
        Some(p) => match project_tools(p) {
            None => false,
            Some(ts) => match find_tool(ts, req.tool@) {
                None => false,
                Some(t) => !missing_required(t, req.inputs@),
            },
        },
    }
}

pub open spec fn opt_project(p: Option<&ProjectConfig>) -> Option<ProjectConfig> {
    match p {
        Some(x) => Some(*x),
        None => None,
    }
}

/// A freshly queued job.
pub open spec fn fresh_job(j: Job, id: u128, req: JobRequest, now: i64) -> bool {
    &&& j.id == id
    &&& j.request == req
    &&& j.status == JobStatus::Queued
    &&& j.created_at == now
    &&& j.started_at is None
    &&& j.completed_at is None
    &&& j.container_id is None
    &&& j.error is None
    &&& j.logs@.len() == 0
}

/// The same job in another state.
pub open spec fn moved(a: Job, b: Job) -> bool {
    &&& b.id == a.id
    &&& b.request == a.request
    &&& b.created_at == a.created_at
    &&& b.logs == a.logs
}

pub open spec fn job_ok(j: Job) -> bool {
    &&& j.status == JobStatus::Running ==> j.container_id is Some && j.started_at is Some
    &&& j.status == JobStatus::Queued ==> j.container_id is None && j.started_at is None
}

pub open spec fn wf_parts(s: Seq<Job>, max: nat, running: nat) -> bool {
    &&& forall|i: int, k: int|
        0 <= i < s.len() && 0 <= k < s.len() && i != k ==> (#[trigger] s[i]).id != (#[trigger] s[k]).id
    &&& running == count_running(s)
    &&& running <= max
    &&& forall|i: int| 0 <= i < s.len() ==> job_ok(#[trigger] s[i])
}

proof fn lemma_wf_update(s: Seq<Job>, max: nat, running: nat, i: int, j: Job, running2: nat)
    requires
        wf_parts(s, max, running),
        0 <= i < s.len(),
        j.id == s[i].id,
        job_ok(j),
        running2 + (if is_running(s[i]) { 1nat } else { 0nat }) == running + (if is_running(j) { 1nat } else { 0nat }),
        running2 <= max,
    ensures
        wf_parts(s.update(i, j), max, running2),
{
    lemma_count_update(s, i, j);
    let t = s.update(i, j);
    assert forall|a: int, b: int| 0 <= a < t.len() && 0 <= b < t.len() && a != b implies (#[trigger] t[a]).id != (#[trigger] t[b]).id by {
        assert(t[a].id == s[a].id);
        assert(t[b].id == s[b].id);
    }
}

/// Manages the job queue and admission.
pub struct JobManager {
    jobs: Vec<Job>,
    max_workers: usize,
    running_count: usize,
}

proof fn lemma_count_push(s: Seq<Job>, j: Job)
    ensures
        count_running(s.push(j)) == count_running(s) + if is_running(j) { 1nat } else { 0nat },
{
    assert(s.push(j).drop_last() =~= s);
}

proof fn lemma_count_update(s: Seq<Job>, i: int, j: Job)
    requires
        0 <= i < s.len(),
    ensures
        count_running(s.update(i, j)) + (if is_running(s[i]) { 1nat } else { 0nat })
            == count_running(s) + (if is_running(j) { 1nat } else { 0nat }),
    decreases s.len(),
{
    if i == s.len() - 1 {
        assert(s.update(i, j).drop_last() =~= s.drop_last());
    } else {
        lemma_count_update(s.drop_last(), i, j);
        assert(s.update(i, j).drop_last() =~= s.drop_last().update(i, j));
    }
}

impl JobManager {
    pub closed spec fn jobs(&self) -> Seq<Job> {
        self.jobs@
    }

    pub closed spec fn max_workers(&self) -> nat {
        self.max_workers as nat
    }

    pub closed spec fn running(&self) -> nat {
        self.running_count as nat
    }

    /// Identifiers are unique, the admitted count is the number of running
    /// jobs and within the ceiling, a running job has its container, and a
    /// queued one has neither container nor start time.
    pub closed spec fn wf(&self) -> bool {
        wf_parts(self.jobs@, self.max_workers as nat, self.running_count as nat)
    }

    /// However many jobs wait, no more than the ceiling run at once.
    pub proof fn lemma_running_within_ceiling(&self)
        requires
            self.wf(),
        ensures
            self.running() == count_running(self.jobs()),
            self.running() <= self.max_workers(),
    {
    }

    /// No two jobs share an identifier.
    pub proof fn lemma_ids_unique(&self)
        requires
            self.wf(),
        ensures
            forall|i: int, k: int|
                0 <= i < k < self.jobs().len() ==> (#[trigger] self.jobs()[i]).id != (#[trigger] self.jobs()[k]).id,
    {
    }

    /// A queued job has neither container nor start time; a running one
    /// has both.
    pub proof fn lemma_job_states(&self, i: int)
        requires
            self.wf(),
            0 <= i < self.jobs().len(),
        ensures
            job_ok(self.jobs()[i]),
    {
    }

    pub fn new(max_workers: usize) -> (r: JobManager)
        ensures
            r.wf(),
            r.jobs().len() == 0,
            r.max_workers() == max_workers,
    {
        JobManager { jobs: Vec::new(), max_workers, running_count: 0 }
    }

    /// Where the job with this identifier stands.
    fn position(&self, id: u128) -> (r: Option<usize>)
        ensures
            match r {
                Some(i) => i < self.jobs@.len() && self.jobs@[i as int].id == id,
                None => !has_id(self.jobs@, id),
            },
    {
        let mut i: usize = 0;
        while i < self.jobs.len()
            invariant
                i <= self.jobs@.len(),
                forall|k: int| 0 <= k < i ==> (#[trigger] self.jobs@[k]).id != id,
            decreases self.jobs@.len() - i,
        {
            if self.jobs[i].id == id {
                return Some(i);
            }
            i = i + 1;
        }
        None
    }

    /// Puts `job` in place of the job at `i`.
    fn replace_at(&mut self, i: usize, job: Job) -> (prev: Job)
        requires
            i < old(self).jobs@.len(),
        ensures
            final(self).jobs@ == old(self).jobs@.update(i as int, job),
            prev == old(self).jobs@[i as int],
            final(self).max_workers == old(self).max_workers,
            final(self).running_count == old(self).running_count,
    {
        let prev = self.jobs.remove(i);
        self.jobs.insert(i, job);
        assert(self.jobs@ =~= old(self).jobs@.update(i as int, job));
        prev
    }

    /// Queues a request under the given identifier and submission time,
    /// once the project, the tool and every required input are found.
    pub fn submit_at(&mut self, request: JobRequest, project: Option<&ProjectConfig>, id: u128, now: i64) -> (r: Result<u128, JobError>)
        requires
            old(self).wf(),
        ensures
            final(self).wf(),
            final(self).max_workers() == old(self).max_workers(),
            r is Ok <==> request_valid(request, opt_project(project)) && !has_id(old(self).jobs(), id),
            !request_valid(request, opt_project(project)) ==> r matches Err(JobError::Validation(_)),
            request_valid(request, opt_project(project)) && has_id(old(self).jobs(), id) ==> r matches Err(JobError::DuplicateId),
            r is Ok ==> {
                &&& r == Ok::<u128, JobError>(id)
                &&& final(self).jobs().len() == old(self).jobs().len() + 1
                &&& final(self).jobs().drop_last() == old(self).jobs()
                &&& fresh_job(final(self).jobs().last(), id, request, now)
            },
            r is Err ==> final(self).jobs() == old(self).jobs(),
    {
        match Self::check_request(&request, project) {
            Err(e) => {
                return Err(e);
            },
            Ok(()) => {},
        }
        if self.position(id).is_some() {
            return Err(JobError::DuplicateId);
        }
        let ghost req = request;
        let job = Job {
            id,
            request,
            status: JobStatus::Queued,
            created_at: now,
            started_at: None,
            completed_at: None,
            container_id: None,
            error: None,
            logs: Vec::new(),
        };
        proof {
            lemma_count_push(self.jobs@, job);
            assert(self.jobs@.push(job).drop_last() =~= self.jobs@);
        }
        self.jobs.push(job);
        assert forall|a: int, b: int| 0 <= a < self.jobs@.len() && 0 <= b < self.jobs@.len() && a != b implies (#[trigger] self.jobs@[a]).id != (#[trigger] self.jobs@[b]).id by {
            if a == self.jobs@.len() - 1 {
                assert(old(self).jobs@[b].id != id);
            } else if b == self.jobs@.len() - 1 {
                assert(old(self).jobs@[a].id != id);
            }
        }
        assert(forall|a: int| 0 <= a < self.jobs@.len() ==> job_ok(#[trigger] self.jobs@[a]));
        Ok(id)
    }

    /// Queues a request under a fresh random identifier, stamped with the
    /// current time.
    pub fn submit(&mut self, request: JobRequest, project: Option<&ProjectConfig>) -> (r: Result<u128, JobError>)
        requires
            old(self).wf(),
        ensures
            final(self).wf(),
            final(self).max_workers() == old(self).max_workers(),
            !request_valid(request, opt_project(project)) ==> r matches Err(JobError::Validation(_)),
            request_valid(request, opt_project(project)) ==> r is Ok || r matches Err(JobError::DuplicateId),
            request_valid(request, opt_project(project)) && old(self).jobs().len() == 0 ==> r is Ok,
            r matches Ok(id) ==> {
                &&& !has_id(old(self).jobs(), id)
                &&& final(self).jobs().drop_last() == old(self).jobs()
                &&& final(self).jobs().len() == old(self).jobs().len() + 1
                &&& final(self).jobs().last().id == id
                &&& final(self).jobs().last().request == request
                &&& final(self).jobs().last().status == JobStatus::Queued
            },
            r is Err ==> final(self).jobs() == old(self).jobs(),
    {
        let id = new_job_id();
        let now = now_seconds();
        self.submit_at(request, project, id, now)
    }

    /// The job with this identifier.
    pub fn get_job(&self, id: u128) -> (r: Option<&Job>)
        ensures
            match r {
                Some(j) => j.id == id && exists|i: int| 0 <= i < self.jobs().len() && self.jobs()[i] == *j,
                None => !has_id(self.jobs(), id),
            },
    {
        match self.position(id) {
            Some(i) => {
                assert(self.jobs()[i as int] == self.jobs@[i as int]);
                Some(&self.jobs[i])
            },
            None => None,
        }
    }

    /// Queued and running jobs, and the finished ones too where asked for,
    /// in submission order.
    pub fn list_jobs(&self, include_completed: bool) -> (r: Vec<&Job>)
        ensures
            derefs(r@) == listed(self.jobs(), include_completed),
    {
        let mut out: Vec<&Job> = Vec::new();
        let mut i: usize = 0;
        while i < self.jobs.len()
            invariant
                i <= self.jobs@.len(),
                derefs(out@) == listed(self.jobs@.subrange(0, i as int), include_completed),
            decreases self.jobs@.len() - i,
        {
            assert(self.jobs@.subrange(0, i + 1).drop_last() =~= self.jobs@.subrange(0, i as int));
            let j = &self.jobs[i];
            if include_completed || matches!(j.status, JobStatus::Queued | JobStatus::Running) {
                out.push(j);
                assert(derefs(out@) =~= listed(self.jobs@.subrange(0, i + 1), include_completed));
            }
            i = i + 1;
        }
        assert(self.jobs@.subrange(0, self.jobs@.len() as int) =~= self.jobs@);
        out
    }

    /// Cancels a job. A queued job is cancelled at once, and nothing runs; a
    /// running one is left as it is, and its container is handed back to be
    /// stopped and removed before `finish_cancel`; a finished job cannot be
    /// cancelled.
    pub fn cancel(&mut self, id: u128, now: i64) -> (r: Result<CancelAction, JobError>)
        requires
            old(self).wf(),
        ensures
            final(self).wf(),
            final(self).max_workers() == old(self).max_workers(),
            !has_id(old(self).jobs(), id) ==> (r matches Err(JobError::NotFound)) && final(self).jobs() == old(self).jobs(),
            forall|i: int| 0 <= i < old(self).jobs().len() && (#[trigger] old(self).jobs()[i]).id == id ==> {
                let j = old(self).jobs()[i];
                match j.status {
                    JobStatus::Queued => {
                        &&& r matches Ok(CancelAction::Cancelled)
                        &&& final(self).jobs() == old(self).jobs().update(i, Job { status: JobStatus::Cancelled, completed_at: Some(now), ..j })
                    },
                    JobStatus::Running => {
                        &&& (r matches Ok(CancelAction::StopAndRemove(c)) && j.container_id == Some(c))
                        &&& final(self).jobs() == old(self).jobs()
                    },
                    _ => {
                        &&& (r matches Err(JobError::InvalidTransition(s)) && s == j.status)
                        &&& final(self).jobs() == old(self).jobs()
                    },
                }
            },
    {
        let i = match self.position(id) {
            Some(i) => i,
            None => {
                return Err(JobError::NotFound);
            },
        };
        let ghost before = self.jobs@;
        proof {
            assert forall|k: int| 0 <= k < before.len() && (#[trigger] before[k]).id == id implies k == i by {
                if k != i {
                    assert(before[k].id != before[i as int].id);
                }
            }
        }
        match self.jobs[i].status {
            JobStatus::Queued => {
                let mut job = self.jobs.remove(i);
                job.status = JobStatus::Cancelled;
                job.completed_at = Some(now);
                let ghost nj = job;
                self.jobs.insert(i, job);
                assert(self.jobs@ =~= before.update(i as int, nj));
                proof {
                    lemma_wf_update(before, self.max_workers as nat, self.running_count as nat, i as int, nj, self.running_count as nat);
                }
                Ok(CancelAction::Cancelled)
            },
            JobStatus::Running => {
                match &self.jobs[i].container_id {
                    Some(c) => Ok(CancelAction::StopAndRemove(c.clone())),
                    None => {
                        assert(job_ok(before[i as int]));
                        Err(JobError::NotFound)
                    },
                }
            },
            s => Err(JobError::InvalidTransition(s)),
        }
    }

    /// Records that a running job's container was stopped and removed: the
    /// job is cancelled and its admission slot is free.
    pub fn finish_cancel(&mut self, id: u128, now: i64) -> (r: Result<(), JobError>)
        requires
            old(self).wf(),
        ensures
            final(self).wf(),
            final(self).max_workers() == old(self).max_workers(),
            !has_id(old(self).jobs(), id) ==> r matches Err(JobError::NotFound),
            r is Err ==> final(self).jobs() == old(self).jobs(),
            forall|i: int| 0 <= i < old(self).jobs().len() && (#[trigger] old(self).jobs()[i]).id == id ==> {
                let j = old(self).jobs()[i];
                if j.status == JobStatus::Running {
                    &&& r is Ok
                    &&& final(self).jobs() == old(self).jobs().update(i, Job { status: JobStatus::Cancelled, completed_at: Some(now), ..j })
                    &&& final(self).running() + 1 == old(self).running()
                } else {
                    (r matches Err(JobError::InvalidTransition(s)) && s == j.status)
                }
            },
    {
        let i = match self.position(id) {
            Some(i) => i,
            None => {
                return Err(JobError::NotFound);
            },
        };
        let ghost before = self.jobs@;
        proof {
            assert forall|k: int| 0 <= k < before.len() && (#[trigger] before[k]).id == id implies k == i by {
                if k != i {
                    assert(before[k].id != before[i as int].id);
                }
            }
        }
        if self.jobs[i].status != JobStatus::Running {
            return Err(JobError::InvalidTransition(self.jobs[i].status));
        }
        let mut job = self.jobs.remove(i);
        job.status = JobStatus::Cancelled;
        job.completed_at = Some(now);
        let ghost nj = job;
        self.jobs.insert(i, job);
        assert(self.jobs@ =~= before.update(i as int, nj));
        proof {
            lemma_count_update(before, i as int, nj);
        }
        self.running_count = self.running_count - 1;
        proof {
            lemma_wf_update(before, self.max_workers as nat, (self.running_count + 1) as nat, i as int, nj, self.running_count as nat);
        }
        Ok(())
    }

    /// The queued jobs to admit now, in submission order: as many as the
    /// ceiling leaves room for.
    pub fn process_pending(&self) -> (r: Vec<u128>)
        requires
            self.wf(),
        ensures
            r@.len() == if queued_ids(self.jobs()).len() <= self.max_workers() - self.running() {
                queued_ids(self.jobs()).len()
            } else {
                (self.max_workers() - self.running()) as nat
            },
            r@ == queued_ids(self.jobs()).take(r@.len() as int),
    {
        let room = self.max_workers - self.running_count;
        let mut out: Vec<u128> = Vec::new();
        let mut i: usize = 0;
        while i < self.jobs.len()
            invariant
                i <= self.jobs@.len(),
                room == self.max_workers - self.running_count,
                out@.len() == if queued_ids(self.jobs@.subrange(0, i as int)).len() <= room {
                    queued_ids(self.jobs@.subrange(0, i as int)).len()
                } else {
                    room as nat
                },
                out@ == queued_ids(self.jobs@.subrange(0, i as int)).take(out@.len() as int),
            decreases self.jobs@.len() - i,
        {
            let ghost q = queued_ids(self.jobs@.subrange(0, i as int));
            assert(self.jobs@.subrange(0, i + 1).drop_last() =~= self.jobs@.subrange(0, i as int));
            if self.jobs[i].status == JobStatus::Queued {
                assert(queued_ids(self.jobs@.subrange(0, i + 1)) == q.push(self.jobs@[i as int].id));
                if out.len() < room {
                    out.push(self.jobs[i].id);
                    assert(out@ =~= q.push(self.jobs@[i as int].id).take(out@.len() as int));
                } else {
                    assert(out@ =~= q.push(self.jobs@[i as int].id).take(out@.len() as int));
                }
            }
            i = i + 1;
        }
        assert(self.jobs@.subrange(0, self.jobs@.len() as int) =~= self.jobs@);
        out
    }

    /// Records that a queued job's container started: the job runs, with its
    /// start time and container, and takes one admission slot. Refused when
    /// every slot is taken.
    pub fn record_started(&mut self, id: u128, container_id: String, now: i64) -> (r: Result<(), JobError>)
        requires
            old(self).wf(),
        ensures
            final(self).wf(),
            final(self).max_workers() == old(self).max_workers(),
            !has_id(old(self).jobs(), id) ==> r matches Err(JobError::NotFound),
            r is Err ==> final(self).jobs() == old(self).jobs() && final(self).running() == old(self).running(),
            forall|i: int| 0 <= i < old(self).jobs().len() && (#[trigger] old(self).jobs()[i]).id == id ==> {
                let j = old(self).jobs()[i];
                if j.status != JobStatus::Queued {
                    (r matches Err(JobError::InvalidTransition(s)) && s == j.status)
                } else if old(self).running() == old(self).max_workers() {
                    r matches Err(JobError::AtCapacity)
                } else {
                    &&& r is Ok
                    &&& final(self).jobs() == old(self).jobs().update(i, Job { status: JobStatus::Running, started_at: Some(now), container_id: Some(container_id), ..j })
                    &&& final(self).running() == old(self).running() + 1
                }
            },
    {
        let i = match self.position(id) {
            Some(i) => i,
            None => {
                return Err(JobError::NotFound);
            },
        };
        let ghost before = self.jobs@;
        proof {
            assert forall|k: int| 0 <= k < before.len() && (#[trigger] before[k]).id == id implies k == i by {
                if k != i {
                    assert(before[k].id != before[i as int].id);
                }
            }
        }
        if self.jobs[i].status != JobStatus::Queued {
            return Err(JobError::InvalidTransition(self.jobs[i].status));
        }
        if self.running_count >= self.max_workers {
            return Err(JobError::AtCapacity);
        }
        let mut job = self.jobs.remove(i);
        job.status = JobStatus::Running;
        job.started_at = Some(now);
        job.container_id = Some(container_id);
        let ghost nj = job;
        self.jobs.insert(i, job);
        assert(self.jobs@ =~= before.update(i as int, nj));
        self.running_count = self.running_count + 1;
        proof {
            lemma_wf_update(before, self.max_workers as nat, (self.running_count - 1) as nat, i as int, nj, self.running_count as nat);
        }
        Ok(())
    }

    /// Records that a queued job's container could not be started: the job
    /// fails with the runtime's error and takes no admission slot.
    pub fn record_start_failed(&mut self, id: u128, error: String, now: i64) -> (r: Result<(), JobError>)
        requires
            old(self).wf(),
        ensures
            final(self).wf(),
            final(self).max_workers() == old(self).max_workers(),
            final(self).running() == old(self).running(),
            !has_id(old(self).jobs(), id) ==> r matches Err(JobError::NotFound),
            r is Err ==> final(self).jobs() == old(self).jobs(),
            forall|i: int| 0 <= i < old(self).jobs().len() && (#[trigger] old(self).jobs()[i]).id == id ==> {
                let j = old(self).jobs()[i];
                if j.status != JobStatus::Queued {
                    (r matches Err(JobError::InvalidTransition(s)) && s == j.status)
                } else {
                    &&& r is Ok
                    &&& final(self).jobs() == old(self).jobs().update(i, Job { status: JobStatus::Failed, error: Some(error), completed_at: Some(now), ..j })
                    &&& final(self).jobs()[i].container_id is None
                    &&& final(self).jobs()[i].started_at is None
                }
            },
    {
        let i = match self.position(id) {
            Some(i) => i,
            None => {
                return Err(JobError::NotFound);
            },
        };
        let ghost before = self.jobs@;
        proof {
            assert forall|k: int| 0 <= k < before.len() && (#[trigger] before[k]).id == id implies k == i by {
                if k != i {
                    assert(before[k].id != before[i as int].id);
                }
            }
        }
        if self.jobs[i].status != JobStatus::Queued {
            return Err(JobError::InvalidTransition(self.jobs[i].status));
        }
        let mut job = self.jobs.remove(i);
        job.status = JobStatus::Failed;
        job.error = Some(error);
        job.completed_at = Some(now);
        let ghost nj = job;
        self.jobs.insert(i, job);
        assert(self.jobs@ =~= before.update(i as int, nj));
        proof {
            lemma_wf_update(before, self.max_workers as nat, self.running_count as nat, i as int, nj, self.running_count as nat);
        }
        Ok(())
    }

    /// Records that a job's container exited with `exit_code`: a running job
    /// completes (code 0) or fails with the code in its error, and frees its
    /// slot. On a job that no longer runs nothing changes, so reporting an
    /// exit twice, or after a cancellation, is harmless. `Ok(true)` where the
    /// job moved.
    pub fn record_exit(&mut self, id: u128, exit_code: i64, now: i64) -> (r: Result<bool, JobError>)
        requires
            old(self).wf(),
        ensures
            final(self).wf(),
            final(self).max_workers() == old(self).max_workers(),
            !has_id(old(self).jobs(), id) ==> r matches Err(JobError::NotFound),
            !(r matches Ok(true)) ==> final(self).jobs() == old(self).jobs() && final(self).running() == old(self).running(),
            forall|i: int| 0 <= i < old(self).jobs().len() && (#[trigger] old(self).jobs()[i]).id == id ==> {
                let j = old(self).jobs()[i];
                if j.status != JobStatus::Running {
                    r == Ok::<bool, JobError>(false)
                } else {
                    let n = final(self).jobs()[i];
                    &&& r == Ok::<bool, JobError>(true)
                    &&& final(self).jobs().len() == old(self).jobs().len()
                    &&& forall|k: int| 0 <= k < old(self).jobs().len() && k != i ==> final(self).jobs()[k] == old(self).jobs()[k]
                    &&& moved(j, n)
                    &&& n.status == if exit_code == 0 { JobStatus::Completed } else { JobStatus::Failed }
                    &&& if exit_code == 0 { n.error == j.error } else {
                        n.error matches Some(e) && e@ == "Container exited with code "@ + crate::text::signed_decimal(exit_code as int)
                    }
                    &&& n.started_at == j.started_at
                    &&& n.container_id == j.container_id
                    &&& n.completed_at == Some(now)
                    &&& final(self).running() + 1 == old(self).running()
                }
            },
    {
        let i = match self.position(id) {
            Some(i) => i,
            None => {
                return Err(JobError::NotFound);
            },
        };
        let ghost before = self.jobs@;
        proof {
            assert forall|k: int| 0 <= k < before.len() && (#[trigger] before[k]).id == id implies k == i by {
                if k != i {
                    assert(before[k].id != before[i as int].id);
                }
            }
        }
        if self.jobs[i].status != JobStatus::Running {
            return Ok(false);
        }
        let mut job = self.jobs.remove(i);
        if exit_code == 0 {
            job.status = JobStatus::Completed;
        } else {
            job.status = JobStatus::Failed;
            job.error = Some(String::from_str("Container exited with code ").concat(crate::text::signed_decimal_text(exit_code).as_str()));
        }
        job.completed_at = Some(now);
        let ghost nj = job;
        self.jobs.insert(i, job);
        assert(self.jobs@ =~= before.update(i as int, nj));
        proof {
            lemma_count_update(before, i as int, nj);
        }
        self.running_count = self.running_count - 1;
        proof {
            lemma_wf_update(before, self.max_workers as nat, (self.running_count + 1) as nat, i as int, nj, self.running_count as nat);
        }
        Ok(true)
    }

    /// Checks a request against the project's definition of the tool.
    fn check_request(request: &JobRequest, project: Option<&ProjectConfig>) -> (r: Result<(), JobError>)
        ensures
            r is Ok <==> request_valid(*request, opt_project(project)),
            r is Err ==> r matches Err(JobError::Validation(_)),
    {
        let p = match project {
            Some(p) => p,
            None => {
                return Err(JobError::Validation(String::from_str("Project not found")));
            },
        };
        let tools = match &p.gis {
            Some(g) => match &g.tools {
                Some(t) => t,
                None => {
                    return Err(JobError::Validation(String::from_str("Project has no GIS tools defined")));
                },
            },
            None => {
                return Err(JobError::Validation(String::from_str("Project has no GIS tools defined")));
            },
        };
        let tool = match find_tool_exec(tools, &request.tool) {
            Some(t) => t,
            None => {
                return Err(JobError::Validation(String::from_str("Tool not found in project")));
            },
        };
        if missing_input(tool, &request.inputs) {
            Err(JobError::Validation(String::from_str("Missing required input")))
        } else {
            Ok(())
        }
    }
}

/// Relies on `uuid::Uuid::new_v4`: a random identifier, as its 128-bit value.
#[verifier::external_body]
fn new_job_id() -> (r: u128) {
    uuid::Uuid::new_v4().as_u128()
}

/// Relies on `chrono::Utc::now`: the current time, in seconds since the Unix epoch.
#[verifier::external_body]
fn now_seconds() -> (r: i64) {
    chrono::Utc::now().timestamp()
}

/// Whether a required input of the tool is absent.
fn missing_input(tool: &GisTool, inputs: &Vec<(String, String)>) -> (r: bool)
    ensures
        r == missing_required(*tool, inputs@),
{
    match &tool.inputs {
        Some(ps) => {
            let mut k: usize = 0;
            while k < ps.len()
                invariant
                    k <= ps@.len(),
                    tool.inputs == Some(*ps),
                    forall|q: int| 0 <= q < k ==> !(is_required(#[trigger] ps@[q]) && !has_input(inputs@, ps@[q].name@)),
                decreases ps@.len() - k,
            {
                let param = &ps[k];
                if param.required != Some(false) {
                    let mut found = false;
                    let mut j: usize = 0;
                    while j < inputs.len()
                        invariant
                            j <= inputs@.len(),
                            found <==> exists|q: int| 0 <= q < j && (#[trigger] inputs@[q]).0@ == param.name@,
                        decreases inputs@.len() - j,
                    {
                        if inputs[j].0 == param.name {
                            found = true;
                        }
                        j = j + 1;
                    }
                    if !found {
                        assert(is_required(ps@[k as int]));
                        assert(!has_input(inputs@, ps@[k as int].name@));
                        return true;
                    }
                }
                k = k + 1;
            }
            false
        },
        None => false,
    }
}

/// A rejected submission creates no job: whatever the listing shows is
/// unchanged, and a request lacking a required input is always rejected.
pub proof fn lemma_rejected_submit_keeps_listing(
    before: JobManager,
    after: JobManager,
    request: JobRequest,
    project: Option<ProjectConfig>,
    r: Result<u128, JobError>,
    include_terminal: bool,
)
    requires
        !request_valid(request, project) ==> r matches Err(JobError::Validation(_)),
        r is Err ==> after.jobs() == before.jobs(),
        project matches Some(p) && project_tools(p) matches Some(ts) && find_tool(ts, request.tool@) matches Some(t) && missing_required(t, request.inputs@),
    ensures
        r is Err,
        listed(after.jobs(), include_terminal).len() == listed(before.jobs(), include_terminal).len(),
{
}

} // verus!
