//! The HTTP surface's values: response bodies and the mapping of failures
//! to status codes and error bodies.
use vstd::prelude::*;

use crate::jobs::{Job, JobError, JobStatus};
use crate::project::{project_tools, GisTool, ProjectConfig, ToolParameter};
use crate::state::clone_opt;
use crate::json::{json_string, write_string};

verus! {

#[derive(Debug)]
pub struct HealthResponse {
    pub status: String,
    pub version: String,
    pub uptime_seconds: u64,
}

#[derive(Debug)]
pub struct ListJobsQuery {
    pub all: Option<bool>,
}

/// One line of a job listing. Times are seconds since the Unix epoch.
#[derive(Debug)]
pub struct JobSummary {
    pub id: u128,
    pub project: String,
    pub tool: String,
    pub status: String,
    pub created_at: i64,
    pub started_at: Option<i64>,
    pub completed_at: Option<i64>,
}

#[derive(Debug)]
pub struct JobResponse {
    pub id: String,
    pub status: String,
}

#[derive(Debug)]
pub struct OutputFile {
    pub name: String,
    pub path: String,
    pub size: u64,
}

#[derive(Debug)]
pub struct OutputResponse {
    pub files: Vec<OutputFile>,
}

#[derive(Debug)]
pub struct ProjectSummary {
    pub name: String,
    pub version: Option<String>,
    pub path: String,
    pub tools_count: usize,
}

/// A tool parameter as the GIS plugins see it.
#[derive(Debug)]
pub struct ParameterInfo {
    pub name: String,
    pub label: Option<String>,
    pub param_type: String,
    /// Parameters are required unless declared otherwise.
    pub required: bool,
    pub default_json: Option<String>,
}

/// A tool as the GIS plugins see it.
#[derive(Debug)]
pub struct ToolInfo {
    pub name: String,
    pub label: Option<String>,
    pub description: Option<String>,
    pub inputs: Option<Vec<ParameterInfo>>,
    pub outputs: Option<Vec<ParameterInfo>>,
}

/// A failed request.
#[derive(Debug)]
pub enum AppError {
    NotFound(String),
    BadRequest(String),
    Internal(String),
}

/// The lower-case name of a job status.
pub open spec fn status_name(s: JobStatus) -> Seq<char> {
    match s {
        JobStatus::Queued => "queued"@,
        JobStatus::Running => "running"@,
        JobStatus::Completed => "completed"@,
        JobStatus::Failed => "failed"@,
        JobStatus::Cancelled => "cancelled"@,
    }
}

pub fn status_text(s: JobStatus) -> (r: String)
    ensures
        r@ == status_name(s),
{
    match s {
        JobStatus::Queued => String::from_str("queued"),
        JobStatus::Running => String::from_str("running"),
        JobStatus::Completed => String::from_str("completed"),
        JobStatus::Failed => String::from_str("failed"),
        JobStatus::Cancelled => String::from_str("cancelled"),
    }
}

/// The answer to a health check from a service started at `started_at` and
/// asked at `now` (seconds since the Unix epoch): the uptime is their
/// difference, none where the clock went back.
pub fn health(version: &str, started_at: i64, now: i64) -> (r: HealthResponse)
    ensures
        r.status@ == "healthy"@,
        r.version@ == version@,
        r.uptime_seconds == if now >= started_at { (now - started_at) as u64 } else { 0 },
{
    let uptime: u64 = if now >= started_at { (now as i128 - started_at as i128) as u64 } else { 0 };
    HealthResponse { status: String::from_str("healthy"), version: version.to_string(), uptime_seconds: uptime }
}

/// The summary of a job for a listing.
pub fn job_summary(job: &Job) -> (r: JobSummary)
    ensures
        r.id == job.id,
        r.project == job.request.project,
        r.tool == job.request.tool,
        r.status@ == status_name(job.status),
        r.created_at == job.created_at,
        r.started_at == job.started_at,
        r.completed_at == job.completed_at,
{
    JobSummary {
        id: job.id,
        project: job.request.project.clone(),
        tool: job.request.tool.clone(),
        status: status_text(job.status),
        created_at: job.created_at,
        started_at: job.started_at,
        completed_at: job.completed_at,
    }
}

pub open spec fn error_status(e: AppError) -> u16 {
    match e {
        AppError::NotFound(_) => 404,
        AppError::BadRequest(_) => 400,
        AppError::Internal(_) => 500,
    }
}

pub open spec fn error_message(e: AppError) -> Seq<char> {
    match e {
        AppError::NotFound(m) => m@,
        AppError::BadRequest(m) => m@,
        AppError::Internal(m) => m@,
    }
}

impl AppError {
    /// The HTTP status of the failure.
    pub fn status_code(&self) -> (r: u16)
        ensures
            r == error_status(*self),
    {
        match self {
            AppError::NotFound(_) => 404,
            AppError::BadRequest(_) => 400,
            AppError::Internal(_) => 500,
        }
    }

    /// The JSON body `{"error":"<message>"}`.
    pub fn body(&self) -> (r: String)
        ensures
            r@ == "{\"error\":"@ + json_string(error_message(*self)) + "}"@,
    {
        let m = match self {
            AppError::NotFound(m) => m,
            AppError::BadRequest(m) => m,
            AppError::Internal(m) => m,
        };
        let mut out = String::from_str("{\"error\":");
        write_string(&mut out, m.as_str());
        out.append("}");
        out
    }

    /// The failure a scheduler error answers with: an unknown job is not
    /// found, an invalid request or transition is a bad request, the rest
    /// is internal.
    pub fn from_job_error(e: JobError) -> (r: AppError)
        ensures
            error_status(r) == match e {
                JobError::NotFound => 404u16,
                JobError::Validation(_) | JobError::InvalidTransition(_) => 400u16,
                _ => 500u16,
            },
            e matches JobError::Validation(m) ==> error_message(r) == m@,
    {
        match e {
            JobError::NotFound => AppError::NotFound(String::from_str("Job not found")),
            JobError::Validation(m) => AppError::BadRequest(m),
            JobError::InvalidTransition(s) => AppError::BadRequest(
                String::from_str("Job cannot be cancelled (status: ").concat(status_text(s).as_str()).concat(")"),
            ),
            JobError::DuplicateId => AppError::Internal(String::from_str("Job identifier already in use")),
            JobError::AtCapacity => AppError::Internal(String::from_str("No free worker slot")),
        }
    }
}

/// The output listing of a job is only available once it completed, and
/// only where it has an output directory, which is handed back; otherwise
/// it is not found.
pub fn output_dir_of(job: &Job) -> (r: Result<&String, AppError>)
    ensures
        job.status != JobStatus::Completed ==> (r matches Err(e) && error_status(e) == 404),
        job.status == JobStatus::Completed ==> match job.request.output_dir {
            Some(d) => r == Ok::<&String, AppError>(&d),
            None => r matches Err(e) && error_status(e) == 404,
        },
{
    if job.status != JobStatus::Completed {
        return Err(AppError::NotFound(String::from_str("Job not completed")));
    }
    match &job.request.output_dir {
        Some(d) => Ok(d),
        None => Err(AppError::NotFound(String::from_str("No output directory"))),
    }
}

pub open spec fn shows_parameter(i: ParameterInfo, p: ToolParameter) -> bool {
    &&& i.name@ == p.name@
    &&& i.label == p.label
    &&& i.param_type@ == p.param_type@
    &&& i.required == (p.required != Some(false))
    &&& i.default_json == p.default_json
}

pub open spec fn shows_parameters(o: Option<Vec<ParameterInfo>>, ps: Option<Vec<ToolParameter>>) -> bool {
    match (o, ps) {
        (None, None) => true,
        (Some(a), Some(b)) => a@.len() == b@.len() && forall|k: int| 0 <= k < a@.len() ==> shows_parameter(#[trigger] a@[k], b@[k]),
        _ => false,
    }
}

pub open spec fn shows_tool(i: ToolInfo, t: GisTool) -> bool {
    &&& i.name@ == t.name@
    &&& i.label == t.label
    &&& i.description == t.description
    &&& shows_parameters(i.inputs, t.inputs)
    &&& shows_parameters(i.outputs, t.outputs)
}

fn parameter_infos(ps: &Option<Vec<ToolParameter>>) -> (r: Option<Vec<ParameterInfo>>)
    ensures
        shows_parameters(r, *ps),
{
    match ps {
        None => None,
        Some(v) => {
            let mut out: Vec<ParameterInfo> = Vec::new();
            let mut k: usize = 0;
            while k < v.len()
                invariant
                    k <= v@.len(),
                    out@.len() == k,
                    forall|q: int| 0 <= q < k ==> shows_parameter(#[trigger] out@[q], v@[q]),
                decreases v@.len() - k,
            {
                let p = &v[k];
                out.push(ParameterInfo {
                    name: p.name.clone(),
                    label: clone_opt(&p.label),
                    param_type: p.param_type.clone(),
                    required: match p.required {
                        Some(b) => b,
                        None => true,
                    },
                    default_json: clone_opt(&p.default_json),
                });
                k = k + 1;
            }
            Some(out)
        },
    }
}

/// The tools of a project, as the GIS plugins list them.
pub fn tool_infos(project: &ProjectConfig) -> (r: Vec<ToolInfo>)
    ensures
        match project_tools(*project) {
            Some(ts) => r@.len() == ts.len() && forall|k: int| 0 <= k < ts.len() ==> shows_tool(#[trigger] r@[k], ts[k]),
            None => r@.len() == 0,
        },
{
    let mut out: Vec<ToolInfo> = Vec::new();
    let tools = match &project.gis {
        Some(g) => match &g.tools {
            Some(t) => t,
            None => {
                return out;
            },
        },
        None => {
            return out;
        },
    };
    let mut k: usize = 0;
    while k < tools.len()
        invariant
            k <= tools@.len(),
            out@.len() == k,
            forall|q: int| 0 <= q < k ==> shows_tool(#[trigger] out@[q], tools@[q]),
        decreases tools@.len() - k,
    {
        let t = &tools[k];
        out.push(ToolInfo {
            name: t.name.clone(),
            label: clone_opt(&t.label),
            description: clone_opt(&t.description),
            inputs: parameter_infos(&t.inputs),
            outputs: parameter_infos(&t.outputs),
        });
        k = k + 1;
    }
    out
}

/// The summary of a registered project at `path`.
pub fn project_summary(name: &str, path: &str, project: &ProjectConfig) -> (r: ProjectSummary)
    ensures
        r.name@ == name@,
        r.path@ == path@,
        r.version == project.version,
        r.tools_count == match project_tools(*project) {
            Some(ts) => ts.len(),
            None => 0,
        },
{
    let tools_count = match &project.gis {
        Some(g) => match &g.tools {
            Some(t) => t.len(),
            None => 0,
        },
        None => 0,
    };
    ProjectSummary { name: name.to_string(), version: clone_opt(&project.version), path: path.to_string(), tools_count }
}

} // verus!
