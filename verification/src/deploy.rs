//! The deployment: its stages, what each transition logs, and what a failure
//! leaves behind.

use crate::error::{AgentError, ErrorKind};
use crate::messages::{DeployRequest, LogChunk};
use crate::sys::cleanup::{is_release_name, release_stamp};
use crate::sys::names::{
    app_user,
    app_user_name,
    domain_service,
    domain_service_name,
    is_safe_component,
    joined,
    secure_join,
};
use vstd::prelude::*;
use vstd::string::*;

verus! {

/// How many log chunks wait for the caller at most.
pub const LOG_QUEUE_CAPACITY: usize = 512;

/// The stages of a deployment, in order.
#[derive(Clone, Copy, Debug, PartialEq, Eq, Structural)]
pub enum DeployStage {
    Fetching,
    Jailing,
    Building,
    Restarting,
}

#[derive(Clone, Copy, Debug, PartialEq, Eq, Structural)]
pub enum DeployState {
    Running(DeployStage),
    Done,
    Failed(DeployStage),
}

/// The names and places that a deployment works with.
#[derive(Debug)]
pub struct DeploymentPlan {
    pub base_dir: String,
    pub release_dir: String,
    pub app_user: String,
    pub service_name: String,
    pub queue_capacity: usize,
}

/// What one transition brings: the next state, the chunks to send, and whether
/// the release directory is to be removed.
#[derive(Debug)]
pub struct Transition {
    pub next: DeployState,
    pub logs: Vec<LogChunk>,
    pub remove_release_dir: bool,
}

pub open spec fn release_dir(web_root: Seq<char>, domain: Seq<char>, timestamp: Seq<char>) -> Seq<
    char,
> {
    joined(web_root, domain) + "/releases/"@ + timestamp
}

/// The state that follows a stage that succeeded.
pub open spec fn after(stage: DeployStage) -> DeployState {
    match stage {
        DeployStage::Fetching => DeployState::Running(DeployStage::Jailing),
        DeployStage::Jailing => DeployState::Running(DeployStage::Building),
        DeployStage::Building => DeployState::Running(DeployStage::Restarting),
        DeployStage::Restarting => DeployState::Done,
    }
}

/// The line that is logged on entering a state.
pub open spec fn entry_marker(state: DeployState) -> Seq<char> {
    match state {
        DeployState::Running(DeployStage::Fetching) => "Pulling source...\n"@,
        DeployState::Running(DeployStage::Jailing) => "Hardening filesystem...\n"@,
        DeployState::Running(DeployStage::Building) => "Executing build...\n"@,
        DeployState::Running(DeployStage::Restarting) => "Swapping binaries...\n"@,
        DeployState::Done => "Deployment Complete.\n"@,
        DeployState::Failed(_) => Seq::empty(),
    }
}

/// How the line that reports a stage's failure begins.
pub open spec fn failure_prefix(stage: DeployStage) -> Seq<char> {
    match stage {
        DeployStage::Fetching => "❌ Fetch Error: "@,
        DeployStage::Jailing => "❌ Jail Error: "@,
        DeployStage::Building => "❌ Build Error: "@,
        DeployStage::Restarting => "❌ Restart Error: "@,
    }
}

/// The line that reports a stage's failure.
pub open spec fn failure_line(stage: DeployStage, cause: Seq<char>) -> Seq<char> {
    failure_prefix(stage) + cause + "\n"@
}

/// Only a failed build has its release directory removed.
pub open spec fn cleans_up(stage: DeployStage) -> bool {
    stage == DeployStage::Building
}

/// Every chunk carries this trace id.
pub open spec fn all_traced(logs: Seq<LogChunk>, trace_id: Seq<char>) -> bool {
    forall|i: int| 0 <= i < logs.len() ==> (#[trigger] logs[i]).trace_id@ == trace_id
}

/// Why a deployment cannot be planned, if it cannot.
pub open spec fn plan_fault(domain: Seq<char>, timestamp: Seq<char>) -> Option<
    (ErrorKind, Seq<char>),
> {
    if !is_safe_component(domain) {
        Some((ErrorKind::InvalidArgument, "Path traversal detected"@))
    } else if !is_release_name(timestamp) {
        Some((ErrorKind::InvalidArgument, "Release name must be fourteen digits"@))
    } else {
        None
    }
}

/// Plans a deployment at a moment given as `YYYYMMDDHHMMSS`: the release goes
/// to `releases/<timestamp>` below the domain's directory, is built as
/// `kari-app-<app id>`, and is served by `kari-<domain>`.
pub fn plan_deployment(web_root: &str, request: &DeployRequest, timestamp: &str) -> (r: Result<
    DeploymentPlan,
    AgentError,
>)
    ensures
        match plan_fault(request.domain_name@, timestamp@) {
            Some(f) => r.is_err() && r.unwrap_err().is(f.0, f.1),
            None => r.is_ok() && {
                let p = r.unwrap();
                &&& p.base_dir@ == joined(web_root@, request.domain_name@)
                &&& p.release_dir@ == release_dir(web_root@, request.domain_name@, timestamp@)
                &&& p.app_user@ == app_user(request.app_id@)
                &&& p.service_name@ == domain_service(request.domain_name@)
                &&& p.queue_capacity == 512
            },
        },
{
    let base_dir = match secure_join(web_root, request.domain_name.as_str()) {
        Ok(p) => p,
        Err(e) => {
            return Err(e);
        },
    };
    if release_stamp(timestamp).is_none() {
        return Err(
            AgentError::new(ErrorKind::InvalidArgument, "Release name must be fourteen digits"),
        );
    }
    let mut release = base_dir.clone();
    release.append("/releases/");
    release.append(timestamp);
    Ok(
        DeploymentPlan {
            base_dir,
            release_dir: release,
            app_user: app_user_name(request.app_id.as_str()),
            service_name: domain_service_name(request.domain_name.as_str()),
            queue_capacity: LOG_QUEUE_CAPACITY,
        },
    )
}

/// Words the line that is logged on entering a state.
fn marker_text(state: DeployState) -> (r: String)
    ensures
        r@ == entry_marker(state),
{
    match state {
        DeployState::Running(DeployStage::Fetching) => String::from_str("Pulling source...\n"),
        DeployState::Running(DeployStage::Jailing) => String::from_str(
            "Hardening filesystem...\n",
        ),
        DeployState::Running(DeployStage::Building) => String::from_str("Executing build...\n"),
        DeployState::Running(DeployStage::Restarting) => String::from_str(
            "Swapping binaries...\n",
        ),
        DeployState::Done => String::from_str("Deployment Complete.\n"),
        DeployState::Failed(_) => String::new(),
    }
}

/// Starts a deployment: it is fetching, and says so under the request's
/// trace id.
pub fn begin(trace_id: &str) -> (t: Transition)
    ensures
        t.next == DeployState::Running(DeployStage::Fetching),
        t.logs@.len() == 1,
        t.logs@[0].content@ == entry_marker(t.next),
        all_traced(t.logs@, trace_id@),
        !t.remove_release_dir,
{
    let next = DeployState::Running(DeployStage::Fetching);
    let mut logs: Vec<LogChunk> = Vec::new();
    logs.push(LogChunk::new(marker_text(next), trace_id));
    Transition { next, logs, remove_release_dir: false }
}

/// Moves a deployment on from a stage that has ended, with `failure` the
/// cause where it failed. After a success the next state is entered and its
/// marker logged. After a failure the deployment has failed at that stage, the
/// cause is logged, and the release directory is removed if it was the build
/// that failed. Every chunk carries the request's trace id.
pub fn advance(stage: DeployStage, failure: Option<&str>, trace_id: &str) -> (t: Transition)
    ensures
        t.logs@.len() == 1,
        all_traced(t.logs@, trace_id@),
        failure is None ==> t.next == after(stage) && t.logs@[0].content@ == entry_marker(
            after(stage),
        ) && !t.remove_release_dir,
        failure is Some ==> t.next == DeployState::Failed(stage) && t.logs@[0].content@
            == failure_line(stage, failure.unwrap()@) && t.remove_release_dir == cleans_up(stage),
{
    let mut logs: Vec<LogChunk> = Vec::new();
    match failure {
        None => {
            let next = match stage {
                DeployStage::Fetching => DeployState::Running(DeployStage::Jailing),
                DeployStage::Jailing => DeployState::Running(DeployStage::Building),
                DeployStage::Building => DeployState::Running(DeployStage::Restarting),
                DeployStage::Restarting => DeployState::Done,
            };
            logs.push(LogChunk::new(marker_text(next), trace_id));
            Transition { next, logs, remove_release_dir: false }
        },
        Some(cause) => {
            let mut line = match stage {
                DeployStage::Fetching => String::from_str("❌ Fetch Error: "),
                DeployStage::Jailing => String::from_str("❌ Jail Error: "),
                DeployStage::Building => String::from_str("❌ Build Error: "),
                DeployStage::Restarting => String::from_str("❌ Restart Error: "),
            };
            line.append(cause);
            line.append("\n");
            logs.push(LogChunk::new(line, trace_id));
            let remove = match stage {
                DeployStage::Building => true,
                _ => false,
            };
            Transition { next: DeployState::Failed(stage), logs, remove_release_dir: remove }
        },
    }
}

/// A deployment whose stages all succeed passes through them in order and is
/// done after four transitions; the service is restarted only after the build.
pub proof fn lemma_stages_in_order()
    ensures
        after(DeployStage::Fetching) == DeployState::Running(DeployStage::Jailing),
        after(DeployStage::Jailing) == DeployState::Running(DeployStage::Building),
        after(DeployStage::Building) == DeployState::Running(DeployStage::Restarting),
        after(DeployStage::Restarting) == DeployState::Done,
        forall|s: DeployStage| after(s) != DeployState::Running(DeployStage::Fetching),
{
}

} // verus!
