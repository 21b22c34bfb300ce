//! The service facade: what each call is checked for, which manager it goes
//! to, and what is answered.

use crate::config::AgentConfig;
use crate::deploy::{plan_deployment, plan_fault, release_dir, DeploymentPlan};
use crate::error::{views, AgentError, ErrorKind};
use crate::messages::{
    AgentResponse,
    DeleteRequest,
    DeployRequest,
    PackageRequest,
    ServiceRequest,
};
use crate::sys::builder::SystemBuildManager;
use crate::sys::cleanup::SystemReleaseManager;
use crate::sys::git::SystemGitManager;
use crate::sys::jail::LinuxJailManager;
use crate::sys::logs::LinuxLogManager;
use crate::sys::names::{
    app_user,
    app_user_name,
    domain_service,
    domain_service_name,
    is_safe,
    is_safe_component,
    joined,
    secure_join,
};
use crate::sys::systemd::{unit_path, LinuxSystemdManager, ServiceManager};
use crate::text::{all_in, decimal, decimal_string, str_all_in, str_contains_char, str_eq, CharClass};
use vstd::prelude::*;
use vstd::string::*;

verus! {

pub struct KariAgentService {
    pub config: AgentConfig,
    pub jail_mgr: LinuxJailManager,
    pub svc_mgr: LinuxSystemdManager,
    pub git_mgr: SystemGitManager,
    pub build_mgr: SystemBuildManager,
    pub release_mgr: SystemReleaseManager,
    pub log_mgr: LinuxLogManager,
}

/// What a caller may ask of a service.
#[derive(Clone, Copy, Debug, PartialEq, Eq, Structural)]
pub enum ServiceAction {
    Start,
    Stop,
    Restart,
    ReloadDaemon,
    EnableAndStart,
}

/// The steps that take a deployment down, in order.
#[derive(Clone, Copy, Debug, PartialEq, Eq, Structural)]
pub enum DeleteStep {
    StopService,
    RemoveUnitFile,
    ReloadSupervisor,
    DeprovisionUser,
    RemoveWebDir,
}

#[derive(Clone, Copy, Debug, PartialEq, Eq, Structural)]
pub enum DeleteState {
    Run(DeleteStep),
    Finished,
    Aborted(DeleteStep),
}

/// The names and places that taking a deployment down works with.
#[derive(Debug)]
pub struct DeletePlan {
    pub service_name: String,
    pub unit_path: String,
    pub app_user: String,
    pub web_dir: String,
}

/// The package managers that may be run.
pub open spec fn is_whitelisted(command: Seq<char>) -> bool {
    command == "apt-get"@ || command == "apt"@ || command == "dnf"@ || command == "yum"@
        || command == "zypper"@
}

/// An argument is clean where it holds none of `;`, `&` and `|`.
pub open spec fn is_clean_arg(arg: Seq<char>) -> bool {
    !arg.contains(';') && !arg.contains('&') && !arg.contains('|')
}

pub open spec fn all_clean(args: Seq<Seq<char>>) -> bool {
    forall|i: int| 0 <= i < args.len() ==> is_clean_arg(#[trigger] args[i])
}

/// Why a package command is refused, if it is.
pub open spec fn package_fault(command: Seq<char>, args: Seq<Seq<char>>) -> Option<
    (ErrorKind, Seq<char>),
> {
    if !is_whitelisted(command) {
        Some((ErrorKind::PermissionDenied, "Command not in security whitelist"@))
    } else if !all_clean(args) {
        Some((ErrorKind::InvalidArgument, "Argument contains shell metacharacters"@))
    } else {
        None
    }
}

/// The action that a number stands for.
pub open spec fn action_of(code: i32) -> Option<ServiceAction> {
    if code == 0 {
        Some(ServiceAction::Start)
    } else if code == 1 {
        Some(ServiceAction::Stop)
    } else if code == 2 {
        Some(ServiceAction::Restart)
    } else if code == 3 {
        Some(ServiceAction::ReloadDaemon)
    } else if code == 4 {
        Some(ServiceAction::EnableAndStart)
    } else {
        None
    }
}

/// A service name is one or more ASCII letters, digits, `-`, `.` and `@`.
pub open spec fn valid_service_name(name: Seq<char>) -> bool {
    name.len() > 0 && all_in(name, CharClass::Unit)
}

/// The supervisor's arguments for an action on a service.
pub open spec fn supervisor_args(action: ServiceAction, name: Seq<char>) -> Seq<Seq<char>> {
    match action {
        ServiceAction::Start => seq!["start"@, name],
        ServiceAction::Stop => seq!["stop"@, name],
        ServiceAction::Restart => seq!["restart"@, name],
        ServiceAction::ReloadDaemon => seq!["daemon-reload"@],
        ServiceAction::EnableAndStart => seq!["enable"@, "--now"@, name],
    }
}

/// Why a service request is refused, if it is.
pub open spec fn service_fault(request: ServiceRequest) -> Option<Seq<char>> {
    if action_of(request.action) is None {
        Some("Invalid service action"@)
    } else if !valid_service_name(request.service_name@) {
        Some("Invalid service name"@)
    } else {
        None
    }
}

/// The step that follows a step that succeeded.
pub open spec fn delete_after(step: DeleteStep) -> DeleteState {
    match step {
        DeleteStep::StopService => DeleteState::Run(DeleteStep::RemoveUnitFile),
        DeleteStep::RemoveUnitFile => DeleteState::Run(DeleteStep::ReloadSupervisor),
        DeleteStep::ReloadSupervisor => DeleteState::Run(DeleteStep::DeprovisionUser),
        DeleteStep::DeprovisionUser => DeleteState::Run(DeleteStep::RemoveWebDir),
        DeleteStep::RemoveWebDir => DeleteState::Finished,
    }
}

/// The answer to a call that failed: no success, exit code -1, and the message
/// both as stderr and as the error.
pub open spec fn is_error_response(r: AgentResponse, message: Seq<char>) -> bool {
    &&& !r.success
    &&& r.exit_code == -1
    &&& r.stdout@ == Seq::<char>::empty()
    &&& r.stderr@ == message
    &&& r.error_message@ == message
}

/// What a successful action on a service is answered with.
pub open spec fn action_success_text(code: i32) -> Seq<char> {
    "Service action "@ + decimal(code as int) + " successful"@
}

/// Builds the answer to a call that failed.
pub fn construct_error_response(err_msg: &str) -> (r: AgentResponse)
    ensures
        is_error_response(r, err_msg@),
{
    AgentResponse {
        success: false,
        exit_code: -1,
        stdout: String::new(),
        stderr: String::from_str(err_msg),
        error_message: String::from_str(err_msg),
    }
}

/// Tells whether a command is one of the package managers that may be run.
pub fn command_allowed(command: &str) -> (b: bool)
    ensures
        b == is_whitelisted(command@),
{
    str_eq(command, "apt-get") || str_eq(command, "apt") || str_eq(command, "dnf") || str_eq(
        command,
        "yum",
    ) || str_eq(command, "zypper")
}

/// Tells whether an argument is free of `;`, `&` and `|`.
pub fn arg_is_clean(arg: &str) -> (b: bool)
    ensures
        b == is_clean_arg(arg@),
{
    !str_contains_char(arg, ';') && !str_contains_char(arg, '&') && !str_contains_char(arg, '|')
}

/// Maps a number to the action it stands for.
pub fn service_action(code: i32) -> (r: Option<ServiceAction>)
    ensures
        r == action_of(code),
{
    if code == 0 {
        Some(ServiceAction::Start)
    } else if code == 1 {
        Some(ServiceAction::Stop)
    } else if code == 2 {
        Some(ServiceAction::Restart)
    } else if code == 3 {
        Some(ServiceAction::ReloadDaemon)
    } else if code == 4 {
        Some(ServiceAction::EnableAndStart)
    } else {
        None
    }
}

/// Builds the answer to a package command that ran: it succeeded where its
/// exit code is zero; a command ended by a signal has exit code -1.
pub fn package_response(exit_code: Option<i32>, stdout: String, stderr: String) -> (r:
    AgentResponse)
    ensures
        r.success == (exit_code == Some(0i32)),
        r.exit_code == match exit_code {
            Some(code) => code,
            None => -1i32,
        },
        r.stdout == stdout,
        r.stderr == stderr,
        r.success ==> r.error_message@ == Seq::<char>::empty(),
        !r.success ==> r.error_message@ == "Command failed"@,
{
    let (success, code) = match exit_code {
        Some(code) => (code == 0, code),
        None => (false, -1),
    };
    let error_message = if success {
        String::new()
    } else {
        String::from_str("Command failed")
    };
    AgentResponse { success, exit_code: code, stdout, stderr, error_message }
}

/// Builds the answer to a service request from what the supervisor made of
/// it: `failure` is its error where it failed.
pub fn service_response(action: i32, failure: Option<&str>) -> (r: AgentResponse)
    ensures
        failure is Some ==> is_error_response(r, failure.unwrap()@),
        failure is None ==> r.success && r.exit_code == 0 && r.stdout@ == action_success_text(
            action,
        ) && r.stderr@ == Seq::<char>::empty() && r.error_message@ == Seq::<char>::empty(),
{
    match failure {
        Some(message) => construct_error_response(message),
        None => {
            let mut stdout = String::from_str("Service action ");
            let number = decimal_string(action as i64);
            stdout.append(number.as_str());
            stdout.append(" successful");
            AgentResponse {
                success: true,
                exit_code: 0,
                stdout,
                stderr: String::new(),
                error_message: String::new(),
            }
        },
    }
}

/// Builds the answer to the taking down of a deployment: `failure` is the
/// error of the step at which it halted, if it did.
pub fn delete_response(failure: Option<&str>) -> (r: AgentResponse)
    ensures
        failure is Some ==> is_error_response(r, failure.unwrap()@),
        failure is None ==> r.success && r.exit_code == 0 && r.stdout@ == "Deployment deleted"@
            && r.stderr@ == Seq::<char>::empty() && r.error_message@ == Seq::<char>::empty(),
{
    match failure {
        Some(message) => construct_error_response(message),
        None => AgentResponse {
            success: true,
            exit_code: 0,
            stdout: String::from_str("Deployment deleted"),
            stderr: String::new(),
            error_message: String::new(),
        },
    }
}

/// Where the taking down of a deployment starts.
pub fn delete_begin() -> (r: DeleteState)
    ensures
        r == DeleteState::Run(DeleteStep::StopService),
{
    DeleteState::Run(DeleteStep::StopService)
}

/// Moves the taking down of a deployment on from a step that has ended: to
/// the next step after a success, and to a halt at that step after a failure.
pub fn delete_advance(step: DeleteStep, succeeded: bool) -> (r: DeleteState)
    ensures
        succeeded ==> r == delete_after(step),
        !succeeded ==> r == DeleteState::Aborted(step),
{
    if !succeeded {
        return DeleteState::Aborted(step);
    }
    match step {
        DeleteStep::StopService => DeleteState::Run(DeleteStep::RemoveUnitFile),
        DeleteStep::RemoveUnitFile => DeleteState::Run(DeleteStep::ReloadSupervisor),
        DeleteStep::ReloadSupervisor => DeleteState::Run(DeleteStep::DeprovisionUser),
        DeleteStep::DeprovisionUser => DeleteState::Run(DeleteStep::RemoveWebDir),
        DeleteStep::RemoveWebDir => DeleteState::Finished,
    }
}

impl KariAgentService {
    pub fn new(config: AgentConfig) -> (r: Self)
        ensures
            r.config == config,
            r.svc_mgr.systemd_dir@ == config.systemd_dir@,
            r.log_mgr.logrotate_dir@ == config.logrotate_dir@,
    {
        let svc_mgr = LinuxSystemdManager::new(config.systemd_dir.clone());
        let log_mgr = LinuxLogManager::new(config.logrotate_dir.clone());
        KariAgentService {
            jail_mgr: LinuxJailManager,
            svc_mgr,
            git_mgr: SystemGitManager,
            build_mgr: SystemBuildManager,
            release_mgr: SystemReleaseManager,
            log_mgr,
            config,
        }
    }

    /// Checks a package command before anything is run: the command must be
    /// on the whitelist, and no argument may hold `;`, `&` or `|`.
    pub fn execute_package_command(&self, request: &PackageRequest) -> (r: Result<
        (),
        AgentError,
    >)
        ensures
            match package_fault(request.command@, views(request.args@)) {
                Some(f) => r.is_err() && r.unwrap_err().is(f.0, f.1),
                None => r.is_ok(),
            },
    {
        if !command_allowed(request.command.as_str()) {
            return Err(
                AgentError::new(ErrorKind::PermissionDenied, "Command not in security whitelist"),
            );
        }
        let mut i: usize = 0;
        while i < request.args.len()
            invariant
                i <= request.args.len(),
                is_whitelisted(request.command@),
                forall|k: int| 0 <= k < i ==> is_clean_arg(#[trigger] views(request.args@)[k]),
            decreases request.args.len() - i,
        {
            if !arg_is_clean(request.args[i].as_str()) {
                assert(views(request.args@)[i as int] == request.args@[i as int]@);
                assert(!is_clean_arg(views(request.args@)[i as int]));
                return Err(
                    AgentError::new(
                        ErrorKind::InvalidArgument,
                        "Argument contains shell metacharacters",
                    ),
                );
            }
            assert(views(request.args@)[i as int] == request.args@[i as int]@);
            i = i + 1;
        }
        Ok(())
    }

    /// Checks a service request and gives the supervisor's arguments for it.
    /// The action must be one of the five, and the name one or more ASCII
    /// letters, digits, `-`, `.` and `@`.
    pub fn manage_service(&self, request: &ServiceRequest) -> (r: Result<Vec<String>, AgentError>)
        ensures
            match service_fault(*request) {
                Some(m) => r.is_err() && r.unwrap_err().is(ErrorKind::InvalidArgument, m),
                None => r.is_ok() && views(r.unwrap()@) == supervisor_args(
                    action_of(request.action).unwrap(),
                    request.service_name@,
                ),
            },
    {
        let action = match service_action(request.action) {
            Some(a) => a,
            None => {
                return Err(AgentError::new(ErrorKind::InvalidArgument, "Invalid service action"));
            },
        };
        let name = request.service_name.as_str();
        if name.unicode_len() == 0 || !str_all_in(name, CharClass::Unit) {
            return Err(AgentError::new(ErrorKind::InvalidArgument, "Invalid service name"));
        }
        let args = match action {
            ServiceAction::Start => self.svc_mgr.start(name),
            ServiceAction::Stop => self.svc_mgr.stop(name),
            ServiceAction::Restart => self.svc_mgr.restart(name),
            ServiceAction::ReloadDaemon => self.svc_mgr.reload_daemon(),
            ServiceAction::EnableAndStart => self.svc_mgr.enable_and_start(name),
        };
        Ok(args)
    }

    /// Plans a deployment below the configured web root, at a moment given as
    /// `YYYYMMDDHHMMSS`. A domain with `..`, `/` or `\` in it is refused, and
    /// so is a moment that is not fourteen digits.
    pub fn stream_deployment(&self, request: &DeployRequest, timestamp: &str) -> (r: Result<
        DeploymentPlan,
        AgentError,
    >)
        ensures
            match plan_fault(request.domain_name@, timestamp@) {
                Some(f) => r.is_err() && r.unwrap_err().is(f.0, f.1),
                None => r.is_ok() && {
                    let p = r.unwrap();
                    &&& p.base_dir@ == joined(self.config.web_root@, request.domain_name@)
                    &&& p.release_dir@ == release_dir(
                        self.config.web_root@,
                        request.domain_name@,
                        timestamp@,
                    )
                    &&& p.app_user@ == app_user(request.app_id@)
                    &&& p.service_name@ == domain_service(request.domain_name@)
                    &&& p.queue_capacity == 512
                },
            },
    {
        plan_deployment(self.config.web_root.as_str(), request, timestamp)
    }

    /// Checks the names of a deployment that is to be taken down and gives
    /// what its steps work on. A domain or an application id with `..`, `/`
    /// or `\` in it is refused.
    pub fn delete_deployment(&self, request: &DeleteRequest) -> (r: Result<DeletePlan, AgentError>)
        ensures
            !(is_safe_component(request.domain_name@) && is_safe_component(request.app_id@))
                ==> r.is_err() && r.unwrap_err().is(
                ErrorKind::InvalidArgument,
                "Path traversal detected"@,
            ),
            is_safe_component(request.domain_name@) && is_safe_component(request.app_id@)
                ==> r.is_ok() && {
                let p = r.unwrap();
                &&& p.service_name@ == domain_service(request.domain_name@)
                &&& p.unit_path@ == unit_path(
                    self.config.systemd_dir@,
                    domain_service(request.domain_name@),
                )
                &&& p.app_user@ == app_user(request.app_id@)
                &&& p.web_dir@ == joined(self.config.web_root@, request.domain_name@)
            },
    {
        let web_dir = match secure_join(
            self.config.web_root.as_str(),
            request.domain_name.as_str(),
        ) {
            Ok(p) => p,
            Err(e) => {
                return Err(e);
            },
        };
        if !is_safe(request.app_id.as_str()) {
            return Err(AgentError::new(ErrorKind::InvalidArgument, "Path traversal detected"));
        }
        let service_name = domain_service_name(request.domain_name.as_str());
        let mut unit = self.config.systemd_dir.clone();
        unit.append("/");
        unit.append(service_name.as_str());
        unit.append(".service");
        Ok(
            DeletePlan {
                service_name,
                unit_path: unit,
                app_user: app_user_name(request.app_id.as_str()),
                web_dir,
            },
        )
    }
}

} // verus!
