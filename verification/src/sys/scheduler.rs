//! Scheduled jobs: a service unit and a timer unit for each.

use crate::error::{views, AgentError, ErrorKind};
use crate::sys::systemd::{UnitFile, UNIT_FILE_MODE};
use crate::text::{all_in, replace_all, replaced, str_all_in, str_contains_char, CharClass};
use vstd::prelude::*;
use vstd::string::*;

verus! {

#[derive(Debug)]
pub struct JobIntent {
    pub name: String,
    pub binary: String,
    pub args: Vec<String>,
    pub schedule: String,
    pub run_as_user: String,
}

/// The two unit files of a job, and the timer to enable once they are written.
#[derive(Debug)]
pub struct JobPlan {
    pub service: UnitFile,
    pub timer: UnitFile,
    pub timer_name: String,
}

#[derive(Debug)]
pub struct SystemdTimerManager {
    pub systemd_dir: String,
}

/// A job's name is one or more ASCII letters, digits and hyphens.
pub open spec fn valid_job_name(name: Seq<char>) -> bool {
    name.len() > 0 && all_in(name, CharClass::Label)
}

/// A schedule holds neither a line break nor `=`.
pub open spec fn valid_schedule(schedule: Seq<char>) -> bool {
    !schedule.contains('\n') && !schedule.contains('=')
}

/// Why a job is refused, if it is.
pub open spec fn job_fault(intent: JobIntent) -> Option<Seq<char>> {
    if !valid_job_name(intent.name@) {
        Some("SECURITY VIOLATION: Invalid job name format"@)
    } else if !valid_schedule(intent.schedule@) {
        Some("SECURITY VIOLATION: Invalid characters in schedule"@)
    } else {
        None
    }
}

/// The arguments as they follow the binary: each after a blank, in double
/// quotes, with a backslash before every double quote inside.
pub open spec fn quoted_args(args: Seq<Seq<char>>) -> Seq<char>
    decreases args.len(),
{
    if args.len() == 0 {
        Seq::empty()
    } else {
        quoted_args(args.drop_last()) + " \""@ + replaced(args.last(), "\""@, "\\\""@) + "\""@
    }
}

/// The name under which a job's units are filed.
pub open spec fn job_unit_name(name: Seq<char>) -> Seq<char> {
    "kari-job-"@ + name
}

pub open spec fn job_service_path(dir: Seq<char>, name: Seq<char>) -> Seq<char> {
    dir + "/"@ + job_unit_name(name) + ".service"@
}

pub open spec fn job_timer_path(dir: Seq<char>, name: Seq<char>) -> Seq<char> {
    dir + "/"@ + job_unit_name(name) + ".timer"@
}

pub open spec fn job_timer_name(name: Seq<char>) -> Seq<char> {
    job_unit_name(name) + ".timer"@
}

/// The text of a job's service unit.
pub open spec fn job_service_text(intent: JobIntent) -> Seq<char> {
    "[Unit]\nDescription=Kari Scheduled Job: "@ + intent.name@
        + "\nAfter=network.target\n\n[Service]\nType=oneshot\nUser="@ + intent.run_as_user@
        + "\nGroup="@ + intent.run_as_user@ + "\nExecStart="@ + intent.binary@ + quoted_args(
        views(intent.args@),
    )
        + "\n\n# Security directives\nNoNewPrivileges=true\nProtectSystem=full\nPrivateTmp=true\nProtectHome=true\nProtectKernelTunables=true\nProtectControlGroups=true\n"@
}

/// The text of a job's timer unit.
pub open spec fn job_timer_text(intent: JobIntent) -> Seq<char> {
    "[Unit]\nDescription=Kari Timer for "@ + intent.name@ + "\n\n[Timer]\nOnCalendar="@
        + intent.schedule@
        + "\nPersistent=true\nAccuracySec=1s\n\n[Install]\nWantedBy=timers.target\n"@
}

/// The message for a timer that could not be enabled.
pub open spec fn timer_failure(timer_name: Seq<char>, stderr: Seq<char>) -> Seq<char> {
    "Failed to activate timer "@ + timer_name + ": "@ + stderr
}

/// Renders the arguments of a job behind its binary.
pub fn render_quoted_args(args: &Vec<String>) -> (r: String)
    ensures
        r@ == quoted_args(views(args@)),
{
    let mut out = String::new();
    let mut i: usize = 0;
    assert(views(args@).subrange(0, 0) =~= Seq::<Seq<char>>::empty());
    while i < args.len()
        invariant
            i <= args.len(),
            out@ == quoted_args(views(args@).subrange(0, i as int)),
        decreases args.len() - i,
    {
        let safe = replace_all(args[i].as_str(), "\"", "\\\"");
        let ghost before = out@;
        out.append(" \"");
        out.append(safe.as_str());
        out.append("\"");
        proof {
            let next = views(args@).subrange(0, i + 1);
            assert(next.drop_last() =~= views(args@).subrange(0, i as int));
            assert(next.last() == args@[i as int]@);
        }
        i = i + 1;
    }
    assert(views(args@).subrange(0, i as int) =~= views(args@));
    out
}

/// What the agent asks of a scheduler of recurring jobs.
pub trait JobScheduler {
    /// The directory that holds the unit files.
    spec fn unit_dir(&self) -> Seq<char>;

    /// Checks a job and gives its two unit files, both of mode `0o644`, and the
    /// name of its timer. A job is refused for a name that is empty or holds
    /// anything but ASCII letters, digits and hyphens, and for a schedule with
    /// a line break or `=` in it.
    fn schedule_job(&self, intent: &JobIntent) -> (r: Result<JobPlan, AgentError>)
        ensures
            match job_fault(*intent) {
                Some(m) => r.is_err() && r.unwrap_err().is(ErrorKind::SecurityViolation, m),
                None => r.is_ok() && {
                    let p = r.unwrap();
                    &&& p.service.path@ == job_service_path(self.unit_dir(), intent.name@)
                    &&& p.service.content@ == job_service_text(*intent)
                    &&& p.service.mode == 0o644
                    &&& p.timer.path@ == job_timer_path(self.unit_dir(), intent.name@)
                    &&& p.timer.content@ == job_timer_text(*intent)
                    &&& p.timer.mode == 0o644
                    &&& p.timer_name@ == job_timer_name(intent.name@)
                },
            },
    ;
}

impl JobScheduler for SystemdTimerManager {
    open spec fn unit_dir(&self) -> Seq<char> {
        self.systemd_dir@
    }

    fn schedule_job(&self, intent: &JobIntent) -> (r: Result<JobPlan, AgentError>) {
        if intent.name.as_str().unicode_len() == 0 || !str_all_in(
            intent.name.as_str(),
            CharClass::Label,
        ) {
            return Err(
                AgentError::new(
                    ErrorKind::SecurityViolation,
                    "SECURITY VIOLATION: Invalid job name format",
                ),
            );
        }
        if str_contains_char(intent.schedule.as_str(), '\n') || str_contains_char(
            intent.schedule.as_str(),
            '=',
        ) {
            return Err(
                AgentError::new(
                    ErrorKind::SecurityViolation,
                    "SECURITY VIOLATION: Invalid characters in schedule",
                ),
            );
        }
        let mut unit_name = String::from_str("kari-job-");
        unit_name.append(intent.name.as_str());

        let mut service_path = self.systemd_dir.clone();
        service_path.append("/");
        service_path.append(unit_name.as_str());
        service_path.append(".service");

        let mut timer_path = self.systemd_dir.clone();
        timer_path.append("/");
        timer_path.append(unit_name.as_str());
        timer_path.append(".timer");

        let mut timer_name = unit_name.clone();
        timer_name.append(".timer");

        let quoted = render_quoted_args(&intent.args);
        let mut service_text = String::from_str("[Unit]\nDescription=Kari Scheduled Job: ");
        service_text.append(intent.name.as_str());
        service_text.append("\nAfter=network.target\n\n[Service]\nType=oneshot\nUser=");
        service_text.append(intent.run_as_user.as_str());
        service_text.append("\nGroup=");
        service_text.append(intent.run_as_user.as_str());
        service_text.append("\nExecStart=");
        service_text.append(intent.binary.as_str());
        service_text.append(quoted.as_str());
        service_text.append(
            "\n\n# Security directives\nNoNewPrivileges=true\nProtectSystem=full\nPrivateTmp=true\nProtectHome=true\nProtectKernelTunables=true\nProtectControlGroups=true\n",
        );

        let mut timer_text = String::from_str("[Unit]\nDescription=Kari Timer for ");
        timer_text.append(intent.name.as_str());
        timer_text.append("\n\n[Timer]\nOnCalendar=");
        timer_text.append(intent.schedule.as_str());
        timer_text.append(
            "\nPersistent=true\nAccuracySec=1s\n\n[Install]\nWantedBy=timers.target\n",
        );

        proof {
            assert(service_path@ =~= job_service_path(self.systemd_dir@, intent.name@));
            assert(timer_path@ =~= job_timer_path(self.systemd_dir@, intent.name@));
        }
        Ok(
            JobPlan {
                service: UnitFile {
                    path: service_path,
                    content: service_text,
                    mode: UNIT_FILE_MODE,
                },
                timer: UnitFile { path: timer_path, content: timer_text, mode: UNIT_FILE_MODE },
                timer_name,
            },
        )
    }
}

impl SystemdTimerManager {
    pub fn new(systemd_dir: String) -> (r: Self)
        ensures
            r.systemd_dir == systemd_dir,
    {
        SystemdTimerManager { systemd_dir }
    }

    /// What the job's scheduling comes to once the supervisor has read the
    /// units (`reloaded`) and, after that, was asked to enable the timer.
    /// A failed reload ends it; a failed enabling is reported with the
    /// supervisor's stderr.
    pub fn activation_result(
        &self,
        timer_name: &str,
        reloaded: bool,
        enabled: bool,
        stderr: &str,
    ) -> (r: Result<(), AgentError>)
        ensures
            !reloaded ==> r.is_err() && r.unwrap_err().is(
                ErrorKind::ExitFailure,
                "systemctl daemon-reload failed"@,
            ),
            reloaded && !enabled ==> r.is_err() && r.unwrap_err().is(
                ErrorKind::ExitFailure,
                timer_failure(timer_name@, stderr@),
            ),
            reloaded && enabled ==> r.is_ok(),
    {
        if !reloaded {
            return Err(AgentError::new(ErrorKind::ExitFailure, "systemctl daemon-reload failed"));
        }
        if !enabled {
            let mut message = String::from_str("Failed to activate timer ");
            message.append(timer_name);
            message.append(": ");
            message.append(stderr);
            return Err(AgentError { kind: ErrorKind::ExitFailure, message });
        }
        Ok(())
    }
}
} // verus!
