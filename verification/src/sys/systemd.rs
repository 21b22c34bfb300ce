//! Service units: what a unit file holds and how the supervisor is called.

use crate::error::{views, AgentError, ErrorKind};
use crate::text::{
    lemma_replaced_escapes_quotes,
    lemma_replaced_keeps_out,
    lemma_replaced_removes,
    quotes_escaped,
    replace_all,
    replaced,
};
use vstd::prelude::*;
use vstd::string::*;

verus! {

/// The mode of every unit file.
pub const UNIT_FILE_MODE: u32 = 0o644;

#[derive(Debug)]
pub struct ServiceConfig {
    pub service_name: String,
    pub username: String,
    pub working_directory: String,
    pub start_command: String,
    /// Environment of the service: name and value, in the order of the unit file.
    pub env_vars: Vec<(String, String)>,
}

/// A file to write, with the mode it gets once written.
#[derive(Debug)]
pub struct UnitFile {
    pub path: String,
    pub content: String,
    pub mode: u32,
}

#[derive(Debug)]
pub struct LinuxSystemdManager {
    pub systemd_dir: String,
}

/// A variable's name as it stands in a unit file: without line breaks.
pub open spec fn safe_env_key(key: Seq<char>) -> Seq<char> {
    replaced(key, "\n"@, ""@)
}

/// A variable's value as it stands in a unit file: without line breaks, and
/// with a backslash before every double quote.
pub open spec fn safe_env_value(value: Seq<char>) -> Seq<char> {
    replaced(replaced(value, "\n"@, ""@), "\""@, "\\\""@)
}

/// The directive that sets one variable.
pub open spec fn env_line(key: Seq<char>, value: Seq<char>) -> Seq<char> {
    "Environment=\""@ + safe_env_key(key) + "="@ + safe_env_value(value) + "\"\n"@
}

/// The directives for a list of variables, one line each.
pub open spec fn env_block(vars: Seq<(String, String)>) -> Seq<char>
    decreases vars.len(),
{
    if vars.len() == 0 {
        Seq::empty()
    } else {
        env_block(vars.drop_last()) + env_line(vars.last().0@, vars.last().1@)
    }
}

/// Everything in a unit file that follows the environment.
pub open spec fn unit_tail() -> Seq<char> {
    "\nRestart=always\nRestartSec=3\n\n# Resource limits\nCPUAccounting=true\nCPUQuota=100%\nMemoryAccounting=true\nMemoryMax=512M\nTasksMax=512\n\n# Security directives\nNoNewPrivileges=true\nProtectSystem=full\nPrivateTmp=true\nProtectHome=true\nProtectKernelTunables=true\nProtectKernelModules=true\nProtectControlGroups=true\nPrivateDevices=true\nRestrictAddressFamilies=AF_INET AF_INET6 AF_UNIX\n\n[Install]\nWantedBy=multi-user.target\n"@
}

/// The text of the unit file for a service.
pub open spec fn unit_text(config: ServiceConfig) -> Seq<char> {
    "[Unit]\nDescription=Kari Managed App: "@ + config.service_name@
        + "\nAfter=network.target\n\n[Service]\nType=simple\nUser="@ + config.username@
        + "\nGroup="@ + config.username@ + "\nWorkingDirectory="@ + config.working_directory@
        + "\nExecStart="@ + config.start_command@ + "\n"@ + env_block(config.env_vars@)
        + unit_tail()
}

/// Where the unit file of a service lies.
pub open spec fn unit_path(dir: Seq<char>, service_name: Seq<char>) -> Seq<char> {
    dir + "/"@ + service_name + ".service"@
}

/// The message for a supervisor call that ended in failure.
pub open spec fn systemctl_failure(verb: Seq<char>, stderr: Seq<char>) -> Seq<char> {
    "systemctl "@ + verb + " failed: "@ + stderr
}

/// Takes the line breaks out of a variable's name.
pub fn sanitize_env_key(key: &str) -> (r: String)
    ensures
        r@ == safe_env_key(key@),
        !r@.contains('\n'),
{
    let r = replace_all(key, "\n", "");
    proof {
        reveal_strlit("\n");
        reveal_strlit("");
        assert("\n"@ =~= seq!['\n']);
        lemma_replaced_removes(key@, '\n', ""@);
    }
    r
}

/// Takes the line breaks out of a variable's value and escapes its double
/// quotes.
pub fn sanitize_env_value(value: &str) -> (r: String)
    ensures
        r@ == safe_env_value(value@),
        !r@.contains('\n'),
        quotes_escaped(r@),
{
    let flat = replace_all(value, "\n", "");
    let r = replace_all(flat.as_str(), "\"", "\\\"");
    proof {
        reveal_strlit("\n");
        reveal_strlit("");
        reveal_strlit("\"");
        reveal_strlit("\\\"");
        assert("\n"@ =~= seq!['\n']);
        lemma_replaced_removes(value@, '\n', ""@);
        lemma_replaced_keeps_out(flat@, "\""@, "\\\""@, '\n');
        assert("\""@ =~= seq!['"']);
        assert("\\\""@ =~= seq!['\\', '"']);
        lemma_replaced_escapes_quotes(flat@);
    }
    r
}

/// A variable's directive holds one line break, its last character: no name
/// and no value can start a directive of its own.
pub proof fn lemma_env_line_is_one_line(key: Seq<char>, value: Seq<char>)
    ensures
        env_line(key, value).last() == '\n',
        !env_line(key, value).drop_last().contains('\n'),
{
    reveal_strlit("\n");
    reveal_strlit("");
    reveal_strlit("\"");
    reveal_strlit("\\\"");
    reveal_strlit("Environment=\"");
    reveal_strlit("=");
    reveal_strlit("\"\n");
    assert("\n"@ =~= seq!['\n']);
    let k = safe_env_key(key);
    let v = safe_env_value(value);
    lemma_replaced_removes(key, '\n', ""@);
    lemma_replaced_removes(value, '\n', ""@);
    lemma_replaced_keeps_out(replaced(value, "\n"@, ""@), "\""@, "\\\""@, '\n');
    let line = env_line(key, value);
    let head = "Environment=\""@;
    let body = line.drop_last();
    assert(line.len() == 13 + k.len() + 1 + v.len() + 2);
    assert forall|i: int| 0 <= i < body.len() implies body[i] != '\n' by {
        if i < 13 {
            assert(body[i] == head[i]);
        } else if i < 13 + k.len() {
            assert(body[i] == k[i - 13]);
            assert(k.contains(k[i - 13]));
        } else if i == 13 + k.len() {
        } else if i < 14 + k.len() + v.len() {
            assert(body[i] == v[i - 14 - k.len()]);
            assert(v.contains(v[i - 14 - k.len()]));
        } else {
        }
    }
}

/// Renders the directives for a list of variables.
pub fn render_env_block(vars: &Vec<(String, String)>) -> (r: String)
    ensures
        r@ == env_block(vars@),
{
    let mut out = String::new();
    let mut i: usize = 0;
    assert(vars@.subrange(0, 0) =~= Seq::<(String, String)>::empty());
    while i < vars.len()
        invariant
            i <= vars.len(),
            out@ == env_block(vars@.subrange(0, i as int)),
        decreases vars.len() - i,
    {
        let key = sanitize_env_key(vars[i].0.as_str());
        let value = sanitize_env_value(vars[i].1.as_str());
        let ghost before = out@;
        out.append("Environment=\"");
        out.append(key.as_str());
        out.append("=");
        out.append(value.as_str());
        out.append("\"\n");
        proof {
            let next = vars@.subrange(0, i + 1);
            assert(next.drop_last() =~= vars@.subrange(0, i as int));
            assert(next.last() == vars@[i as int]);
            assert(out@ =~= before + env_line(vars@[i as int].0@, vars@[i as int].1@));
        }
        i = i + 1;
    }
    assert(vars@.subrange(0, i as int) =~= vars@);
    out
}

/// The argument vector of a supervisor call with a verb and a unit.
pub fn verb_and_unit(verb: &str, unit: &str) -> (r: Vec<String>)
    ensures
        views(r@) == seq![verb@, unit@],
{
    let mut r: Vec<String> = Vec::new();
    r.push(String::from_str(verb));
    r.push(String::from_str(unit));
    assert(views(r@) =~= seq![verb@, unit@]);
    r
}

/// What the agent asks of a service supervisor.
pub trait ServiceManager {
    /// The directory that holds the unit files.
    spec fn unit_dir(&self) -> Seq<char>;

    /// Gives the unit file of a service: its place under the unit directory,
    /// its text, and mode `0o644`.
    fn write_unit_file(&self, config: &ServiceConfig) -> (r: UnitFile)
        ensures
            r.path@ == unit_path(self.unit_dir(), config.service_name@),
            r.content@ == unit_text(*config),
            r.mode == UNIT_FILE_MODE,
            r.mode == 0o644,
    ;

    /// The arguments that make the supervisor read its unit files again.
    fn reload_daemon(&self) -> (r: Vec<String>)
        ensures
            views(r@) == seq!["daemon-reload"@],
    ;

    /// The arguments that enable a unit and start it at once.
    fn enable_and_start(&self, service_name: &str) -> (r: Vec<String>)
        ensures
            views(r@) == seq!["enable"@, "--now"@, service_name@],
    ;

    /// The arguments that start a unit.
    fn start(&self, service_name: &str) -> (r: Vec<String>)
        ensures
            views(r@) == seq!["start"@, service_name@],
    ;

    /// The arguments that stop a unit.
    fn stop(&self, service_name: &str) -> (r: Vec<String>)
        ensures
            views(r@) == seq!["stop"@, service_name@],
    ;

    /// The arguments that restart a unit.
    fn restart(&self, service_name: &str) -> (r: Vec<String>)
        ensures
            views(r@) == seq!["restart"@, service_name@],
    ;
}

impl ServiceManager for LinuxSystemdManager {
    open spec fn unit_dir(&self) -> Seq<char> {
        self.systemd_dir@
    }

    fn write_unit_file(&self, config: &ServiceConfig) -> (r: UnitFile) {
        let mut path = self.systemd_dir.clone();
        path.append("/");
        path.append(config.service_name.as_str());
        path.append(".service");
        let env = render_env_block(&config.env_vars);
        let mut content = String::from_str("[Unit]\nDescription=Kari Managed App: ");
        content.append(config.service_name.as_str());
        content.append("\nAfter=network.target\n\n[Service]\nType=simple\nUser=");
        content.append(config.username.as_str());
        content.append("\nGroup=");
        content.append(config.username.as_str());
        content.append("\nWorkingDirectory=");
        content.append(config.working_directory.as_str());
        content.append("\nExecStart=");
        content.append(config.start_command.as_str());
        content.append("\n");
        content.append(env.as_str());
        content.append(
            "\nRestart=always\nRestartSec=3\n\n# Resource limits\nCPUAccounting=true\nCPUQuota=100%\nMemoryAccounting=true\nMemoryMax=512M\nTasksMax=512\n\n# Security directives\nNoNewPrivileges=true\nProtectSystem=full\nPrivateTmp=true\nProtectHome=true\nProtectKernelTunables=true\nProtectKernelModules=true\nProtectControlGroups=true\nPrivateDevices=true\nRestrictAddressFamilies=AF_INET AF_INET6 AF_UNIX\n\n[Install]\nWantedBy=multi-user.target\n",
        );
        UnitFile { path, content, mode: UNIT_FILE_MODE }
    }

    fn reload_daemon(&self) -> (r: Vec<String>) {
        let mut r: Vec<String> = Vec::new();
        r.push(String::from_str("daemon-reload"));
        assert(views(r@) =~= seq!["daemon-reload"@]);
        r
    }

    fn enable_and_start(&self, service_name: &str) -> (r: Vec<String>) {
        let mut r: Vec<String> = Vec::new();
        r.push(String::from_str("enable"));
        r.push(String::from_str("--now"));
        r.push(String::from_str(service_name));
        assert(views(r@) =~= seq!["enable"@, "--now"@, service_name@]);
        r
    }

    fn start(&self, service_name: &str) -> (r: Vec<String>) {
        verb_and_unit("start", service_name)
    }

    fn stop(&self, service_name: &str) -> (r: Vec<String>) {
        verb_and_unit("stop", service_name)
    }

    fn restart(&self, service_name: &str) -> (r: Vec<String>) {
        verb_and_unit("restart", service_name)
    }
}

impl LinuxSystemdManager {
    pub fn new(systemd_dir: String) -> (r: Self)
        ensures
            r.systemd_dir == systemd_dir,
    {
        LinuxSystemdManager { systemd_dir }
    }

    /// Turns the end of a supervisor call into a result: success, or an error
    /// that names the verb and carries what the supervisor wrote to stderr.
    pub fn execute_systemctl(&self, verb: &str, success: bool, stderr: &str) -> (r: Result<
        (),
        AgentError,
    >)
        ensures
            success ==> r.is_ok(),
            !success ==> r.is_err() && r.unwrap_err().is(
                ErrorKind::ExitFailure,
                systemctl_failure(verb@, stderr@),
            ),
    {
        if success {
            Ok(())
        } else {
            let mut message = String::from_str("systemctl ");
            message.append(verb);
            message.append(" failed: ");
            message.append(stderr);
            Err(AgentError { kind: ErrorKind::ExitFailure, message })
        }
    }
}
} // verus!
