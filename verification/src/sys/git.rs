//! Fetching sources: the clone's arguments and environment, and what is let
//! through of its errors.

use crate::error::{views, AgentError, ErrorKind};
use crate::text::{regex_replace_all, regex_replaced, replace_all, replaced, starts_with, str_starts_with};
use vstd::prelude::*;
use vstd::string::*;

verus! {

/// The mode of the file that holds an SSH key while a clone runs.
pub const KEY_FILE_MODE: u32 = 0o600;

/// How many zero bytes are written over the key's file after the clone.
pub const KEY_SCRUB_LEN: usize = 4096;

#[derive(Clone, Copy, Debug)]
pub struct SystemGitManager;

/// The program arguments and the environment of a clone.
#[derive(Debug)]
pub struct ClonePlan {
    pub args: Vec<String>,
    pub ssh_command: String,
    pub terminal_prompt: String,
}

/// Neither the URL nor the branch may look like an option.
pub open spec fn clone_args_ok(repo_url: Seq<char>, branch: Seq<char>) -> bool {
    !starts_with(repo_url, '-') && !starts_with(branch, '-')
}

/// The value of `GIT_SSH_COMMAND`: with the key's file where there is one.
pub open spec fn ssh_command(key_path: Option<Seq<char>>) -> Seq<char> {
    match key_path {
        Some(p) => "ssh -o StrictHostKeyChecking=accept-new -o IdentitiesOnly=yes"@ + " -i '"@ + p
            + "'"@,
        None => "ssh -o StrictHostKeyChecking=accept-new -o IdentitiesOnly=yes"@,
    }
}

/// The arguments of a shallow clone of one branch, with hooks disabled and
/// `--` before the URL.
pub open spec fn clone_args(repo_url: Seq<char>, branch: Seq<char>, target: Seq<char>) -> Seq<
    Seq<char>,
> {
    seq![
        "-c"@,
        "core.hooksPath=/dev/null"@,
        "clone"@,
        "--depth"@,
        "1"@,
        "--branch"@,
        branch,
        "--recurse-submodules"@,
        "--shallow-submodules"@,
        "--"@,
        repo_url,
        target,
    ]
}

/// A text with the user part of every `scheme://user@` and `git@user@` in it
/// replaced, as the pattern matcher does it; where the matcher refuses the
/// pattern, nothing of the text is let through.
pub open spec fn scrubbed(input: Seq<char>) -> Seq<char> {
    match regex_replaced("(://|git@)([^@]+)@"@, input, "$1[REDACTED]@"@) {
        Some(s) => s,
        None => "[REDACTED]"@,
    }
}

/// What is reported of a clone that failed: its stderr without the URL and
/// without credentials.
pub open spec fn clone_failure(repo_url: Seq<char>, stderr: Seq<char>) -> Seq<char> {
    "Git Sync Failed: "@ + scrubbed(replaced(stderr, repo_url, "[REPO_URL]"@))
}

pub open spec fn opt_view(s: Option<&str>) -> Option<Seq<char>> {
    match s {
        Some(p) => Some(p@),
        None => None,
    }
}

/// What the agent asks of a fetcher of sources.
pub trait GitManager {
    /// Checks the URL and the branch and gives the clone's arguments and its
    /// environment: `GIT_SSH_COMMAND`, which names the key's file where there
    /// is one, and `GIT_TERMINAL_PROMPT`, which is `0`.
    fn clone_repo(
        &self,
        repo_url: &str,
        branch: &str,
        target_dir: &str,
        key_path: Option<&str>,
    ) -> (r: Result<ClonePlan, AgentError>)
        ensures
            !clone_args_ok(repo_url@, branch@) ==> r.is_err() && r.unwrap_err().is(
                ErrorKind::SecurityViolation,
                "SECURITY VIOLATION: Suspicious git arguments detected"@,
            ),
            clone_args_ok(repo_url@, branch@) ==> r.is_ok() && {
                let p = r.unwrap();
                &&& views(p.args@) == clone_args(repo_url@, branch@, target_dir@)
                &&& p.ssh_command@ == ssh_command(opt_view(key_path))
                &&& p.terminal_prompt@ == "0"@
            },
    ;
}

impl GitManager for SystemGitManager {
    fn clone_repo(
        &self,
        repo_url: &str,
        branch: &str,
        target_dir: &str,
        key_path: Option<&str>,
    ) -> (r: Result<ClonePlan, AgentError>) {
        match self.check_clone_args(repo_url, branch) {
            Err(e) => {
                return Err(e);
            },
            Ok(()) => {},
        }
        let mut ssh = String::from_str(
            "ssh -o StrictHostKeyChecking=accept-new -o IdentitiesOnly=yes",
        );
        match key_path {
            Some(p) => {
                ssh.append(" -i '");
                ssh.append(p);
                ssh.append("'");
            },
            None => {},
        }
        let mut args: Vec<String> = Vec::new();
        args.push(String::from_str("-c"));
        args.push(String::from_str("core.hooksPath=/dev/null"));
        args.push(String::from_str("clone"));
        args.push(String::from_str("--depth"));
        args.push(String::from_str("1"));
        args.push(String::from_str("--branch"));
        args.push(String::from_str(branch));
        args.push(String::from_str("--recurse-submodules"));
        args.push(String::from_str("--shallow-submodules"));
        args.push(String::from_str("--"));
        args.push(String::from_str(repo_url));
        args.push(String::from_str(target_dir));
        assert(views(args@) =~= clone_args(repo_url@, branch@, target_dir@));
        Ok(ClonePlan { args, ssh_command: ssh, terminal_prompt: String::from_str("0") })
    }
}

impl SystemGitManager {
    /// Gives what the pattern matcher made of a text, or the fixed marker where
    /// it refused the pattern.
    pub fn scrub_outcome(matched: Option<String>) -> (r: String)
        ensures
            matched is Some ==> r@ == matched.unwrap()@,
            matched is None ==> r@ == "[REDACTED]"@,
    {
        match matched {
            Some(s) => s,
            None => String::from_str("[REDACTED]"),
        }
    }

    /// Redacts the credentials in a text.
    pub fn scrub_credentials(input: &str) -> (r: String)
        ensures
            r@ == scrubbed(input@),
    {
        Self::scrub_outcome(regex_replace_all("(://|git@)([^@]+)@", input, "$1[REDACTED]@"))
    }

    /// Tells whether a URL and a branch may be handed to the clone: neither
    /// may begin with `-`.
    pub fn check_clone_args(&self, repo_url: &str, branch: &str) -> (r: Result<(), AgentError>)
        ensures
            clone_args_ok(repo_url@, branch@) ==> r.is_ok(),
            !clone_args_ok(repo_url@, branch@) ==> r.is_err() && r.unwrap_err().is(
                ErrorKind::SecurityViolation,
                "SECURITY VIOLATION: Suspicious git arguments detected"@,
            ),
    {
        if str_starts_with(repo_url, '-') || str_starts_with(branch, '-') {
            Err(
                AgentError::new(
                    ErrorKind::SecurityViolation,
                    "SECURITY VIOLATION: Suspicious git arguments detected",
                ),
            )
        } else {
            Ok(())
        }
    }

    /// Turns the end of a clone into a result. A failure is reported with the
    /// clone's stderr, in which the URL is replaced by `[REPO_URL]` and
    /// credentials are redacted.
    pub fn clone_result(&self, repo_url: &str, success: bool, stderr: &str) -> (r: Result<
        (),
        AgentError,
    >)
        ensures
            success ==> r.is_ok(),
            !success ==> r.is_err() && r.unwrap_err().is(
                ErrorKind::ExitFailure,
                clone_failure(repo_url@, stderr@),
            ),
    {
        if success {
            return Ok(());
        }
        let without_url = replace_all(stderr, repo_url, "[REPO_URL]");
        let clean = Self::scrub_credentials(without_url.as_str());
        let mut message = String::from_str("Git Sync Failed: ");
        message.append(clean.as_str());
        Err(AgentError { kind: ErrorKind::ExitFailure, message })
    }
}
} // verus!
