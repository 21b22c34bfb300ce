//! Jails: the unprivileged user of an application and its directory.

use crate::error::{views, AgentError, ErrorKind};
use vstd::prelude::*;
use vstd::string::*;

verus! {

/// The mode of an application's directory.
pub const APP_DIR_MODE: u32 = 0o750;

#[derive(Clone, Copy, Debug)]
pub struct LinuxJailManager;

/// What securing a directory takes: the directory is made if it is missing,
/// given to the user with everything in it, and set to mode `0o750` itself.
#[derive(Debug)]
pub struct DirectoryPlan {
    pub path: String,
    pub chown_args: Vec<String>,
    pub mode: u32,
}

/// The arguments that create a system user without a login shell.
pub open spec fn useradd_args(username: Seq<char>) -> Seq<Seq<char>> {
    seq!["--system"@, "--shell"@, "/bin/false"@, username]
}

/// The arguments that hand a directory and all below it to a user and to the
/// group of the same name.
pub open spec fn chown_args(username: Seq<char>, path: Seq<char>) -> Seq<Seq<char>> {
    seq!["-R"@, username + ":"@ + username, path]
}

/// What is left to do for a user: nothing where the user exists, else the
/// creation.
pub open spec fn provision_plan(username: Seq<char>, user_exists: bool) -> Option<Seq<Seq<char>>> {
    if user_exists {
        None
    } else {
        Some(useradd_args(username))
    }
}

/// Provisioning a user a second time does nothing: once the user exists, no
/// command is left to run, whoever asks and however often.
pub proof fn lemma_provision_is_idempotent(username: Seq<char>)
    ensures
        provision_plan(username, false) is Some,
        provision_plan(username, true) is None,
{
}

/// The message for a user that could not be removed.
pub open spec fn userdel_failure(username: Seq<char>, stderr: Seq<char>) -> Seq<char> {
    "Failed to remove user "@ + username + ": "@ + stderr
}

/// The message for a user that could not be created.
pub open spec fn useradd_failure(username: Seq<char>, stderr: Seq<char>) -> Seq<char> {
    "Failed to create user "@ + username + ": "@ + stderr
}

/// What the agent asks of the keeper of application users and directories.
pub trait JailManager {
    /// Says what is left to do for a user after the probe: nothing where the
    /// user exists, else the creation of a system user with shell
    /// `/bin/false`.
    fn provision_app_user(&self, username: &str, user_exists: bool) -> (r: Option<
        Vec<String>,
    >)
        ensures
            match provision_plan(username@, user_exists) {
                Some(args) => r is Some && views(r.unwrap()@) == args,
                None => r is None,
            },
    ;

    /// Says how a directory is secured for a user: ownership changes for all
    /// of it, the mode `0o750` for the directory alone.
    fn secure_directory(&self, path: &str, username: &str) -> (r: DirectoryPlan)
        ensures
            r.path@ == path@,
            views(r.chown_args@) == chown_args(username@, path@),
            r.mode == 0o750,
    ;
}

impl JailManager for LinuxJailManager {
    fn provision_app_user(&self, username: &str, user_exists: bool) -> (r: Option<
        Vec<String>,
    >) {
        if user_exists {
            return None;
        }
        let mut args: Vec<String> = Vec::new();
        args.push(String::from_str("--system"));
        args.push(String::from_str("--shell"));
        args.push(String::from_str("/bin/false"));
        args.push(String::from_str(username));
        assert(views(args@) =~= useradd_args(username@));
        Some(args)
    }

    fn secure_directory(&self, path: &str, username: &str) -> (r: DirectoryPlan) {
        let mut owner = String::from_str(username);
        owner.append(":");
        owner.append(username);
        let mut args: Vec<String> = Vec::new();
        args.push(String::from_str("-R"));
        args.push(owner);
        args.push(String::from_str(path));
        assert(views(args@) =~= chown_args(username@, path@));
        DirectoryPlan { path: String::from_str(path), chown_args: args, mode: APP_DIR_MODE }
    }
}

impl LinuxJailManager {
    /// The arguments of the probe that tells whether a user exists.
    pub fn probe_args(&self, username: &str) -> (r: Vec<String>)
        ensures
            views(r@) == seq!["-u"@, username@],
    {
        let mut r: Vec<String> = Vec::new();
        r.push(String::from_str("-u"));
        r.push(String::from_str(username));
        assert(views(r@) =~= seq!["-u"@, username@]);
        r
    }

    /// The arguments that remove an application's user.
    pub fn deprovision_app_user(&self, username: &str) -> (r: Vec<String>)
        ensures
            views(r@) == seq![username@],
    {
        let mut r: Vec<String> = Vec::new();
        r.push(String::from_str(username));
        assert(views(r@) =~= seq![username@]);
        r
    }

    /// Turns the end of the user's creation into a result.
    pub fn provision_result(&self, username: &str, success: bool, stderr: &str) -> (r: Result<
        (),
        AgentError,
    >)
        ensures
            success ==> r.is_ok(),
            !success ==> r.is_err() && r.unwrap_err().is(
                ErrorKind::ExitFailure,
                useradd_failure(username@, stderr@),
            ),
    {
        if success {
            return Ok(());
        }
        let mut message = String::from_str("Failed to create user ");
        message.append(username);
        message.append(": ");
        message.append(stderr);
        Err(AgentError { kind: ErrorKind::ExitFailure, message })
    }

    /// Turns the end of the user's removal into a result.
    pub fn deprovision_result(&self, username: &str, success: bool, stderr: &str) -> (r: Result<
        (),
        AgentError,
    >)
        ensures
            success ==> r.is_ok(),
            !success ==> r.is_err() && r.unwrap_err().is(
                ErrorKind::ExitFailure,
                userdel_failure(username@, stderr@),
            ),
    {
        if success {
            return Ok(());
        }
        let mut message = String::from_str("Failed to remove user ");
        message.append(username);
        message.append(": ");
        message.append(stderr);
        Err(AgentError { kind: ErrorKind::ExitFailure, message })
    }

    /// Turns the ends of the two changes into a result; the mode is only
    /// changed once the ownership is.
    pub fn secure_result(&self, chown_ok: bool, chmod_ok: bool) -> (r: Result<(), AgentError>)
        ensures
            !chown_ok ==> r.is_err() && r.unwrap_err().is(
                ErrorKind::ExitFailure,
                "Failed to chown application directory"@,
            ),
            chown_ok && !chmod_ok ==> r.is_err() && r.unwrap_err().is(
                ErrorKind::ExitFailure,
                "Failed to chmod application directory"@,
            ),
            chown_ok && chmod_ok ==> r.is_ok(),
    {
        if !chown_ok {
            return Err(
                AgentError::new(ErrorKind::ExitFailure, "Failed to chown application directory"),
            );
        }
        if !chmod_ok {
            return Err(
                AgentError::new(ErrorKind::ExitFailure, "Failed to chmod application directory"),
            );
        }
        Ok(())
    }
}
} // verus!
