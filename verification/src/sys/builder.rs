//! Builds: how the build command is launched, how its output becomes log
//! chunks, and what its end means.

use crate::error::{views, AgentError, ErrorKind};
use crate::messages::LogChunk;
use crate::sys::names::{check_label, is_label};
use crate::text::{decimal, decimal_string};
use vstd::prelude::*;
use vstd::string::*;

verus! {

#[derive(Clone, Copy, Debug)]
pub struct SystemBuildManager;

/// The stream of the build that a line was read from.
#[derive(Clone, Copy, Debug, PartialEq, Eq, Structural)]
pub enum LogStream {
    Stdout,
    Stderr,
}

/// The mark that tells the lines of one stream from those of the other.
pub open spec fn stream_prefix(stream: LogStream) -> Seq<char> {
    match stream {
        LogStream::Stdout => "[OUT] "@,
        LogStream::Stderr => "[ERR] "@,
    }
}

/// A line as it is sent: marked, and ended by a line break.
pub open spec fn log_line(stream: LogStream, line: Seq<char>) -> Seq<char> {
    stream_prefix(stream) + line + "\n"@
}

/// Every line that is sent ends with a line break and starts with the mark of
/// its stream, and the two marks differ.
pub proof fn lemma_log_line_is_marked(stream: LogStream, line: Seq<char>)
    ensures
        log_line(stream, line).last() == '\n',
        log_line(stream, line).subrange(0, 6) == stream_prefix(stream),
        stream_prefix(LogStream::Stdout) != stream_prefix(LogStream::Stderr),
{
    reveal_strlit("[OUT] ");
    reveal_strlit("[ERR] ");
    reveal_strlit("\n");
    assert(log_line(stream, line).subrange(0, 6) =~= stream_prefix(stream));
    assert(stream_prefix(LogStream::Stdout)[1] != stream_prefix(LogStream::Stderr)[1]);
}

/// The launcher's arguments: the user to become, then a shell that runs the
/// command.
pub open spec fn launcher_args(user: Seq<char>, command: Seq<char>) -> Seq<Seq<char>> {
    seq!["-u"@, user, "--"@, "sh"@, "-c"@, command]
}

/// What is reported of a build that ended with this exit code, or by a signal.
pub open spec fn build_failure(exit_code: Option<i32>) -> Seq<char> {
    match exit_code {
        Some(code) => "Build process failed: Exit Code: "@ + decimal(code as int),
        None => "Build process failed: Terminated by Signal (OOM/Abort)"@,
    }
}

/// What the agent asks of a runner of builds.
pub trait BuildManager {
    /// Checks the user and gives the arguments of the launcher that runs the
    /// build command as that user. A user name that is empty or holds anything
    /// but ASCII letters, digits and hyphens is refused.
    fn execute_build(&self, build_command: &str, run_as_user: &str) -> (r: Result<
        Vec<String>,
        AgentError,
    >)
        ensures
            is_label(run_as_user@) ==> r.is_ok() && views(r.unwrap()@) == launcher_args(
                run_as_user@,
                build_command@,
            ),
            !is_label(run_as_user@) ==> r.is_err() && r.unwrap_err().is(
                ErrorKind::SecurityViolation,
                "SECURITY VIOLATION: Suspicious username format"@,
            ),
    ;
}

impl BuildManager for SystemBuildManager {
    fn execute_build(&self, build_command: &str, run_as_user: &str) -> (r: Result<
        Vec<String>,
        AgentError,
    >) {
        if !check_label(run_as_user) {
            return Err(
                AgentError::new(
                    ErrorKind::SecurityViolation,
                    "SECURITY VIOLATION: Suspicious username format",
                ),
            );
        }
        let mut args: Vec<String> = Vec::new();
        args.push(String::from_str("-u"));
        args.push(String::from_str(run_as_user));
        args.push(String::from_str("--"));
        args.push(String::from_str("sh"));
        args.push(String::from_str("-c"));
        args.push(String::from_str(build_command));
        assert(views(args@) =~= launcher_args(run_as_user@, build_command@));
        Ok(args)
    }
}

impl SystemBuildManager {
    /// Makes the log chunk for one line of the build's output: the line with
    /// its stream's mark and a line break, under the request's trace id.
    pub fn log_chunk(&self, stream: LogStream, line: &str, trace_id: &str) -> (c: LogChunk)
        ensures
            c.content@ == log_line(stream, line@),
            c.trace_id@ == trace_id@,
    {
        let mut content = match stream {
            LogStream::Stdout => String::from_str("[OUT] "),
            LogStream::Stderr => String::from_str("[ERR] "),
        };
        content.append(line);
        content.append("\n");
        LogChunk::new(content, trace_id)
    }

    /// Turns the end of the build into a result: exit code zero is success,
    /// any other code and an end by signal are failures that say which.
    pub fn build_result(&self, exit_code: Option<i32>) -> (r: Result<(), AgentError>)
        ensures
            exit_code == Some(0i32) ==> r.is_ok(),
            exit_code != Some(0i32) ==> r.is_err() && r.unwrap_err().is(
                ErrorKind::ExitFailure,
                build_failure(exit_code),
            ),
    {
        match exit_code {
            Some(code) => {
                if code == 0 {
                    return Ok(());
                }
                let mut message = String::from_str("Build process failed: Exit Code: ");
                let number = decimal_string(code as i64);
                message.append(number.as_str());
                Err(AgentError { kind: ErrorKind::ExitFailure, message })
            },
            None => Err(
                AgentError::new(
                    ErrorKind::ExitFailure,
                    "Build process failed: Terminated by Signal (OOM/Abort)",
                ),
            ),
        }
    }
}
} // verus!
