//! Log rotation: the stanza written for a domain's logs.

use crate::error::{AgentError, ErrorKind};
use crate::sys::names::{check_domain, domain_fault};
use crate::sys::systemd::{UnitFile, UNIT_FILE_MODE};
use crate::text::str_contains_char;
use vstd::prelude::*;
use vstd::string::*;

verus! {

#[derive(Debug)]
pub struct LinuxLogManager {
    pub logrotate_dir: String,
}

/// A log directory may hold no line break, brace or semicolon.
pub open spec fn valid_log_dir(log_dir: Seq<char>) -> bool {
    !log_dir.contains('\n') && !log_dir.contains('{') && !log_dir.contains('}')
        && !log_dir.contains(';')
}

/// Why a rotation request is refused, if it is.
pub open spec fn logrotate_fault(domain: Seq<char>, log_dir: Seq<char>) -> Option<Seq<char>> {
    if domain_fault(domain) is Some {
        domain_fault(domain)
    } else if !valid_log_dir(log_dir) {
        Some("SECURITY VIOLATION: log_dir contains illegal characters"@)
    } else {
        None
    }
}

pub open spec fn logrotate_path(dir: Seq<char>, domain: Seq<char>) -> Seq<char> {
    dir + "/kari-"@ + domain
}

/// The stanza: daily rotation, fourteen kept, compressed with delay, new files
/// `640 root root`, and the proxy told to reopen its logs by the supervisor.
pub open spec fn logrotate_text(log_dir: Seq<char>) -> Seq<char> {
    log_dir
        + "/*.log {\n    daily\n    missingok\n    rotate 14\n    compress\n    delaycompress\n    notifempty\n    create 640 root root\n    sharedscripts\n    postrotate\n        systemctl reload nginx > /dev/null 2>/dev/null || true\n    endscript\n}\n"@
}

impl LinuxLogManager {
    pub fn new(logrotate_dir: String) -> (r: Self)
        ensures
            r.logrotate_dir == logrotate_dir,
    {
        LinuxLogManager { logrotate_dir }
    }

    /// Checks the domain and the log directory and gives the rotation file of
    /// the domain, of mode `0o644`.
    pub fn configure_logrotate(&self, domain_name: &str, log_dir: &str) -> (r: Result<
        UnitFile,
        AgentError,
    >)
        ensures
            match logrotate_fault(domain_name@, log_dir@) {
                Some(m) => r.is_err() && r.unwrap_err().is(ErrorKind::SecurityViolation, m),
                None => r.is_ok() && {
                    let f = r.unwrap();
                    &&& f.path@ == logrotate_path(self.logrotate_dir@, domain_name@)
                    &&& f.content@ == logrotate_text(log_dir@)
                    &&& f.mode == 0o644
                },
            },
    {
        match check_domain(domain_name) {
            Err(e) => {
                return Err(e);
            },
            Ok(()) => {},
        }
        if str_contains_char(log_dir, '\n') || str_contains_char(log_dir, '{')
            || str_contains_char(log_dir, '}') || str_contains_char(log_dir, ';') {
            return Err(
                AgentError::new(
                    ErrorKind::SecurityViolation,
                    "SECURITY VIOLATION: log_dir contains illegal characters",
                ),
            );
        }
        let mut path = self.logrotate_dir.clone();
        path.append("/kari-");
        path.append(domain_name);
        let mut content = String::from_str(log_dir);
        content.append(
            "/*.log {\n    daily\n    missingok\n    rotate 14\n    compress\n    delaycompress\n    notifempty\n    create 640 root root\n    sharedscripts\n    postrotate\n        systemctl reload nginx > /dev/null 2>/dev/null || true\n    endscript\n}\n",
        );
        Ok(UnitFile { path, content, mode: UNIT_FILE_MODE })
    }
}

} // verus!
