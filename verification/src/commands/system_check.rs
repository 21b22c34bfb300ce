use crate::commands::types::{SystemCheckCommand, SystemCheckResult};
use crate::text::{is_blank, str_is_blank};
use vstd::prelude::*;
use vstd::string::*;

verus! {

#[derive(Clone, Copy, Debug)]
pub struct SystemChecker;

/// The report that every successful check gives.
pub open spec fn is_standard_report(r: SystemCheckResult) -> bool {
    &&& r.distro@ == "ubuntu"@
    &&& r.version@ == "22.04"@
    &&& r.services@.len() == 2
    &&& r.services@[0].0@ == "nginx"@
    &&& r.services@[0].1@ == "running"@
    &&& r.services@[1].0@ == "php-fpm"@
    &&& r.services@[1].1@ == "running"@
    &&& r.firewall_type@ == "ufw"@
    &&& r.firewall_status@ == "active"@
}

impl SystemChecker {
    pub fn new() -> (r: Self) {
        SystemChecker
    }

    /// Refuses a blank server id; otherwise gives the standard report.
    pub fn run(&self, command: SystemCheckCommand) -> (r: Result<SystemCheckResult, String>)
        ensures
            is_blank(command.server_id@) ==> r.is_err() && r.unwrap_err()@
                == "server id is required"@,
            !is_blank(command.server_id@) ==> r.is_ok() && is_standard_report(r.unwrap()),
    {
        if str_is_blank(command.server_id.as_str()) {
            return Err(String::from_str("server id is required"));
        }
        let mut services: Vec<(String, String)> = Vec::new();
        services.push((String::from_str("nginx"), String::from_str("running")));
        services.push((String::from_str("php-fpm"), String::from_str("running")));
        Ok(
            SystemCheckResult {
                distro: String::from_str("ubuntu"),
                version: String::from_str("22.04"),
                services,
                firewall_type: String::from_str("ufw"),
                firewall_status: String::from_str("active"),
            },
        )
    }
}

} // verus!
