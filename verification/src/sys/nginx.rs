//! The reverse proxy of first choice, driven as the other one is.

use crate::error::{views, AgentError, ErrorKind};
use crate::sys::apache::{ProxyManager, VhostPlan};
use crate::text::{decimal, decimal_string};
use vstd::prelude::*;
use vstd::string::*;

verus! {

#[derive(Debug)]
pub struct NginxManager {
    pub sites_available: String,
    pub sites_enabled: String,
}

/// The virtual host of a domain: requests go to the port on the loopback
/// address with their host name kept, and answers carry the two security
/// headers.
pub open spec fn server_block(domain: Seq<char>, port: u16) -> Seq<char> {
    "server {\n    listen 80;\n    server_name "@ + domain
        + ";\n\n    add_header X-Content-Type-Options \"nosniff\" always;\n    add_header X-Frame-Options \"SAMEORIGIN\" always;\n\n    location / {\n        proxy_pass http://127.0.0.1:"@
        + decimal(port as int)
        + ";\n        proxy_set_header Host $host;\n        proxy_set_header X-Real-IP $remote_addr;\n        proxy_set_header X-Forwarded-For $proxy_add_x_forwarded_for;\n        proxy_set_header X-Forwarded-Proto $scheme;\n    }\n}\n"@
}

impl ProxyManager for NginxManager {
    open spec fn available_dir(&self) -> Seq<char> {
        self.sites_available@
    }

    open spec fn enabled_dir(&self) -> Seq<char> {
        self.sites_enabled@
    }

    open spec fn vhost(&self, domain: Seq<char>, port: u16) -> Seq<char> {
        server_block(domain, port)
    }

    fn create_vhost(&self, domain: &str, target_port: u16) -> (r: VhostPlan) {
        let (config_path, enabled_link) = self.remove_vhost(domain);
        let port = decimal_string(target_port as i64);
        let mut content = String::from_str("server {\n    listen 80;\n    server_name ");
        content.append(domain);
        content.append(
            ";\n\n    add_header X-Content-Type-Options \"nosniff\" always;\n    add_header X-Frame-Options \"SAMEORIGIN\" always;\n\n    location / {\n        proxy_pass http://127.0.0.1:",
        );
        content.append(port.as_str());
        content.append(
            ";\n        proxy_set_header Host $host;\n        proxy_set_header X-Real-IP $remote_addr;\n        proxy_set_header X-Forwarded-For $proxy_add_x_forwarded_for;\n        proxy_set_header X-Forwarded-Proto $scheme;\n    }\n}\n",
        );
        VhostPlan { config_path, enabled_link, content }
    }

    fn remove_vhost(&self, domain: &str) -> (r: (String, String)) {
        let mut config_path = self.sites_available.clone();
        config_path.append("/");
        config_path.append(domain);
        config_path.append(".conf");
        let mut enabled_link = self.sites_enabled.clone();
        enabled_link.append("/");
        enabled_link.append(domain);
        enabled_link.append(".conf");
        (config_path, enabled_link)
    }
}

impl NginxManager {
    /// The manager for the configuration below `conf_root`.
    pub fn new(conf_root: &str) -> (r: Self)
        ensures
            r.sites_available@ == conf_root@ + "/sites-available"@,
            r.sites_enabled@ == conf_root@ + "/sites-enabled"@,
    {
        let mut sites_available = String::from_str(conf_root);
        sites_available.append("/sites-available");
        let mut sites_enabled = String::from_str(conf_root);
        sites_enabled.append("/sites-enabled");
        NginxManager { sites_available, sites_enabled }
    }

    /// The command that tests the configuration: the program, then its
    /// arguments.
    pub fn config_test(&self) -> (r: Vec<String>)
        ensures
            views(r@) == seq!["nginx"@, "-t"@],
    {
        let mut r: Vec<String> = Vec::new();
        r.push(String::from_str("nginx"));
        r.push(String::from_str("-t"));
        assert(views(r@) =~= seq!["nginx"@, "-t"@]);
        r
    }

    /// Decides what follows the configuration test: a reload where it passed,
    /// and an error, with no reload, where it did not.
    pub fn test_and_reload(&self, test_passed: bool) -> (r: Result<Vec<String>, AgentError>)
        ensures
            test_passed ==> r.is_ok() && views(r.unwrap()@) == seq!["reload"@, "nginx"@],
            !test_passed ==> r.is_err() && r.unwrap_err().is(
                ErrorKind::ExitFailure,
                "Nginx config test failed. Rolling back."@,
            ),
    {
        if !test_passed {
            return Err(
                AgentError::new(ErrorKind::ExitFailure, "Nginx config test failed. Rolling back."),
            );
        }
        let mut args: Vec<String> = Vec::new();
        args.push(String::from_str("reload"));
        args.push(String::from_str("nginx"));
        assert(views(args@) =~= seq!["reload"@, "nginx"@]);
        Ok(args)
    }
}
} // verus!
