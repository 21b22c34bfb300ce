//! The reverse proxy: virtual hosts, and the rule that a configuration is
//! tested before it is loaded.

use crate::error::{views, AgentError, ErrorKind};
use crate::text::{decimal, decimal_string};
use vstd::prelude::*;
use vstd::string::*;

verus! {

#[derive(Debug)]
pub struct ApacheManager {
    pub sites_available: String,
    pub sites_enabled: String,
}

/// The proxy servers that the agent can drive, in the order of preference.
#[derive(Clone, Copy, Debug, PartialEq, Eq, Structural)]
pub enum ProxyKind {
    Nginx,
    Apache,
}

/// The file of a virtual host, its link among the enabled sites, and its text.
#[derive(Debug)]
pub struct VhostPlan {
    pub config_path: String,
    pub enabled_link: String,
    pub content: String,
}

pub open spec fn site_file(dir: Seq<char>, domain: Seq<char>) -> Seq<char> {
    dir + "/"@ + domain + ".conf"@
}

/// The virtual host of a domain: requests go to the port on the loopback
/// address with their host name kept, and answers carry the two security
/// headers.
pub open spec fn vhost_text(domain: Seq<char>, port: u16) -> Seq<char> {
    "<VirtualHost *:80>\n    ServerName "@ + domain
        + "\n\n    ProxyPreserveHost On\n    ProxyPass / http://127.0.0.1:"@ + decimal(
        port as int,
    ) + "/\n    ProxyPassReverse / http://127.0.0.1:"@ + decimal(port as int)
        + "/\n\n    Header always set X-Content-Type-Options \"nosniff\"\n    Header always set X-Frame-Options \"SAMEORIGIN\"\n\n    ErrorLog ${APACHE_LOG_DIR}/"@
        + domain + "_error.log\n    CustomLog ${APACHE_LOG_DIR}/"@ + domain
        + "_access.log combined\n</VirtualHost>"@
}

/// Picks the proxy server by the configuration directories found on the host.
pub fn discover_proxy_manager(nginx_found: bool, apache_found: bool) -> (r: Result<
    ProxyKind,
    AgentError,
>)
    ensures
        nginx_found ==> r == Ok::<ProxyKind, AgentError>(ProxyKind::Nginx),
        !nginx_found && apache_found ==> r == Ok::<ProxyKind, AgentError>(ProxyKind::Apache),
        !nginx_found && !apache_found ==> r.is_err() && r.unwrap_err().is(
            ErrorKind::Io,
            "SLA FAILURE: No supported Proxy Manager (Nginx/Apache) found on this host."@,
        ),
{
    if nginx_found {
        Ok(ProxyKind::Nginx)
    } else if apache_found {
        Ok(ProxyKind::Apache)
    } else {
        Err(
            AgentError::new(
                ErrorKind::Io,
                "SLA FAILURE: No supported Proxy Manager (Nginx/Apache) found on this host.",
            ),
        )
    }
}

/// What the agent asks of a reverse proxy, whichever server it is.
pub trait ProxyManager {
    /// The directory of the sites that are available.
    spec fn available_dir(&self) -> Seq<char>;

    /// The directory of the sites that are enabled.
    spec fn enabled_dir(&self) -> Seq<char>;

    /// The text of a domain's virtual host in this server's language.
    spec fn vhost(&self, domain: Seq<char>, port: u16) -> Seq<char>;

    /// Gives the virtual host of a domain: its file among the available
    /// sites, its link among the enabled ones, and its text.
    fn create_vhost(&self, domain: &str, target_port: u16) -> (r: VhostPlan)
        ensures
            r.config_path@ == site_file(self.available_dir(), domain@),
            r.enabled_link@ == site_file(self.enabled_dir(), domain@),
            r.content@ == self.vhost(domain@, target_port),
    ;

    /// Names the two files that removing a domain's virtual host deletes: its
    /// file among the available sites, then its link among the enabled ones.
    fn remove_vhost(&self, domain: &str) -> (r: (String, String))
        ensures
            r.0@ == site_file(self.available_dir(), domain@),
            r.1@ == site_file(self.enabled_dir(), domain@),
    ;
}

impl ProxyManager for ApacheManager {
    open spec fn available_dir(&self) -> Seq<char> {
        self.sites_available@
    }

    open spec fn enabled_dir(&self) -> Seq<char> {
        self.sites_enabled@
    }

    open spec fn vhost(&self, domain: Seq<char>, port: u16) -> Seq<char> {
        vhost_text(domain, port)
    }

    fn create_vhost(&self, domain: &str, target_port: u16) -> (r: VhostPlan) {
        let (config_path, enabled_link) = self.remove_vhost(domain);
        let port = decimal_string(target_port as i64);
        let mut content = String::from_str("<VirtualHost *:80>\n    ServerName ");
        content.append(domain);
        content.append("\n\n    ProxyPreserveHost On\n    ProxyPass / http://127.0.0.1:");
        content.append(port.as_str());
        content.append("/\n    ProxyPassReverse / http://127.0.0.1:");
        content.append(port.as_str());
        content.append(
            "/\n\n    Header always set X-Content-Type-Options \"nosniff\"\n    Header always set X-Frame-Options \"SAMEORIGIN\"\n\n    ErrorLog ${APACHE_LOG_DIR}/",
        );
        content.append(domain);
        content.append("_error.log\n    CustomLog ${APACHE_LOG_DIR}/");
        content.append(domain);
        content.append("_access.log combined\n</VirtualHost>");
        VhostPlan { config_path, enabled_link, content }
    }

    fn remove_vhost(&self, domain: &str) -> (r: (String, String)) {
        let mut config_path = self.sites_available.clone();
        config_path.append("/");
        config_path.append(domain);
        config_path.append(".conf");
        let mut enabled_link = self.sites_enabled.clone();
        enabled_link.append("/");
        enabled_link.append(domain);
        enabled_link.append(".conf");
        (config_path, enabled_link)
    }
}

impl ApacheManager {
    pub fn new() -> (r: Self)
        ensures
            r.sites_available@ == "/etc/apache2/sites-available"@,
            r.sites_enabled@ == "/etc/apache2/sites-enabled"@,
    {
        ApacheManager {
            sites_available: String::from_str("/etc/apache2/sites-available"),
            sites_enabled: String::from_str("/etc/apache2/sites-enabled"),
        }
    }

    /// The command that tests the configuration: the program, then its
    /// arguments.
    pub fn config_test(&self) -> (r: Vec<String>)
        ensures
            views(r@) == seq!["apache2ctl"@, "configtest"@],
    {
        let mut r: Vec<String> = Vec::new();
        r.push(String::from_str("apache2ctl"));
        r.push(String::from_str("configtest"));
        assert(views(r@) =~= seq!["apache2ctl"@, "configtest"@]);
        r
    }

    /// Decides what follows the configuration test: a reload where it passed,
    /// and an error, with no reload, where it did not.
    pub fn test_and_reload(&self, test_passed: bool) -> (r: Result<Vec<String>, AgentError>)
        ensures
            test_passed ==> r.is_ok() && views(r.unwrap()@) == seq!["reload"@, "apache2"@],
            !test_passed ==> r.is_err() && r.unwrap_err().is(
                ErrorKind::ExitFailure,
                "Apache config test failed. Rolling back."@,
            ),
    {
        if !test_passed {
            return Err(
                AgentError::new(ErrorKind::ExitFailure, "Apache config test failed. Rolling back."),
            );
        }
        let mut args: Vec<String> = Vec::new();
        args.push(String::from_str("reload"));
        args.push(String::from_str("apache2"));
        assert(views(args@) =~= seq!["reload"@, "apache2"@]);
        Ok(args)
    }
}
} // verus!
