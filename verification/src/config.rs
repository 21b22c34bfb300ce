//! The agent's configuration, taken once from the environment's values.

use crate::text::{parse_u32, parsed_u32};
use vstd::prelude::*;
use vstd::string::*;

verus! {

#[derive(Debug)]
pub struct AgentConfig {
    pub socket_path: String,
    pub expected_api_uid: u32,
    pub web_root: String,
    pub systemd_dir: String,
    pub logrotate_dir: String,
    pub ssl_storage_dir: String,
    pub proxy_conf_dir: String,
}

/// The values of the variables that the agent reads, each `None` where the
/// variable is not set.
#[derive(Debug)]
pub struct EnvValues {
    pub api_uid: Option<String>,
    pub socket_path: Option<String>,
    pub web_root: Option<String>,
    pub systemd_dir: Option<String>,
    pub logrotate_dir: Option<String>,
    pub ssl_dir: Option<String>,
    pub proxy_conf_dir: Option<String>,
}

#[derive(Clone, Copy, Debug, PartialEq, Eq, Structural)]
pub enum ConfigError {
    /// The peer's user id is not set.
    MissingUid,
    /// The peer's user id is no number that fits a user id.
    InvalidUid,
}

/// The value of a variable, or the default where it is not set.
pub open spec fn value_or(value: Option<String>, default: Seq<char>) -> Seq<char> {
    match value {
        Some(s) => s@,
        None => default,
    }
}

/// The user id that the environment names, if it names one.
pub open spec fn uid_of(env: EnvValues) -> Result<u32, ConfigError> {
    match env.api_uid {
        None => Err(ConfigError::MissingUid),
        Some(s) => match parsed_u32(s@) {
            Some(uid) => Ok(uid),
            None => Err(ConfigError::InvalidUid),
        },
    }
}

/// Gives the value of a variable, or the default where it is not set.
pub fn or_default(value: &Option<String>, default: &str) -> (r: String)
    ensures
        r@ == value_or(*value, default@),
{
    match value {
        Some(s) => s.clone(),
        None => String::from_str(default),
    }
}

impl ConfigError {
    /// The error in words.
    pub fn to_string(&self) -> (s: String)
        ensures
            *self == ConfigError::MissingUid ==> s@
                == "KARI_API_UID environment variable is strictly required"@,
            *self == ConfigError::InvalidUid ==> s@
                == "KARI_API_UID must be a valid numeric User ID"@,
    {
        match self {
            ConfigError::MissingUid => String::from_str(
                "KARI_API_UID environment variable is strictly required",
            ),
            ConfigError::InvalidUid => String::from_str(
                "KARI_API_UID must be a valid numeric User ID",
            ),
        }
    }
}

impl AgentConfig {
    /// Builds the configuration. The peer's user id is required and has no
    /// default; every path has one.
    pub fn load(env: &EnvValues) -> (r: Result<AgentConfig, ConfigError>)
        ensures
            match uid_of(*env) {
                Err(e) => r == Err::<AgentConfig, ConfigError>(e),
                Ok(uid) => r.is_ok() && {
                    let c = r.unwrap();
                    &&& c.expected_api_uid == uid
                    &&& c.socket_path@ == value_or(env.socket_path, "/var/run/kari/agent.sock"@)
                    &&& c.web_root@ == value_or(env.web_root, "/var/www/kari"@)
                    &&& c.systemd_dir@ == value_or(env.systemd_dir, "/etc/systemd/system"@)
                    &&& c.logrotate_dir@ == value_or(env.logrotate_dir, "/etc/logrotate.d"@)
                    &&& c.ssl_storage_dir@ == value_or(env.ssl_dir, "/etc/kari/ssl"@)
                    &&& c.proxy_conf_dir@ == value_or(
                        env.proxy_conf_dir,
                        "/etc/nginx/sites-available"@,
                    )
                },
            },
    {
        let uid = match &env.api_uid {
            None => {
                return Err(ConfigError::MissingUid);
            },
            Some(s) => match parse_u32(s.as_str()) {
                Some(uid) => uid,
                None => {
                    return Err(ConfigError::InvalidUid);
                },
            },
        };
        Ok(
            AgentConfig {
                socket_path: or_default(&env.socket_path, "/var/run/kari/agent.sock"),
                expected_api_uid: uid,
                web_root: or_default(&env.web_root, "/var/www/kari"),
                systemd_dir: or_default(&env.systemd_dir, "/etc/systemd/system"),
                logrotate_dir: or_default(&env.logrotate_dir, "/etc/logrotate.d"),
                ssl_storage_dir: or_default(&env.ssl_dir, "/etc/kari/ssl"),
                proxy_conf_dir: or_default(&env.proxy_conf_dir, "/etc/nginx/sites-available"),
            },
        )
    }
}

} // verus!
