use crate::commands::site::{activation_fault, SiteActivator};
use crate::commands::system_check::SystemChecker;
use crate::commands::types::{SiteActivationCommand, SystemCheckCommand};
use crate::grpc::models::{
    ActivateSiteRequest,
    ActivateSiteResponse,
    RunSystemCheckRequest,
    RunSystemCheckResponse,
    SiteActivationAction,
};
use crate::text::is_blank;
use vstd::prelude::*;

verus! {

pub struct AgentHandlers {
    system_checker: SystemChecker,
    site_activator: SiteActivator,
}

/// The command action that a request's action stands for.
pub open spec fn mapped_action(action: SiteActivationAction) -> crate::commands::types::SiteActivationAction {
    match action {
        SiteActivationAction::CreateSystemUser => crate::commands::types::SiteActivationAction::CreateSystemUser,
        SiteActivationAction::ApplyHttpVhost => crate::commands::types::SiteActivationAction::ApplyHttpVhost,
        SiteActivationAction::IssueCertificate => crate::commands::types::SiteActivationAction::IssueCertificate,
        SiteActivationAction::ApplyHttpsVhost => crate::commands::types::SiteActivationAction::ApplyHttpsVhost,
    }
}

/// The command that an activation request is turned into.
pub open spec fn activation_command(request: ActivateSiteRequest) -> SiteActivationCommand {
    SiteActivationCommand {
        site_id: request.site_id,
        domain: request.domain,
        ipv4: request.ipv4,
        ipv6: request.ipv6,
        owner_uid: request.owner_uid,
        action: mapped_action(request.action),
    }
}

/// The response that every successful system check is answered with.
pub open spec fn is_standard_response(r: RunSystemCheckResponse) -> bool {
    &&& r.distro@ == "ubuntu"@
    &&& r.version@ == "22.04"@
    &&& r.services@.len() == 2
    &&& r.services@[0].0@ == "nginx"@
    &&& r.services@[0].1@ == "running"@
    &&& r.services@[1].0@ == "php-fpm"@
    &&& r.services@[1].1@ == "running"@
    &&& r.firewall_type@ == "ufw"@
    &&& r.firewall_status@ == "active"@
}

impl AgentHandlers {
    pub fn new(system_checker: SystemChecker, site_activator: SiteActivator) -> (r: Self) {
        AgentHandlers { system_checker, site_activator }
    }

    /// Runs the system check for the request's server and hands its report on
    /// field by field; a blank server id is refused.
    pub fn run_system_check(&self, request: RunSystemCheckRequest) -> (r: Result<
        RunSystemCheckResponse,
        String,
    >)
        ensures
            is_blank(request.server_id@) ==> r.is_err() && r.unwrap_err()@
                == "server id is required"@,
            !is_blank(request.server_id@) ==> r.is_ok() && is_standard_response(r.unwrap()),
    {
        match self.system_checker.run(SystemCheckCommand { server_id: request.server_id }) {
            Ok(result) => {
                let response = RunSystemCheckResponse {
                    distro: result.distro,
                    version: result.version,
                    services: result.services,
                    firewall_type: result.firewall_type,
                    firewall_status: result.firewall_status,
                };
                Ok(response)
            },
            Err(e) => Err(e),
        }
    }

    /// Activates the site that the request names, under the rules of
    /// `SiteActivator::activate`.
    pub fn activate_site(&self, request: ActivateSiteRequest) -> (r: Result<
        ActivateSiteResponse,
        String,
    >)
        ensures
            match activation_fault(activation_command(request)) {
                Some(m) => r.is_err() && r.unwrap_err()@ == m,
                None => r.is_ok() && r.unwrap().ok,
            },
    {
        let command = SiteActivationCommand {
            site_id: request.site_id,
            domain: request.domain,
            ipv4: request.ipv4,
            ipv6: request.ipv6,
            owner_uid: request.owner_uid,
            action: map_action(request.action),
        };
        match self.site_activator.activate(command) {
            Ok(result) => Ok(ActivateSiteResponse { ok: result.ok }),
            Err(e) => Err(e),
        }
    }
}

/// Maps a request's action to the command action of the same name.
pub fn map_action(action: SiteActivationAction) -> (r: crate::commands::types::SiteActivationAction)
    ensures
        r == mapped_action(action),
{
    match action {
        SiteActivationAction::CreateSystemUser => crate::commands::types::SiteActivationAction::CreateSystemUser,
        SiteActivationAction::ApplyHttpVhost => crate::commands::types::SiteActivationAction::ApplyHttpVhost,
        SiteActivationAction::IssueCertificate => crate::commands::types::SiteActivationAction::IssueCertificate,
        SiteActivationAction::ApplyHttpsVhost => crate::commands::types::SiteActivationAction::ApplyHttpsVhost,
    }
}

} // verus!
