use vstd::prelude::*;

verus! {

#[derive(Clone, Debug)]
pub struct RunSystemCheckRequest {
    pub server_id: String,
}

#[derive(Clone, Debug)]
pub struct RunSystemCheckResponse {
    pub distro: String,
    pub version: String,
    /// Service name and state, ordered by name.
    pub services: Vec<(String, String)>,
    pub firewall_type: String,
    pub firewall_status: String,
}

#[derive(Clone, Copy, Debug, PartialEq, Eq, Structural)]
pub enum SiteActivationAction {
    CreateSystemUser,
    ApplyHttpVhost,
    IssueCertificate,
    ApplyHttpsVhost,
}

#[derive(Clone, Debug)]
pub struct ActivateSiteRequest {
    pub site_id: String,
    pub domain: String,
    pub ipv4: String,
    pub ipv6: String,
    pub owner_uid: i32,
    pub action: SiteActivationAction,
}

#[derive(Clone, Debug)]
pub struct ActivateSiteResponse {
    pub ok: bool,
}

} // verus!
