use crate::commands::types::{SiteActivationAction, SiteActivationCommand, SiteActivationResult};
use crate::text::{is_blank, str_is_blank};
use vstd::prelude::*;
use vstd::string::*;

verus! {

#[derive(Clone, Copy, Debug)]
pub struct SiteActivator;

/// The message of the first rule that a command breaks, if it breaks one.
pub open spec fn activation_fault(command: SiteActivationCommand) -> Option<Seq<char>> {
    if is_blank(command.site_id@) {
        Some("site id is required"@)
    } else if is_blank(command.domain@) {
        Some("domain is required"@)
    } else if command.owner_uid <= 0 {
        Some("owner uid must be positive"@)
    } else {
        None
    }
}

impl SiteActivator {
    pub fn new() -> (r: Self) {
        SiteActivator
    }

    /// Accepts a command whose site id and domain are not blank and whose owner
    /// uid is positive; otherwise names the first rule that is broken.
    pub fn activate(&self, command: SiteActivationCommand) -> (r: Result<
        SiteActivationResult,
        String,
    >)
        ensures
            match activation_fault(command) {
                Some(m) => r.is_err() && r.unwrap_err()@ == m,
                None => r.is_ok() && r.unwrap().ok,
            },
    {
        if str_is_blank(command.site_id.as_str()) {
            return Err(String::from_str("site id is required"));
        }
        if str_is_blank(command.domain.as_str()) {
            return Err(String::from_str("domain is required"));
        }
        if command.owner_uid <= 0 {
            return Err(String::from_str("owner uid must be positive"));
        }
        match self.run_action(command.action) {
            Ok(()) => Ok(SiteActivationResult { ok: true }),
            Err(e) => Err(e),
        }
    }

    /// Carries out one activation step. Every step succeeds.
    pub fn run_action(&self, action: SiteActivationAction) -> (r: Result<(), String>)
        ensures
            r.is_ok(),
    {
        match action {
            SiteActivationAction::CreateSystemUser => Ok(()),
            SiteActivationAction::ApplyHttpVhost => Ok(()),
            SiteActivationAction::IssueCertificate => Ok(()),
            SiteActivationAction::ApplyHttpsVhost => Ok(()),
        }
    }
}

} // verus!
