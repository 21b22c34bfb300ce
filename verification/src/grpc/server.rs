use crate::commands::site::SiteActivator;
use crate::commands::system_check::SystemChecker;
use crate::grpc::handlers::AgentHandlers;
use vstd::prelude::*;

verus! {

pub struct GrpcServer {
    handlers: AgentHandlers,
}

impl GrpcServer {
    pub fn new(system_checker: SystemChecker, site_activator: SiteActivator) -> (r: Self) {
        GrpcServer { handlers: AgentHandlers::new(system_checker, site_activator) }
    }

    /// Starts the server, which holds nothing that can fail.
    pub fn start(&self) -> (r: Result<(), String>)
        ensures
            r.is_ok(),
    {
        Ok(())
    }
}

} // verus!
