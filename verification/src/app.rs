use crate::commands::site::SiteActivator;
use crate::commands::system_check::SystemChecker;
use crate::grpc::server::GrpcServer;
use vstd::prelude::*;

verus! {

/// Builds the checker, the activator and the server, and starts the server.
pub fn run() -> (r: Result<(), String>)
    ensures
        r.is_ok(),
{
    let system_checker = SystemChecker::new();
    let site_activator = SiteActivator::new();
    let server = GrpcServer::new(system_checker, site_activator);
    server.start()
}

} // verus!
