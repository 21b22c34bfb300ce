use kari_agent::app::run;
use kari_agent::commands::site::SiteActivator;
use kari_agent::commands::system_check::SystemChecker;
use kari_agent::commands::types::{
    SiteActivationAction as CommandAction, SiteActivationCommand, SystemCheckCommand,
};
use kari_agent::grpc::handlers::{map_action, AgentHandlers};
use kari_agent::grpc::models::{ActivateSiteRequest, RunSystemCheckRequest, SiteActivationAction};
use kari_agent::grpc::server::GrpcServer;

fn command(site_id: &str, domain: &str, owner_uid: i32) -> SiteActivationCommand {
    SiteActivationCommand {
        site_id: site_id.to_string(),
        domain: domain.to_string(),
        ipv4: "1.2.3.4".to_string(),
        ipv6: "".to_string(),
        owner_uid,
        action: CommandAction::ApplyHttpVhost,
    }
}

#[test]
fn activate_accepts_valid_command() {
    let activator = SiteActivator::new();
    let result = activator.activate(SiteActivationCommand {
        site_id: "site-1".to_string(),
        domain: "example.com".to_string(),
        ipv4: "1.2.3.4".to_string(),
        ipv6: "".to_string(),
        owner_uid: 1001,
        action: CommandAction::ApplyHttpVhost,
    });

    assert!(result.is_ok());
}

#[test]
fn run_system_check_maps_successfully() {
    let handlers = AgentHandlers::new(SystemChecker::new(), SiteActivator::new());
    let response = handlers
        .run_system_check(RunSystemCheckRequest {
            server_id: "srv-1".to_string(),
        })
        .expect("system check should succeed");

    assert_eq!(response.distro, "ubuntu");
}

#[test]
fn activate_site_rejects_invalid_input() {
    let handlers = AgentHandlers::new(SystemChecker::new(), SiteActivator::new());
    let result = handlers.activate_site(ActivateSiteRequest {
        site_id: "".to_string(),
        domain: "example.com".to_string(),
        ipv4: "1.2.3.4".to_string(),
        ipv6: "".to_string(),
        owner_uid: 1001,
        action: SiteActivationAction::CreateSystemUser,
    });

    assert!(result.is_err());
}

#[test]
fn activate_names_the_first_broken_rule() {
    let activator = SiteActivator::new();
    assert_eq!(
        activator.activate(command(" \t\n", "", 0)).unwrap_err(),
        "site id is required"
    );
    assert_eq!(
        activator.activate(command("s", "\u{2003} ", 0)).unwrap_err(),
        "domain is required"
    );
    assert_eq!(
        activator.activate(command("s", "d", 0)).unwrap_err(),
        "owner uid must be positive"
    );
    assert_eq!(
        activator.activate(command("s", "d", -4)).unwrap_err(),
        "owner uid must be positive"
    );
    assert!(activator.activate(command(" s ", " d ", 1)).unwrap().ok);
}

#[test]
fn every_activation_step_succeeds() {
    let activator = SiteActivator::new();
    assert!(activator.run_action(CommandAction::CreateSystemUser).is_ok());
    assert!(activator.run_action(CommandAction::ApplyHttpVhost).is_ok());
    assert!(activator.run_action(CommandAction::IssueCertificate).is_ok());
    assert!(activator.run_action(CommandAction::ApplyHttpsVhost).is_ok());
}

#[test]
fn system_check_reports_the_standard_host() {
    let checker = SystemChecker::new();
    let report = checker
        .run(SystemCheckCommand { server_id: "srv-1".to_string() })
        .unwrap();
    assert_eq!(report.distro, "ubuntu");
    assert_eq!(report.version, "22.04");
    assert_eq!(
        report.services,
        vec![
            ("nginx".to_string(), "running".to_string()),
            ("php-fpm".to_string(), "running".to_string()),
        ]
    );
    assert_eq!(report.firewall_type, "ufw");
    assert_eq!(report.firewall_status, "active");
    assert_eq!(
        checker.run(SystemCheckCommand { server_id: "  ".to_string() }).unwrap_err(),
        "server id is required"
    );
}

#[test]
fn handlers_hand_the_report_on() {
    let handlers = AgentHandlers::new(SystemChecker::new(), SiteActivator::new());
    let response = handlers
        .run_system_check(RunSystemCheckRequest { server_id: "x".to_string() })
        .unwrap();
    assert_eq!(response.version, "22.04");
    assert_eq!(response.services.len(), 2);
    assert_eq!(response.firewall_type, "ufw");
    assert_eq!(response.firewall_status, "active");
    assert_eq!(
        handlers
            .run_system_check(RunSystemCheckRequest { server_id: "".to_string() })
            .unwrap_err(),
        "server id is required"
    );
}

#[test]
fn actions_map_by_name() {
    assert_eq!(map_action(SiteActivationAction::CreateSystemUser), CommandAction::CreateSystemUser);
    assert_eq!(map_action(SiteActivationAction::ApplyHttpVhost), CommandAction::ApplyHttpVhost);
    assert_eq!(map_action(SiteActivationAction::IssueCertificate), CommandAction::IssueCertificate);
    assert_eq!(map_action(SiteActivationAction::ApplyHttpsVhost), CommandAction::ApplyHttpsVhost);
}

#[test]
fn server_starts() {
    let server = GrpcServer::new(SystemChecker::new(), SiteActivator::new());
    assert!(server.start().is_ok());
    assert!(run().is_ok());
}
