use kari_agent::boundary::{
    authenticate, peer_allowed, rejection_warning, startup_steps, StartupStep,
};
use kari_agent::config::{AgentConfig, ConfigError, EnvValues};
use kari_agent::deploy::{advance, begin, plan_deployment, DeployStage, DeployState};
use kari_agent::error::ErrorKind;
use kari_agent::messages::{DeleteRequest, DeployRequest, PackageRequest, ServiceRequest};
use kari_agent::server::{
    construct_error_response, delete_advance, delete_begin, delete_response, package_response,
    service_action, service_response, DeleteState, DeleteStep, KariAgentService, ServiceAction,
};
use kari_agent::sys::names::{check_domain, secure_join};

fn env(uid: Option<&str>) -> EnvValues {
    EnvValues {
        api_uid: uid.map(|s| s.to_string()),
        socket_path: None,
        web_root: None,
        systemd_dir: None,
        logrotate_dir: None,
        ssl_dir: None,
        proxy_conf_dir: None,
    }
}

fn service() -> KariAgentService {
    KariAgentService::new(AgentConfig::load(&env(Some("1001"))).unwrap())
}

fn strings(v: &[&str]) -> Vec<String> {
    v.iter().map(|s| s.to_string()).collect()
}

#[test]
fn config_takes_defaults_and_values() {
    let c = AgentConfig::load(&env(Some("1001"))).unwrap();
    assert_eq!(c.expected_api_uid, 1001);
    assert_eq!(c.socket_path, "/var/run/kari/agent.sock");
    assert_eq!(c.web_root, "/var/www/kari");
    assert_eq!(c.systemd_dir, "/etc/systemd/system");
    assert_eq!(c.logrotate_dir, "/etc/logrotate.d");
    assert_eq!(c.ssl_storage_dir, "/etc/kari/ssl");
    assert_eq!(c.proxy_conf_dir, "/etc/nginx/sites-available");
    let mut e = env(Some("+7"));
    e.web_root = Some("/srv/www".to_string());
    e.socket_path = Some("/tmp/a.sock".to_string());
    let c = AgentConfig::load(&e).unwrap();
    assert_eq!(c.expected_api_uid, 7);
    assert_eq!(c.web_root, "/srv/www");
    assert_eq!(c.socket_path, "/tmp/a.sock");
    assert_eq!(AgentConfig::load(&env(Some("4294967295"))).unwrap().expected_api_uid, u32::MAX);
    assert_eq!(AgentConfig::load(&env(Some("007"))).unwrap().expected_api_uid, 7);
}

#[test]
fn config_needs_a_numeric_uid() {
    assert_eq!(AgentConfig::load(&env(None)).unwrap_err(), ConfigError::MissingUid);
    for bad in ["", "abc", "-1", "12x", "4294967296", "+", " 5"] {
        assert_eq!(AgentConfig::load(&env(Some(bad))).unwrap_err(), ConfigError::InvalidUid);
    }
    assert_eq!(
        ConfigError::MissingUid.to_string(),
        "KARI_API_UID environment variable is strictly required"
    );
    assert_eq!(
        ConfigError::InvalidUid.to_string(),
        "KARI_API_UID must be a valid numeric User ID"
    );
}

#[test]
fn only_the_expected_user_and_root_get_in() {
    assert!(peer_allowed(1001, 1001));
    assert!(peer_allowed(0, 1001));
    assert!(!peer_allowed(1002, 1001));
    assert!(authenticate(1002, 1002, 5, 1001).is_none());
    let c = authenticate(1001, 33, 5, 1001).unwrap();
    assert_eq!((c.peer_uid, c.peer_gid, c.accepted_at), (1001, 33, 5));
    assert_eq!(authenticate(0, 0, 9, 1001).unwrap().peer_uid, 0);
    let warning = rejection_warning(1002, 50);
    assert!(warning.contains("1002"));
    assert_eq!(warning, "SECURITY ALERT: Unauthorized connection from UID 1002 (GID 50)");
}

#[test]
fn socket_startup_follows_the_sequence() {
    assert_eq!(
        startup_steps(false, false, 1001, 1001),
        vec![
            StartupStep::CreateSocketDir,
            StartupStep::Bind,
            StartupStep::SetMode(0o660),
            StartupStep::Chown(1001, 1001),
            StartupStep::Accept,
        ]
    );
    assert_eq!(
        startup_steps(true, true, 5, 6),
        vec![
            StartupStep::UnlinkStaleSocket,
            StartupStep::Bind,
            StartupStep::SetMode(0o660),
            StartupStep::Chown(5, 6),
            StartupStep::Accept,
        ]
    );
    assert_eq!(startup_steps(true, false, 5, 6).len(), 4);
    assert_eq!(startup_steps(false, true, 5, 6).len(), 6);
}

#[test]
fn secure_join_refuses_traversal() {
    assert_eq!(secure_join("/var/www/kari", "ex.com").unwrap(), "/var/www/kari/ex.com");
    assert_eq!(secure_join("/var/www/kari", "a.b.c").unwrap(), "/var/www/kari/a.b.c");
    for bad in ["../etc", "..", "a/b", "a\\b", "/", "x..y"] {
        let e = secure_join("/var/www/kari", bad).unwrap_err();
        assert_eq!(e.kind, ErrorKind::InvalidArgument);
        assert_eq!(e.message, "Path traversal detected");
        assert_eq!(e.to_string(), "Path traversal detected");
    }
}

#[test]
fn domains_are_checked() {
    assert!(check_domain("ex-1.example.com").is_ok());
    for bad in ["", "a..b", "a/b"] {
        let e = check_domain(bad).unwrap_err();
        assert_eq!(e.kind, ErrorKind::SecurityViolation);
        assert_eq!(e.message, "SECURITY VIOLATION: Invalid domain name format");
    }
    for bad in ["a b", "a_b", "a\\b", "é.com"] {
        let e = check_domain(bad).unwrap_err();
        assert_eq!(e.message, "SECURITY VIOLATION: Domain contains illegal characters");
    }
}

#[test]
fn package_commands_go_by_the_whitelist() {
    let s = service();
    let e = s
        .execute_package_command(&PackageRequest {
            command: "curl".to_string(),
            args: strings(&["http://x"]),
        })
        .unwrap_err();
    assert_eq!(e.kind, ErrorKind::PermissionDenied);
    assert_eq!(e.message, "Command not in security whitelist");
    for ok in ["apt-get", "apt", "dnf", "yum", "zypper"] {
        assert!(s
            .execute_package_command(&PackageRequest {
                command: ok.to_string(),
                args: strings(&["install", "-y", "nginx"]),
            })
            .is_ok());
    }
    for bad in ["rm", "chown", "ln", "", "apt-get ", "APT"] {
        assert!(s
            .execute_package_command(&PackageRequest { command: bad.to_string(), args: vec![] })
            .is_err());
    }
    for bad in ["a;b", "x&", "|y"] {
        let e = s
            .execute_package_command(&PackageRequest {
                command: "apt".to_string(),
                args: strings(&["install", bad]),
            })
            .unwrap_err();
        assert_eq!(e.kind, ErrorKind::InvalidArgument);
        assert_eq!(e.message, "Argument contains shell metacharacters");
    }
}

#[test]
fn package_responses_follow_the_exit_code() {
    let r = package_response(Some(0), "out".to_string(), "err".to_string());
    assert!(r.success);
    assert_eq!((r.exit_code, r.stdout.as_str(), r.stderr.as_str()), (0, "out", "err"));
    assert_eq!(r.error_message, "");
    let r = package_response(Some(100), String::new(), "E: x".to_string());
    assert!(!r.success);
    assert_eq!(r.exit_code, 100);
    assert_eq!(r.error_message, "Command failed");
    let r = package_response(None, String::new(), String::new());
    assert!(!r.success);
    assert_eq!(r.exit_code, -1);
    let r = construct_error_response("boom");
    assert!(!r.success);
    assert_eq!((r.exit_code, r.stdout.as_str()), (-1, ""));
    assert_eq!(r.stderr, "boom");
    assert_eq!(r.error_message, "boom");
}

#[test]
fn service_requests_become_supervisor_calls() {
    let s = service();
    let call = |name: &str, action: i32| {
        s.manage_service(&ServiceRequest { service_name: name.to_string(), action })
    };
    assert_eq!(call("kari-ex.com", 0).unwrap(), strings(&["start", "kari-ex.com"]));
    assert_eq!(call("kari-ex.com", 1).unwrap(), strings(&["stop", "kari-ex.com"]));
    assert_eq!(call("getty@tty1", 2).unwrap(), strings(&["restart", "getty@tty1"]));
    assert_eq!(call("x", 3).unwrap(), strings(&["daemon-reload"]));
    assert_eq!(call("x", 4).unwrap(), strings(&["enable", "--now", "x"]));
    for bad in [-1, 5, 99] {
        let e = call("x", bad).unwrap_err();
        assert_eq!(e.kind, ErrorKind::InvalidArgument);
        assert_eq!(e.message, "Invalid service action");
    }
    for bad in ["", "a b", "a;b", "a/b", "x\n"] {
        assert_eq!(call(bad, 0).unwrap_err().message, "Invalid service name");
    }
    assert_eq!(service_action(2), Some(ServiceAction::Restart));
    assert_eq!(service_action(5), None);
    let r = service_response(4, None);
    assert!(r.success);
    assert_eq!(r.stdout, "Service action 4 successful");
    assert_eq!(r.exit_code, 0);
    let r = service_response(1, Some("systemctl stop failed: x"));
    assert!(!r.success);
    assert_eq!(r.stderr, "systemctl stop failed: x");
}

#[test]
fn deleting_a_deployment_refuses_traversal() {
    let s = service();
    let e = s
        .delete_deployment(&DeleteRequest {
            app_id: "x".to_string(),
            domain_name: "../etc".to_string(),
        })
        .unwrap_err();
    assert_eq!(e.kind, ErrorKind::InvalidArgument);
    assert_eq!(e.message, "Path traversal detected");
    assert!(s
        .delete_deployment(&DeleteRequest {
            app_id: "a/b".to_string(),
            domain_name: "ex.com".to_string(),
        })
        .is_err());
    let planned = s.stream_deployment(&request("ex.com"), "20260221141759").unwrap();
    assert_eq!(planned.release_dir, "/var/www/kari/ex.com/releases/20260221141759");
    let p = s
        .delete_deployment(&DeleteRequest {
            app_id: "a1".to_string(),
            domain_name: "ex.com".to_string(),
        })
        .unwrap();
    assert_eq!(p.service_name, "kari-ex.com");
    assert_eq!(p.unit_path, "/etc/systemd/system/kari-ex.com.service");
    assert_eq!(p.app_user, "kari-app-a1");
    assert_eq!(p.web_dir, "/var/www/kari/ex.com");
}

#[test]
fn deleting_goes_step_by_step_and_halts_on_failure() {
    let order = [
        DeleteStep::StopService,
        DeleteStep::RemoveUnitFile,
        DeleteStep::ReloadSupervisor,
        DeleteStep::DeprovisionUser,
        DeleteStep::RemoveWebDir,
    ];
    assert_eq!(delete_begin(), DeleteState::Run(DeleteStep::StopService));
    for i in 0..4 {
        assert_eq!(delete_advance(order[i], true), DeleteState::Run(order[i + 1]));
    }
    let done = delete_response(None);
    assert!(done.success);
    assert_eq!((done.exit_code, done.stdout.as_str()), (0, "Deployment deleted"));
    let halted = delete_response(Some("systemctl stop failed: x"));
    assert!(!halted.success);
    assert_eq!(halted.error_message, "systemctl stop failed: x");
    assert_eq!(delete_advance(DeleteStep::RemoveWebDir, true), DeleteState::Finished);
    for step in order {
        assert_eq!(delete_advance(step, false), DeleteState::Aborted(step));
    }
}

fn request(domain: &str) -> DeployRequest {
    DeployRequest {
        trace_id: "t-1".to_string(),
        app_id: "a1".to_string(),
        domain_name: domain.to_string(),
        repo_url: "https://github.com/o/r.git".to_string(),
        branch: "main".to_string(),
        build_command: "true".to_string(),
        env_vars: vec![],
        ssh_key: None,
    }
}

#[test]
fn deployments_are_planned_under_the_web_root() {
    let p = plan_deployment("/var/www/kari", &request("ex.com"), "20260221141759").unwrap();
    assert_eq!(p.base_dir, "/var/www/kari/ex.com");
    assert_eq!(p.release_dir, "/var/www/kari/ex.com/releases/20260221141759");
    assert_eq!(p.app_user, "kari-app-a1");
    assert_eq!(p.service_name, "kari-ex.com");
    assert_eq!(p.queue_capacity, 512);
    let e = plan_deployment("/var/www/kari", &request("../etc"), "20260221141759").unwrap_err();
    assert_eq!(e.message, "Path traversal detected");
    for bad in ["2026022114175", "202602211417590", "2026022114175x", ""] {
        let e = plan_deployment("/var/www/kari", &request("ex.com"), bad).unwrap_err();
        assert_eq!(e.kind, ErrorKind::InvalidArgument);
        assert_eq!(e.message, "Release name must be fourteen digits");
    }
}

#[test]
fn a_good_deployment_logs_every_stage_in_order() {
    let mut contents = Vec::new();
    let mut t = begin("t-1");
    loop {
        assert!(!t.remove_release_dir);
        for chunk in &t.logs {
            assert_eq!(chunk.trace_id, "t-1");
            contents.push(chunk.content.clone());
        }
        match t.next {
            DeployState::Running(stage) => t = advance(stage, None, "t-1"),
            DeployState::Done => break,
            DeployState::Failed(_) => panic!("no stage failed"),
        }
    }
    assert_eq!(
        contents,
        vec![
            "Pulling source...\n",
            "Hardening filesystem...\n",
            "Executing build...\n",
            "Swapping binaries...\n",
            "Deployment Complete.\n",
        ]
    );
}

#[test]
fn a_failed_build_removes_the_release_and_restarts_nothing() {
    let t = advance(DeployStage::Building, Some("Build process failed: Exit Code: 1"), "t-9");
    assert_eq!(t.next, DeployState::Failed(DeployStage::Building));
    assert!(t.remove_release_dir);
    assert_eq!(t.logs.len(), 1);
    assert_eq!(t.logs[0].content, "❌ Build Error: Build process failed: Exit Code: 1\n");
    assert!(t.logs[0].content.contains("❌ Build Error"));
    assert_eq!(t.logs[0].trace_id, "t-9");
    for (stage, text) in [
        (DeployStage::Fetching, "❌ Fetch Error: x\n"),
        (DeployStage::Jailing, "❌ Jail Error: x\n"),
        (DeployStage::Restarting, "❌ Restart Error: x\n"),
    ] {
        let t = advance(stage, Some("x"), "t");
        assert_eq!(t.next, DeployState::Failed(stage));
        assert!(!t.remove_release_dir);
        assert_eq!(t.logs[0].content, text);
    }
}
