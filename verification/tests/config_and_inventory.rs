use agent_core::config::{
    default_heartbeat_interval, default_inventory_interval, default_job_poll_interval,
    default_log_level, default_metrics_interval, AgentConfig,
};
use agent_core::enroll::{build_enrollment_request, filter_macs};
use agent_core::inventory::{
    last_boot_ts, normalize_os_type, parse_services, parse_software, parse_users,
    InventoryCollector,
};
use agent_core::protocol::{EnrollmentResponse, HardwareInfo, OsInfo};
use agent_core::runner::Platform;
use agent_core::sched::{build_heartbeat_payload, cadence_sec, initial_delay_sec, LoopKind, LoopPhase, LoopState};

#[test]
fn documented_cadence_defaults() {
    assert_eq!(default_heartbeat_interval(), 10);
    assert_eq!(default_metrics_interval(), 15);
    assert_eq!(default_inventory_interval(), 300);
    assert_eq!(default_job_poll_interval(), 3);
    assert_eq!(default_log_level(), "info");
}

#[test]
fn config_path_depends_on_the_platform() {
    assert_eq!(
        AgentConfig::config_path(&Platform::Windows),
        r"C:\ProgramData\MASSVISION\Reap3r\agent.toml"
    );
    assert_eq!(AgentConfig::config_path(&Platform::Unix), "/etc/massvision/reap3r/agent.toml");
}

#[test]
fn first_startup_document() {
    let c = AgentConfig::first_startup();
    assert_eq!(c.server_url, "http://localhost:4000");
    assert!(c.agent_id.is_none());
    assert!(c.agent_secret.is_none());
    assert_eq!(c.enrollment_token.as_deref(), Some("ENROLL-DEFAULT-2024-MASSVISION"));
    assert!(c.organization_id.is_none());
    assert_eq!(c.heartbeat_interval_sec, 10);
    assert_eq!(c.metrics_interval_sec, 15);
    assert_eq!(c.inventory_interval_sec, 300);
    assert_eq!(c.job_poll_interval_sec, 3);
    assert_eq!(
        c.capabilities,
        vec![
            "run_script".to_string(),
            "remote_shell".to_string(),
            "reboot".to_string(),
            "shutdown".to_string(),
            "service_management".to_string(),
            "process_management".to_string(),
            "inventory".to_string(),
            "metrics".to_string(),
        ]
    );
    assert_eq!(c.log_level, "info");
    assert!(!c.is_enrolled());
}

#[test]
fn enrollment_writes_credentials_and_overrides() {
    let mut c = AgentConfig::first_startup();
    let resp = EnrollmentResponse {
        agent_id: "A1".to_string(),
        agent_secret: "S1".to_string(),
        policy: None,
        heartbeat_interval_sec: Some(20),
        capabilities: None,
    };
    c.apply_enrollment(&resp);
    assert_eq!(c.agent_id.as_deref(), Some("A1"));
    assert_eq!(c.agent_secret.as_deref(), Some("S1"));
    assert_eq!(c.heartbeat_interval_sec, 20);
    assert!(c.is_enrolled());
    assert_eq!(c.metrics_interval_sec, 15);
    assert_eq!(c.enrollment_token.as_deref(), Some("ENROLL-DEFAULT-2024-MASSVISION"));
}

#[test]
fn enrollment_without_overrides_changes_nothing_else() {
    let mut c = AgentConfig::first_startup();
    let resp = EnrollmentResponse {
        agent_id: "A2".to_string(),
        agent_secret: "S2".to_string(),
        policy: None,
        heartbeat_interval_sec: None,
        capabilities: Some(vec!["run_script".to_string()]),
    };
    c.apply_enrollment(&resp);
    assert_eq!(c.heartbeat_interval_sec, 10);
    assert_eq!(c.capabilities, vec!["run_script".to_string()]);
}

#[test]
fn zero_macs_are_filtered() {
    let macs = vec![
        "aa:bb:cc:dd:ee:ff".to_string(),
        "00:00:00:00:00:00".to_string(),
        "11:22:33:44:55:66".to_string(),
    ];
    let r = filter_macs(macs);
    assert_eq!(r, vec!["aa:bb:cc:dd:ee:ff".to_string(), "11:22:33:44:55:66".to_string()]);
}

#[test]
fn enrollment_request_is_assembled_from_host_facts() {
    let req = build_enrollment_request(
        "TOKEN-1",
        "host-1",
        "linux",
        "6.1",
        "x86_64",
        "1.2.3",
        vec!["00:00:00:00:00:00".to_string(), "aa:aa:aa:aa:aa:aa".to_string()],
    );
    assert_eq!(req.enrollment_token, "TOKEN-1");
    assert_eq!(req.hostname, "host-1");
    assert_eq!(req.os, "linux");
    assert_eq!(req.os_version, "6.1");
    assert_eq!(req.arch, "x86_64");
    assert_eq!(req.agent_version, "1.2.3");
    assert_eq!(req.mac_addresses, vec!["aa:aa:aa:aa:aa:aa".to_string()]);
}

#[test]
fn loop_delays_and_cadences() {
    assert_eq!(initial_delay_sec(&LoopKind::Heartbeat), 0);
    assert_eq!(initial_delay_sec(&LoopKind::Metrics), 5);
    assert_eq!(initial_delay_sec(&LoopKind::Inventory), 10);
    assert_eq!(initial_delay_sec(&LoopKind::JobPoll), 3);

    let mut c = AgentConfig::first_startup();
    c.heartbeat_interval_sec = 20;
    assert_eq!(cadence_sec(&c, &LoopKind::Heartbeat), 20);
    assert_eq!(cadence_sec(&c, &LoopKind::Metrics), 15);
    assert_eq!(cadence_sec(&c, &LoopKind::Inventory), 300);
    assert_eq!(cadence_sec(&c, &LoopKind::JobPoll), 3);
}

#[test]
fn failure_counter_rises_and_resets() {
    let mut st = LoopState::new();
    assert!(matches!(st.phase, LoopPhase::Idle));
    assert_eq!(st.consecutive_failures, 0);
    st.on_tick();
    assert!(matches!(st.phase, LoopPhase::Running));
    st.on_result(false);
    assert!(matches!(st.phase, LoopPhase::Backoff));
    assert_eq!(st.consecutive_failures, 1);
    st.on_tick();
    st.on_result(false);
    assert_eq!(st.consecutive_failures, 2);
    st.on_tick();
    st.on_result(true);
    assert!(matches!(st.phase, LoopPhase::Idle));
    assert_eq!(st.consecutive_failures, 0);
}

#[test]
fn heartbeat_payload_reports_online() {
    let c = AgentConfig::first_startup();
    let p = build_heartbeat_payload(3600, "1.2.3", &c);
    assert_eq!(p.status, "online");
    assert_eq!(p.uptime_sec, 3600);
    assert_eq!(p.agent_version, "1.2.3");
    assert!(p.active_jobs.is_empty());
    assert_eq!(p.capabilities, c.capabilities);
}

#[test]
fn service_listing_is_parsed_and_normalized() {
    let text = "cron.service loaded active running Regular background program\n\
                foo.service loaded inactive dead Foo daemon\n\
                bar.service loaded inactive exited Bar oneshot\n\
                odd.service loaded failed failed Odd daemon\n\
                short line\n";
    let services = parse_services(text);
    assert_eq!(services.len(), 4);
    assert_eq!(services[0].name, "cron");
    assert_eq!(services[0].display_name, "cron");
    assert_eq!(services[0].status, "running");
    assert_eq!(services[0].start_type, "unknown");
    assert_eq!(services[0].pid, None);
    assert_eq!(services[1].name, "foo");
    assert_eq!(services[1].status, "stopped");
    assert_eq!(services[2].status, "stopped");
    assert_eq!(services[3].status, "unknown");
}

#[test]
fn empty_provider_text_yields_empty_lists() {
    assert!(parse_services("").is_empty());
    assert!(parse_software("").is_empty());
    assert!(parse_users("").is_empty());
}

#[test]
fn package_listing_is_parsed() {
    let text = "bash\t5.1-2\tUbuntu Developers\nzlib1g\t1.2.11\nbroken-line\n";
    let sw = parse_software(text);
    assert_eq!(sw.len(), 2);
    assert_eq!(sw[0].name, "bash");
    assert_eq!(sw[0].version, "5.1-2");
    assert_eq!(sw[0].publisher, "Ubuntu Developers");
    assert_eq!(sw[0].install_date, "");
    assert_eq!(sw[0].size_bytes, 0);
    assert_eq!(sw[1].name, "zlib1g");
    assert_eq!(sw[1].publisher, "");
}

#[test]
fn account_database_is_parsed_and_filtered() {
    let text = "root:x:0:0:root:/root:/bin/bash\n\
                daemon:x:1:1:daemon:/usr/sbin:/usr/sbin/nologin\n\
                alice:x:1000:1000:Alice Liddell,,,:/home/alice:/bin/bash\n\
                bob:x:1001:1001::/home/bob:/bin/false\n\
                odd:x:weird:1002:Odd One:/home/odd:/bin/bash\n";
    let users = parse_users(text);
    assert_eq!(users.len(), 4);
    assert_eq!(users[0].username, "root");
    assert!(users[0].is_admin);
    assert!(users[0].is_active);
    assert_eq!(users[0].full_name, "root");
    assert_eq!(users[1].username, "alice");
    assert_eq!(users[1].full_name, "Alice Liddell");
    assert!(!users[1].is_admin);
    assert!(users[1].is_active);
    assert_eq!(users[2].username, "bob");
    assert_eq!(users[2].full_name, "");
    assert!(!users[2].is_active);
    assert_eq!(users[3].username, "odd");
    assert!(!users[3].is_admin);
    assert_eq!(users[3].last_login, None);
}

#[test]
fn os_type_is_normalized() {
    assert_eq!(normalize_os_type("windows"), "windows");
    assert_eq!(normalize_os_type("linux"), "linux");
    assert_eq!(normalize_os_type("macos"), "macos");
    assert_eq!(normalize_os_type("freebsd"), "linux");
}

#[test]
fn boot_time_is_clock_minus_uptime() {
    assert_eq!(last_boot_ts(1700000000, 3600), 1699996400);
    assert_eq!(last_boot_ts(0, 0), 0);
    assert_eq!(last_boot_ts(-9223372036854775808, 10), -9223372036854775808);
}

#[test]
fn snapshot_composition_keeps_every_part() {
    let os = OsInfo {
        os_type: "linux".to_string(),
        name: "TestOS".to_string(),
        version: "1".to_string(),
        build: "1".to_string(),
        arch: "x86_64".to_string(),
        kernel: "6.1".to_string(),
        hostname: "host-1".to_string(),
        domain: String::new(),
        last_boot: 1699996400,
    };
    let hw = HardwareInfo {
        manufacturer: String::new(),
        model: String::new(),
        serial_number: String::new(),
        bios_version: String::new(),
        cpu_model: "TestCPU".to_string(),
        cpu_cores: 4,
        cpu_threads: 8,
        ram_total_bytes: 16,
        ram_slots: Vec::new(),
        gpu: Vec::new(),
    };
    let services = parse_services("cron.service loaded active running X\n");
    let payload = InventoryCollector::collect(
        1700000000123,
        os,
        hw,
        Vec::new(),
        services,
        Vec::new(),
        Vec::new(),
    );
    assert_eq!(payload.timestamp, 1700000000123);
    assert_eq!(payload.os.hostname, "host-1");
    assert_eq!(payload.hardware.cpu_threads, 8);
    assert_eq!(payload.services.len(), 1);
    assert!(payload.software.is_empty());
    assert!(payload.users.is_empty());
    assert!(payload.network_config.is_empty());
}
