use agent_core::metrics::{DiskSample, MetricsCollector, NicSample, RawMetricsSample};
use agent_core::protocol::{JobPayload, JobRequest};
use agent_core::runner::{
    build_kill_command, build_reboot_command, build_script_command, build_service_command,
    build_shutdown_command, truncate_output, JobAction, JobKind, JobRunner, Platform,
    ServiceAction,
};

fn job(job_type: &str, timeout_sec: u64, payload: JobPayload) -> JobRequest {
    JobRequest {
        job_id: "job-1".to_string(),
        job_type: job_type.to_string(),
        timeout_sec,
        priority: "normal".to_string(),
        payload,
        created_by: "op".to_string(),
        organization_id: "org".to_string(),
    }
}

#[test]
fn routing_table() {
    assert!(matches!(JobRunner::route("run_script"), JobKind::RunScript));
    assert!(matches!(JobRunner::route("reboot"), JobKind::Reboot));
    assert!(matches!(JobRunner::route("shutdown"), JobKind::Shutdown));
    assert!(matches!(JobRunner::route("service_restart"), JobKind::ServiceRestart));
    assert!(matches!(JobRunner::route("service_stop"), JobKind::ServiceStop));
    assert!(matches!(JobRunner::route("service_start"), JobKind::ServiceStart));
    assert!(matches!(JobRunner::route("process_kill"), JobKind::ProcessKill));
    assert!(matches!(JobRunner::route("launch_rockets"), JobKind::Unsupported));
}

#[test]
fn script_commands_per_interpreter() {
    let c = build_script_command("bash", "sleep 5").unwrap();
    assert_eq!(c.program, "bash");
    assert_eq!(c.args, vec!["-c".to_string(), "sleep 5".to_string()]);

    let c = build_script_command("python", "print(1)").unwrap();
    assert_eq!(c.program, "python3");
    assert_eq!(c.args, vec!["-c".to_string(), "print(1)".to_string()]);

    let c = build_script_command("cmd", "dir").unwrap();
    assert_eq!(c.program, "cmd");
    assert_eq!(c.args, vec!["/C".to_string(), "dir".to_string()]);

    let c = build_script_command("powershell", "Get-Date").unwrap();
    assert_eq!(c.program, "powershell");
    assert_eq!(
        c.args,
        vec![
            "-NoProfile".to_string(),
            "-NonInteractive".to_string(),
            "-ExecutionPolicy".to_string(),
            "Bypass".to_string(),
            "-Command".to_string(),
            "Get-Date".to_string(),
        ]
    );

    assert!(build_script_command("ruby", "puts 1").is_none());
}

#[test]
fn power_and_service_commands() {
    let c = build_reboot_command(&Platform::Unix, false);
    assert_eq!(c.program, "shutdown");
    assert_eq!(c.args, vec!["-r".to_string(), "+0".to_string()]);

    let c = build_reboot_command(&Platform::Windows, true);
    assert_eq!(c.args, vec!["/r".to_string(), "/t".to_string(), "5".to_string(), "/f".to_string()]);

    let c = build_shutdown_command(&Platform::Unix, false, 0);
    assert_eq!(c.args, vec!["-h".to_string(), "now".to_string()]);

    let c = build_shutdown_command(&Platform::Unix, false, 90);
    assert_eq!(c.args, vec!["-h".to_string(), "+1".to_string()]);

    let c = build_shutdown_command(&Platform::Windows, true, 7);
    assert_eq!(
        c.args,
        vec!["/s".to_string(), "/t".to_string(), "7".to_string(), "/f".to_string()]
    );

    let c = build_service_command(&Platform::Unix, &ServiceAction::Restart, "nginx");
    assert_eq!(c.program, "systemctl");
    assert_eq!(c.args, vec!["restart".to_string(), "nginx".to_string()]);

    let c = build_service_command(&Platform::Windows, &ServiceAction::Stop, "Spooler");
    assert_eq!(c.program, "powershell");
    assert_eq!(
        c.args,
        vec![
            "-NoProfile".to_string(),
            "-Command".to_string(),
            "Stop-Service".to_string(),
            "-Name".to_string(),
            "Spooler".to_string(),
            "-Force".to_string(),
        ]
    );

    let c = build_kill_command(&Platform::Unix, 4242);
    assert_eq!(c.program, "kill");
    assert_eq!(c.args, vec!["-9".to_string(), "4242".to_string()]);

    let c = build_kill_command(&Platform::Windows, 4242);
    assert_eq!(c.program, "taskkill");
    assert_eq!(c.args, vec!["/PID".to_string(), "4242".to_string(), "/F".to_string()]);
}

#[test]
fn plan_script_job_carries_deadline() {
    let mut payload = JobPayload::empty();
    payload.language = Some("bash".to_string());
    payload.script = Some("sleep 5".to_string());
    let j = job("run_script", 1, payload);
    match JobRunner::plan(&j, &Platform::Unix) {
        JobAction::RunScript { command, timeout_sec, working_dir, env_vars } => {
            assert_eq!(command.program, "bash");
            assert_eq!(command.args, vec!["-c".to_string(), "sleep 5".to_string()]);
            assert_eq!(timeout_sec, 1);
            assert_eq!(working_dir, None);
            assert!(env_vars.is_empty());
        }
        _ => panic!("expected a script action"),
    }
}

#[test]
fn script_timeout_produces_timeout_result() {
    let r = JobRunner::timeout_result("job-1", 1, 100, 101);
    assert_eq!(r.status, "timeout");
    assert_eq!(r.error_message.as_deref(), Some("Job timed out after 1 seconds"));
    assert!(r.error_message.unwrap().contains("1"));
    assert_eq!(r.started_at, 100);
    assert_eq!(r.completed_at, 101);
    assert_eq!(r.exit_code, None);
}

#[test]
fn unsupported_job_type_is_flattened_into_a_failed_result() {
    let j = job("launch_rockets", 10, JobPayload::empty());
    match JobRunner::plan(&j, &Platform::Unix) {
        JobAction::Fail { message } => {
            assert_eq!(message, "Unsupported job type: launch_rockets");
            let r = JobRunner::fail_result(&j.job_id, 50, 51, message);
            assert_eq!(r.status, "failed");
            assert!(r.error_message.unwrap().contains("Unsupported"));
            assert_eq!(r.exit_code, None);
        }
        _ => panic!("expected a failure"),
    }
}

#[test]
fn missing_payload_fields_fail() {
    let j = job("run_script", 5, JobPayload::empty());
    assert!(matches!(
        JobRunner::plan(&j, &Platform::Unix),
        JobAction::Fail { message } if message == "Missing script in payload"
    ));

    let mut p = JobPayload::empty();
    p.language = Some("ruby".to_string());
    p.script = Some("puts 1".to_string());
    let j = job("run_script", 5, p);
    assert!(matches!(
        JobRunner::plan(&j, &Platform::Unix),
        JobAction::Fail { message } if message == "Unsupported language: ruby"
    ));

    let j = job("service_restart", 5, JobPayload::empty());
    assert!(matches!(
        JobRunner::plan(&j, &Platform::Unix),
        JobAction::Fail { message } if message == "Missing service_name in payload"
    ));

    let j = job("process_kill", 5, JobPayload::empty());
    assert!(matches!(
        JobRunner::plan(&j, &Platform::Unix),
        JobAction::Fail { message } if message == "Missing pid in payload"
    ));
}

#[test]
fn script_result_status_follows_exit_code() {
    let ok = JobRunner::script_result("job-1", 10, 12, Some(0), "out", "");
    assert_eq!(ok.status, "success");
    assert_eq!(ok.exit_code, Some(0));
    assert_eq!(ok.stdout.as_deref(), Some("out"));
    assert_eq!(ok.stderr, None);
    assert!(ok.error_message.is_none());

    let bad = JobRunner::script_result("job-1", 10, 12, Some(3), "", "boom");
    assert_eq!(bad.status, "failed");
    assert_eq!(bad.exit_code, Some(3));
    assert_eq!(bad.stdout, None);
    assert_eq!(bad.stderr.as_deref(), Some("boom"));

    let killed = JobRunner::script_result("job-1", 10, 12, None, "", "");
    assert_eq!(killed.status, "failed");
    assert_eq!(killed.exit_code, Some(-1));
}

#[test]
fn result_interval_is_ordered_even_against_a_backwards_clock() {
    let r = JobRunner::script_result("job-1", 100, 90, Some(0), "", "");
    assert!(r.started_at <= r.completed_at);
    assert_eq!(r.started_at, 100);
    assert_eq!(r.completed_at, 100);
}

#[test]
fn launch_error_is_flattened() {
    let r = JobRunner::launch_error_result("job-1", 5, 6, "No such file or directory");
    assert_eq!(r.status, "failed");
    assert_eq!(
        r.error_message.as_deref(),
        Some("Process execution error: No such file or directory")
    );
}

#[test]
fn power_result_reports_success_whatever_the_exit_code() {
    let r = JobRunner::power_result("job-1", 1, 2, Some(1), "going down", "");
    assert_eq!(r.status, "success");
    assert_eq!(r.exit_code, None);
    assert_eq!(r.stdout.as_deref(), Some("going down"));
    assert_eq!(r.stderr, None);

    let clean = JobRunner::power_result("job-1", 1, 2, Some(0), "", "");
    assert_eq!(clean.status, "success");
    assert_eq!(clean.exit_code, Some(0));

    let killed = JobRunner::power_result("job-1", 1, 2, None, "", "");
    assert_eq!(killed.status, "success");
    assert_eq!(killed.exit_code, None);
}

#[test]
fn command_result_reports_exit_status() {
    let r = JobRunner::command_result("job-1", 1, 2, Some(0), "", "warning");
    assert_eq!(r.status, "success");
    assert_eq!(r.stdout.as_deref(), Some(""));
    assert_eq!(r.stderr.as_deref(), Some("warning"));

    let r = JobRunner::command_result("job-1", 1, 2, None, "", "");
    assert_eq!(r.status, "failed");
    assert_eq!(r.exit_code, Some(-1));
}

#[test]
fn output_within_the_cap_is_unchanged() {
    let exact = "a".repeat(1048576);
    assert_eq!(truncate_output(&exact), exact);
    assert_eq!(truncate_output(""), "");
    assert_eq!(truncate_output("hello"), "hello");
}

#[test]
fn oversized_output_is_cut_at_the_cap_with_a_sentinel() {
    let big = "a".repeat(2 * 1048576);
    let t = truncate_output(&big);
    assert_eq!(t.len(), 1048576 + "... [truncated]".len());
    assert!(t.ends_with("... [truncated]"));
    assert!(t.starts_with("aaaa"));
}

#[test]
fn truncation_backs_off_to_a_character_boundary() {
    let big = "\u{20ac}".repeat(349526);
    assert_eq!(big.len(), 1048578);
    let t = truncate_output(&big);
    assert!(t.ends_with("... [truncated]"));
    assert_eq!(t.len(), 1048575 + "... [truncated]".len());
    assert!(t.chars().take(5).all(|c| c == '\u{20ac}'));
}

#[test]
fn big_script_output_is_bounded_in_the_result() {
    let big = "x".repeat(3 * 1048576);
    let r = JobRunner::script_result("job-1", 0, 1, Some(0), &big, &big);
    let out = r.stdout.unwrap();
    let err = r.stderr.unwrap();
    assert!(out.len() <= 1048576 + "... [truncated]".len());
    assert!(err.len() <= 1048576 + "... [truncated]".len());
    assert!(out.ends_with("... [truncated]"));
}

fn sample(nics: Vec<NicSample>) -> RawMetricsSample {
    RawMetricsSample {
        timestamp_ms: 1700000000000,
        cpu_usage_centi: 1234,
        per_core_centi: vec![1000, 1468],
        cpu_model: "TestCPU".to_string(),
        cpu_frequency_mhz: 2400,
        mem_total: 16,
        mem_used: 8,
        mem_available: 8,
        swap_total: 4,
        swap_used: 1,
        disks: vec![DiskSample {
            mount_point: "/".to_string(),
            device: "sda1".to_string(),
            fs_type: "ext4".to_string(),
            total_bytes: 100,
            available_bytes: 25,
        }],
        nics,
        processes_count: 42,
        uptime_sec: 3600,
    }
}

fn nic(name: &str, rx: u64, tx: u64) -> NicSample {
    NicSample {
        name: name.to_string(),
        mac_address: "aa:bb:cc:dd:ee:ff".to_string(),
        total_rx: rx,
        total_tx: tx,
    }
}

#[test]
fn first_tick_rates_are_zero_and_second_tick_reports_the_delta() {
    let mut collector = MetricsCollector::new();

    let first = collector.collect(&sample(vec![nic("eth0", 1000, 2000)]));
    assert_eq!(first.network.len(), 1);
    assert_eq!(first.network[0].rx_bytes_sec, 0);
    assert_eq!(first.network[0].tx_bytes_sec, 0);

    let second = collector.collect(&sample(vec![nic("eth0", 1300, 2500)]));
    assert_eq!(second.network[0].rx_bytes_sec, 300);
    assert_eq!(second.network[0].tx_bytes_sec, 500);
}

#[test]
fn first_tick_is_zero_even_with_large_counters() {
    let mut collector = MetricsCollector::new();
    let first = collector.collect(&sample(vec![nic("eth0", 1300, 2500)]));
    assert_eq!(first.network[0].rx_bytes_sec, 0);
    assert_eq!(first.network[0].tx_bytes_sec, 0);
}

#[test]
fn unknown_nic_starts_at_zero_and_vanished_nic_is_dropped() {
    let mut collector = MetricsCollector::new();
    let t0 = collector.collect(&sample(vec![nic("eth0", 1000, 2000)]));
    assert_eq!(t0.network[0].rx_bytes_sec, 0);

    let t = collector.collect(&sample(vec![nic("wlan0", 777, 888)]));
    assert_eq!(t.network.len(), 1);
    assert_eq!(t.network[0].interface_name, "wlan0");
    assert_eq!(t.network[0].rx_bytes_sec, 0);
    assert_eq!(t.network[0].tx_bytes_sec, 0);

    let t2 = collector.collect(&sample(vec![nic("wlan0", 780, 900)]));
    assert_eq!(t2.network[0].rx_bytes_sec, 3);
    assert_eq!(t2.network[0].tx_bytes_sec, 12);
}

#[test]
fn counter_rollover_saturates_to_zero() {
    let mut collector = MetricsCollector::new();
    collector.collect(&sample(vec![nic("eth0", 5000, 5000)]));
    let t = collector.collect(&sample(vec![nic("eth0", 100, 4000)]));
    assert_eq!(t.network[0].rx_bytes_sec, 0);
    assert_eq!(t.network[0].tx_bytes_sec, 0);
}

#[test]
fn snapshot_carries_the_sampled_totals() {
    let mut collector = MetricsCollector::new();
    let s = sample(Vec::new());
    let t = collector.collect(&s);
    assert_eq!(t.timestamp, 1700000000000);
    assert_eq!(t.cpu.usage_centi_percent, 1234);
    assert_eq!(t.cpu.cores, 2);
    assert_eq!(t.cpu.model, "TestCPU");
    assert_eq!(t.cpu.per_core_centi_percent, vec![1000, 1468]);
    assert_eq!(t.memory.total_bytes, 16);
    assert_eq!(t.memory.swap_used_bytes, 1);
    assert_eq!(t.disks.len(), 1);
    assert_eq!(t.disks[0].used_bytes, 75);
    assert_eq!(t.disks[0].available_bytes, 25);
    assert_eq!(t.disks[0].read_bytes_sec, 0);
    assert_eq!(t.processes_count, 42);
    assert_eq!(t.uptime_sec, 3600);
}

#[test]
fn disk_usage_saturates_when_totals_disagree() {
    let mut collector = MetricsCollector::new();
    let mut s = sample(Vec::new());
    s.disks = vec![DiskSample {
        mount_point: "/odd".to_string(),
        device: "sdb1".to_string(),
        fs_type: "ext4".to_string(),
        total_bytes: 10,
        available_bytes: 30,
    }];
    let t = collector.collect(&s);
    assert_eq!(t.disks[0].used_bytes, 0);
}
