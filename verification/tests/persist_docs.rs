use agent_core::config::AgentConfig;
use agent_core::persist::{encode_config, escape_basic, unescape_basic};

#[test]
fn escaping_round_trips() {
    for s in [
        "",
        "plain",
        "with \"quotes\" and \\backslashes\\",
        "line\nbreak\tand\rbell\u{7}",
        "unicode \u{e9}\u{20ac} stays",
    ] {
        let escaped = escape_basic(s);
        assert_eq!(unescape_basic(&escaped).as_deref(), Some(s));
    }
}

#[test]
fn escaping_uses_four_digit_control_escapes() {
    assert_eq!(escape_basic("a\nb"), "a\\u000ab");
    assert_eq!(escape_basic("q\"w\\e"), "q\\\"w\\\\e");
    assert_eq!(escape_basic("tab\t"), "tab\\u0009");
}

#[test]
fn malformed_escapes_are_rejected() {
    assert_eq!(unescape_basic("trailing\\"), None);
    assert_eq!(unescape_basic("\\x41"), None);
    assert_eq!(unescape_basic("\\u00g1"), None);
    assert_eq!(unescape_basic("\\u0041"), Some("A".to_string()));
    assert_eq!(unescape_basic("raw\nnewline"), None);
    assert_eq!(unescape_basic("raw\"quote"), None);
}

#[test]
fn first_startup_document_text() {
    let doc = encode_config(&AgentConfig::first_startup());
    let expected = "server_url = \"http://localhost:4000\"\n\
                    enrollment_token = \"ENROLL-DEFAULT-2024-MASSVISION\"\n\
                    heartbeat_interval_sec = 10\n\
                    metrics_interval_sec = 15\n\
                    inventory_interval_sec = 300\n\
                    job_poll_interval_sec = 3\n\
                    capabilities = [\"run_script\", \"remote_shell\", \"reboot\", \"shutdown\", \"service_management\", \"process_management\", \"inventory\", \"metrics\"]\n\
                    log_level = \"info\"\n";
    assert_eq!(doc, expected);
}

#[test]
fn saved_document_loads_back_to_the_same_structure() {
    let mut c = AgentConfig::first_startup();
    c.agent_id = Some("A-1".to_string());
    c.agent_secret = Some("s3cr3t \"quoted\" \\ value".to_string());
    c.organization_id = Some("org\nwith newline".to_string());
    c.heartbeat_interval_sec = 20;
    let doc = encode_config(&c);

    let table: toml::Table = toml::from_str(&doc).expect("document parses as TOML");
    assert_eq!(table["server_url"].as_str(), Some("http://localhost:4000"));
    assert_eq!(table["agent_id"].as_str(), Some("A-1"));
    assert_eq!(table["agent_secret"].as_str(), Some("s3cr3t \"quoted\" \\ value"));
    assert_eq!(table["organization_id"].as_str(), Some("org\nwith newline"));
    assert_eq!(table["heartbeat_interval_sec"].as_integer(), Some(20));
    assert_eq!(table["metrics_interval_sec"].as_integer(), Some(15));
    assert_eq!(table["inventory_interval_sec"].as_integer(), Some(300));
    assert_eq!(table["job_poll_interval_sec"].as_integer(), Some(3));
    assert_eq!(table["log_level"].as_str(), Some("info"));
    let caps: Vec<&str> = table["capabilities"]
        .as_array()
        .unwrap()
        .iter()
        .map(|v| v.as_str().unwrap())
        .collect();
    assert_eq!(caps, vec![
        "run_script",
        "remote_shell",
        "reboot",
        "shutdown",
        "service_management",
        "process_management",
        "inventory",
        "metrics",
    ]);
    assert!(table.get("policy").is_none());
}
