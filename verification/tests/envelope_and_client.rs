use agent_core::client::{classify_ack, classify_poll_response, classify_response, report_accepted, AgentClient, AgentError};
use agent_core::crypto::hex_encode;
use agent_core::envelope::{build_signing_input, sign_envelope, verify_envelope};
use agent_core::protocol::ApiResponse;
use agent_core::text::{i64_to_dec, u64_to_dec};
use hmac::{Hmac, KeyInit, Mac};
use sha2::Sha256;

fn reference_hmac_hex(key: &str, msg: &str) -> String {
    let mut mac = <Hmac<Sha256> as KeyInit>::new_from_slice(key.as_bytes()).unwrap();
    mac.update(msg.as_bytes());
    hex::encode(mac.finalize().into_bytes())
}

#[test]
fn signing_input_layout() {
    let input = build_signing_input("A1", 1700000000, "n-1", "heartbeat", "{}");
    assert_eq!(input, "A1|1700000000|n-1|heartbeat|{}");
}

#[test]
fn signed_heartbeat_matches_reference_hmac() {
    let payload_json = "{\"status\":\"online\",\"uptime_sec\":0,\"agent_version\":\"x\",\"active_jobs\":[],\"capabilities\":[]}";
    let nonce = "00000000-0000-0000-0000-000000000001";
    let env = sign_envelope("A1", "S1", 1700000000, nonce, "heartbeat", payload_json);
    let signing = format!("A1|1700000000|{}|heartbeat|{}", nonce, payload_json);
    assert_eq!(env.hmac, reference_hmac_hex("S1", &signing));
    assert_eq!(env.agent_id, "A1");
    assert_eq!(env.ts, 1700000000);
    assert_eq!(env.nonce, nonce);
    assert_eq!(env.msg_type, "heartbeat");
    assert_eq!(env.payload, payload_json);
    assert_eq!(env.hmac.len(), 64);
    assert!(env.hmac.chars().all(|c| c.is_ascii_hexdigit() && !c.is_ascii_uppercase()));
}

#[test]
fn sign_then_verify_round_trip() {
    let env = sign_envelope("agent-7", "topsecret", 123456789, "nonce-1", "metrics", "{\"a\":1}");
    assert!(verify_envelope(&env, "topsecret"));
    assert!(!verify_envelope(&env, "othersecret"));
    let mut tampered = env;
    tampered.payload = "{\"a\":2}".to_string();
    assert!(!verify_envelope(&tampered, "topsecret"));
}

#[test]
fn negative_timestamp_signs_with_minus_digit() {
    let input = build_signing_input("a", -42, "n", "t", "p");
    assert_eq!(input, "a|-42|n|t|p");
}

#[test]
fn decimal_rendering() {
    assert_eq!(u64_to_dec(0), "0");
    assert_eq!(u64_to_dec(18446744073709551615), "18446744073709551615");
    assert_eq!(i64_to_dec(-123), "-123");
    assert_eq!(i64_to_dec(-9223372036854775808), "-9223372036854775808");
    assert_eq!(i64_to_dec(1700000000), "1700000000");
}

#[test]
fn hex_encoding_is_lowercase_two_digits_per_byte() {
    assert_eq!(hex_encode(&[0x00, 0xff, 0x10, 0xab]), "00ff10ab");
    assert_eq!(hex_encode(&[]), "");
}

#[test]
fn client_requires_enrollment() {
    let mut client = AgentClient::new("http://localhost:4000");
    let r = client.build_envelope("heartbeat", "{}", 1, "n-1".to_string());
    assert!(matches!(r, Err(AgentError::NotEnrolled)));
    let r2 = client.build_envelope_now("heartbeat", "{}");
    assert!(matches!(r2, Err(AgentError::NotEnrolled)));
}

#[test]
fn client_rejects_reused_nonce() {
    let mut client = AgentClient::new("http://localhost:4000");
    client.set_credentials("A1".to_string(), "S1".to_string());
    let first = client.build_envelope("heartbeat", "{}", 1, "n-1".to_string());
    assert!(first.is_ok());
    let second = client.build_envelope("heartbeat", "{}", 2, "n-1".to_string());
    assert!(matches!(second, Err(AgentError::NonceReused)));
    let third = client.build_envelope("heartbeat", "{}", 3, "n-2".to_string());
    assert!(third.is_ok());
}

#[test]
fn fresh_nonces_differ_between_envelopes() {
    let mut client = AgentClient::new("http://localhost:4000");
    client.set_credentials("A1".to_string(), "S1".to_string());
    let a = client.build_envelope_now("heartbeat", "{}").unwrap();
    let b = client.build_envelope_now("heartbeat", "{}").unwrap();
    assert_eq!(a.msg_type, "heartbeat");
    assert_eq!(b.msg_type, "heartbeat");
    assert_ne!(a.nonce, b.nonce);
}

#[test]
fn base_url_loses_trailing_slashes() {
    let client = AgentClient::new("https://control.example.com///");
    assert_eq!(client.base_url, "https://control.example.com");
    assert_eq!(
        client.endpoint_url("/heartbeat"),
        "https://control.example.com/agent-v2/heartbeat"
    );
    assert_eq!(client.endpoint_url("/jobs/next"), "https://control.example.com/agent-v2/jobs/next");
}

#[test]
fn poll_204_means_no_job() {
    let r = classify_poll_response(204, String::new(), None);
    assert!(matches!(r, Ok(None)));
}

#[test]
fn poll_2xx_hands_out_the_job_option() {
    let wrapper = ApiResponse { success: true, data: None, error: None };
    let r = classify_poll_response(200, String::new(), Some(wrapper));
    assert!(matches!(r, Ok(None)));
}

#[test]
fn non_2xx_surfaces_status_and_body() {
    let r: Result<u32, AgentError> =
        classify_response(503, "overloaded".to_string(), None);
    match r {
        Err(AgentError::HttpError { status, body }) => {
            assert_eq!(status, 503);
            assert_eq!(body, "overloaded");
        }
        _ => panic!("expected an HTTP failure"),
    }
}

#[test]
fn rejected_wrapper_surfaces_server_error() {
    let wrapper = ApiResponse { success: false, data: 0u32, error: Some("bad token".to_string()) };
    let r = classify_response(200, String::new(), Some(wrapper));
    match r {
        Err(AgentError::ServerRejected { error }) => assert_eq!(error, "bad token"),
        _ => panic!("expected a server rejection"),
    }
    let wrapper2 = ApiResponse { success: false, data: 0u32, error: None };
    let r2 = classify_response(200, String::new(), Some(wrapper2));
    match r2 {
        Err(AgentError::ServerRejected { error }) => assert_eq!(error, ""),
        _ => panic!("expected a server rejection"),
    }
}

#[test]
fn unparsed_2xx_body_fails() {
    let r: Result<u32, AgentError> = classify_response(200, String::new(), None);
    assert!(matches!(r, Err(AgentError::ParseFailed)));
}

#[test]
fn successful_wrapper_hands_out_data() {
    let wrapper = ApiResponse { success: true, data: 7u32, error: None };
    let r = classify_response(201, String::new(), Some(wrapper));
    assert!(matches!(r, Ok(7)));
}

#[test]
fn acceptance_is_the_2xx_range() {
    assert!(report_accepted(200));
    assert!(report_accepted(299));
    assert!(!report_accepted(199));
    assert!(!report_accepted(300));
    assert!(!report_accepted(404));
}

#[test]
fn acknowledgement_reports_surface_rejections() {
    assert!(classify_ack(200, String::new()).is_ok());
    assert!(classify_ack(204, String::new()).is_ok());
    match classify_ack(500, "busy".to_string()) {
        Err(AgentError::HttpError { status, body }) => {
            assert_eq!(status, 500);
            assert_eq!(body, "busy");
        }
        _ => panic!("expected an HTTP failure"),
    }
}
