//! The signed message envelope: every authenticated agent message is
//! wrapped in an `AgentEnvelope` whose `hmac` field is the HMAC-SHA256 tag
//! of `"{agent_id}|{ts}|{nonce}|{type}|{payload_json}"` under the agent
//! secret, hex-encoded in lowercase.

use vstd::prelude::*;
use vstd::string::*;
use vstd::utf8::encode_utf8;
use crate::crypto::{hex_encode, hmac_sha256_of, hmac_sha256_tag, spec_hex_of};
use crate::text::{push_dec_i64, spec_dec_int, string_push};

verus! {

/// A signed envelope. `payload` holds the JSON serialization of the
/// message payload, verbatim as placed on the wire; the signature covers
/// those exact characters.
pub struct AgentEnvelope {
    pub agent_id: String,
    pub ts: i64,
    pub nonce: String,
    pub msg_type: String,
    pub payload: String,
    pub hmac: String,
}

/// The signing string: the five fields joined by `'|'`, with the timestamp
/// rendered in decimal.
pub open spec fn spec_signing_input(
    agent_id: Seq<char>,
    ts: int,
    nonce: Seq<char>,
    msg_type: Seq<char>,
    payload_json: Seq<char>,
) -> Seq<char> {
    agent_id + seq!['|'] + spec_dec_int(ts) + seq!['|'] + nonce + seq!['|'] + msg_type
        + seq!['|'] + payload_json
}

/// The expected `hmac` field: the HMAC-SHA256 tag of the UTF-8 bytes of
/// the signing string under the UTF-8 bytes of the secret, in lowercase hex.
pub open spec fn spec_envelope_hmac(
    secret: Seq<char>,
    agent_id: Seq<char>,
    ts: int,
    nonce: Seq<char>,
    msg_type: Seq<char>,
    payload_json: Seq<char>,
) -> Seq<char> {
    spec_hex_of(
        hmac_sha256_of(
            encode_utf8(secret),
            encode_utf8(spec_signing_input(agent_id, ts, nonce, msg_type, payload_json)),
        ),
    )
}

impl AgentEnvelope {
    /// The envelope invariant: the `hmac` field matches the envelope's own
    /// fields under `secret`.
    pub open spec fn signed_with(self, secret: Seq<char>) -> bool {
        self.hmac@ == spec_envelope_hmac(
            secret,
            self.agent_id@,
            self.ts as int,
            self.nonce@,
            self.msg_type@,
            self.payload@,
        )
    }
}

/// Builds the signing string for the given envelope fields.
pub fn build_signing_input(
    agent_id: &str,
    ts: i64,
    nonce: &str,
    msg_type: &str,
    payload_json: &str,
) -> (r: String)
    ensures
        r@ == spec_signing_input(agent_id@, ts as int, nonce@, msg_type@, payload_json@),
{
    let mut s = agent_id.to_owned();
    string_push(&mut s, '|');
    push_dec_i64(&mut s, ts);
    string_push(&mut s, '|');
    s.append(nonce);
    string_push(&mut s, '|');
    s.append(msg_type);
    string_push(&mut s, '|');
    s.append(payload_json);
    assert(s@ =~= spec_signing_input(agent_id@, ts as int, nonce@, msg_type@, payload_json@));
    s
}

/// Signs the given fields into an envelope. The envelope is immutable
/// after construction; its `hmac` matches its fields under `secret`.
pub fn sign_envelope(
    agent_id: &str,
    secret: &str,
    ts: i64,
    nonce: &str,
    msg_type: &str,
    payload_json: &str,
) -> (env: AgentEnvelope)
    ensures
        env.agent_id@ == agent_id@,
        env.ts == ts,
        env.nonce@ == nonce@,
        env.msg_type@ == msg_type@,
        env.payload@ == payload_json@,
        env.signed_with(secret@),
{
    let input = build_signing_input(agent_id, ts, nonce, msg_type, payload_json);
    let tag = hmac_sha256_tag(secret, input.as_str());
    let hmac_hex = hex_encode(tag.as_slice());
    AgentEnvelope {
        agent_id: agent_id.to_owned(),
        ts,
        nonce: nonce.to_owned(),
        msg_type: msg_type.to_owned(),
        payload: payload_json.to_owned(),
        hmac: hmac_hex,
    }
}

/// Recomputes the tag of an envelope's fields under `secret` and compares
/// it with the envelope's `hmac` field.
pub fn verify_envelope(env: &AgentEnvelope, secret: &str) -> (r: bool)
    ensures
        r == env.signed_with(secret@),
{
    let input = build_signing_input(
        env.agent_id.as_str(),
        env.ts,
        env.nonce.as_str(),
        env.msg_type.as_str(),
        env.payload.as_str(),
    );
    let tag = hmac_sha256_tag(secret, input.as_str());
    let expected = hex_encode(tag.as_slice());
    expected == env.hmac
}

} // verus!
