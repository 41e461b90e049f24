//! The protocol side of the transport client: the endpoint paths, the
//! credential state, the nonce registry that keeps every emitted nonce
//! unique, and the rules for reading a server response. The HTTP exchange
//! itself happens outside the library and hands back the status and body.

use vstd::prelude::*;
use vstd::string::*;
use crate::envelope::{sign_envelope, AgentEnvelope};
use crate::host::{fresh_nonce, now_unix_ts};
use crate::protocol::{ApiResponse, JobRequest};
use crate::text::str_eq;

verus! {

/// The failures a transport exchange can surface.
#[derive(Debug)]
pub enum AgentError {
    /// No credentials are loaded; only enrollment may proceed.
    NotEnrolled,
    /// The freshly drawn nonce was already emitted once; the envelope was
    /// not built.
    NonceReused,
    /// The server answered outside the 2xx range.
    HttpError { status: u16, body: String },
    /// The server answered 2xx with `success == false`.
    ServerRejected { error: String },
    /// The 2xx body did not parse as the expected wrapper.
    ParseFailed,
    /// The request never reached the server.
    Unreachable { detail: String },
}

/// A base URL with its trailing slashes removed.
pub open spec fn spec_trim_trailing_slashes(s: Seq<char>) -> Seq<char>
    decreases s.len(),
{
    if s.len() > 0 && s.last() == '/' {
        spec_trim_trailing_slashes(s.drop_last())
    } else {
        s
    }
}

fn trim_trailing_slashes(s: &str) -> (r: String)
    ensures
        r@ == spec_trim_trailing_slashes(s@),
{
    let n = s.unicode_len();
    let mut end = n;
    proof {
        assert(s@.take(n as int) =~= s@);
    }
    while end > 0 && s.get_char(end - 1) == '/'
        invariant
            end <= n,
            n == s@.len(),
            spec_trim_trailing_slashes(s@) == spec_trim_trailing_slashes(s@.take(end as int)),
        decreases end,
    {
        proof {
            assert(s@.take(end as int).last() == s@[end - 1]);
            assert(s@.take(end as int).drop_last() =~= s@.take(end - 1));
        }
        end = end - 1;
    }
    let head = s.substring_char(0, end);
    proof {
        if end > 0 {
            assert(s@.take(end as int).last() == s@[end - 1]);
        }
        assert(spec_trim_trailing_slashes(s@.take(end as int)) == s@.take(end as int));
    }
    head.to_owned()
}

/// Whether a nonce was already emitted.
pub open spec fn spec_nonce_emitted(emitted: Seq<String>, nonce: Seq<char>) -> bool {
    exists|i: int| 0 <= i < emitted.len() && emitted[i]@ == nonce
}

/// The protocol state of the client: where to talk, as whom, and which
/// nonces have already been spent in this process lifetime.
pub struct AgentClient {
    pub base_url: String,
    pub agent_id: Option<String>,
    pub agent_secret: Option<String>,
    pub emitted_nonces: Vec<String>,
}

impl AgentClient {
    /// No two recorded nonces are the same.
    pub open spec fn nonces_distinct(self) -> bool {
        forall|i: int, j: int|
            0 <= i < j < self.emitted_nonces@.len() ==> self.emitted_nonces@[i]@
                != self.emitted_nonces@[j]@
    }

    /// Credentials are loaded.
    pub open spec fn spec_enrolled(self) -> bool {
        self.agent_id is Some && self.agent_secret is Some
    }

    /// A fresh client for a server: the base URL is kept without trailing
    /// slashes, no credentials are loaded, and no nonce has been emitted.
    pub fn new(base_url: &str) -> (r: AgentClient)
        ensures
            r.base_url@ == spec_trim_trailing_slashes(base_url@),
            r.agent_id is None,
            r.agent_secret is None,
            r.emitted_nonces@.len() == 0,
            r.nonces_distinct(),
    {
        AgentClient {
            base_url: trim_trailing_slashes(base_url),
            agent_id: None,
            agent_secret: None,
            emitted_nonces: Vec::new(),
        }
    }

    /// Installs the credentials received from enrollment.
    pub fn set_credentials(&mut self, agent_id: String, agent_secret: String)
        ensures
            final(self).agent_id matches Some(i) && i@ == agent_id@,
            final(self).agent_secret matches Some(s) && s@ == agent_secret@,
            final(self).base_url == old(self).base_url,
            final(self).emitted_nonces == old(self).emitted_nonces,
    {
        self.agent_id = Some(agent_id);
        self.agent_secret = Some(agent_secret);
    }

    /// Credentials are loaded.
    pub fn is_enrolled(&self) -> (r: bool)
        ensures
            r == self.spec_enrolled(),
    {
        self.agent_id.is_some() && self.agent_secret.is_some()
    }

    /// The URL of an endpoint under the agent API root.
    pub fn endpoint_url(&self, path: &str) -> (r: String)
        ensures
            r@ == self.base_url@ + "/agent-v2"@ + path@,
    {
        let mut url = self.base_url.as_str().to_owned();
        url.append("/agent-v2");
        url.append(path);
        url
    }

    fn nonce_emitted(&self, nonce: &str) -> (r: bool)
        ensures
            r == spec_nonce_emitted(self.emitted_nonces@, nonce@),
    {
        let n = self.emitted_nonces.len();
        let mut i: usize = 0;
        while i < n
            invariant
                i <= n,
                n == self.emitted_nonces@.len(),
                forall|j: int| 0 <= j < i ==> self.emitted_nonces@[j]@ != nonce@,
            decreases n - i,
        {
            if str_eq(self.emitted_nonces[i].as_str(), nonce) {
                return true;
            }
            i = i + 1;
        }
        false
    }

    /// Builds and signs an envelope with the given timestamp and nonce.
    /// It fails with `NotEnrolled` when credentials are absent and with
    /// `NonceReused` when the nonce was emitted before; otherwise the
    /// envelope is signed with the loaded credentials, its nonce differs
    /// from every nonce emitted so far, and the nonce is recorded.
    pub fn build_envelope(&mut self, msg_type: &str, payload_json: &str, ts: i64, nonce: String)
        -> (r: Result<AgentEnvelope, AgentError>)
        ensures
            !old(self).spec_enrolled() ==> (r matches Err(e) && e is NotEnrolled && *final(self)
                == *old(self)),
            old(self).spec_enrolled() && spec_nonce_emitted(old(self).emitted_nonces@, nonce@)
                ==> (r matches Err(e) && e is NonceReused && *final(self) == *old(self)),
            old(self).spec_enrolled() && !spec_nonce_emitted(old(self).emitted_nonces@, nonce@)
                ==> r is Ok,
            r matches Ok(env) ==> {
                &&& old(self).spec_enrolled()
                &&& env.agent_id@ == old(self).agent_id->0@
                &&& env.ts == ts
                &&& env.nonce@ == nonce@
                &&& env.msg_type@ == msg_type@
                &&& env.payload@ == payload_json@
                &&& env.signed_with(old(self).agent_secret->0@)
                &&& forall|i: int|
                    0 <= i < old(self).emitted_nonces@.len() ==> old(self).emitted_nonces@[i]@
                        != env.nonce@
                &&& final(self).emitted_nonces@.len() == old(self).emitted_nonces@.len() + 1
                &&& final(self).emitted_nonces@.last()@ == env.nonce@
                &&& final(self).emitted_nonces@.take(old(self).emitted_nonces@.len() as int)
                    == old(self).emitted_nonces@
                &&& final(self).agent_id == old(self).agent_id
                &&& final(self).agent_secret == old(self).agent_secret
                &&& final(self).base_url == old(self).base_url
            },
            old(self).nonces_distinct() ==> final(self).nonces_distinct(),
    {
        let enrolled = self.agent_id.is_some() && self.agent_secret.is_some();
        if !enrolled {
            return Err(AgentError::NotEnrolled);
        }
        if self.nonce_emitted(nonce.as_str()) {
            return Err(AgentError::NonceReused);
        }
        let agent_id = match &self.agent_id {
            Some(i) => i.as_str(),
            None => "",
        };
        let secret = match &self.agent_secret {
            Some(s) => s.as_str(),
            None => "",
        };
        let env = sign_envelope(agent_id, secret, ts, nonce.as_str(), msg_type, payload_json);
        self.emitted_nonces.push(nonce);
        proof {
            assert(final(self).emitted_nonces@.take(old(self).emitted_nonces@.len() as int)
                =~= old(self).emitted_nonces@);
        }
        Ok(env)
    }

    /// Builds a signed envelope with the wall clock as timestamp and a
    /// freshly drawn random nonce. Whatever the clock and the draw return:
    /// without credentials the result is `NotEnrolled`; with credentials it
    /// is either a signed envelope whose nonce was never emitted before —
    /// now recorded — or `NonceReused` when the draw repeated itself.
    pub fn build_envelope_now(&mut self, msg_type: &str, payload_json: &str) -> (r: Result<
        AgentEnvelope,
        AgentError,
    >)
        ensures
            !old(self).spec_enrolled() ==> (r matches Err(e) && e is NotEnrolled && *final(self)
                == *old(self)),
            old(self).spec_enrolled() ==> r is Ok || (r matches Err(e) && e is NonceReused),
            r matches Ok(env) ==> {
                &&& old(self).spec_enrolled()
                &&& env.agent_id@ == old(self).agent_id->0@
                &&& env.msg_type@ == msg_type@
                &&& env.payload@ == payload_json@
                &&& env.signed_with(old(self).agent_secret->0@)
                &&& forall|i: int|
                    0 <= i < old(self).emitted_nonces@.len() ==> old(self).emitted_nonces@[i]@
                        != env.nonce@
                &&& final(self).emitted_nonces@.len() == old(self).emitted_nonces@.len() + 1
                &&& final(self).emitted_nonces@.last()@ == env.nonce@
                &&& final(self).agent_id == old(self).agent_id
                &&& final(self).agent_secret == old(self).agent_secret
                &&& final(self).base_url == old(self).base_url
            },
            r is Err ==> *final(self) == *old(self),
            old(self).nonces_distinct() ==> final(self).nonces_distinct(),
    {
        let ts = now_unix_ts();
        let nonce = fresh_nonce();
        self.build_envelope(msg_type, payload_json, ts, nonce)
    }
}

/// Whether a response status reports acceptance.
pub fn report_accepted(status: u16) -> (r: bool)
    ensures
        r == (200 <= status < 300),
{
    200 <= status && status < 300
}

/// Reads an acknowledgement-only response, where the body carries nothing
/// the agent uses: any 2xx status accepts the report; anything else
/// surfaces the status and body as an HTTP failure.
pub fn classify_ack(status: u16, body: String) -> (r: Result<(), AgentError>)
    ensures
        200 <= status < 300 ==> r is Ok,
        !(200 <= status < 300) ==> (r matches Err(e) && (e matches AgentError::HttpError {
            status: s,
            body: b,
        } && s == status && b@ == body@)),
{
    if report_accepted(status) {
        Ok(())
    } else {
        Err(AgentError::HttpError { status, body })
    }
}

/// The text of an optional error message, empty when absent.
pub open spec fn spec_error_text(o: Option<String>) -> Seq<char> {
    match o {
        Some(s) => s@,
        None => seq![],
    }
}

/// Reads a server response: a status outside 2xx surfaces the body as an
/// HTTP failure; a 2xx body that did not parse fails; a parsed wrapper
/// with `success == false` surfaces the server's error text; otherwise the
/// carried data is handed out.
pub fn classify_response<T>(status: u16, body: String, parsed: Option<ApiResponse<T>>) -> (r:
    Result<T, AgentError>)
    ensures
        !(200 <= status < 300) ==> (r matches Err(e) && (e matches AgentError::HttpError {
            status: s,
            body: b,
        } && s == status && b@ == body@)),
        200 <= status < 300 && parsed is None ==> (r matches Err(e) && e is ParseFailed),
        200 <= status < 300 && (parsed matches Some(w) && !w.success) ==> (r matches Err(e) && (
        e matches AgentError::ServerRejected { error } && error@ == spec_error_text(
            parsed->0.error,
        ))),
        200 <= status < 300 && (parsed matches Some(w) && w.success) ==> (r matches Ok(d) && d
            == parsed->0.data),
{
    if !(200 <= status && status < 300) {
        return Err(AgentError::HttpError { status, body });
    }
    match parsed {
        None => Err(AgentError::ParseFailed),
        Some(w) => {
            if w.success {
                Ok(w.data)
            } else {
                match w.error {
                    Some(error) => Err(AgentError::ServerRejected { error }),
                    None => Err(AgentError::ServerRejected { error: String::new() }),
                }
            }
        },
    }
}

/// Reads a job-poll response: 204 means no pending work and is no error;
/// anything else follows the common response rules.
pub fn classify_poll_response(
    status: u16,
    body: String,
    parsed: Option<ApiResponse<Option<JobRequest>>>,
) -> (r: Result<Option<JobRequest>, AgentError>)
    ensures
        status == 204 ==> (r matches Ok(d) && d is None),
        status != 204 && !(200 <= status < 300) ==> (r matches Err(e) && (
        e matches AgentError::HttpError { status: s, body: b } && s == status && b@ == body@)),
        status != 204 && 200 <= status < 300 && parsed is None ==> (r matches Err(e)
            && e is ParseFailed),
        status != 204 && 200 <= status < 300 && (parsed matches Some(w) && !w.success) ==> (r
            matches Err(e) && (e matches AgentError::ServerRejected { error } && error@
            == spec_error_text(parsed->0.error))),
        status != 204 && 200 <= status < 300 && (parsed matches Some(w) && w.success) ==> (r
            matches Ok(d) && d == parsed->0.data),
{
    if status == 204 {
        return Ok(None);
    }
    classify_response(status, body, parsed)
}

} // verus!
