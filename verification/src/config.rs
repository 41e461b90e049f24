//! Persistent agent configuration: the record read at startup and written
//! by enrollment, with its documented cadence defaults.

use vstd::prelude::*;
use vstd::string::*;
use crate::protocol::EnrollmentResponse;
use crate::runner::Platform;
use crate::text::{clone_strings, spec_strs_view};

verus! {

/// Default heartbeat cadence in seconds.
pub fn default_heartbeat_interval() -> (r: u64)
    ensures
        r == 10,
{
    10
}

/// Default metrics cadence in seconds.
pub fn default_metrics_interval() -> (r: u64)
    ensures
        r == 15,
{
    15
}

/// Default inventory cadence in seconds.
pub fn default_inventory_interval() -> (r: u64)
    ensures
        r == 300,
{
    300
}

/// Default job-poll cadence in seconds.
pub fn default_job_poll_interval() -> (r: u64)
    ensures
        r == 3,
{
    3
}

/// Default log level.
pub fn default_log_level() -> (r: String)
    ensures
        r@ == "info"@,
{
    "info".to_owned()
}

/// Persistent agent state. Credentials are absent until enrollment; the
/// cadence fields carry the documented defaults unless overridden.
pub struct AgentConfig {
    pub server_url: String,
    pub agent_id: Option<String>,
    pub agent_secret: Option<String>,
    pub enrollment_token: Option<String>,
    pub organization_id: Option<String>,
    pub heartbeat_interval_sec: u64,
    pub metrics_interval_sec: u64,
    pub inventory_interval_sec: u64,
    pub job_poll_interval_sec: u64,
    pub capabilities: Vec<String>,
    pub log_level: String,
}

/// The baseline capability set a fresh configuration advertises.
pub open spec fn spec_default_capabilities() -> Seq<Seq<char>> {
    seq![
        "run_script"@,
        "remote_shell"@,
        "reboot"@,
        "shutdown"@,
        "service_management"@,
        "process_management"@,
        "inventory"@,
        "metrics"@,
    ]
}

impl AgentConfig {
    /// An agent is enrolled exactly when both credential fields are present.
    pub fn is_enrolled(&self) -> (r: bool)
        ensures
            r == (self.agent_id is Some && self.agent_secret is Some),
    {
        self.agent_id.is_some() && self.agent_secret.is_some()
    }

    /// The platform-dependent path of the persistent configuration
    /// document.
    pub fn config_path(platform: &Platform) -> (r: String)
        ensures
            platform is Windows ==> r@ == "C:\\ProgramData\\MASSVISION\\Reap3r\\agent.toml"@,
            platform is Unix ==> r@ == "/etc/massvision/reap3r/agent.toml"@,
    {
        match platform {
            Platform::Windows => "C:\\ProgramData\\MASSVISION\\Reap3r\\agent.toml".to_owned(),
            Platform::Unix => "/etc/massvision/reap3r/agent.toml".to_owned(),
        }
    }

    /// The document synthesized on first startup: no credentials, the
    /// sentinel enrollment token, the documented cadences, and the
    /// baseline capability set.
    pub fn first_startup() -> (r: AgentConfig)
        ensures
            r.server_url@ == "http://localhost:4000"@,
            r.agent_id is None,
            r.agent_secret is None,
            r.enrollment_token matches Some(t) && t@ == "ENROLL-DEFAULT-2024-MASSVISION"@,
            r.organization_id is None,
            r.heartbeat_interval_sec == 10,
            r.metrics_interval_sec == 15,
            r.inventory_interval_sec == 300,
            r.job_poll_interval_sec == 3,
            spec_strs_view(r.capabilities@) == spec_default_capabilities(),
            r.log_level@ == "info"@,
    {
        let mut capabilities: Vec<String> = Vec::new();
        capabilities.push("run_script".to_owned());
        capabilities.push("remote_shell".to_owned());
        capabilities.push("reboot".to_owned());
        capabilities.push("shutdown".to_owned());
        capabilities.push("service_management".to_owned());
        capabilities.push("process_management".to_owned());
        capabilities.push("inventory".to_owned());
        capabilities.push("metrics".to_owned());
        proof {
            assert(spec_strs_view(capabilities@) =~= spec_default_capabilities());
        }
        AgentConfig {
            server_url: "http://localhost:4000".to_owned(),
            agent_id: None,
            agent_secret: None,
            enrollment_token: Some("ENROLL-DEFAULT-2024-MASSVISION".to_owned()),
            organization_id: None,
            heartbeat_interval_sec: default_heartbeat_interval(),
            metrics_interval_sec: default_metrics_interval(),
            inventory_interval_sec: default_inventory_interval(),
            job_poll_interval_sec: default_job_poll_interval(),
            capabilities,
            log_level: default_log_level(),
        }
    }

    /// Writes the credentials of a successful enrollment into the
    /// configuration, together with any server-pushed cadence or
    /// capability overrides. Nothing else changes.
    pub fn apply_enrollment(&mut self, resp: &EnrollmentResponse)
        ensures
            final(self).agent_id matches Some(i) && i@ == resp.agent_id@,
            final(self).agent_secret matches Some(s) && s@ == resp.agent_secret@,
            resp.heartbeat_interval_sec matches Some(v) ==> final(self).heartbeat_interval_sec
                == v,
            resp.heartbeat_interval_sec is None ==> final(self).heartbeat_interval_sec == old(
                self,
            ).heartbeat_interval_sec,
            resp.capabilities matches Some(c) ==> spec_strs_view(final(self).capabilities@)
                == spec_strs_view(c@),
            resp.capabilities is None ==> final(self).capabilities == old(self).capabilities,
            final(self).server_url == old(self).server_url,
            final(self).enrollment_token == old(self).enrollment_token,
            final(self).organization_id == old(self).organization_id,
            final(self).metrics_interval_sec == old(self).metrics_interval_sec,
            final(self).inventory_interval_sec == old(self).inventory_interval_sec,
            final(self).job_poll_interval_sec == old(self).job_poll_interval_sec,
            final(self).log_level == old(self).log_level,
    {
        self.agent_id = Some(resp.agent_id.as_str().to_owned());
        self.agent_secret = Some(resp.agent_secret.as_str().to_owned());
        match resp.heartbeat_interval_sec {
            Some(v) => {
                self.heartbeat_interval_sec = v;
            },
            None => {},
        }
        match &resp.capabilities {
            Some(c) => {
                self.capabilities = clone_strings(c);
            },
            None => {},
        }
    }
}

} // verus!
