//! Wire-protocol data types. Structured payloads whose encoding the server
//! defines are held as plain values; a JSON payload that the library only
//! carries through is held as its serialized text.

use vstd::prelude::*;

verus! {

// ───────────────────────────────────────────────────────────────
// Enrollment
// ───────────────────────────────────────────────────────────────

pub struct EnrollmentRequest {
    pub enrollment_token: String,
    pub hostname: String,
    pub os: String,
    pub os_version: String,
    pub arch: String,
    pub agent_version: String,
    pub mac_addresses: Vec<String>,
}

pub struct EnrollmentResponse {
    pub agent_id: String,
    pub agent_secret: String,
    /// Server-pushed policy, carried as its JSON text.
    pub policy: Option<String>,
    pub heartbeat_interval_sec: Option<u64>,
    pub capabilities: Option<Vec<String>>,
}

// ───────────────────────────────────────────────────────────────
// Heartbeat
// ───────────────────────────────────────────────────────────────

pub struct HeartbeatPayload {
    pub status: String,
    pub uptime_sec: u64,
    pub agent_version: String,
    pub active_jobs: Vec<String>,
    pub capabilities: Vec<String>,
}

pub struct HeartbeatResponse {
    pub ack: bool,
    pub pending_job: Option<JobRequest>,
}

// ───────────────────────────────────────────────────────────────
// Metrics
// ───────────────────────────────────────────────────────────────

pub struct MetricsPayload {
    pub timestamp: i64,
    pub cpu: CpuMetrics,
    pub memory: MemoryMetrics,
    pub disks: Vec<DiskMetrics>,
    pub network: Vec<NetworkMetrics>,
    pub processes_count: u32,
    pub uptime_sec: u64,
}

/// CPU usage is held in hundredths of a percent, so that the record stays
/// in integers; the transport layer renders it as a percentage.
pub struct CpuMetrics {
    pub usage_centi_percent: u64,
    pub cores: u32,
    pub model: String,
    pub frequency_mhz: u64,
    pub per_core_centi_percent: Vec<u64>,
}

pub struct MemoryMetrics {
    pub total_bytes: u64,
    pub used_bytes: u64,
    pub available_bytes: u64,
    pub swap_total_bytes: u64,
    pub swap_used_bytes: u64,
}

pub struct DiskMetrics {
    pub mount_point: String,
    pub device: String,
    pub fs_type: String,
    pub total_bytes: u64,
    pub used_bytes: u64,
    pub available_bytes: u64,
    pub read_bytes_sec: u64,
    pub write_bytes_sec: u64,
}

/// Per-NIC counters. The rate fields carry the increase of the cumulative
/// counters since the previous metrics tick (bytes per interval).
pub struct NetworkMetrics {
    pub interface_name: String,
    pub ip_address: String,
    pub mac_address: String,
    pub rx_bytes_sec: u64,
    pub tx_bytes_sec: u64,
    pub rx_packets_sec: u64,
    pub tx_packets_sec: u64,
}

// ───────────────────────────────────────────────────────────────
// Inventory
// ───────────────────────────────────────────────────────────────

pub struct InventoryPayload {
    pub timestamp: i64,
    pub os: OsInfo,
    pub hardware: HardwareInfo,
    pub software: Vec<InstalledSoftware>,
    pub services: Vec<ServiceInfo>,
    pub users: Vec<LocalUser>,
    pub network_config: Vec<NetworkConfig>,
}

pub struct OsInfo {
    pub os_type: String,
    pub name: String,
    pub version: String,
    pub build: String,
    pub arch: String,
    pub kernel: String,
    pub hostname: String,
    pub domain: String,
    pub last_boot: i64,
}

pub struct HardwareInfo {
    pub manufacturer: String,
    pub model: String,
    pub serial_number: String,
    pub bios_version: String,
    pub cpu_model: String,
    pub cpu_cores: u32,
    pub cpu_threads: u32,
    pub ram_total_bytes: u64,
    pub ram_slots: Vec<RamSlot>,
    pub gpu: Vec<GpuInfo>,
}

pub struct RamSlot {
    pub slot: String,
    pub size_bytes: u64,
    pub ram_type: String,
    pub speed_mhz: u64,
    pub manufacturer: String,
}

pub struct GpuInfo {
    pub name: String,
    pub driver_version: String,
    pub vram_bytes: u64,
}

pub struct InstalledSoftware {
    pub name: String,
    pub version: String,
    pub publisher: String,
    pub install_date: String,
    pub size_bytes: u64,
}

pub struct ServiceInfo {
    pub name: String,
    pub display_name: String,
    pub status: String,
    pub start_type: String,
    pub pid: Option<u32>,
}

pub struct LocalUser {
    pub username: String,
    pub full_name: String,
    pub is_admin: bool,
    pub is_active: bool,
    pub last_login: Option<i64>,
}

pub struct NetworkConfig {
    pub interface_name: String,
    pub ip_addresses: Vec<String>,
    pub mac_address: String,
    pub gateway: String,
    pub dns_servers: Vec<String>,
    pub dhcp_enabled: bool,
}

// ───────────────────────────────────────────────────────────────
// Jobs
// ───────────────────────────────────────────────────────────────

/// The structured fields a job payload can carry, one option per field the
/// dispatcher reads. Absent fields are `None`; `env_vars` is empty when
/// absent.
pub struct JobPayload {
    pub language: Option<String>,
    pub script: Option<String>,
    pub working_dir: Option<String>,
    pub env_vars: Vec<(String, String)>,
    pub force: Option<bool>,
    pub delay_sec: Option<u64>,
    pub service_name: Option<String>,
    pub pid: Option<u64>,
}

impl JobPayload {
    /// A payload with every optional field absent.
    pub fn empty() -> (r: JobPayload)
        ensures
            r.language is None,
            r.script is None,
            r.working_dir is None,
            r.env_vars@.len() == 0,
            r.force is None,
            r.delay_sec is None,
            r.service_name is None,
            r.pid is None,
    {
        JobPayload {
            language: None,
            script: None,
            working_dir: None,
            env_vars: Vec::new(),
            force: None,
            delay_sec: None,
            service_name: None,
            pid: None,
        }
    }
}

pub struct JobRequest {
    pub job_id: String,
    pub job_type: String,
    pub timeout_sec: u64,
    pub priority: String,
    pub payload: JobPayload,
    pub created_by: String,
    pub organization_id: String,
}

/// A job result. Every constructor in the dispatcher establishes `wf`.
pub struct JobResult {
    pub job_id: String,
    pub status: String,
    pub started_at: i64,
    pub completed_at: i64,
    pub stdout: Option<String>,
    pub stderr: Option<String>,
    pub exit_code: Option<i32>,
    pub error_message: Option<String>,
    /// Structured result data, carried as its JSON text.
    pub result_data: Option<String>,
}

/// A result status is one of exactly three strings.
pub open spec fn spec_valid_status(s: Seq<char>) -> bool {
    s == "success"@ || s == "failed"@ || s == "timeout"@
}

impl JobResult {
    /// Every produced result has a valid status and an ordered interval.
    pub open spec fn wf_basic(self) -> bool {
        &&& spec_valid_status(self.status@)
        &&& self.started_at <= self.completed_at
    }

    /// The full result invariant: on success, a present exit code is zero.
    pub open spec fn wf(self) -> bool {
        &&& self.wf_basic()
        &&& (self.status@ == "success"@ && self.exit_code is Some ==> self.exit_code
            == Some(0i32))
    }
}

/// The three status strings are pairwise distinct, so a well-formed result
/// carries exactly one of them.
pub proof fn lemma_status_exclusive(r: JobResult)
    requires
        r.wf_basic(),
    ensures
        r.status@ == "success"@ ==> !(r.status@ == "failed"@) && !(r.status@ == "timeout"@),
        r.status@ == "failed"@ ==> !(r.status@ == "success"@) && !(r.status@ == "timeout"@),
        r.status@ == "timeout"@ ==> !(r.status@ == "success"@) && !(r.status@ == "failed"@),
        spec_valid_status(r.status@),
{
    reveal_strlit("success");
    reveal_strlit("failed");
    reveal_strlit("timeout");
    assert("success"@.len() == 7);
    assert("failed"@.len() == 6);
    assert("timeout"@[0] == 't');
    assert("success"@[0] == 's');
}

// ───────────────────────────────────────────────────────────────
// API response wrapper
// ───────────────────────────────────────────────────────────────

/// The wrapper every endpoint answers with on a 2xx status.
pub struct ApiResponse<T> {
    pub success: bool,
    pub data: T,
    pub error: Option<String>,
}

} // verus!
