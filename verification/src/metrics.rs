//! The metrics rate engine. Raw totals are sampled outside the library;
//! here the per-NIC cumulative counters of the previous tick are kept, the
//! per-interval rates are computed by saturating subtraction, and the full
//! snapshot is assembled.

use vstd::prelude::*;
use vstd::string::*;
use crate::protocol::{CpuMetrics, DiskMetrics, MemoryMetrics, MetricsPayload, NetworkMetrics};
use crate::text::str_eq;

verus! {

/// One NIC's cumulative counters, as sampled this tick.
pub struct NicSample {
    pub name: String,
    pub mac_address: String,
    pub total_rx: u64,
    pub total_tx: u64,
}

/// One disk's totals, as sampled this tick.
pub struct DiskSample {
    pub mount_point: String,
    pub device: String,
    pub fs_type: String,
    pub total_bytes: u64,
    pub available_bytes: u64,
}

/// Everything one metrics tick samples from the host, in plain values.
/// CPU usage arrives in hundredths of a percent.
pub struct RawMetricsSample {
    pub timestamp_ms: i64,
    pub cpu_usage_centi: u64,
    pub per_core_centi: Vec<u64>,
    pub cpu_model: String,
    pub cpu_frequency_mhz: u64,
    pub mem_total: u64,
    pub mem_used: u64,
    pub mem_available: u64,
    pub swap_total: u64,
    pub swap_used: u64,
    pub disks: Vec<DiskSample>,
    pub nics: Vec<NicSample>,
    pub processes_count: u32,
    pub uptime_sec: u64,
}

/// A NIC's counters as remembered from the previous tick.
pub struct PrevNic {
    pub name: String,
    pub rx: u64,
    pub tx: u64,
}

/// Saturating subtraction: a counter that wrapped or reset yields zero,
/// never an underflow.
pub open spec fn spec_sat_sub(a: u64, b: u64) -> u64 {
    if a >= b {
        (a - b) as u64
    } else {
        0
    }
}

/// The previous counters remembered for `name`: those of the first entry
/// with that interface name, if any.
pub open spec fn spec_find_prev(prev: Seq<PrevNic>, name: Seq<char>) -> Option<(u64, u64)>
    decreases prev.len(),
{
    if prev.len() == 0 {
        None
    } else if prev[0].name@ == name {
        Some((prev[0].rx, prev[0].tx))
    } else {
        spec_find_prev(prev.drop_first(), name)
    }
}

/// The per-interval rates for a NIC: the saturated increase over the
/// previous tick's counters, or zero for a NIC seen for the first time.
pub open spec fn spec_rates(prev: Seq<PrevNic>, name: Seq<char>, rx: u64, tx: u64) -> (u64, u64) {
    match spec_find_prev(prev, name) {
        Some(p) => (spec_sat_sub(rx, p.0), spec_sat_sub(tx, p.1)),
        None => (0, 0),
    }
}

/// Rates never exceed the current counters, and a counter that advanced by
/// some amount since the remembered value yields exactly that amount: the
/// saturating construction cannot produce a negative or wrapped rate.
pub proof fn lemma_rates_bounded(prev: Seq<PrevNic>, name: Seq<char>, rx: u64, tx: u64)
    ensures
        spec_rates(prev, name, rx, tx).0 <= rx,
        spec_rates(prev, name, rx, tx).1 <= tx,
        spec_find_prev(prev, name) matches Some(p) ==> (p.0 <= rx ==> p.0 + spec_rates(
            prev,
            name,
            rx,
            tx,
        ).0 == rx) && (p.0 > rx ==> spec_rates(prev, name, rx, tx).0 == 0) && (p.1 <= tx ==> p.1
            + spec_rates(prev, name, rx, tx).1 == tx) && (p.1 > tx ==> spec_rates(
            prev,
            name,
            rx,
            tx,
        ).1 == 0),
{
}

fn find_prev(prev: &Vec<PrevNic>, name: &str) -> (r: Option<(u64, u64)>)
    ensures
        r == spec_find_prev(prev@, name@),
{
    let n = prev.len();
    let mut i: usize = 0;
    proof {
        assert(prev@.skip(0) =~= prev@);
    }
    while i < n
        invariant
            i <= n,
            n == prev@.len(),
            spec_find_prev(prev@, name@) == spec_find_prev(prev@.skip(i as int), name@),
        decreases n - i,
    {
        proof {
            assert(prev@.skip(i as int)[0] == prev@[i as int]);
        }
        if str_eq(prev[i].name.as_str(), name) {
            return Some((prev[i].rx, prev[i].tx));
        }
        proof {
            assert(prev@.skip(i as int).drop_first() =~= prev@.skip(i + 1));
        }
        i = i + 1;
    }
    None
}

fn clone_u64s(v: &Vec<u64>) -> (r: Vec<u64>)
    ensures
        r@ == v@,
{
    let mut r: Vec<u64> = Vec::new();
    let n = v.len();
    let mut i: usize = 0;
    while i < n
        invariant
            i <= n,
            n == v@.len(),
            r@ == v@.take(i as int),
        decreases n - i,
    {
        r.push(v[i]);
        proof {
            assert(r@ =~= v@.take(i + 1));
        }
        i = i + 1;
    }
    proof {
        assert(v@.take(n as int) =~= v@);
    }
    r
}

/// The metrics engine's only state between ticks: the previous cumulative
/// counters of each NIC observed last tick.
pub struct MetricsCollector {
    pub prev_net: Vec<PrevNic>,
}

impl MetricsCollector {
    /// A fresh engine remembers no counters, so the first tick finds no
    /// previous entry for any NIC and reports every rate as zero.
    pub fn new() -> (r: MetricsCollector)
        ensures
            r.prev_net@.len() == 0,
    {
        MetricsCollector { prev_net: Vec::new() }
    }

    /// One metrics tick: assembles the snapshot from the sampled totals,
    /// computes each NIC's per-interval rates against the previous tick's
    /// counters (zero for a NIC not seen then), and replaces the remembered
    /// counters with the current ones. A NIC that disappeared is dropped
    /// with its remembered counters.
    pub fn collect(&mut self, sample: &RawMetricsSample) -> (r: MetricsPayload)
        ensures
            r.timestamp == sample.timestamp_ms,
            r.cpu.usage_centi_percent == sample.cpu_usage_centi,
            r.cpu.cores as nat == (if sample.per_core_centi@.len() > 0xffff_ffff {
                0xffff_ffff as nat
            } else {
                sample.per_core_centi@.len()
            }),
            r.cpu.model@ == sample.cpu_model@,
            r.cpu.frequency_mhz == sample.cpu_frequency_mhz,
            r.cpu.per_core_centi_percent@ == sample.per_core_centi@,
            r.memory.total_bytes == sample.mem_total,
            r.memory.used_bytes == sample.mem_used,
            r.memory.available_bytes == sample.mem_available,
            r.memory.swap_total_bytes == sample.swap_total,
            r.memory.swap_used_bytes == sample.swap_used,
            r.disks@.len() == sample.disks@.len(),
            forall|i: int|
                0 <= i < sample.disks@.len() ==> {
                    let d = #[trigger] r.disks@[i];
                    let s = sample.disks@[i];
                    d.mount_point@ == s.mount_point@ && d.device@ == s.device@ && d.fs_type@
                        == s.fs_type@ && d.total_bytes == s.total_bytes && d.available_bytes
                        == s.available_bytes && d.used_bytes == spec_sat_sub(
                        s.total_bytes,
                        s.available_bytes,
                    ) && d.read_bytes_sec == 0 && d.write_bytes_sec == 0
                },
            r.network@.len() == sample.nics@.len(),
            forall|i: int|
                0 <= i < sample.nics@.len() ==> {
                    let m = #[trigger] r.network@[i];
                    let s = sample.nics@[i];
                    m.interface_name@ == s.name@ && m.ip_address@.len() == 0 && m.mac_address@
                        == s.mac_address@ && (m.rx_bytes_sec, m.tx_bytes_sec) == spec_rates(
                        old(self).prev_net@,
                        s.name@,
                        s.total_rx,
                        s.total_tx,
                    ) && m.rx_packets_sec == 0 && m.tx_packets_sec == 0
                },
            r.processes_count == sample.processes_count,
            r.uptime_sec == sample.uptime_sec,
            final(self).prev_net@.len() == sample.nics@.len(),
            forall|i: int|
                0 <= i < sample.nics@.len() ==> (#[trigger] final(self).prev_net@[i]).name@
                    == sample.nics@[i].name@ && final(self).prev_net@[i].rx
                    == sample.nics@[i].total_rx && final(self).prev_net@[i].tx
                    == sample.nics@[i].total_tx,
    {
        let cores = sample.per_core_centi.len();
        let cpu = CpuMetrics {
            usage_centi_percent: sample.cpu_usage_centi,
            cores: if cores > 0xffff_ffff {
                0xffff_ffffu32
            } else {
                cores as u32
            },
            model: sample.cpu_model.as_str().to_owned(),
            frequency_mhz: sample.cpu_frequency_mhz,
            per_core_centi_percent: clone_u64s(&sample.per_core_centi),
        };
        let memory = MemoryMetrics {
            total_bytes: sample.mem_total,
            used_bytes: sample.mem_used,
            available_bytes: sample.mem_available,
            swap_total_bytes: sample.swap_total,
            swap_used_bytes: sample.swap_used,
        };

        let mut disks: Vec<DiskMetrics> = Vec::new();
        let nd = sample.disks.len();
        let mut i: usize = 0;
        while i < nd
            invariant
                i <= nd,
                nd == sample.disks@.len(),
                disks@.len() == i,
                forall|j: int|
                    0 <= j < i ==> {
                        let d = #[trigger] disks@[j];
                        let s = sample.disks@[j];
                        d.mount_point@ == s.mount_point@ && d.device@ == s.device@ && d.fs_type@
                            == s.fs_type@ && d.total_bytes == s.total_bytes && d.available_bytes
                            == s.available_bytes && d.used_bytes == spec_sat_sub(
                            s.total_bytes,
                            s.available_bytes,
                        ) && d.read_bytes_sec == 0 && d.write_bytes_sec == 0
                    },
            decreases nd - i,
        {
            let s = &sample.disks[i];
            let total = s.total_bytes;
            let available = s.available_bytes;
            let used = if total >= available {
                total - available
            } else {
                0
            };
            disks.push(
                DiskMetrics {
                    mount_point: s.mount_point.as_str().to_owned(),
                    device: s.device.as_str().to_owned(),
                    fs_type: s.fs_type.as_str().to_owned(),
                    total_bytes: total,
                    used_bytes: used,
                    available_bytes: available,
                    read_bytes_sec: 0,
                    write_bytes_sec: 0,
                },
            );
            i = i + 1;
        }

        let mut network: Vec<NetworkMetrics> = Vec::new();
        let mut new_prev: Vec<PrevNic> = Vec::new();
        let nn = sample.nics.len();
        let mut k: usize = 0;
        while k < nn
            invariant
                k <= nn,
                nn == sample.nics@.len(),
                network@.len() == k,
                new_prev@.len() == k,
                self.prev_net == old(self).prev_net,
                forall|j: int|
                    0 <= j < k ==> {
                        let m = #[trigger] network@[j];
                        let s = sample.nics@[j];
                        m.interface_name@ == s.name@ && m.ip_address@.len() == 0 && m.mac_address@
                            == s.mac_address@ && (m.rx_bytes_sec, m.tx_bytes_sec) == spec_rates(
                            old(self).prev_net@,
                            s.name@,
                            s.total_rx,
                            s.total_tx,
                        ) && m.rx_packets_sec == 0 && m.tx_packets_sec == 0
                    },
                forall|j: int|
                    0 <= j < k ==> (#[trigger] new_prev@[j]).name@ == sample.nics@[j].name@
                        && new_prev@[j].rx == sample.nics@[j].total_rx && new_prev@[j].tx
                        == sample.nics@[j].total_tx,
            decreases nn - k,
        {
            let s = &sample.nics[k];
            let total_rx = s.total_rx;
            let total_tx = s.total_tx;
            let (rx_sec, tx_sec) = match find_prev(&self.prev_net, s.name.as_str()) {
                Some(p) => {
                    let rx = if total_rx >= p.0 {
                        total_rx - p.0
                    } else {
                        0
                    };
                    let tx = if total_tx >= p.1 {
                        total_tx - p.1
                    } else {
                        0
                    };
                    (rx, tx)
                },
                None => (0u64, 0u64),
            };
            network.push(
                NetworkMetrics {
                    interface_name: s.name.as_str().to_owned(),
                    ip_address: String::new(),
                    mac_address: s.mac_address.as_str().to_owned(),
                    rx_bytes_sec: rx_sec,
                    tx_bytes_sec: tx_sec,
                    rx_packets_sec: 0,
                    tx_packets_sec: 0,
                },
            );
            new_prev.push(
                PrevNic { name: s.name.as_str().to_owned(), rx: total_rx, tx: total_tx },
            );
            k = k + 1;
        }
        self.prev_net = new_prev;

        MetricsPayload {
            timestamp: sample.timestamp_ms,
            cpu,
            memory,
            disks,
            network,
            processes_count: sample.processes_count,
            uptime_sec: sample.uptime_sec,
        }
    }
}

} // verus!
