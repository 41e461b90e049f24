//! The inventory assembler and its text parsers. Providers outside the
//! library run the platform commands and read the system tables; the
//! parsing of their plain-text output and the composition of the snapshot
//! happen here. A provider that failed hands in empty text and yields an
//! empty list — inventory failures never propagate.

use vstd::prelude::*;
use vstd::string::*;
use crate::protocol::{
    HardwareInfo, InstalledSoftware, InventoryPayload, LocalUser, NetworkConfig, OsInfo,
    ServiceInfo,
};
use crate::scan::{
    contains_sub, fields, parse_u32_dec, spec_all_digits, spec_contains, spec_dec_val,
    spec_fields, spec_lines, spec_split_char, spec_trim_end_matches, split_lines, split_on,
    trim_end_matches_str,
};
use crate::text::{spec_strs_view, str_eq};

verus! {

pub struct InventoryCollector;

// ───────────────────────────────────────────────────────────────
// Services
// ───────────────────────────────────────────────────────────────

/// What one line of the service listing yields: the unit name with its
/// suffix stripped (used for both name fields) and the normalized status.
/// A line with fewer than four fields is skipped.
pub open spec fn spec_service_line(line: Seq<char>) -> Option<(Seq<char>, Seq<char>)> {
    let parts = spec_fields(line);
    if parts.len() >= 4 {
        let status = if parts[3] == "running"@ {
            "running"@
        } else if parts[3] == "exited"@ || parts[3] == "dead"@ {
            "stopped"@
        } else {
            "unknown"@
        };
        Some((spec_trim_end_matches(parts[0], ".service"@), status))
    } else {
        None
    }
}

/// The services of a listing, line by line, skipped lines dropped.
pub open spec fn spec_services_of_lines(lines: Seq<Seq<char>>) -> Seq<(Seq<char>, Seq<char>)>
    decreases lines.len(),
{
    if lines.len() == 0 {
        seq![]
    } else {
        let rest = spec_services_of_lines(lines.drop_last());
        match spec_service_line(lines.last()) {
            Some(x) => rest.push(x),
            None => rest,
        }
    }
}

/// The services named in a service-manager listing.
pub open spec fn spec_parse_services(text: Seq<char>) -> Seq<(Seq<char>, Seq<char>)> {
    spec_services_of_lines(spec_lines(text))
}

/// Parses the plain service listing: per line, field one names the unit
/// and field four carries its state; `running` stays, `exited` and `dead`
/// become `stopped`, anything else `unknown`. Start type and PID are not
/// in the listing.
pub fn parse_services(text: &str) -> (r: Vec<ServiceInfo>)
    ensures
        r@.len() == spec_parse_services(text@).len(),
        forall|i: int|
            0 <= i < r@.len() ==> {
                let s = #[trigger] r@[i];
                let t = spec_parse_services(text@)[i];
                s.name@ == t.0 && s.display_name@ == t.0 && s.status@ == t.1 && s.start_type@
                    == "unknown"@ && s.pid is None
            },
{
    let lines = split_lines(text);
    let mut r: Vec<ServiceInfo> = Vec::new();
    let n = lines.len();
    let mut i: usize = 0;
    proof {
        assert(spec_strs_view(lines@).take(0) =~= Seq::<Seq<char>>::empty());
    }
    while i < n
        invariant
            i <= n,
            n == lines@.len(),
            spec_strs_view(lines@) == spec_lines(text@),
            r@.len() == spec_services_of_lines(spec_strs_view(lines@).take(i as int)).len(),
            forall|j: int|
                0 <= j < r@.len() ==> {
                    let s = #[trigger] r@[j];
                    let t = spec_services_of_lines(spec_strs_view(lines@).take(i as int))[j];
                    s.name@ == t.0 && s.display_name@ == t.0 && s.status@ == t.1 && s.start_type@
                        == "unknown"@ && s.pid is None
                },
        decreases n - i,
    {
        proof {
            assert(spec_strs_view(lines@).take(i + 1).drop_last() =~= spec_strs_view(
                lines@,
            ).take(i as int));
            assert(spec_strs_view(lines@).take(i + 1).last() == lines@[i as int]@);
        }
        let parts = fields(lines[i].as_str());
        if parts.len() >= 4 {
            let status: String = if str_eq(parts[3].as_str(), "running") {
                "running".to_owned()
            } else if str_eq(parts[3].as_str(), "exited") || str_eq(parts[3].as_str(), "dead") {
                "stopped".to_owned()
            } else {
                "unknown".to_owned()
            };
            let name = trim_end_matches_str(parts[0].as_str(), ".service");
            let display_name = name.as_str().to_owned();
            r.push(
                ServiceInfo {
                    name,
                    display_name,
                    status,
                    start_type: "unknown".to_owned(),
                    pid: None,
                },
            );
        }
        i = i + 1;
    }
    proof {
        assert(spec_strs_view(lines@).take(n as int) =~= spec_strs_view(lines@));
    }
    r
}

// ───────────────────────────────────────────────────────────────
// Software
// ───────────────────────────────────────────────────────────────

/// What one line of the package listing yields: name, version and, when a
/// third column is present, the publisher. A line with fewer than two
/// columns is skipped.
pub open spec fn spec_software_line(line: Seq<char>) -> Option<(Seq<char>, Seq<char>, Seq<char>)> {
    let parts = spec_split_char(line, '\t');
    if parts.len() >= 2 {
        Some(
            (
                parts[0],
                parts[1],
                if parts.len() >= 3 {
                    parts[2]
                } else {
                    Seq::empty()
                },
            ),
        )
    } else {
        None
    }
}

/// The packages of a listing, line by line, skipped lines dropped.
pub open spec fn spec_software_of_lines(lines: Seq<Seq<char>>) -> Seq<
    (Seq<char>, Seq<char>, Seq<char>),
>
    decreases lines.len(),
{
    if lines.len() == 0 {
        seq![]
    } else {
        let rest = spec_software_of_lines(lines.drop_last());
        match spec_software_line(lines.last()) {
            Some(x) => rest.push(x),
            None => rest,
        }
    }
}

/// The packages named in a tab-separated package listing.
pub open spec fn spec_parse_software(text: Seq<char>) -> Seq<(Seq<char>, Seq<char>, Seq<char>)> {
    spec_software_of_lines(spec_lines(text))
}

/// Parses the tab-separated package listing: name, version, and publisher
/// when present. The listing carries no install date or size.
pub fn parse_software(text: &str) -> (r: Vec<InstalledSoftware>)
    ensures
        r@.len() == spec_parse_software(text@).len(),
        forall|i: int|
            0 <= i < r@.len() ==> {
                let s = #[trigger] r@[i];
                let t = spec_parse_software(text@)[i];
                s.name@ == t.0 && s.version@ == t.1 && s.publisher@ == t.2 && s.install_date@.len()
                    == 0 && s.size_bytes == 0
            },
{
    let lines = split_lines(text);
    let mut r: Vec<InstalledSoftware> = Vec::new();
    let n = lines.len();
    let mut i: usize = 0;
    proof {
        assert(spec_strs_view(lines@).take(0) =~= Seq::<Seq<char>>::empty());
    }
    while i < n
        invariant
            i <= n,
            n == lines@.len(),
            spec_strs_view(lines@) == spec_lines(text@),
            r@.len() == spec_software_of_lines(spec_strs_view(lines@).take(i as int)).len(),
            forall|j: int|
                0 <= j < r@.len() ==> {
                    let s = #[trigger] r@[j];
                    let t = spec_software_of_lines(spec_strs_view(lines@).take(i as int))[j];
                    s.name@ == t.0 && s.version@ == t.1 && s.publisher@ == t.2
                        && s.install_date@.len() == 0 && s.size_bytes == 0
                },
        decreases n - i,
    {
        proof {
            assert(spec_strs_view(lines@).take(i + 1).drop_last() =~= spec_strs_view(
                lines@,
            ).take(i as int));
            assert(spec_strs_view(lines@).take(i + 1).last() == lines@[i as int]@);
        }
        let parts = split_on(lines[i].as_str(), '\t');
        if parts.len() >= 2 {
            let publisher: String = if parts.len() >= 3 {
                parts[2].as_str().to_owned()
            } else {
                String::new()
            };
            r.push(
                InstalledSoftware {
                    name: parts[0].as_str().to_owned(),
                    version: parts[1].as_str().to_owned(),
                    publisher,
                    install_date: String::new(),
                    size_bytes: 0,
                },
            );
        }
        i = i + 1;
    }
    proof {
        assert(spec_strs_view(lines@).take(n as int) =~= spec_strs_view(lines@));
    }
    r
}

// ───────────────────────────────────────────────────────────────
// Users
// ───────────────────────────────────────────────────────────────

/// The numeric user id of a colon-separated account line; an unreadable
/// field counts as the overflow account.
pub open spec fn spec_uid_of(field: Seq<char>) -> int {
    if field.len() > 0 && spec_all_digits(field) && spec_dec_val(field) <= u32::MAX {
        spec_dec_val(field)
    } else {
        65534
    }
}

/// What one account line yields: username, the name part of the comment
/// field, whether the account is the superuser, and whether its shell
/// permits logging in. Only the superuser and accounts at or above the
/// first regular user id are kept.
pub open spec fn spec_user_line(line: Seq<char>) -> Option<
    (Seq<char>, Seq<char>, bool, bool),
> {
    let parts = spec_split_char(line, ':');
    if parts.len() >= 7 {
        let uid = spec_uid_of(parts[2]);
        if uid >= 1000 || uid == 0 {
            let full_name = if parts[4].len() > 0 {
                spec_split_char(parts[4], ',')[0]
            } else {
                Seq::empty()
            };
            let is_active = !spec_contains(parts[6], "nologin"@) && !spec_contains(
                parts[6],
                "false"@,
            );
            Some((parts[0], full_name, uid == 0, is_active))
        } else {
            None
        }
    } else {
        None
    }
}

/// The accounts of a listing, line by line, skipped lines dropped.
pub open spec fn spec_users_of_lines(lines: Seq<Seq<char>>) -> Seq<
    (Seq<char>, Seq<char>, bool, bool),
>
    decreases lines.len(),
{
    if lines.len() == 0 {
        seq![]
    } else {
        let rest = spec_users_of_lines(lines.drop_last());
        match spec_user_line(lines.last()) {
            Some(x) => rest.push(x),
            None => rest,
        }
    }
}

/// The accounts named in a colon-separated account database listing.
pub open spec fn spec_parse_users(text: Seq<char>) -> Seq<(Seq<char>, Seq<char>, bool, bool)> {
    spec_users_of_lines(spec_lines(text))
}

/// Parses the account database: regular users and the superuser, with the
/// display name taken from the comment field and activity read off the
/// login shell. No last-login time is in the listing.
pub fn parse_users(text: &str) -> (r: Vec<LocalUser>)
    ensures
        r@.len() == spec_parse_users(text@).len(),
        forall|i: int|
            0 <= i < r@.len() ==> {
                let s = #[trigger] r@[i];
                let t = spec_parse_users(text@)[i];
                s.username@ == t.0 && s.full_name@ == t.1 && s.is_admin == t.2 && s.is_active
                    == t.3 && s.last_login is None
            },
{
    let lines = split_lines(text);
    let mut r: Vec<LocalUser> = Vec::new();
    let n = lines.len();
    let mut i: usize = 0;
    proof {
        assert(spec_strs_view(lines@).take(0) =~= Seq::<Seq<char>>::empty());
    }
    while i < n
        invariant
            i <= n,
            n == lines@.len(),
            spec_strs_view(lines@) == spec_lines(text@),
            r@.len() == spec_users_of_lines(spec_strs_view(lines@).take(i as int)).len(),
            forall|j: int|
                0 <= j < r@.len() ==> {
                    let s = #[trigger] r@[j];
                    let t = spec_users_of_lines(spec_strs_view(lines@).take(i as int))[j];
                    s.username@ == t.0 && s.full_name@ == t.1 && s.is_admin == t.2 && s.is_active
                        == t.3 && s.last_login is None
                },
        decreases n - i,
    {
        proof {
            assert(spec_strs_view(lines@).take(i + 1).drop_last() =~= spec_strs_view(
                lines@,
            ).take(i as int));
            assert(spec_strs_view(lines@).take(i + 1).last() == lines@[i as int]@);
        }
        let parts = split_on(lines[i].as_str(), ':');
        if parts.len() >= 7 {
            let uid: u32 = match parse_u32_dec(parts[2].as_str()) {
                Some(v) => v,
                None => 65534,
            };
            if uid >= 1000 || uid == 0 {
                let full_name: String = if !parts[4].as_str().is_empty() {
                    let segments = split_on(parts[4].as_str(), ',');
                    segments[0].as_str().to_owned()
                } else {
                    String::new()
                };
                let is_active = !contains_sub(parts[6].as_str(), "nologin") && !contains_sub(
                    parts[6].as_str(),
                    "false",
                );
                r.push(
                    LocalUser {
                        username: parts[0].as_str().to_owned(),
                        full_name,
                        is_admin: uid == 0,
                        is_active,
                        last_login: None,
                    },
                );
            }
        }
        i = i + 1;
    }
    proof {
        assert(spec_strs_view(lines@).take(n as int) =~= spec_strs_view(lines@));
    }
    r
}

// ───────────────────────────────────────────────────────────────
// Snapshot assembly
// ───────────────────────────────────────────────────────────────

/// The normalized operating-system family: the three known names pass
/// through, anything else counts as `linux`.
pub open spec fn spec_os_type(os: Seq<char>) -> Seq<char> {
    if os == "windows"@ || os == "linux"@ || os == "macos"@ {
        os
    } else {
        "linux"@
    }
}

/// Normalizes an operating-system family name.
pub fn normalize_os_type(os: &str) -> (r: String)
    ensures
        r@ == spec_os_type(os@),
{
    if str_eq(os, "windows") || str_eq(os, "linux") || str_eq(os, "macos") {
        os.to_owned()
    } else {
        "linux".to_owned()
    }
}

/// The boot moment: the wall clock minus the uptime, clamped into range.
pub open spec fn spec_last_boot(now_ts: int, uptime_sec: int) -> int {
    if now_ts - uptime_sec < i64::MIN {
        i64::MIN as int
    } else {
        now_ts - uptime_sec
    }
}

/// The boot timestamp from the wall clock and the host uptime.
pub fn last_boot_ts(now_ts: i64, uptime_sec: u64) -> (r: i64)
    ensures
        r as int == spec_last_boot(now_ts as int, uptime_sec as int),
{
    let wide: i128 = now_ts as i128 - uptime_sec as i128;
    if wide < i64::MIN as i128 {
        i64::MIN
    } else {
        wide as i64
    }
}

impl InventoryCollector {
    /// Composes one inventory snapshot from the providers' parts and the
    /// millisecond timestamp of this tick.
    pub fn collect(
        timestamp_ms: i64,
        os: OsInfo,
        hardware: HardwareInfo,
        software: Vec<InstalledSoftware>,
        services: Vec<ServiceInfo>,
        users: Vec<LocalUser>,
        network_config: Vec<NetworkConfig>,
    ) -> (r: InventoryPayload)
        ensures
            r.timestamp == timestamp_ms,
            r.os == os,
            r.hardware == hardware,
            r.software == software,
            r.services == services,
            r.users == users,
            r.network_config == network_config,
    {
        InventoryPayload { timestamp: timestamp_ms, os, hardware, software, services, users, network_config }
    }
}

} // verus!
