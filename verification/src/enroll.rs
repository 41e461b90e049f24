//! First-contact enrollment: the request is assembled from host facts
//! gathered outside the library, with the all-zero MAC addresses filtered
//! out here.

use vstd::prelude::*;
use vstd::string::*;
use crate::protocol::EnrollmentRequest;
use crate::text::{spec_strs_view, str_eq};

verus! {

/// The MAC addresses worth reporting: every address except the all-zero
/// one, in the order sampled.
pub open spec fn spec_filter_macs(macs: Seq<Seq<char>>) -> Seq<Seq<char>> {
    macs.filter(|m: Seq<char>| m != "00:00:00:00:00:00"@)
}

/// Drops the all-zero MAC addresses from a sampled list.
pub fn filter_macs(macs: Vec<String>) -> (r: Vec<String>)
    ensures
        spec_strs_view(r@) == spec_filter_macs(spec_strs_view(macs@)),
{
    let mut r: Vec<String> = Vec::new();
    let n = macs.len();
    let mut i: usize = 0;
    proof {
        assert(spec_strs_view(macs@).take(0) =~= Seq::<Seq<char>>::empty());
        assert(spec_strs_view(r@) =~= spec_filter_macs(spec_strs_view(macs@).take(0)));
    }
    while i < n
        invariant
            i <= n,
            n == macs@.len(),
            spec_strs_view(r@) == spec_filter_macs(spec_strs_view(macs@).take(i as int)),
        decreases n - i,
    {
        proof {
            assert(spec_strs_view(macs@).take(i + 1).drop_last() =~= spec_strs_view(macs@).take(
                i as int,
            ));
            assert(spec_strs_view(macs@).take(i + 1).last() == macs@[i as int]@);
            reveal_with_fuel(Seq::filter, 2);
        }
        if !str_eq(macs[i].as_str(), "00:00:00:00:00:00") {
            r.push(macs[i].as_str().to_owned());
            proof {
                assert(spec_strs_view(r@) =~= spec_filter_macs(
                    spec_strs_view(macs@).take(i + 1),
                ));
            }
        } else {
            proof {
                assert(spec_strs_view(r@) =~= spec_filter_macs(
                    spec_strs_view(macs@).take(i + 1),
                ));
            }
        }
        i = i + 1;
    }
    proof {
        assert(spec_strs_view(macs@).take(n as int) =~= spec_strs_view(macs@));
    }
    r
}

/// Assembles the unsigned enrollment request from the out-of-band token
/// and the host facts, with the zero MAC addresses dropped.
pub fn build_enrollment_request(
    enrollment_token: &str,
    hostname: &str,
    os: &str,
    os_version: &str,
    arch: &str,
    agent_version: &str,
    mac_addresses: Vec<String>,
) -> (r: EnrollmentRequest)
    ensures
        r.enrollment_token@ == enrollment_token@,
        r.hostname@ == hostname@,
        r.os@ == os@,
        r.os_version@ == os_version@,
        r.arch@ == arch@,
        r.agent_version@ == agent_version@,
        spec_strs_view(r.mac_addresses@) == spec_filter_macs(spec_strs_view(mac_addresses@)),
{
    EnrollmentRequest {
        enrollment_token: enrollment_token.to_owned(),
        hostname: hostname.to_owned(),
        os: os.to_owned(),
        os_version: os_version.to_owned(),
        arch: arch.to_owned(),
        agent_version: agent_version.to_owned(),
        mac_addresses: filter_macs(mac_addresses),
    }
}

} // verus!
