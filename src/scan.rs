use vstd::prelude::*;
use vstd::utf8::encode_utf8;
use crate::matcher::{advertisement_matches, matches_advertisement};

verus! {

/// How long a scan listens when the caller gives no timeout.
pub const DEFAULT_SCAN_MS: u64 = 3000;

/// One peripheral seen during a scan.
#[derive(Clone, Debug, PartialEq, Eq)]
pub struct DeviceInfo {
    pub id: String,
    pub name: String,
    pub rssi: Option<i16>,
    /// The advertisement looks like a provisioning target; advisory only.
    pub matched: bool,
}

/// Milliseconds to listen for advertisements.
pub fn scan_wait_ms(timeout_ms: Option<u64>) -> (r: u64)
    ensures
        r == match timeout_ms {
            Some(t) => t,
            None => DEFAULT_SCAN_MS,
        },
{
    match timeout_ms {
        Some(t) => t,
        None => DEFAULT_SCAN_MS,
    }
}

/// Builds the scan entry of one peripheral from its advertised properties.
/// A peripheral without a local name is called `Unknown`.
pub fn describe_device(
    id: String,
    local_name: Option<String>,
    rssi: Option<i16>,
    manufacturer_data: &Vec<Vec<u8>>,
    service_data: &Vec<Vec<u8>>,
) -> (r: DeviceInfo)
    ensures
        r.id == id,
        r.rssi == rssi,
        r.name@ == match local_name {
            Some(n) => n@,
            None => "Unknown"@,
        },
        r.matched == advertisement_matches(encode_utf8(r.name@), manufacturer_data@, service_data@),
{
    let name = match local_name {
        Some(n) => n,
        None => String::from_str("Unknown"),
    };
    let matched = matches_advertisement(name.as_str(), manufacturer_data, service_data);
    DeviceInfo { id, name, rssi, matched }
}

/// Sort key of a signal strength: a missing one ranks below every value.
pub open spec fn rssi_key(rssi: Option<i16>) -> int {
    match rssi {
        Some(v) => v as int,
        None => i16::MIN - 1,
    }
}

/// Strongest signal first.
pub open spec fn sorted_by_signal(s: Seq<DeviceInfo>) -> bool {
    forall|i: int, j: int| 0 <= i < j < s.len() ==> rssi_key(#[trigger] s[i].rssi) >= rssi_key(#[trigger] s[j].rssi)
}

fn signal_key(rssi: Option<i16>) -> (r: i32)
    ensures
        r == rssi_key(rssi),
{
    match rssi {
        Some(v) => v as i32,
        None => -32769,
    }
}

/// Orders scan results by descending signal strength; devices with no known
/// strength come last.
pub fn sort_by_signal(devices: Vec<DeviceInfo>) -> (r: Vec<DeviceInfo>)
    ensures
        sorted_by_signal(r@),
        r@.to_multiset() == devices@.to_multiset(),
{
    broadcast use vstd::seq_lib::group_to_multiset_ensures;

    let mut rest = devices;
    let mut out: Vec<DeviceInfo> = Vec::new();
    while rest.len() > 0
        invariant
            sorted_by_signal(out@),
            out@.to_multiset().add(rest@.to_multiset()) == devices@.to_multiset(),
        decreases rest@.len(),
    {
        let ghost before = rest@;
        let d = rest.pop().unwrap();
        proof {
            assert(before =~= rest@.push(d));
        }
        let k = signal_key(d.rssi);
        let mut p: usize = 0;
        while p < out.len() && signal_key(out[p].rssi) > k
            invariant
                p <= out@.len(),
                forall|i: int| 0 <= i < p ==> rssi_key(#[trigger] out@[i].rssi) > k,
            decreases out@.len() - p,
        {
            p += 1;
        }
        let ghost old_out = out@;
        out.insert(p, d);
        proof {
            assert(out@ == old_out.insert(p as int, d));
            vstd::seq_lib::to_multiset_build(rest@, d);
            vstd::seq_lib::to_multiset_insert(old_out, p as int, d);
            assert(out@.to_multiset().add(rest@.to_multiset()) =~= old_out.to_multiset().add(
                before.to_multiset(),
            ));
            assert forall|i: int, j: int| 0 <= i < j < out@.len() implies rssi_key(
                #[trigger] out@[i].rssi,
            ) >= rssi_key(#[trigger] out@[j].rssi) by {
                if p < old_out.len() {
                    assert(rssi_key(old_out[p as int].rssi) <= k);
                }
                if i < p && j > p {
                    assert(out@[j] == old_out[j - 1]);
                }
            }
        }
    }
    proof {
        assert(rest@ =~= Seq::<DeviceInfo>::empty());
    }
    out
}

} // verus!
