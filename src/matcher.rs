use vstd::prelude::*;
use vstd::string::StringSliceAdditionalSpecFns;

verus! {

/// `data[i..i+2]` is the marker `0xAB 0x0A`.
pub open spec fn marker_at(data: Seq<u8>, i: int) -> bool {
    0 <= i && i + 1 < data.len() && data[i] == 0xAB && data[i + 1] == 0x0A
}

/// The advertisement bytes hold the marker at some offset.
pub open spec fn has_marker(data: Seq<u8>) -> bool {
    exists|i: int| marker_at(data, i)
}

/// ASCII lower-casing of one byte; every other byte is kept.
pub open spec fn ascii_lower(b: u8) -> u8 {
    if 65 <= b <= 90 {
        (b + 32) as u8
    } else {
        b
    }
}

/// `name[i..i+6]` spells `netcfg`, ignoring ASCII case.
pub open spec fn name_marker_at(name: Seq<u8>, i: int) -> bool {
    &&& 0 <= i
    &&& i + 6 <= name.len()
    &&& ascii_lower(name[i]) == 0x6e
    &&& ascii_lower(name[i + 1]) == 0x65
    &&& ascii_lower(name[i + 2]) == 0x74
    &&& ascii_lower(name[i + 3]) == 0x63
    &&& ascii_lower(name[i + 4]) == 0x66
    &&& ascii_lower(name[i + 5]) == 0x67
}

/// The name contains `netcfg` in any ASCII case.
pub open spec fn has_name_marker(name: Seq<u8>) -> bool {
    exists|i: int| name_marker_at(name, i)
}

/// Some value of the list holds the marker.
pub open spec fn any_has_marker(values: Seq<Vec<u8>>) -> bool {
    exists|k: int| 0 <= k < values.len() && has_marker(#[trigger] values[k]@)
}

/// Whether an advertisement comes from a provisioning target.
pub open spec fn advertisement_matches(
    name: Seq<u8>,
    manufacturer_data: Seq<Vec<u8>>,
    service_data: Seq<Vec<u8>>,
) -> bool {
    has_name_marker(name) || any_has_marker(manufacturer_data) || any_has_marker(service_data)
}

fn ascii_lower_byte(b: u8) -> (r: u8)
    ensures
        r == ascii_lower(b),
{
    if 65 <= b && b <= 90 {
        b + 32
    } else {
        b
    }
}

pub fn contains_marker(data: &[u8]) -> (r: bool)
    ensures
        r == has_marker(data@),
{
    let mut i: usize = 0;
    while i < data.len() && data.len() - i >= 2
        invariant
            i <= data@.len(),
            forall|j: int| 0 <= j < i ==> !marker_at(data@, j),
        decreases data@.len() - i,
    {
        if data[i] == 0xAB && data[i + 1] == 0x0A {
            assert(marker_at(data@, i as int));
            return true;
        }
        i += 1;
    }
    assert forall|j: int| !marker_at(data@, j) by {
        if 0 <= j < i {
        }
    }
    false
}

fn name_marker_at_exec(name: &[u8], i: usize) -> (r: bool)
    requires
        i + 6 <= name@.len(),
    ensures
        r == name_marker_at(name@, i as int),
{
    ascii_lower_byte(name[i]) == 0x6e && ascii_lower_byte(name[i + 1]) == 0x65
        && ascii_lower_byte(name[i + 2]) == 0x74 && ascii_lower_byte(name[i + 3]) == 0x63
        && ascii_lower_byte(name[i + 4]) == 0x66 && ascii_lower_byte(name[i + 5]) == 0x67
}

/// Whether a local name contains `netcfg` in any ASCII case.
pub fn matches_device_name(name: &str) -> (r: bool)
    ensures
        r == has_name_marker(name.spec_bytes()),
{
    let bytes = name.as_bytes();
    let mut i: usize = 0;
    while i < bytes.len() && bytes.len() - i >= 6
        invariant
            i <= bytes@.len(),
            bytes@ == name.spec_bytes(),
            forall|j: int| 0 <= j < i ==> !name_marker_at(bytes@, j),
        decreases bytes@.len() - i,
    {
        if name_marker_at_exec(bytes, i) {
            return true;
        }
        i += 1;
    }
    assert forall|j: int| !name_marker_at(bytes@, j) by {
        if 0 <= j < i {
        }
    }
    false
}

/// Whether any of the values holds the marker.
fn any_contains_marker(values: &Vec<Vec<u8>>) -> (r: bool)
    ensures
        r == any_has_marker(values@),
{
    let mut k: usize = 0;
    while k < values.len()
        invariant
            k <= values@.len(),
            forall|j: int| 0 <= j < k ==> !has_marker(#[trigger] values@[j]@),
        decreases values@.len() - k,
    {
        if contains_marker(values[k].as_slice()) {
            return true;
        }
        k += 1;
    }
    false
}

/// Decides whether an advertisement comes from a provisioning target: its name
/// contains `netcfg` in any ASCII case, or a manufacturer-data or service-data
/// value holds the marker bytes `0xAB 0x0A`.
pub fn matches_advertisement(
    name: &str,
    manufacturer_data: &Vec<Vec<u8>>,
    service_data: &Vec<Vec<u8>>,
) -> (r: bool)
    ensures
        r == advertisement_matches(name.spec_bytes(), manufacturer_data@, service_data@),
{
    matches_device_name(name) || any_contains_marker(manufacturer_data) || any_contains_marker(
        service_data,
    )
}

} // verus!
