use vstd::prelude::*;
use crate::status::{decode_status, is_event_for, code_of, StatusEvent};

verus! {

/// Provisioning service, short UUID `0xE402` in the Bluetooth base UUID.
pub const SERVICE_UUID: u128 = 0x0000e402_0000_1000_8000_00805f9b34fb;

/// Characteristic that takes command packets, short UUID `0xE403`.
pub const WRITE_UUID: u128 = 0x0000e403_0000_1000_8000_00805f9b34fb;

/// Characteristic that reports device status, short UUID `0xE404`.
pub const STATUS_UUID: u128 = 0x0000e404_0000_1000_8000_00805f9b34fb;

/// What the protocol reads of a discovered characteristic: its UUID and the
/// capability flags the peripheral advertises for it.
#[derive(Clone, Copy, Debug, PartialEq, Eq)]
pub struct CharInfo {
    pub uuid: u128,
    pub write: bool,
    pub write_without_response: bool,
    pub notify: bool,
    pub indicate: bool,
    pub read: bool,
}

/// How command packets are written.
#[derive(Clone, Copy, Debug, PartialEq, Eq)]
pub enum WriteMode {
    WithResponse,
    WithoutResponse,
}

pub open spec fn is_write_char(c: CharInfo) -> bool {
    c.uuid == WRITE_UUID && (c.write || c.write_without_response)
}

pub open spec fn is_status_char(c: CharInfo) -> bool {
    c.uuid == STATUS_UUID && (c.notify || c.indicate || c.read)
}

/// `i` is the first position in `chars` whose entry is a write characteristic.
pub open spec fn first_write_at(chars: Seq<CharInfo>, i: int) -> bool {
    0 <= i < chars.len() && is_write_char(chars[i]) && forall|j: int|
        0 <= j < i ==> !is_write_char(#[trigger] chars[j])
}

/// `i` is the first position in `chars` whose entry is a status characteristic.
pub open spec fn first_status_at(chars: Seq<CharInfo>, i: int) -> bool {
    0 <= i < chars.len() && is_status_char(chars[i]) && forall|j: int|
        0 <= j < i ==> !is_status_char(#[trigger] chars[j])
}

pub open spec fn has_write_char(chars: Seq<CharInfo>) -> bool {
    exists|j: int| 0 <= j < chars.len() && is_write_char(#[trigger] chars[j])
}

pub open spec fn has_status_char(chars: Seq<CharInfo>) -> bool {
    exists|j: int| 0 <= j < chars.len() && is_status_char(#[trigger] chars[j])
}

fn is_write_char_exec(c: &CharInfo) -> (r: bool)
    ensures
        r == is_write_char(*c),
{
    c.uuid == WRITE_UUID && (c.write || c.write_without_response)
}

fn is_status_char_exec(c: &CharInfo) -> (r: bool)
    ensures
        r == is_status_char(*c),
{
    c.uuid == STATUS_UUID && (c.notify || c.indicate || c.read)
}

/// Picks the write and the status characteristic, each the first that fits.
pub fn find_characteristics(chars: &Vec<CharInfo>) -> (r: Result<(CharInfo, CharInfo), String>)
    ensures
        match r {
            Ok((w, s)) => exists|i: int, k: int|
                first_write_at(chars@, i) && first_status_at(chars@, k) && w == chars@[i] && s
                    == chars@[k],
            Err(e) => if !has_write_char(chars@) {
                e@ == "Write characteristic not found"@
            } else {
                !has_status_char(chars@) && e@ == "Status characteristic not found"@
            },
        },
        r is Ok <==> has_write_char(chars@) && has_status_char(chars@),
{
    let mut write_at: Option<usize> = None;
    let mut status_at: Option<usize> = None;
    let mut i: usize = 0;
    while i < chars.len()
        invariant
            i <= chars@.len(),
            match write_at {
                Some(w) => first_write_at(chars@, w as int) && w < i,
                None => forall|j: int| 0 <= j < i ==> !is_write_char(#[trigger] chars@[j]),
            },
            match status_at {
                Some(s) => first_status_at(chars@, s as int) && s < i,
                None => forall|j: int| 0 <= j < i ==> !is_status_char(#[trigger] chars@[j]),
            },
        decreases chars@.len() - i,
    {
        if write_at.is_none() && is_write_char_exec(&chars[i]) {
            write_at = Some(i);
        }
        if status_at.is_none() && is_status_char_exec(&chars[i]) {
            status_at = Some(i);
        }
        i += 1;
    }
    match write_at {
        None => Err(String::from_str("Write characteristic not found")),
        Some(w) => match status_at {
            None => {
                assert(has_write_char(chars@));
                Err(String::from_str("Status characteristic not found"))
            },
            Some(s) => Ok((chars[w], chars[s])),
        },
    }
}

/// Prefers writes without response whenever the characteristic allows them.
pub fn write_mode(c: &CharInfo) -> (r: WriteMode)
    ensures
        r == (if c.write_without_response {
            WriteMode::WithoutResponse
        } else {
            WriteMode::WithResponse
        }),
{
    if c.write_without_response {
        WriteMode::WithoutResponse
    } else {
        WriteMode::WithResponse
    }
}

/// Whether the status characteristic can push values to a subscriber.
pub fn can_subscribe(c: &CharInfo) -> (r: bool)
    ensures
        r == (c.notify || c.indicate),
{
    c.notify || c.indicate
}

/// Checks that the provisioning service was discovered.
pub fn check_service(services: &Vec<u128>) -> (r: Result<(), String>)
    ensures
        r is Ok <==> services@.contains(SERVICE_UUID),
        r matches Err(e) ==> e@ == "NETCFG_BLE service not found"@,
{
    let mut i: usize = 0;
    while i < services.len()
        invariant
            i <= services@.len(),
            forall|j: int| 0 <= j < i ==> services@[j] != SERVICE_UUID,
        decreases services@.len() - i,
    {
        if services[i] == SERVICE_UUID {
            return Ok(());
        }
        i += 1;
    }
    Err(String::from_str("NETCFG_BLE service not found"))
}

/// Checks that a peripheral is present as active and that its link is up.
pub fn check_connected(present: bool, link_up: bool) -> (r: Result<(), String>)
    ensures
        r is Ok <==> present && link_up,
        !present ==> (r matches Err(e) && e@ == "No device connected"@),
        present && !link_up ==> (r matches Err(e) && e@ == "Device is not connected"@),
{
    if !present {
        Err(String::from_str("No device connected"))
    } else if !link_up {
        Err(String::from_str("Device is not connected"))
    } else {
        Ok(())
    }
}

/// Turns one notification into a status event: only values from the status
/// characteristic that are at least two bytes long give one.
pub fn on_notification(source: u128, value: &[u8]) -> (r: Option<StatusEvent>)
    ensures
        source != STATUS_UUID || value@.len() < 2 ==> r is None,
        source == STATUS_UUID && value@.len() >= 2 ==> (r matches Some(e) && is_event_for(
            e,
            code_of(value@),
        )),
{
    if source != STATUS_UUID {
        return None;
    }
    decode_status(value)
}

/// Event reported when the notification stream cannot be opened.
pub fn notify_error_event(error: String) -> (r: StatusEvent)
    ensures
        r.code == 0,
        r.name@ == "NOTIFY_ERROR"@,
        r.hex@ == error@,
{
    StatusEvent { code: 0, name: String::from_str("NOTIFY_ERROR"), hex: error }
}

/// Event reported when the status characteristic cannot notify.
pub fn no_notify_event() -> (r: StatusEvent)
    ensures
        r.code == 0,
        r.name@ == "STATUS_CHAR_NO_NOTIFY"@,
        r.hex@ == "0x0000"@,
{
    StatusEvent { code: 0, name: String::from_str("STATUS_CHAR_NO_NOTIFY"), hex: String::from_str("0x0000") }
}

} // verus!
