use vstd::prelude::*;

verus! {

/// One decoded status notification.
#[derive(Clone, Debug, PartialEq, Eq)]
pub struct StatusEvent {
    pub code: u16,
    pub name: String,
    pub hex: String,
}

/// Name of a status code as the device firmware defines it.
pub open spec fn status_name_spec(code: u16) -> Seq<char> {
    if code == 0x0100 {
        "READY"@
    } else if code == 0x0101 {
        "START"@
    } else if code == 0x0102 {
        "INPROCESS"@
    } else if code == 0x0103 {
        "CERT_READY"@
    } else if code == 0x0104 {
        "SUCCESS"@
    } else if code == 0x0105 {
        "REBOOTING"@
    } else if code == 0x0106 {
        "IDLE"@
    } else if code == 0x0107 {
        "SSID"@
    } else if code == 0x0108 {
        "PWD"@
    } else if code == 0x0109 {
        "CERT_ERR"@
    } else if code == 0x010A {
        "ERROR"@
    } else {
        "UNKNOWN"@
    }
}

/// Upper-case hexadecimal digit of a value below 16.
pub open spec fn hex_char(d: int) -> char {
    if d < 10 {
        (d + 48) as char
    } else {
        (d + 55) as char
    }
}

/// `0x` followed by the four upper-case hex digits of `code`.
pub open spec fn hex_spec(code: u16) -> Seq<char> {
    seq![
        '0',
        'x',
        hex_char(code as int / 4096),
        hex_char((code as int / 256) % 16),
        hex_char((code as int / 16) % 16),
        hex_char(code as int % 16),
    ]
}

/// Little-endian code carried in the first two bytes of a notification.
pub open spec fn code_of(value: Seq<u8>) -> u16 {
    (value[0] as int + 256 * value[1] as int) as u16
}

/// `e` is the event for status code `code`.
pub open spec fn is_event_for(e: StatusEvent, code: u16) -> bool {
    &&& e.code == code
    &&& e.name@ == status_name_spec(code)
    &&& e.hex@ == hex_spec(code)
}

pub fn status_name(code: u16) -> (r: &'static str)
    ensures
        r@ == status_name_spec(code),
{
    match code {
        0x0100 => "READY",
        0x0101 => "START",
        0x0102 => "INPROCESS",
        0x0103 => "CERT_READY",
        0x0104 => "SUCCESS",
        0x0105 => "REBOOTING",
        0x0106 => "IDLE",
        0x0107 => "SSID",
        0x0108 => "PWD",
        0x0109 => "CERT_ERR",
        0x010A => "ERROR",
        _ => "UNKNOWN",
    }
}

fn hex_digit(d: u16) -> (r: &'static str)
    requires
        d < 16,
    ensures
        r@ == seq![hex_char(d as int)],
{
    match d {
        0 => {
            proof {
                reveal_strlit("0");
            }
            "0"
        },
        1 => {
            proof {
                reveal_strlit("1");
            }
            "1"
        },
        2 => {
            proof {
                reveal_strlit("2");
            }
            "2"
        },
        3 => {
            proof {
                reveal_strlit("3");
            }
            "3"
        },
        4 => {
            proof {
                reveal_strlit("4");
            }
            "4"
        },
        5 => {
            proof {
                reveal_strlit("5");
            }
            "5"
        },
        6 => {
            proof {
                reveal_strlit("6");
            }
            "6"
        },
        7 => {
            proof {
                reveal_strlit("7");
            }
            "7"
        },
        8 => {
            proof {
                reveal_strlit("8");
            }
            "8"
        },
        9 => {
            proof {
                reveal_strlit("9");
            }
            "9"
        },
        10 => {
            proof {
                reveal_strlit("A");
            }
            "A"
        },
        11 => {
            proof {
                reveal_strlit("B");
            }
            "B"
        },
        12 => {
            proof {
                reveal_strlit("C");
            }
            "C"
        },
        13 => {
            proof {
                reveal_strlit("D");
            }
            "D"
        },
        14 => {
            proof {
                reveal_strlit("E");
            }
            "E"
        },
        _ => {
            proof {
                reveal_strlit("F");
            }
            "F"
        },
    }
}

/// Renders a status code as `0x` and four upper-case hex digits.
pub fn status_hex(code: u16) -> (r: String)
    ensures
        r@ == hex_spec(code),
{
    let mut s = String::from_str("0x");
    s.append(hex_digit(code / 4096));
    s.append(hex_digit((code / 256) % 16));
    s.append(hex_digit((code / 16) % 16));
    s.append(hex_digit(code % 16));
    proof {
        reveal_strlit("0x");
    }
    assert(s@ =~= hex_spec(code));
    s
}

/// Decodes a status notification; buffers shorter than two bytes are noise
/// and give no event. Unknown codes still give an event named `UNKNOWN`.
pub fn decode_status(value: &[u8]) -> (r: Option<StatusEvent>)
    ensures
        value@.len() < 2 ==> r is None,
        value@.len() >= 2 ==> (r matches Some(e) && is_event_for(e, code_of(value@))),
{
    if value.len() < 2 {
        return None;
    }
    let code: u16 = value[0] as u16 + 256 * (value[1] as u16);
    Some(StatusEvent { code, name: String::from_str(status_name(code)), hex: status_hex(code) })
}

} // verus!
