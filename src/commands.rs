use vstd::prelude::*;
use vstd::string::StringSliceAdditionalSpecFns;
use crate::codec::{build_packets, encode_spec};

verus! {

pub const OP_START: u16 = 0xA001;
pub const OP_SSID: u16 = 0xA002;
pub const OP_PASSWORD: u16 = 0xA003;
pub const OP_DONE: u16 = 0xA010;
pub const OP_REBOOT: u16 = 0xA011;

/// Longest SSID the device takes, in bytes.
pub const MAX_SSID_LEN: usize = 36;

/// Longest password the device takes, in bytes.
pub const MAX_PASSWORD_LEN: usize = 64;

/// `packets` is exactly the framing of `data` under `opcode`.
pub open spec fn encodes(packets: Seq<Vec<u8>>, opcode: u16, data: Seq<u8>) -> bool {
    &&& packets.len() == encode_spec(opcode, data).len()
    &&& forall|i: int| 0 <= i < packets.len() ==> #[trigger] packets[i]@ == encode_spec(opcode, data)[i]
}

fn empty_message(opcode: u16) -> (r: Vec<Vec<u8>>)
    ensures
        encodes(r@, opcode, Seq::empty()),
{
    let none: Vec<u8> = Vec::new();
    build_packets(opcode, none.as_slice())
}

pub fn start_packets() -> (r: Vec<Vec<u8>>)
    ensures
        encodes(r@, OP_START, Seq::empty()),
{
    empty_message(OP_START)
}

pub fn done_packets() -> (r: Vec<Vec<u8>>)
    ensures
        encodes(r@, OP_DONE, Seq::empty()),
{
    empty_message(OP_DONE)
}

pub fn reboot_packets() -> (r: Vec<Vec<u8>>)
    ensures
        encodes(r@, OP_REBOOT, Seq::empty()),
{
    empty_message(OP_REBOOT)
}

/// Packets that set the SSID; longer than 36 bytes is refused, not cut.
pub fn ssid_packets(ssid: &str) -> (r: Result<Vec<Vec<u8>>, String>)
    ensures
        r is Err <==> ssid.spec_bytes().len() > MAX_SSID_LEN,
        r matches Err(e) ==> e@ == "SSID length exceeds 36 bytes"@,
        r matches Ok(p) ==> encodes(p@, OP_SSID, ssid.spec_bytes()),
{
    let bytes = ssid.as_bytes();
    if bytes.len() > MAX_SSID_LEN {
        return Err(String::from_str("SSID length exceeds 36 bytes"));
    }
    Ok(build_packets(OP_SSID, bytes))
}

/// Packets that set the password; longer than 64 bytes is refused, not cut.
pub fn password_packets(password: &str) -> (r: Result<Vec<Vec<u8>>, String>)
    ensures
        r is Err <==> password.spec_bytes().len() > MAX_PASSWORD_LEN,
        r matches Err(e) ==> e@ == "Password length exceeds 64 bytes"@,
        r matches Ok(p) ==> encodes(p@, OP_PASSWORD, password.spec_bytes()),
{
    let bytes = password.as_bytes();
    if bytes.len() > MAX_PASSWORD_LEN {
        return Err(String::from_str("Password length exceeds 64 bytes"));
    }
    Ok(build_packets(OP_PASSWORD, bytes))
}

/// The four messages of a full configuration, in the order they are sent:
/// start, SSID, password, done. Both arguments are checked before any
/// message is built; the SSID is checked first.
pub fn configure_messages(ssid: &str, password: &str) -> (r: Result<Vec<Vec<Vec<u8>>>, String>)
    ensures
        r is Err <==> ssid.spec_bytes().len() > MAX_SSID_LEN || password.spec_bytes().len()
            > MAX_PASSWORD_LEN,
        ssid.spec_bytes().len() > MAX_SSID_LEN ==> (r matches Err(e) && e@
            == "SSID length exceeds 36 bytes"@),
        ssid.spec_bytes().len() <= MAX_SSID_LEN && password.spec_bytes().len() > MAX_PASSWORD_LEN
            ==> (r matches Err(e) && e@ == "Password length exceeds 64 bytes"@),
        r matches Ok(m) ==> {
            &&& m@.len() == 4
            &&& encodes(m@[0]@, OP_START, Seq::empty())
            &&& encodes(m@[1]@, OP_SSID, ssid.spec_bytes())
            &&& encodes(m@[2]@, OP_PASSWORD, password.spec_bytes())
            &&& encodes(m@[3]@, OP_DONE, Seq::empty())
        },
{
    let ssid_msg = match ssid_packets(ssid) {
        Ok(p) => p,
        Err(e) => return Err(e),
    };
    let password_msg = match password_packets(password) {
        Ok(p) => p,
        Err(e) => return Err(e),
    };
    let mut messages: Vec<Vec<Vec<u8>>> = Vec::new();
    messages.push(start_packets());
    messages.push(ssid_msg);
    messages.push(password_msg);
    messages.push(done_packets());
    Ok(messages)
}

/// What the caller does after one message of a configuration was delivered
/// or failed.
#[derive(Clone, Debug, PartialEq, Eq)]
pub enum ConfigureStep {
    /// Send the next message.
    Continue,
    /// Every message went out.
    Finished,
    /// A message failed: stop here with its error. Nothing already sent is
    /// undone.
    Aborted { error: String },
}

/// Runs the messages of a configuration one after another and stops at the
/// first that fails.
pub struct ConfigureRun {
    pub messages: Vec<Vec<Vec<u8>>>,
    /// Index of the message being sent.
    pub next: usize,
    pub failed: bool,
}

impl ConfigureRun {
    pub open spec fn wf(self) -> bool {
        self.next <= self.messages@.len()
    }

    pub open spec fn in_flight(self) -> bool {
        !self.failed && self.next < self.messages@.len()
    }

    pub fn new(messages: Vec<Vec<Vec<u8>>>) -> (r: ConfigureRun)
        ensures
            r.wf(),
            r.messages == messages,
            r.next == 0,
            !r.failed,
    {
        ConfigureRun { messages, next: 0, failed: false }
    }

    /// The message to send now, if any.
    pub fn current(&self) -> (r: Option<&Vec<Vec<u8>>>)
        requires
            self.wf(),
        ensures
            r is Some <==> self.in_flight(),
            r matches Some(m) ==> *m == self.messages@[self.next as int],
    {
        if !self.failed && self.next < self.messages.len() {
            Some(&self.messages[self.next])
        } else {
            None
        }
    }

    /// Takes the outcome of sending the current message. A failure ends the
    /// run with that error and leaves no message to send.
    pub fn on_message_result(&mut self, result: Result<(), String>) -> (r: ConfigureStep)
        requires
            old(self).wf(),
            old(self).in_flight(),
        ensures
            final(self).wf(),
            final(self).messages == old(self).messages,
            match result {
                Ok(()) => {
                    &&& final(self).next == old(self).next + 1
                    &&& !final(self).failed
                    &&& r == (if final(self).next == old(self).messages@.len() {
                        ConfigureStep::Finished
                    } else {
                        ConfigureStep::Continue
                    })
                },
                Err(e) => {
                    &&& final(self).next == old(self).next
                    &&& final(self).failed
                    &&& !final(self).in_flight()
                    &&& r matches ConfigureStep::Aborted { error } && error@ == e@
                },
            },
    {
        let len = self.messages.len();
        match result {
            Ok(()) => {
                assert(self.next < len);
                self.next = self.next + 1;
                if self.next == self.messages.len() {
                    ConfigureStep::Finished
                } else {
                    ConfigureStep::Continue
                }
            },
            Err(error) => {
                self.failed = true;
                ConfigureStep::Aborted { error }
            },
        }
    }
}

} // verus!
