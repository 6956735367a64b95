use crate::tracker::{EXIT_STATUS, FAILURE_STATUS};
use vstd::prelude::*;
use vstd::string::*;

verus! {

/// The speed at which the serial connection is opened.
pub const BAUD_RATE: u32 = 9600;

/// The seconds after which a read or a write on the serial connection gives up.
pub const TIMEOUT_SECS: u64 = 2;

/// The number of bytes to read from the device after each write.
pub const ACKNOWLEDGEMENT_LEN: usize = 7;

/// The bytes with which the device acknowledges coordinates: the ASCII text
/// `msg_rec`.
pub open spec fn acknowledgement() -> Seq<u8> {
    seq![0x6du8, 0x73u8, 0x67u8, 0x5fu8, 0x72u8, 0x65u8, 0x63u8]
}

/// The line that tells that the serial port could not be opened.
pub open spec fn open_failure_text(serial_port: Seq<char>) -> Seq<char> {
    "Could not open serial port "@ + serial_port
}

/// The line that tells that the serial port took no data.
pub open spec fn write_failure_text(serial_port: Seq<char>) -> Seq<char> {
    "Could not write data to serial port "@ + serial_port
}

/// Decides how to go on after the attempt to open the serial port: without a
/// connection there is nothing to do but to report it and leave.
pub fn after_open(opened: bool, serial_port: &str) -> (r: Result<(), String>)
    ensures
        opened ==> r is Ok,
        !opened ==> r is Err && r->Err_0@ == open_failure_text(serial_port@),
{
    if opened {
        Ok(())
    } else {
        let mut line = String::from_str("Could not open serial port ");
        line.append(serial_port);
        Err(line)
    }
}

/// Decides how to go on after the attempt to send coordinates: a failed write
/// ends the loop, with a line to report it.
pub fn after_write(written: bool, serial_port: &str) -> (r: Result<(), String>)
    ensures
        written ==> r is Ok,
        !written ==> r is Err && r->Err_0@ == write_failure_text(serial_port@),
{
    if written {
        Ok(())
    } else {
        let mut line = String::from_str("Could not write data to serial port ");
        line.append(serial_port);
        Err(line)
    }
}

/// Tells whether the process is to leave after an attempt on the serial port,
/// and with which status: a failed attempt is a failure, and never leaves as
/// an interrupt does. `outcome` is what [`after_open`] or [`after_write`]
/// returned.
pub fn exit_status(outcome: &Result<(), String>) -> (status: Option<i32>)
    ensures
        outcome is Err ==> status == Some(FAILURE_STATUS),
        outcome is Ok ==> status is None,
        status != Some(EXIT_STATUS),
        status != Some(0i32),
{
    match outcome {
        Ok(_) => None,
        Err(_) => Some(FAILURE_STATUS),
    }
}

/// Tells whether the device has acknowledged the coordinates. `read` says
/// whether the read succeeded, `buffer` is the whole buffer that was read
/// into. Only the exact text counts: a failed read, other bytes, or fewer or
/// more of them are no acknowledgement, and no fault either.
pub fn acknowledged(read: bool, buffer: &[u8]) -> (b: bool)
    ensures
        b == (read && buffer@ == acknowledgement()),
{
    let expected = "msg_rec".as_bytes();
    proof {
        reveal_strlit("msg_rec");
        is_ascii_spec_bytes("msg_rec");
        assert(expected@ =~= acknowledgement());
    }
    if !read || buffer.len() != expected.len() {
        return false;
    }
    let mut i: usize = 0;
    while i < expected.len()
        invariant
            expected@ == acknowledgement(),
            buffer@.len() == expected@.len(),
            i <= expected@.len(),
            forall|k: int| 0 <= k < i ==> buffer@[k] == expected@[k],
        decreases expected@.len() - i,
    {
        if buffer[i] != expected[i] {
            return false;
        }
        i += 1;
    }
    assert(buffer@ =~= acknowledgement());
    true
}

} // verus!
