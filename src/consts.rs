use vstd::prelude::*;

verus! {

/// Size in bytes of one HID report payload exchanged with a U2F token.
pub const HID_RPT_SIZE: usize = 64;

/// Channel identifier reserved for broadcast, used before a channel is allocated.
pub const CID_BROADCAST: [u8; 4] = [0xff, 0xff, 0xff, 0xff];

/// Seconds that a read waits for an incoming report.
pub const READ_TIMEOUT: u64 = 15;

} // verus!
