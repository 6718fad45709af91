use crate::channel::{recv_report, RecvFailure};
use crate::consts::{CID_BROADCAST, HID_RPT_SIZE, READ_TIMEOUT};
use crate::hex::{hex_byte, hex_number, push_hex_byte, push_hex_number};
use std::sync::mpsc::Receiver;
use std::time::Duration;
use vstd::prelude::*;
use vstd::std_specs::cmp::PartialEqSpec;
use vstd::string::StringExecFns;

verus! {

/// Errors that reading from or writing to a device reports to its caller.
#[derive(Debug, Clone, Copy, PartialEq, Eq, Structural)]
pub enum DeviceError {
    /// No report arrived within the read timeout; the caller may retry.
    TimedOut,
    /// The report channel is closed: the device is gone for good.
    UnexpectedEof,
    /// The operating system refused the output report, with this status code.
    Os(i32),
}

/// What a device is, as far as its contracts are concerned.
pub struct DeviceView {
    /// Identity of the native device object.
    pub device_ref: usize,
    /// The channel identifier currently in use.
    pub cid: [u8; 4],
}

/// A transport adapter for one HID security token: it reads reports from a channel fed by a
/// listener and writes output reports through the operating system.
pub struct Device {
    device_ref: usize,
    cid: [u8; 4],
    report_rx: Receiver<Vec<u8>>,
}

/// How many bytes of a report of length `report_len` fit in a buffer of length `buf_len`.
pub open spec fn copy_len(buf_len: nat, report_len: nat) -> nat {
    if report_len < buf_len {
        report_len
    } else {
        buf_len
    }
}

/// The buffer `buf` once as much of `report` as fits has been written at its front.
pub open spec fn copy_into(buf: Seq<u8>, report: Seq<u8>) -> Seq<u8> {
    let n = copy_len(buf.len(), report.len()) as int;
    report.subrange(0, n) + buf.subrange(n, buf.len() as int)
}

/// A received report, or the reason why none came, with the report as a sequence.
pub open spec fn received_view(received: Result<Vec<u8>, RecvFailure>) -> Result<Seq<u8>, RecvFailure> {
    match received {
        Ok(report) => Ok(report@),
        Err(e) => Err(e),
    }
}

/// What a read returns, and what it leaves in the caller's buffer `buf`, once the wait on the
/// report channel has ended with `received`.
pub open spec fn read_result(received: Result<Seq<u8>, RecvFailure>, buf: Seq<u8>) -> (Result<usize, DeviceError>, Seq<u8>) {
    match received {
        Ok(report) => (Ok(copy_len(buf.len(), report.len()) as usize), copy_into(buf, report)),
        Err(RecvFailure::Timeout) => (Err(DeviceError::TimedOut), buf),
        Err(RecvFailure::Disconnected) => (Err(DeviceError::UnexpectedEof), buf),
    }
}

/// Writes as much of `report` as fits at the front of `buf`, and returns how much that was.
fn copy_report(report: &[u8], buf: &mut [u8]) -> (n: usize)
    ensures
        n == copy_len(old(buf)@.len(), report@.len()),
        final(buf)@ == copy_into(old(buf)@, report@),
{
    let n: usize = if report.len() < buf.len() {
        report.len()
    } else {
        buf.len()
    };
    let mut i: usize = 0;
    while i < n
        invariant
            n == copy_len(old(buf)@.len(), report@.len()),
            i <= n,
            buf@.len() == old(buf)@.len(),
            forall|j: int| 0 <= j < i ==> buf@[j] == report@[j],
            forall|j: int| i <= j < buf@.len() ==> buf@[j] == old(buf)@[j],
        decreases n - i,
    {
        buf[i] = report[i];
        i = i + 1;
    }
    assert(buf@ =~= copy_into(old(buf)@, report@));
    n
}

/// Finishes a read once the wait on the report channel has ended with `received`: a report
/// is copied into `bytes` and its length (at most that of `bytes`) returned, a wait that ran
/// out is `TimedOut`, and a closed channel is `UnexpectedEof`.
pub fn read_outcome(received: Result<Vec<u8>, RecvFailure>, bytes: &mut [u8]) -> (r: Result<usize, DeviceError>)
    ensures
        (r, final(bytes)@) == read_result(received_view(received), old(bytes)@),
{
    match received {
        Ok(report) => Ok(copy_report(report.as_slice(), bytes)),
        Err(RecvFailure::Timeout) => Err(DeviceError::TimedOut),
        Err(RecvFailure::Disconnected) => Err(DeviceError::UnexpectedEof),
    }
}

/// The report identifier of a write buffer: its first byte, 0 for a device without
/// numbered reports.
pub open spec fn report_id(bytes: Seq<u8>) -> u8 {
    bytes[0]
}

/// The bytes of a write buffer that go out as the report: all but the leading identifier.
pub open spec fn report_payload(bytes: Seq<u8>) -> Seq<u8> {
    bytes.subrange(1, bytes.len() as int)
}

/// What a write of `len` bytes returns once the operating system has answered `status`.
pub open spec fn write_result(len: usize, status: i32) -> Result<usize, DeviceError> {
    if status == 0 {
        Ok(len)
    } else {
        Err(DeviceError::Os(status))
    }
}

/// Finishes a write of `len` bytes once the operating system has answered `status`: zero is
/// success, and the whole buffer counts as written; any other status is returned as it is.
pub fn write_outcome(len: usize, status: i32) -> (r: Result<usize, DeviceError>)
    ensures
        r == write_result(len, status),
{
    if status == 0 {
        Ok(len)
    } else {
        Err(DeviceError::Os(status))
    }
}

/// A write buffer of the required length carries exactly one report's worth of payload
/// after its identifier byte, and that payload is the buffer without its first byte.
pub proof fn lemma_payload_is_one_report(bytes: Seq<u8>)
    requires
        bytes.len() == HID_RPT_SIZE + 1,
    ensures
        report_payload(bytes).len() == HID_RPT_SIZE,
        report_payload(bytes) == bytes.drop_first(),
        bytes == seq![report_id(bytes)] + report_payload(bytes),
{
    assert(report_payload(bytes) =~= bytes.drop_first());
    assert(bytes =~= seq![report_id(bytes)] + report_payload(bytes));
}

/// The diagnostic text of a device: its native object and its channel identifier in
/// hexadecimal.
pub open spec fn device_text(d: DeviceView) -> Seq<char> {
    "InternalDevice(ref:0x"@ + hex_number(d.device_ref as nat) + ", cid: "@ + hex_byte(d.cid[0])
        + hex_byte(d.cid[1]) + hex_byte(d.cid[2]) + hex_byte(d.cid[3]) + ")"@
}

impl View for Device {
    type V = DeviceView;

    closed spec fn view(&self) -> DeviceView {
        DeviceView { device_ref: self.device_ref, cid: self.cid }
    }
}

impl Device {
    /// A device for the native object `device_ref`, reading reports from `report_rx`, on the
    /// broadcast channel.
    pub fn new(device_ref: usize, report_rx: Receiver<Vec<u8>>) -> (r: Self)
        ensures
            r@ == (DeviceView { device_ref, cid: CID_BROADCAST }),
    {
        Device { device_ref, cid: CID_BROADCAST, report_rx }
    }

    /// The channel identifier in use.
    pub fn get_cid(&self) -> (r: &[u8; 4])
        ensures
            *r == self@.cid,
    {
        &self.cid
    }

    /// Switches to the channel identifier `cid`; nothing is sent.
    pub fn set_cid(&mut self, cid: [u8; 4])
        ensures
            final(self)@ == (DeviceView { device_ref: old(self)@.device_ref, cid }),
    {
        self.cid = cid;
    }

    /// Waits up to `READ_TIMEOUT` seconds for the next report and copies it into `bytes`.
    /// Each call takes exactly one report off the channel. The channel identifier and the
    /// device identity stay as they were.
    pub fn read(&mut self, bytes: &mut [u8]) -> (r: Result<usize, DeviceError>)
        ensures
            final(self)@ == old(self)@,
            exists|received: Result<Seq<u8>, RecvFailure>|
                #[trigger] read_result(received, old(bytes)@) == (r, final(bytes)@),
    {
        let timeout = Duration::from_secs(READ_TIMEOUT);
        let received = recv_report(&self.report_rx, timeout);
        read_outcome(received, bytes)
    }

    /// Sends one output report. `bytes` is the report identifier followed by one report's
    /// payload. `set_report` is the operating system's "set output report" call: it is made
    /// once, with the native device, the identifier and the payload without the identifier
    /// byte, and answers a status. The write succeeds exactly when that status is zero, and
    /// then counts the whole of `bytes` as written. The channel identifier and the device
    /// identity stay as they were.
    pub fn write<F>(&mut self, bytes: &[u8], set_report: F) -> (r: Result<usize, DeviceError>)
        where
            F: FnOnce(usize, u8, &[u8]) -> i32,
        requires
            bytes@.len() == HID_RPT_SIZE + 1,
            forall|payload: &[u8]|
                payload@ == report_payload(bytes@) ==> #[trigger] set_report.requires(
                    (old(self)@.device_ref, report_id(bytes@), payload),
                ),
        ensures
            final(self)@ == old(self)@,
            exists|payload: &[u8], status: i32|
                {
                    &&& payload@ == report_payload(bytes@)
                    &&& #[trigger] set_report.ensures(
                        (old(self)@.device_ref, report_id(bytes@), payload),
                        status,
                    )
                    &&& r == write_result(bytes@.len() as usize, status)
                },
    {
        let id = bytes[0];
        let payload = vstd::slice::slice_subrange(bytes, 1, bytes.len());
        assert(payload@ == report_payload(bytes@));
        assert(id == report_id(bytes@));
        assert(self.device_ref == old(self)@.device_ref);
        assert(set_report.requires((self.device_ref, id, payload)));
        let status = set_report(self.device_ref, id, payload);
        write_outcome(bytes.len(), status)
    }

    /// A human-readable description for logs: the native object, and the channel identifier
    /// as eight hexadecimal digits.
    pub fn to_string(&self) -> (r: String)
        ensures
            r@ == device_text(self@),
    {
        let mut s = String::from_str("InternalDevice(ref:0x");
        push_hex_number(&mut s, self.device_ref);
        s.append(", cid: ");
        push_hex_byte(&mut s, self.cid[0]);
        push_hex_byte(&mut s, self.cid[1]);
        push_hex_byte(&mut s, self.cid[2]);
        push_hex_byte(&mut s, self.cid[3]);
        s.append(")");
        s
    }

    /// Output reports are sent as they are written, so there is nothing to flush.
    pub fn flush(&mut self) -> (r: Result<(), DeviceError>)
        ensures
            r == Ok::<(), DeviceError>(()),
            *final(self) == *old(self),
    {
        Ok(())
    }
}

impl PartialEq for Device {
    fn eq(&self, other: &Device) -> (r: bool)
        ensures
            r == (self@.device_ref == other@.device_ref),
    {
        self.device_ref == other.device_ref
    }
}

impl vstd::std_specs::cmp::PartialEqSpecImpl for Device {
    open spec fn obeys_eq_spec() -> bool {
        true
    }

    open spec fn eq_spec(&self, other: &Device) -> bool {
        self@.device_ref == other@.device_ref
    }
}

/// Two devices are equal exactly when they stand for the same native device, whatever
/// their channel identifiers and whatever is left on their report channels.
pub proof fn lemma_equal_iff_same_device(a: &Device, b: &Device)
    ensures
        a.eq_spec(b) <==> a@.device_ref == b@.device_ref,
        a@.device_ref == b@.device_ref && a@.cid != b@.cid ==> a.eq_spec(b),
        a@.device_ref != b@.device_ref && a@.cid == b@.cid ==> !a.eq_spec(b),
{
}

} // verus!
