//! CTAPHID framing: the channel-initialisation exchange, the splitting of a
//! request into HID reports, and the reassembly of a response from the
//! packets the device sends back.
use vstd::prelude::*;
use crate::error::{PFError, is_device_error, is_io_error, device_error};
use crate::text::{hex_byte_chars, push_hex_byte};

verus! {

/// Bytes in a HID report, without the report-id byte.
pub const HID_REPORT_SIZE: usize = 64;
/// Usage page of FIDO authenticators.
pub const HID_USAGE_PAGE_FIDO: u16 = 0xF1D0;
/// The broadcast channel.
pub const CTAPHID_CID_BROADCAST: u32 = 0xFFFFFFFF;
/// CTAPHID_INIT command byte (command bit set).
pub const CTAPHID_INIT: u8 = 0x86;
/// CTAPHID_CBOR command byte (command bit set).
pub const CTAPHID_CBOR: u8 = 0x90;
/// CTAPHID_ERROR command byte.
pub const CTAPHID_ERROR: u8 = 0xBF;
/// CTAPHID_KEEPALIVE command byte.
pub const CTAPHID_KEEPALIVE: u8 = 0xBB;

/// Read timeout while draining stale packets, in milliseconds.
pub const HID_READ_TIMEOUT_MS: i32 = 10;
/// Read timeout while waiting for the INIT answer, in milliseconds.
pub const HID_INIT_READ_TIMEOUT_MS: i32 = 100;
/// Read timeout for the first packet of a response, in milliseconds.
pub const HID_RESP_READ_TIMEOUT_MS: i32 = 2000;
/// Read timeout for a continuation packet, in milliseconds.
pub const HID_CONT_READ_TIMEOUT_MS: i32 = 500;
/// Total time allowed for the first packet of a response, in milliseconds.
pub const HID_TOTAL_TIMEOUT_MS: i32 = 5000;

/// Payload bytes carried by an initialisation packet.
pub const INIT_PAYLOAD: usize = 57;
/// Payload bytes carried by a continuation packet.
pub const CONT_PAYLOAD: usize = 59;

/// The largest request that can be framed: 57 bytes in the initialisation
/// packet and 59 in each of at most 255 continuation packets.
pub const MAX_REQUEST_LEN: usize = 15102;

/// The four big-endian bytes of `v`.
pub open spec fn be32(v: u32) -> Seq<u8> {
    seq![
        (v as int / 0x1000000) as u8,
        (v as int / 0x10000 % 256) as u8,
        (v as int / 0x100 % 256) as u8,
        (v as int % 256) as u8,
    ]
}

/// `n` zero bytes.
pub open spec fn zeros(n: nat) -> Seq<u8> {
    Seq::new(n, |i: int| 0u8)
}

pub open spec fn min(a: int, b: int) -> int {
    if a <= b { a } else { b }
}

/// The initialisation packet (64 bytes) of a request: channel, command,
/// big-endian length, and the first 57 payload bytes, zero padded.
pub open spec fn init_frame(cid: u32, cmd: u8, payload: Seq<u8>) -> Seq<u8> {
    let n = min(payload.len() as int, INIT_PAYLOAD as int);
    be32(cid) + seq![cmd, (payload.len() / 256) as u8, (payload.len() % 256) as u8]
        + payload.take(n) + zeros((INIT_PAYLOAD - n) as nat)
}

/// Offset in the payload where continuation packet `k` starts.
pub open spec fn cont_start(k: int) -> int {
    INIT_PAYLOAD + CONT_PAYLOAD * k
}

/// Continuation packet `k` (64 bytes) of a request: channel, sequence
/// number `k` modulo 128, and the next 59 payload bytes, zero padded.
pub open spec fn cont_frame(cid: u32, k: int, payload: Seq<u8>) -> Seq<u8> {
    let start = cont_start(k);
    let end = min(payload.len() as int, start + CONT_PAYLOAD);
    be32(cid) + seq![(k % 128) as u8] + payload.subrange(start, end)
        + zeros((CONT_PAYLOAD - (end - start)) as nat)
}

/// How many continuation packets a payload of `len` bytes needs.
pub open spec fn cont_count(len: int) -> int {
    if len <= INIT_PAYLOAD {
        0
    } else {
        (len - INIT_PAYLOAD + CONT_PAYLOAD - 1) / CONT_PAYLOAD as int
    }
}

/// Packet `i` of the framed request, without the report-id byte.
pub open spec fn request_frame(cid: u32, cmd: u8, payload: Seq<u8>, i: int) -> Seq<u8> {
    if i == 0 {
        init_frame(cid, cmd, payload)
    } else {
        cont_frame(cid, i - 1, payload)
    }
}

proof fn lemma_be32(v: u32)
    ensures
        (v >> 24u32) as u8 == (v as int / 0x1000000) as u8,
        (v >> 16u32) as u8 == (v as int / 0x10000 % 256) as u8,
        (v >> 8u32) as u8 == (v as int / 0x100 % 256) as u8,
        v as u8 == (v as int % 256) as u8,
{
    assert((v >> 24u32) as u8 == (v / 0x1000000u32) as u8) by (bit_vector);
    assert((v >> 16u32) as u8 == ((v / 0x10000u32) % 256) as u8) by (bit_vector);
    assert((v >> 8u32) as u8 == ((v / 0x100u32) % 256) as u8) by (bit_vector);
    assert(v as u8 == (v % 256) as u8) by (bit_vector);
}

/// Appends the four big-endian bytes of `v`.
pub fn push_be32(out: &mut Vec<u8>, v: u32)
    ensures
        final(out)@ == old(out)@ + be32(v),
{
    proof { lemma_be32(v); }
    out.push((v >> 24) as u8);
    out.push((v >> 16) as u8);
    out.push((v >> 8) as u8);
    out.push(v as u8);
    assert(final(out)@ =~= old(out)@ + be32(v));
}

/// Appends `src[from..to]`.
pub fn push_range(out: &mut Vec<u8>, src: &[u8], from: usize, to: usize)
    requires
        from <= to <= src.len(),
    ensures
        final(out)@ == old(out)@ + src@.subrange(from as int, to as int),
{
    let mut i: usize = from;
    while i < to
        invariant
            from <= i <= to <= src.len(),
            out@ == old(out)@ + src@.subrange(from as int, i as int),
        decreases to - i,
    {
        out.push(src[i]);
        i = i + 1;
        assert(out@ =~= old(out)@ + src@.subrange(from as int, i as int));
    }
}

/// Appends `n` zero bytes.
pub fn push_zeros(out: &mut Vec<u8>, n: usize)
    ensures
        final(out)@ == old(out)@ + zeros(n as nat),
{
    let mut i: usize = 0;
    while i < n
        invariant
            i <= n,
            out@ == old(out)@ + zeros(i as nat),
        decreases n - i,
    {
        out.push(0u8);
        i = i + 1;
        assert(out@ =~= old(out)@ + zeros(i as nat));
    }
}

/// The HID reports (report-id byte 0 first, 65 bytes each) that carry
/// the command `cmd` with `payload` on channel `cid`.
pub fn request_reports(cid: u32, cmd: u8, payload: &[u8]) -> (r: Vec<Vec<u8>>)
    requires
        payload.len() <= MAX_REQUEST_LEN,
    ensures
        r.len() == 1 + cont_count(payload.len() as int),
        forall|i: int| 0 <= i < r.len() ==> #[trigger] r[i]@ == seq![0u8] + request_frame(cid, cmd, payload@, i),
{
    let total_len = payload.len();
    let mut reports: Vec<Vec<u8>> = Vec::new();
    let mut report: Vec<u8> = Vec::new();
    report.push(0u8);
    push_be32(&mut report, cid);
    report.push(cmd);
    assert(((total_len >> 8usize) as u8) == (total_len / 256) as u8) by (bit_vector)
        requires total_len <= 15102;
    assert(((total_len & 0xFFusize) as u8) == (total_len % 256) as u8) by (bit_vector);
    report.push((total_len >> 8) as u8);
    report.push((total_len & 0xFF) as u8);
    let to_copy: usize = if total_len < INIT_PAYLOAD { total_len } else { INIT_PAYLOAD };
    push_range(&mut report, payload, 0, to_copy);
    push_zeros(&mut report, INIT_PAYLOAD - to_copy);
    assert(payload@.subrange(0, to_copy as int) =~= payload@.take(to_copy as int));
    assert(report@ =~= seq![0u8] + init_frame(cid, cmd, payload@));
    reports.push(report);
    let mut sent: usize = to_copy;
    let mut sequence: usize = 0;
    while sent < total_len
        invariant
            total_len == payload.len() <= MAX_REQUEST_LEN,
            sent == if total_len <= INIT_PAYLOAD { total_len as int } else { min(total_len as int, cont_start(sequence as int)) },
            sequence as int <= cont_count(total_len as int),
            sent < total_len ==> sequence < cont_count(total_len as int),
            sent >= total_len ==> sequence == cont_count(total_len as int),
            reports.len() == 1 + sequence,
            forall|i: int| 0 <= i < reports.len() ==> #[trigger] reports[i]@ == seq![0u8] + request_frame(cid, cmd, payload@, i),
        decreases total_len - sent,
    {
        let mut report: Vec<u8> = Vec::new();
        report.push(0u8);
        push_be32(&mut report, cid);
        let seq_byte = (sequence % 128) as u8;
        report.push(seq_byte);
        let remaining = total_len - sent;
        let to_copy = if remaining < CONT_PAYLOAD { remaining } else { CONT_PAYLOAD };
        push_range(&mut report, payload, sent, sent + to_copy);
        push_zeros(&mut report, CONT_PAYLOAD - to_copy);
        assert(report@ =~= seq![0u8] + cont_frame(cid, sequence as int, payload@));
        reports.push(report);
        sent = sent + to_copy;
        sequence = sequence + 1;
    }
    reports
}


/// The CTAPHID_INIT report (65 bytes, report id first) that asks for a
/// channel on the broadcast channel with the eight-byte `nonce`.
pub open spec fn init_request_report(nonce: Seq<u8>) -> Seq<u8> {
    seq![0u8] + be32(CTAPHID_CID_BROADCAST) + seq![CTAPHID_INIT, 0u8, 8u8] + nonce + zeros(49)
}

/// Builds the CTAPHID_INIT report for `nonce`.
pub fn init_request(nonce: &[u8]) -> (r: Vec<u8>)
    requires
        nonce.len() == 8,
    ensures
        r@ == init_request_report(nonce@),
        r@.len() == HID_REPORT_SIZE + 1,
{
    let mut r: Vec<u8> = Vec::new();
    r.push(0u8);
    push_be32(&mut r, CTAPHID_CID_BROADCAST);
    r.push(CTAPHID_INIT);
    r.push(0u8);
    r.push(8u8);
    push_range(&mut r, nonce, 0, 8);
    push_zeros(&mut r, 49);
    assert(nonce@.subrange(0, 8) =~= nonce@);
    assert(r@ =~= init_request_report(nonce@));
    r
}

/// The big-endian number in four bytes.
pub open spec fn be32_value(b: Seq<u8>) -> u32 {
    (b[0] as int * 0x1000000 + b[1] as int * 0x10000 + b[2] as int * 0x100 + b[3] as int) as u32
}

/// Reads a big-endian `u32` at `at`.
pub fn read_be32(buf: &[u8], at: usize) -> (r: u32)
    requires
        at + 4 <= buf.len(),
    ensures
        r == be32_value(buf@.subrange(at as int, at + 4)),
{
    let b0 = buf[at] as u32;
    let b1 = buf[at + 1] as u32;
    let b2 = buf[at + 2] as u32;
    let b3 = buf[at + 3] as u32;
    b0 * 0x1000000 + b1 * 0x10000 + b2 * 0x100 + b3
}

/// The channel that an answer to CTAPHID_INIT with `nonce` assigns: the
/// answer must come on the broadcast channel, carry the INIT command and
/// echo the nonce; the new channel follows the nonce.
pub open spec fn spec_init_response(buf: Seq<u8>, nonce: Seq<u8>) -> Option<u32> {
    if buf.subrange(0, 4) == be32(CTAPHID_CID_BROADCAST) && buf[4] == CTAPHID_INIT
        && buf.subrange(7, 15) == nonce {
        Some(be32_value(buf.subrange(15, 19)))
    } else {
        None
    }
}

/// Checks a packet read while waiting for the CTAPHID_INIT answer.
pub fn parse_init_response(buf: &[u8], nonce: &[u8]) -> (r: Option<u32>)
    requires
        buf.len() == HID_REPORT_SIZE,
        nonce.len() == 8,
    ensures
        r == spec_init_response(buf@, nonce@),
{
    let mut same = buf[0] == 0xFF && buf[1] == 0xFF && buf[2] == 0xFF && buf[3] == 0xFF
        && buf[4] == CTAPHID_INIT;
    assert(be32(CTAPHID_CID_BROADCAST) =~= seq![0xFFu8, 0xFFu8, 0xFFu8, 0xFFu8]);
    let mut i: usize = 0;
    while i < 8
        invariant
            buf.len() == HID_REPORT_SIZE,
            nonce.len() == 8,
            i <= 8,
            same == (buf[0] == 0xFF && buf[1] == 0xFF && buf[2] == 0xFF && buf[3] == 0xFF
                && buf[4] == CTAPHID_INIT && forall|j: int| 0 <= j < i ==> buf@[7 + j] == nonce@[j]),
        decreases 8 - i,
    {
        if buf[7 + i] != nonce[i] {
            same = false;
        }
        i = i + 1;
    }
    if same {
        assert(buf@.subrange(0, 4) =~= be32(CTAPHID_CID_BROADCAST));
        assert(buf@.subrange(7, 15) =~= nonce@);
        Some(read_be32(buf, 15))
    } else {
        proof {
            if buf@.subrange(0, 4) == be32(CTAPHID_CID_BROADCAST) && buf@.subrange(7, 15) == nonce@ {
                assert(buf@.subrange(0, 4)[0] == buf@[0]);
                assert(buf@.subrange(0, 4)[1] == buf@[1]);
                assert(buf@.subrange(0, 4)[2] == buf@[2]);
                assert(buf@.subrange(0, 4)[3] == buf@[3]);
                assert forall|j: int| 0 <= j < 8 implies buf@[7 + j] == nonce@[j] by {
                    assert(buf@.subrange(7, 15)[j] == buf@[7 + j]);
                }
            }
        }
        None
    }
}


/// How the reading of a response ended.
pub enum ReadOutcome {
    /// The response payload after a zero status byte.
    Payload(Seq<u8>),
    /// The device sent CTAPHID_ERROR with this error code.
    HidError(u8),
    /// The device answered with another command byte.
    UnexpectedCommand(u8),
    /// A continuation packet came out of sequence.
    SequenceMismatch,
    /// The response carried no bytes at all.
    EmptyResponse,
    /// The CTAP status byte was not zero.
    Status(u8),
}

/// What the reassembler has gathered so far.
pub struct AssemblyModel {
    pub started: bool,
    pub expected: nat,
    pub data: Seq<u8>,
    pub last_seq: u8,
}

/// How a complete response payload is judged: its first byte is the
/// CTAP status, zero for success.
pub open spec fn finish_outcome(data: Seq<u8>) -> ReadOutcome {
    if data.len() == 0 {
        ReadOutcome::EmptyResponse
    } else if data[0] != 0 {
        ReadOutcome::Status(data[0])
    } else {
        ReadOutcome::Payload(data.drop_first())
    }
}

/// One packet of a response (64 bytes) read on channel `cid` while
/// waiting for command `cmd`: packets of other channels are ignored,
/// and so are keep-alive packets before the response begins.
pub open spec fn assembly_step(cid: u32, cmd: u8, s: AssemblyModel, buf: Seq<u8>) -> (
    AssemblyModel,
    Option<ReadOutcome>,
) {
    if be32_value(buf.subrange(0, 4)) != cid {
        (s, None)
    } else if !s.started {
        if buf[4] == CTAPHID_KEEPALIVE {
            (s, None)
        } else if buf[4] == CTAPHID_ERROR {
            (s, Some(ReadOutcome::HidError(buf[5])))
        } else if buf[4] == cmd {
            let expected = buf[5] as nat * 256 + buf[6] as nat;
            let n = min(expected as int, INIT_PAYLOAD as int);
            let s2 = AssemblyModel {
                started: true,
                expected,
                data: buf.subrange(7, 7 + n),
                last_seq: 0,
            };
            if n >= expected {
                (s2, Some(finish_outcome(s2.data)))
            } else {
                (s2, None)
            }
        } else {
            (s, Some(ReadOutcome::UnexpectedCommand(buf[4])))
        }
    } else if buf[4] != s.last_seq {
        (s, Some(ReadOutcome::SequenceMismatch))
    } else {
        let n = min(s.expected - s.data.len(), CONT_PAYLOAD as int);
        let s2 = AssemblyModel {
            started: true,
            expected: s.expected,
            data: s.data + buf.subrange(5, 5 + n),
            last_seq: ((s.last_seq + 1) % 256) as u8,
        };
        if s2.data.len() >= s.expected {
            (s2, Some(finish_outcome(s2.data)))
        } else {
            (s2, None)
        }
    }
}

/// The text of the error that an outcome other than a payload stands for.
pub open spec fn outcome_error_text(o: ReadOutcome, cmd: u8) -> Seq<char> {
    match o {
        ReadOutcome::HidError(b) => "Device returned CTAP Error: 0x"@ + hex_byte_chars(b, true),
        ReadOutcome::UnexpectedCommand(b) => "Unexpected command response: 0x"@ + hex_byte_chars(b, true)
            + " (Expected 0x"@ + hex_byte_chars(cmd, true) + ")"@,
        ReadOutcome::SequenceMismatch => "Sequence mismatch"@,
        ReadOutcome::EmptyResponse => "Empty response"@,
        ReadOutcome::Status(b) => "FIDO Operation Failed with Status: 0x"@ + hex_byte_chars(b, true),
        ReadOutcome::Payload(_) => Seq::empty(),
    }
}

/// Whether `r` is what `send_cbor` returns for the outcome `o`.
pub open spec fn outcome_result(o: ReadOutcome, cmd: u8, r: Result<Vec<u8>, PFError>) -> bool {
    match o {
        ReadOutcome::Payload(p) => r matches Ok(v) && v@ == p,
        _ => r matches Err(e) && is_device_error(e, outcome_error_text(o, cmd)),
    }
}

/// Reassembles the response to a command from the packets the device
/// sends on the channel.
pub struct ResponseAssembler {
    cid: u32,
    cmd: u8,
    started: bool,
    expected_len: usize,
    data: Vec<u8>,
    last_seq: u8,
}

impl ResponseAssembler {
    pub closed spec fn model(&self) -> AssemblyModel {
        AssemblyModel {
            started: self.started,
            expected: self.expected_len as nat,
            data: self.data@,
            last_seq: self.last_seq,
        }
    }

    pub closed spec fn cid(&self) -> u32 {
        self.cid
    }

    pub closed spec fn cmd(&self) -> u8 {
        self.cmd
    }

    /// The state in which more packets may be fed.
    pub closed spec fn wf(&self) -> bool {
        &&& self.expected_len <= 0xffff
        &&& self.started ==> self.data@.len() < self.expected_len
        &&& !self.started ==> self.data@.len() == 0
    }

    /// Whether the reassembler has begun a response (what separates the
    /// first packet from continuation packets).
    pub fn started(&self) -> (r: bool)
        ensures
            r == self.model().started,
    {
        self.started
    }

    /// A reassembler waiting for the answer to `cmd` on channel `cid`.
    pub fn new(cid: u32, cmd: u8) -> (r: Self)
        ensures
            r.wf(),
            r.cid() == cid,
            r.cmd() == cmd,
            r.model() == (AssemblyModel { started: false, expected: 0, data: Seq::empty(), last_seq: 0 }),
    {
        ResponseAssembler { cid, cmd, started: false, expected_len: 0, data: Vec::new(), last_seq: 0 }
    }

    /// Takes the next 64-byte packet. `None` while more packets are
    /// needed; otherwise what reading the response gives.
    pub fn feed(&mut self, buf: &[u8]) -> (r: Option<Result<Vec<u8>, PFError>>)
        requires
            old(self).wf(),
            buf.len() == HID_REPORT_SIZE,
        ensures
            final(self).cid() == old(self).cid(),
            final(self).cmd() == old(self).cmd(),
            ({
                let (s2, o) = assembly_step(old(self).cid(), old(self).cmd(), old(self).model(), buf@);
                &&& final(self).model() == s2
                &&& r is None <==> o is None
                &&& r is None ==> final(self).wf()
                &&& r matches Some(res) ==> outcome_result(o->0, old(self).cmd(), res)
            }),
    {
        if read_be32(buf, 0) != self.cid {
            return None;
        }
        if !self.started {
            if buf[4] == CTAPHID_KEEPALIVE {
                return None;
            }
            if buf[4] == CTAPHID_ERROR {
                let mut s = String::from_str("Device returned CTAP Error: 0x");
                push_hex_byte(&mut s, buf[5], true);
                return Some(Err(PFError::Device(s)));
            }
            if buf[4] == self.cmd {
                let expected = (buf[5] as usize) * 256 + buf[6] as usize;
                let n = if expected < INIT_PAYLOAD { expected } else { INIT_PAYLOAD };
                let mut d: Vec<u8> = Vec::new();
                push_range(&mut d, buf, 7, 7 + n);
                self.started = true;
                self.expected_len = expected;
                self.data = d;
                self.last_seq = 0;
                if n >= expected {
                    return Some(finish(&self.data));
                }
                return None;
            }
            let mut s = String::from_str("Unexpected command response: 0x");
            push_hex_byte(&mut s, buf[4], true);
            s.append(" (Expected 0x");
            push_hex_byte(&mut s, self.cmd, true);
            s.append(")");
            return Some(Err(PFError::Device(s)));
        }
        if buf[4] != self.last_seq {
            return Some(Err(device_error("Sequence mismatch")));
        }
        self.last_seq = self.last_seq.wrapping_add(1);
        let remaining = self.expected_len - self.data.len();
        let n = if remaining < CONT_PAYLOAD { remaining } else { CONT_PAYLOAD };
        push_range(&mut self.data, buf, 5, 5 + n);
        if self.data.len() >= self.expected_len {
            Some(finish(&self.data))
        } else {
            None
        }
    }

    /// The error for a failed read: its text depends on whether the
    /// response has begun.
    pub fn read_error(&self, detail: &str) -> (e: PFError)
        ensures
            is_io_error(e, if self.model().started {
                "Timeout reading continuation packet: "@ + detail@
            } else {
                "Timeout reading response packet: "@ + detail@
            }),
    {
        let mut s = if self.started {
            String::from_str("Timeout reading continuation packet: ")
        } else {
            String::from_str("Timeout reading response packet: ")
        };
        s.append(detail);
        PFError::Io(s)
    }

    /// The error when the first packet does not come in time.
    pub fn timeout_error(&self) -> (e: PFError)
        ensures
            is_device_error(e, "Timeout waiting for device response (Keepalive limit exceeded)"@),
    {
        device_error("Timeout waiting for device response (Keepalive limit exceeded)")
    }
}

/// Judges a complete response payload by its status byte.
fn finish(data: &Vec<u8>) -> (r: Result<Vec<u8>, PFError>)
    ensures
        outcome_result(finish_outcome(data@), 0, r),
{
    if data.len() == 0 {
        return Err(device_error("Empty response"));
    }
    let status = data[0];
    if status != 0 {
        let mut s = String::from_str("FIDO Operation Failed with Status: 0x");
        push_hex_byte(&mut s, status, true);
        return Err(PFError::Device(s));
    }
    let mut out: Vec<u8> = Vec::new();
    push_range(&mut out, data.as_slice(), 1, data.len());
    assert(data@.subrange(1, data@.len() as int) =~= data@.drop_first());
    Ok(out)
}


/// The packets of a framed request, without report-id bytes.
pub open spec fn request_frames(cid: u32, cmd: u8, payload: Seq<u8>) -> Seq<Seq<u8>> {
    Seq::new((1 + cont_count(payload.len() as int)) as nat, |i: int| request_frame(cid, cmd, payload, i))
}

/// The state of a reassembler that has read nothing yet.
pub open spec fn initial_assembly() -> AssemblyModel {
    AssemblyModel { started: false, expected: 0, data: Seq::empty(), last_seq: 0 }
}

/// Feeds `frames` in order until the reassembler reports an outcome.
pub open spec fn assembly_run(cid: u32, cmd: u8, s: AssemblyModel, frames: Seq<Seq<u8>>) -> Option<
    ReadOutcome,
>
    decreases frames.len(),
{
    if frames.len() == 0 {
        None
    } else {
        let (s2, o) = assembly_step(cid, cmd, s, frames[0]);
        if o is Some {
            o
        } else {
            assembly_run(cid, cmd, s2, frames.drop_first())
        }
    }
}

proof fn lemma_be32_value(v: u32)
    ensures
        be32_value(be32(v)) == v,
{
    let b0 = v as int / 0x1000000;
    let b1 = v as int / 0x10000 % 256;
    let b2 = v as int / 0x100 % 256;
    let b3 = v as int % 256;
    assert(b0 * 0x1000000 + b1 * 0x10000 + b2 * 0x100 + b3 == v as int) by (nonlinear_arith)
        requires
            b0 == v as int / 0x1000000,
            b1 == v as int / 0x10000 % 256,
            b2 == v as int / 0x100 % 256,
            b3 == v as int % 256,
            0 <= v as int <= 0xffff_ffff,
    ;
    assert(0 <= b0 < 256);
}

proof fn lemma_frame_channel(cid: u32, frame: Seq<u8>, rest: Seq<u8>)
    requires
        frame == be32(cid) + rest,
    ensures
        be32_value(frame.subrange(0, 4)) == cid,
{
    assert(frame.subrange(0, 4) =~= be32(cid));
    lemma_be32_value(cid);
}

proof fn lemma_cont_frames_reassemble(cid: u32, cmd: u8, payload: Seq<u8>, k: int)
    requires
        payload.len() > INIT_PAYLOAD,
        cont_count(payload.len() as int) <= 128,
        0 <= k < cont_count(payload.len() as int),
    ensures
        assembly_run(
            cid,
            cmd,
            AssemblyModel {
                started: true,
                expected: payload.len(),
                data: payload.take(cont_start(k)),
                last_seq: k as u8,
            },
            request_frames(cid, cmd, payload).subrange(k + 1, 1 + cont_count(payload.len() as int)),
        ) == Some(finish_outcome(payload)),
    decreases cont_count(payload.len() as int) - k,
{
    let len = payload.len() as int;
    let count = cont_count(len);
    let frames = request_frames(cid, cmd, payload).subrange(k + 1, 1 + count);
    let frame = cont_frame(cid, k, payload);
    assert(frames[0] == frame);
    let start = cont_start(k);
    let end = min(len, start + CONT_PAYLOAD);
    assert(start < len) by {
        assert(k < (len - INIT_PAYLOAD + CONT_PAYLOAD - 1) / CONT_PAYLOAD as int);
    }
    let rest = seq![(k % 128) as u8] + payload.subrange(start, end) + zeros((CONT_PAYLOAD - (end - start)) as nat);
    assert(frame =~= be32(cid) + rest);
    lemma_frame_channel(cid, frame, rest);
    assert(frame[4] == (k % 128) as u8);
    assert(frame[4] == k as u8);
    let s = AssemblyModel { started: true, expected: payload.len(), data: payload.take(start), last_seq: k as u8 };
    let n = min(len - start, CONT_PAYLOAD as int);
    assert(n == end - start);
    assert(frame.subrange(5, 5 + n) =~= payload.subrange(start, end));
    assert(s.data + frame.subrange(5, 5 + n) =~= payload.take(end));
    let (s2, o) = assembly_step(cid, cmd, s, frame);
    if end >= len {
        assert(payload.take(end) =~= payload);
        assert(o == Some(finish_outcome(payload)));
    } else {
        assert(o is None);
        assert(k + 1 < count) by {
            assert(start + CONT_PAYLOAD < len);
        }
        assert(s2.last_seq == (k + 1) as u8);
        assert(end == cont_start(k + 1));
        lemma_cont_frames_reassemble(cid, cmd, payload, k + 1);
        assert(frames.drop_first() =~= request_frames(cid, cmd, payload).subrange(k + 2, 1 + count));
    }
}

/// Framing and reassembly agree: when the device's answer to `cmd` comes
/// in the very packets that `request_reports` frames for a payload (the
/// report-id byte aside), the reassembler reads that payload back and
/// judges it by its first byte. This needs at most 128 continuation
/// packets, since sequence numbers are counted modulo 128.
pub proof fn lemma_framing_roundtrip(cid: u32, cmd: u8, payload: Seq<u8>)
    requires
        cmd != CTAPHID_KEEPALIVE,
        cmd != CTAPHID_ERROR,
        payload.len() <= INIT_PAYLOAD + 128 * CONT_PAYLOAD,
    ensures
        assembly_run(cid, cmd, initial_assembly(), request_frames(cid, cmd, payload))
            == Some(finish_outcome(payload)),
{
    let len = payload.len() as int;
    let frames = request_frames(cid, cmd, payload);
    let frame = init_frame(cid, cmd, payload);
    assert(frames[0] == frame);
    let n = min(len, INIT_PAYLOAD as int);
    let rest = seq![cmd, (payload.len() / 256) as u8, (payload.len() % 256) as u8] + payload.take(n)
        + zeros((INIT_PAYLOAD - n) as nat);
    assert(frame =~= be32(cid) + rest);
    lemma_frame_channel(cid, frame, rest);
    assert(frame[4] == cmd);
    assert(frame[5] as nat * 256 + frame[6] as nat == len);
    assert(frame.subrange(7, 7 + n) =~= payload.take(n));
    let (s2, o) = assembly_step(cid, cmd, initial_assembly(), frame);
    if len <= INIT_PAYLOAD {
        assert(payload.take(n) =~= payload);
        assert(o == Some(finish_outcome(payload)));
    } else {
        assert(o is None);
        assert(cont_count(len) <= 128);
        assert(cont_count(len) >= 1);
        assert(n == cont_start(0));
        lemma_cont_frames_reassemble(cid, cmd, payload, 0);
        assert(frames.drop_first() =~= frames.subrange(1, 1 + cont_count(len)));
    }
}


/// The position of the first HID interface with the FIDO usage page.
pub fn first_fido_interface(usage_pages: &[u16]) -> (r: Option<usize>)
    ensures
        match r {
            Some(i) => i < usage_pages@.len() && usage_pages@[i as int] == HID_USAGE_PAGE_FIDO && forall|j: int|
                0 <= j < i ==> usage_pages@[j] != HID_USAGE_PAGE_FIDO,
            None => forall|j: int| 0 <= j < usage_pages@.len() ==> usage_pages@[j] != HID_USAGE_PAGE_FIDO,
        },
{
    let mut i: usize = 0;
    while i < usage_pages.len()
        invariant
            i <= usage_pages@.len(),
            forall|j: int| 0 <= j < i ==> usage_pages@[j] != HID_USAGE_PAGE_FIDO,
        decreases usage_pages@.len() - i,
    {
        if usage_pages[i] == HID_USAGE_PAGE_FIDO {
            return Some(i);
        }
        i = i + 1;
    }
    None
}

/// The product name of the HID device, or "Unknown FIDO Device".
pub fn product_name_or_default(name: Option<String>) -> (r: String)
    ensures
        match name {
            Some(n) => r == n,
            None => r@ == "Unknown FIDO Device"@,
        },
{
    match name {
        Some(n) => n,
        None => String::from_str("Unknown FIDO Device"),
    }
}


/// Starts a channel negotiation: a fresh random nonce and the
/// CTAPHID_INIT report that carries it.
pub fn start_init_channel() -> (r: (Vec<u8>, Vec<u8>))
    ensures
        r.0@.len() == 8,
        r.1@ == init_request_report(r.0@),
{
    let nonce = crate::crypto::random_nonce();
    let report = init_request(nonce.as_slice());
    (nonce, report)
}

} // verus!
