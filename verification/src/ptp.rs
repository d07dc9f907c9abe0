//! PTP (ISO 15740) framing and datasets: container encoding and header
//! parsing, response payloads, the DeviceInfo dataset, ObjectInfo for the
//! vendor upload, PTP strings, and names of operation, response, property and
//! format codes.
use vstd::prelude::*;

use crate::text::{chars_of, dec, hex, pad_zero, push_dec, push_hex, push_pad_zero, push_str, string_of, hex_chars};

verus! {

// ---------------------------------------------------------------------------
// Codes
// ---------------------------------------------------------------------------

/// Length of a PTP container header.
pub const PTP_HEADER_LEN: usize = 12;
/// Container type of a command block.
pub const CONTAINER_COMMAND: u16 = 1;
/// Container type of a data block.
pub const CONTAINER_DATA: u16 = 2;
/// Container type of a response block.
pub const CONTAINER_RESPONSE: u16 = 3;

/// GetDeviceInfo.
pub const OC_GET_DEVICE_INFO: u16 = 0x1001;
/// OpenSession.
pub const OC_OPEN_SESSION: u16 = 0x1002;
/// CloseSession.
pub const OC_CLOSE_SESSION: u16 = 0x1003;
/// GetObjectHandles.
pub const OC_GET_OBJECT_HANDLES: u16 = 0x1007;
/// GetObject.
pub const OC_GET_OBJECT: u16 = 0x1009;
/// DeleteObject.
pub const OC_DELETE_OBJECT: u16 = 0x100B;
/// GetDevicePropValue.
pub const OC_GET_DEVICE_PROP_VALUE: u16 = 0x1015;
/// SetDevicePropValue.
pub const OC_SET_DEVICE_PROP_VALUE: u16 = 0x1016;

/// Response code OK.
pub const RC_OK: u16 = 0x2001;
/// Response code Session Already Open.
pub const RC_SESSION_ALREADY_OPEN: u16 = 0x201E;

// ---------------------------------------------------------------------------
// Little-endian integers
// ---------------------------------------------------------------------------

/// Little-endian bytes of a u16.
pub open spec fn le16(v: u16) -> Seq<u8> {
    seq![(v % 0x100) as u8, (v / 0x100) as u8]
}

/// Little-endian bytes of a u32.
pub open spec fn le32(v: u32) -> Seq<u8> {
    seq![(v % 0x100) as u8, ((v / 0x100) % 0x100) as u8, ((v / 0x1_0000) % 0x100) as u8, (v / 0x100_0000) as u8]
}

/// The u16 stored little-endian at `p`.
pub open spec fn u16_at(d: Seq<u8>, p: int) -> u16 {
    (d[p] + 0x100 * d[p + 1]) as u16
}

/// The u32 stored little-endian at `p`.
pub open spec fn u32_at(d: Seq<u8>, p: int) -> u32 {
    (d[p] + 0x100 * d[p + 1] + 0x1_0000 * d[p + 2] + 0x100_0000 * d[p + 3]) as u32
}

/// Little-endian bytes of a sequence of u16, in order.
pub open spec fn u16s_bytes(us: Seq<u16>) -> Seq<u8> {
    Seq::new(2 * us.len(), |k: int| le16(us[k / 2])[k % 2])
}

/// Little-endian bytes of a sequence of u32, in order.
pub open spec fn u32s_bytes(ps: Seq<u32>) -> Seq<u8> {
    Seq::new(4 * ps.len(), |k: int| le32(ps[k / 4])[k % 4])
}

/// Reading back the bytes of a u16.
pub proof fn lemma_le16(v: u16)
    ensures
        u16_at(le16(v), 0) == v,
{
    let d = le16(v);
    assert(d[0] == v % 0x100);
    assert(d[1] == v / 0x100);
    assert(v % 0x100 + 0x100 * (v / 0x100) == v) by (bit_vector);
}

/// Reading back the bytes of a u32.
pub proof fn lemma_le32(v: u32)
    ensures
        u32_at(le32(v), 0) == v,
{
    let d = le32(v);
    assert(d[0] == v % 0x100);
    assert(d[1] == (v / 0x100) % 0x100);
    assert(d[2] == (v / 0x1_0000) % 0x100);
    assert(d[3] == v / 0x100_0000);
    assert(v % 0x100 + 0x100 * ((v / 0x100) % 0x100) + 0x1_0000 * ((v / 0x1_0000) % 0x100)
        + 0x100_0000 * (v / 0x100_0000) == v) by (bit_vector);
}

/// Appends the little-endian bytes of a u16.
pub fn push_u16_le(buf: &mut Vec<u8>, v: u16)
    ensures
        final(buf)@ == old(buf)@ + le16(v),
{
    let ghost b0 = buf@;
    buf.push((v % 0x100) as u8);
    buf.push((v / 0x100) as u8);
    assert(buf@ =~= b0 + le16(v));
}

/// Appends the little-endian bytes of a u32.
pub fn push_u32_le(buf: &mut Vec<u8>, v: u32)
    ensures
        final(buf)@ == old(buf)@ + le32(v),
{
    let ghost b0 = buf@;
    buf.push((v % 0x100) as u8);
    buf.push(((v / 0x100) % 0x100) as u8);
    buf.push(((v / 0x1_0000) % 0x100) as u8);
    buf.push((v / 0x100_0000) as u8);
    assert(buf@ =~= b0 + le32(v));
}

fn read_u16_le(d: &[u8], p: usize) -> (r: u16)
    requires
        p + 2 <= d@.len(),
    ensures
        r == u16_at(d@, p as int),
{
    d[p] as u16 + d[p + 1] as u16 * 0x100
}

fn read_u32_le(d: &[u8], p: usize) -> (r: u32)
    requires
        p + 4 <= d@.len(),
    ensures
        r == u32_at(d@, p as int),
{
    d[p] as u32 + d[p + 1] as u32 * 0x100 + d[p + 2] as u32 * 0x1_0000 + d[p + 3] as u32 * 0x100_0000
}

// ---------------------------------------------------------------------------
// Containers
// ---------------------------------------------------------------------------

/// A command container: length, type 1, operation code, transaction id, then
/// the parameters. The length field is the byte count truncated to 32 bits.
pub open spec fn command_container(code: u16, tid: u32, params: Seq<u32>) -> Seq<u8> {
    le32(((12 + 4 * params.len()) % 0x1_0000_0000) as u32) + le16(CONTAINER_COMMAND) + le16(code)
        + le32(tid) + u32s_bytes(params)
}

/// A data container: length, type 2, operation code, transaction id, then the data.
pub open spec fn data_container(code: u16, tid: u32, data: Seq<u8>) -> Seq<u8> {
    le32(((12 + data.len()) % 0x1_0000_0000) as u32) + le16(CONTAINER_DATA) + le16(code) + le32(
        tid,
    ) + data
}

fn push_header(buf: &mut Vec<u8>, length: u32, ctype: u16, code: u16, tid: u32)
    ensures
        final(buf)@ == old(buf)@ + le32(length) + le16(ctype) + le16(code) + le32(tid),
{
    push_u32_le(buf, length);
    push_u16_le(buf, ctype);
    push_u16_le(buf, code);
    push_u32_le(buf, tid);
}

/// Builds a command container.
pub fn command_block(code: u16, tid: u32, params: &[u32]) -> (r: Vec<u8>)
    ensures
        r@ == command_container(code, tid, params@),
{
    let length = ((PTP_HEADER_LEN as u128 + params.len() as u128 * 4) % 0x1_0000_0000) as u32;
    let mut buf: Vec<u8> = Vec::new();
    push_header(&mut buf, length, CONTAINER_COMMAND, code, tid);
    let ghost head = buf@;
    let mut i: usize = 0;
    while i < params.len()
        invariant
            i <= params.len(),
            buf@ == head + u32s_bytes(params@.take(i as int)),
        decreases params.len() - i,
    {
        let ghost before = buf@;
        push_u32_le(&mut buf, params[i]);
        assert(u32s_bytes(params@.take(i + 1)) =~= u32s_bytes(params@.take(i as int)) + le32(
            params@[i as int],
        ));
        i += 1;
    }
    assert(params@.take(params.len() as int) =~= params@);
    buf
}

/// Builds a data container.
pub fn data_block(code: u16, tid: u32, data: &[u8]) -> (r: Vec<u8>)
    ensures
        r@ == data_container(code, tid, data@),
{
    let length = ((PTP_HEADER_LEN as u128 + data.len() as u128) % 0x1_0000_0000) as u32;
    let mut buf: Vec<u8> = Vec::new();
    push_header(&mut buf, length, CONTAINER_DATA, code, tid);
    let ghost head = buf@;
    let mut i: usize = 0;
    while i < data.len()
        invariant
            i <= data.len(),
            buf@ == head + data@.take(i as int),
        decreases data.len() - i,
    {
        buf.push(data[i]);
        assert(data@.take(i + 1) =~= data@.take(i as int).push(data@[i as int]));
        i += 1;
    }
    assert(data@.take(data.len() as int) =~= data@);
    buf
}

/// Header fields of a container: total length, type, code, transaction id.
pub struct ContainerHeader {
    pub length: u32,
    pub ctype: u16,
    pub code: u16,
    pub tid: u32,
}

/// Message for a read shorter than a header.
pub open spec fn short_read_text(n: int) -> Seq<char> {
    "Short PTP read: got "@ + dec(n as nat) + " bytes, need at least 12"@
}

/// The header of the first `n` bytes read, or the message for a short read.
pub open spec fn header_of(buf: Seq<u8>, n: int) -> Result<(u32, u16, u16, u32), Seq<char>> {
    if n < 12 {
        Err(short_read_text(n))
    } else {
        Ok((u32_at(buf, 0), u16_at(buf, 4), u16_at(buf, 6), u32_at(buf, 8)))
    }
}

/// Parses the header of a read of `n` bytes into `buf`.
pub fn parse_header(buf: &[u8], n: usize) -> (r: Result<ContainerHeader, String>)
    requires
        n <= buf@.len(),
    ensures
        match r {
            Ok(h) => header_of(buf@, n as int) == Ok::<(u32, u16, u16, u32), Seq<char>>(
                (h.length, h.ctype, h.code, h.tid),
            ),
            Err(m) => header_of(buf@, n as int) == Err::<(u32, u16, u16, u32), Seq<char>>(m@),
        },
{
    if n < PTP_HEADER_LEN {
        let mut m = chars_of("Short PTP read: got ");
        push_dec(&mut m, n as u64);
        push_str(&mut m, " bytes, need at least 12");
        return Err(string_of(&m));
    }
    Ok(
        ContainerHeader {
            length: read_u32_le(buf, 0),
            ctype: read_u16_le(buf, 4),
            code: read_u16_le(buf, 6),
            tid: read_u32_le(buf, 8),
        },
    )
}

/// The header of a command container reads back its length, type, code and
/// transaction id.
pub proof fn law_command_header_roundtrip(code: u16, tid: u32, params: Seq<u32>)
    ensures
        header_of(command_container(code, tid, params), command_container(code, tid, params).len() as int)
            == Ok::<(u32, u16, u16, u32), Seq<char>>(
            (((12 + 4 * params.len()) % 0x1_0000_0000) as u32, CONTAINER_COMMAND, code, tid),
        ),
{
    let len = ((12 + 4 * params.len()) % 0x1_0000_0000) as u32;
    let b = command_container(code, tid, params);
    lemma_le32(len);
    lemma_le16(CONTAINER_COMMAND);
    lemma_le16(code);
    lemma_le32(tid);
    assert(b[0] == le32(len)[0] && b[1] == le32(len)[1] && b[2] == le32(len)[2] && b[3] == le32(len)[3]);
    assert(b[4] == le16(CONTAINER_COMMAND)[0] && b[5] == le16(CONTAINER_COMMAND)[1]);
    assert(b[6] == le16(code)[0] && b[7] == le16(code)[1]);
    assert(b[8] == le32(tid)[0] && b[9] == le32(tid)[1] && b[10] == le32(tid)[2] && b[11] == le32(tid)[3]);
}

/// The u32 parameters of a response payload: each whole 4-byte group.
pub open spec fn response_params(p: Seq<u8>) -> Seq<u32> {
    Seq::new(p.len() / 4, |i: int| u32_at(p, 4 * i))
}

/// Parses the u32 parameters of a response payload (a partial last group is dropped).
pub fn parse_response_payload(payload: &[u8]) -> (r: Vec<u32>)
    ensures
        r@ == response_params(payload@),
{
    let mut r: Vec<u32> = Vec::new();
    let count = payload.len() / 4;
    let mut i: usize = 0;
    let mut off: usize = 0;
    while i < count
        invariant
            i <= count,
            count == payload@.len() / 4,
            4 * count <= payload.len(),
            off == 4 * i,
            r@ == response_params(payload@).take(i as int),
        decreases count - i,
    {
        r.push(read_u32_le(payload, off));
        assert(r@ =~= response_params(payload@).take(i + 1));
        i += 1;
        off += 4;
    }
    assert(r@ =~= response_params(payload@));
    r
}

/// Parameters written into a payload read back as the same parameters.
pub proof fn law_response_params_roundtrip(ps: Seq<u32>)
    ensures
        response_params(u32s_bytes(ps)) == ps,
{
    let b = u32s_bytes(ps);
    assert forall|i: int| 0 <= i < ps.len() implies #[trigger] response_params(b)[i] == ps[i] by {
        lemma_le32(ps[i]);
        assert(b[4 * i] == le32(ps[i])[0]);
        assert(b[4 * i + 1] == le32(ps[i])[1]);
        assert(b[4 * i + 2] == le32(ps[i])[2]);
        assert(b[4 * i + 3] == le32(ps[i])[3]);
    }
    assert(response_params(b) =~= ps);
}

/// A container being read: its header and the payload gathered so far.
pub struct ContainerRead {
    pub ctype: u16,
    pub code: u16,
    pub tid: u32,
    /// Payload length announced by the header (length minus 12, at least 0).
    pub payload_len: usize,
    pub payload: Vec<u8>,
}

/// Payload length a header announces.
pub open spec fn announced_payload(length: u32) -> int {
    if length >= 12 {
        length - 12
    } else {
        0
    }
}

/// Starts reading a container from the first `n` bytes read into `buf`: the
/// header, and as much of the payload as the first read holds.
pub fn start_container(buf: &[u8], n: usize) -> (r: Result<ContainerRead, String>)
    requires
        n <= buf@.len(),
    ensures
        match r {
            Ok(c) => {
                &&& header_of(buf@, n as int) == Ok::<(u32, u16, u16, u32), Seq<char>>(
                    (u32_at(buf@, 0), c.ctype, c.code, c.tid),
                )
                &&& c.payload_len == announced_payload(u32_at(buf@, 0))
                &&& c.payload@ == buf@.subrange(
                    12,
                    12 + if n - 12 < c.payload_len {
                        n - 12
                    } else {
                        c.payload_len as int
                    },
                )
            },
            Err(m) => header_of(buf@, n as int) == Err::<(u32, u16, u16, u32), Seq<char>>(m@),
        },
{
    let h = match parse_header(buf, n) {
        Ok(h) => h,
        Err(m) => {
            return Err(m);
        },
    };
    let payload_len: usize = if h.length >= 12 {
        (h.length - 12) as usize
    } else {
        0
    };
    let avail = if n - 12 < payload_len {
        n - 12
    } else {
        payload_len
    };
    let mut payload: Vec<u8> = Vec::new();
    let mut i: usize = 0;
    while i < avail
        invariant
            i <= avail,
            12 + avail <= n <= buf@.len(),
            payload@ == buf@.subrange(12, 12 + i),
        decreases avail - i,
    {
        payload.push(buf[12 + i]);
        assert(buf@.subrange(12, 12 + i + 1) =~= buf@.subrange(12, 12 + i).push(buf@[12 + i]));
        i += 1;
    }
    Ok(ContainerRead { ctype: h.ctype, code: h.code, tid: h.tid, payload_len, payload })
}

impl ContainerRead {
    /// Whether the payload is still shorter than announced.
    pub fn needs_more(&self) -> (r: bool)
        ensures
            r == (self.payload@.len() < self.payload_len),
    {
        self.payload.len() < self.payload_len
    }

    /// Appends a further chunk read from the device.
    pub fn add_chunk(&mut self, chunk: &[u8])
        ensures
            final(self).payload@ == old(self).payload@ + chunk@,
            final(self).ctype == old(self).ctype,
            final(self).code == old(self).code,
            final(self).tid == old(self).tid,
            final(self).payload_len == old(self).payload_len,
    {
        let ghost p0 = self.payload@;
        let ghost s0 = *self;
        let mut i: usize = 0;
        while i < chunk.len()
            invariant
                i <= chunk.len(),
                self.payload@ == p0 + chunk@.take(i as int),
                self.ctype == s0.ctype,
                self.code == s0.code,
                self.tid == s0.tid,
                self.payload_len == s0.payload_len,
            decreases chunk.len() - i,
        {
            self.payload.push(chunk[i]);
            assert(chunk@.take(i + 1) =~= chunk@.take(i as int).push(chunk@[i as int]));
            i += 1;
        }
        assert(chunk@.take(chunk.len() as int) =~= chunk@);
    }

    /// The payload, cut to the announced length.
    pub fn into_payload(self) -> (r: Vec<u8>)
        ensures
            r@ == if self.payload@.len() > self.payload_len {
                self.payload@.take(self.payload_len as int)
            } else {
                self.payload@
            },
    {
        let mut p = self.payload;
        p.truncate(self.payload_len);
        p
    }
}

/// A parsed response block.
pub struct PtpResponse {
    pub code: u16,
    pub params: Vec<u32>,
}

/// Message for a container of the wrong type where a response was expected.
pub open spec fn not_response_text(ctype: u16) -> Seq<char> {
    "Expected response container (type 3), got type "@ + dec(ctype as nat)
}

/// The response carried by a container, which must be of type 3.
pub fn response_of(ctype: u16, code: u16, payload: &[u8]) -> (r: Result<PtpResponse, String>)
    ensures
        match r {
            Ok(resp) => ctype == CONTAINER_RESPONSE && resp.code == code && resp.params@
                == response_params(payload@),
            Err(m) => ctype != CONTAINER_RESPONSE && m@ == not_response_text(ctype),
        },
{
    if ctype != CONTAINER_RESPONSE {
        let mut m = chars_of("Expected response container (type 3), got type ");
        push_dec(&mut m, ctype as u64);
        return Err(string_of(&m));
    }
    Ok(PtpResponse { code, params: parse_response_payload(payload) })
}

/// First container of a data-in transaction: the data, or a response that
/// came without data.
pub enum DataInFirst {
    Data(Vec<u8>),
    Response(PtpResponse),
}

/// Message for a container of the wrong type where data was expected.
pub open spec fn not_data_text(ctype: u16) -> Seq<char> {
    "Expected data container (type 2), got type "@ + dec(ctype as nat)
}

/// Classifies the first container of a data-in transaction: a response (type
/// 3) ends it without data; data (type 2) is followed by a response; any other
/// type is an error.
pub fn classify_data_in(ctype: u16, code: u16, payload: Vec<u8>) -> (r: Result<DataInFirst, String>)
    ensures
        match r {
            Ok(DataInFirst::Response(resp)) => ctype == CONTAINER_RESPONSE && resp.code == code
                && resp.params@ == response_params(payload@),
            Ok(DataInFirst::Data(d)) => ctype == CONTAINER_DATA && d@ == payload@,
            Err(m) => ctype != CONTAINER_RESPONSE && ctype != CONTAINER_DATA && m@ == not_data_text(
                ctype,
            ),
        },
{
    if ctype == CONTAINER_RESPONSE {
        let params = parse_response_payload(payload.as_slice());
        return Ok(DataInFirst::Response(PtpResponse { code, params }));
    }
    if ctype != CONTAINER_DATA {
        let mut m = chars_of("Expected data container (type 2), got type ");
        push_dec(&mut m, ctype as u64);
        return Err(string_of(&m));
    }
    Ok(DataInFirst::Data(payload))
}

/// Message of a failed operation: `{what} failed: 0x{code:04X} ({name})`.
pub open spec fn failed_text(what: Seq<char>, code: u16) -> Seq<char> {
    what + " failed: 0x"@ + pad_zero(hex(code as nat), 4) + " ("@ + response_text(code) + ")"@
}

/// Accepts response code OK; any other is the failure of `what`.
pub fn check_response(what: &str, code: u16) -> (r: Result<(), String>)
    ensures
        r is Ok <==> code == RC_OK,
        r matches Err(m) ==> m@ == failed_text(what@, code),
{
    if code == RC_OK {
        return Ok(());
    }
    let mut m = chars_of(what);
    push_str(&mut m, " failed: 0x");
    let h = hex_chars(code as u64);
    push_pad_zero(&mut m, &h, 4);
    push_str(&mut m, " (");
    push_str(&mut m, response_name(code));
    push_str(&mut m, ")");
    Err(string_of(&m))
}

/// OpenSession succeeds with OK or Session Already Open.
pub fn check_open_session(code: u16) -> (r: Result<(), String>)
    ensures
        r is Ok <==> (code == RC_OK || code == RC_SESSION_ALREADY_OPEN),
        r matches Err(m) ==> m@ == failed_text("OpenSession"@, code),
{
    if code == RC_SESSION_ALREADY_OPEN {
        return Ok(());
    }
    check_response("OpenSession", code)
}

/// Label of a property operation: `{op} 0x{prop:04X}`.
pub open spec fn prop_op_text(op: Seq<char>, prop: u16) -> Seq<char> {
    op + " 0x"@ + pad_zero(hex(prop as nat), 4)
}

/// Label of a property operation: `{op} 0x{prop:04X}`.
pub fn prop_op_label(op: &str, prop: u16) -> (r: String)
    ensures
        r@ == prop_op_text(op@, prop),
{
    let mut m = chars_of(op);
    push_str(&mut m, " 0x");
    let h = hex_chars(prop as u64);
    push_pad_zero(&mut m, &h, 4);
    string_of(&m)
}

/// Label of an object operation: `{op} 0x{handle:08X}`.
pub open spec fn object_op_text(op: Seq<char>, handle: u32) -> Seq<char> {
    op + " 0x"@ + pad_zero(hex(handle as nat), 8)
}

/// Label of an object operation: `{op} 0x{handle:08X}`.
pub fn object_op_label(op: &str, handle: u32) -> (r: String)
    ensures
        r@ == object_op_text(op@, handle),
{
    let mut m = chars_of(op);
    push_str(&mut m, " 0x");
    let h = hex_chars(handle as u64);
    push_pad_zero(&mut m, &h, 8);
    string_of(&m)
}

/// Seconds to wait for a transfer: large uploads (over 1 000 000 bytes) get 120 s.
pub fn transfer_timeout_secs(len: usize, default_secs: u64) -> (r: u64)
    ensures
        r == if len > 1_000_000 {
            120
        } else {
            default_secs
        },
{
    if len > 1_000_000 {
        120
    } else {
        default_secs
    }
}

/// Transaction ids of a session: each transaction takes the next one, starting at 1.
pub struct TransactionIds {
    pub last: u32,
}

impl TransactionIds {
    /// A session that has made no transaction.
    pub fn new() -> (r: TransactionIds)
        ensures
            r.last == 0,
    {
        TransactionIds { last: 0 }
    }

    /// Takes the next transaction id.
    pub fn next_tid(&mut self) -> (r: u32)
        requires
            old(self).last < u32::MAX,
        ensures
            r == old(self).last + 1,
            final(self).last == r,
    {
        self.last = self.last + 1;
        self.last
    }
}

// ---------------------------------------------------------------------------
// PTP strings (UTF-16)
// ---------------------------------------------------------------------------

/// UTF-16 code units of one character.
pub open spec fn utf16_of_char(c: char) -> Seq<u16> {
    let u = c as u32;
    if u < 0x1_0000 {
        seq![u as u16]
    } else {
        seq![(0xD800 + (u - 0x1_0000) / 0x400) as u16, (0xDC00 + (u - 0x1_0000) % 0x400) as u16]
    }
}

/// UTF-16 code units of a string (`str::encode_utf16`).
pub open spec fn utf16_of(s: Seq<char>) -> Seq<u16>
    decreases s.len(),
{
    if s.len() == 0 {
        seq![]
    } else {
        utf16_of(s.drop_last()) + utf16_of_char(s.last())
    }
}

/// Lossy UTF-16 decoding: a unit outside the surrogates is its character; a
/// leading surrogate (0xD800..0xDBFF) followed by a trailing one
/// (0xDC00..0xDFFF) is the character they encode; any other surrogate is
/// U+FFFD, and the unit after an unpaired leading surrogate is decoded afresh.
pub open spec fn utf16_lossy(u: Seq<u16>) -> Seq<char>
    decreases u.len(),
{
    if u.len() == 0 {
        seq![]
    } else if u[0] < 0xD800 || u[0] > 0xDFFF {
        seq![u[0] as char] + utf16_lossy(u.drop_first())
    } else if u[0] <= 0xDBFF && u.len() >= 2 && 0xDC00 <= u[1] <= 0xDFFF {
        seq![(0x1_0000 + (u[0] - 0xD800) * 0x400 + (u[1] - 0xDC00)) as char] + utf16_lossy(
            u.skip(2),
        )
    } else {
        seq!['\u{FFFD}'] + utf16_lossy(u.drop_first())
    }
}

/// `String::from_utf16_lossy` of std: decodes UTF-16, replacing invalid data
/// with U+FFFD (see `utf16_lossy`).
#[verifier::external_body]
fn decode_utf16_lossy(units: &Vec<u16>) -> (r: String)
    ensures
        r@ == utf16_lossy(units@),
{
    String::from_utf16_lossy(units)
}

/// Encodes a string as UTF-16 code units.
pub fn encode_utf16(s: &str) -> (r: Vec<u16>)
    ensures
        r@ == utf16_of(s@),
{
    let mut r: Vec<u16> = Vec::new();
    let ghost s0 = s@;
    for c in it: s.chars()
        invariant
            it.seq() == s@,
            r@ == utf16_of(it.seq().take(it.index())),
    {
        let ghost before = it.seq().take(it.index());
        assert(it.seq().take(it.index() + 1).drop_last() =~= before);
        let u = c as u32;
        if u < 0x1_0000 {
            r.push(u as u16);
        } else {
            let v = u - 0x1_0000;
            r.push((0xD800 + v / 0x400) as u16);
            r.push((0xDC00 + v % 0x400) as u16);
        }
        assert(r@ =~= utf16_of(it.seq().take(it.index() + 1)));
    }
    assert(s@.take(s@.len() as int) =~= s@);
    r
}

/// Bytes of a PTP string: a count byte (units plus terminator, truncated to a
/// byte), the UTF-16 units little-endian, and a zero terminator; the empty
/// string is the single byte 0.
pub open spec fn ptp_string_bytes(s: Seq<char>) -> Seq<u8> {
    if s.len() == 0 {
        seq![0u8]
    } else {
        let u = utf16_of(s);
        seq![((u.len() + 1) % 0x100) as u8] + u16s_bytes(u) + seq![0u8, 0u8]
    }
}

/// Appends a string in PTP string encoding.
pub fn encode_ptp_string(buf: &mut Vec<u8>, s: &str)
    ensures
        final(buf)@ == old(buf)@ + ptp_string_bytes(s@),
{
    let ghost b0 = buf@;
    let units = encode_utf16(s);
    if units.len() == 0 {
        proof {
            if s@.len() > 0 {
                lemma_utf16_nonempty(s@);
            }
        }
        buf.push(0);
        return;
    }
    proof {
        if s@.len() == 0 {
            assert(utf16_of(s@) =~= Seq::<u16>::empty());
        }
    }
    let n = ((units.len() as u128 + 1) % 0x100) as u8;
    buf.push(n);
    let ghost head = buf@;
    let mut i: usize = 0;
    while i < units.len()
        invariant
            i <= units.len(),
            buf@ == head + u16s_bytes(units@.take(i as int)),
        decreases units.len() - i,
    {
        push_u16_le(buf, units[i]);
        assert(u16s_bytes(units@.take(i + 1)) =~= u16s_bytes(units@.take(i as int)) + le16(
            units@[i as int],
        ));
        i += 1;
    }
    assert(units@.take(units.len() as int) =~= units@);
    push_u16_le(buf, 0);
    assert(le16(0) =~= seq![0u8, 0u8]);
    assert(buf@ =~= b0 + ptp_string_bytes(s@));
}

/// Encoding, read from the front: the first character's units, then the rest.
proof fn lemma_utf16_front(s: Seq<char>)
    requires
        s.len() > 0,
    ensures
        utf16_of(s) == utf16_of_char(s[0]) + utf16_of(s.drop_first()),
    decreases s.len(),
{
    if s.len() == 1 {
        assert(s.drop_last() =~= Seq::<char>::empty());
        assert(s.drop_first() =~= Seq::<char>::empty());
        assert(utf16_of_char(s[0]) + Seq::<u16>::empty() =~= utf16_of_char(s[0]));
    } else {
        lemma_utf16_front(s.drop_last());
        assert(s.drop_last()[0] == s[0]);
        assert(s.drop_last().drop_first() =~= s.drop_first().drop_last());
        assert(s.drop_first().last() == s.last());
        assert(utf16_of(s.drop_first()) == utf16_of(s.drop_first().drop_last()) + utf16_of_char(
            s.drop_first().last(),
        ));
        assert(utf16_of(s) =~= utf16_of_char(s[0]) + utf16_of(s.drop_first()));
    }
}

/// Decoding the units of one character, followed by anything, gives the
/// character and then the decoding of what follows.
proof fn lemma_decode_char(c: char, rest: Seq<u16>)
    ensures
        utf16_lossy(utf16_of_char(c) + rest) == seq![c] + utf16_lossy(rest),
{
    let u = utf16_of_char(c) + rest;
    let x = c as u32;
    if x < 0x1_0000 {
        assert(u[0] == x as u16);
        assert(u.drop_first() =~= rest);
        assert((x as u16) as char == c);
    } else {
        let hi = (0xD800 + (x - 0x1_0000) / 0x400) as u16;
        let lo = (0xDC00 + (x - 0x1_0000) % 0x400) as u16;
        assert(u[0] == hi && u[1] == lo);
        assert(u.skip(2) =~= rest);
        assert(0x1_0000 + (hi - 0xD800) * 0x400 + (lo - 0xDC00) == x) by (nonlinear_arith)
            requires
                x >= 0x1_0000,
                x <= 0x10FFFF,
                hi == 0xD800 + (x - 0x1_0000) / 0x400,
                lo == 0xDC00 + (x - 0x1_0000) % 0x400,
        ;
    }
}

/// Decoding an encoded string gives the string back.
pub proof fn law_utf16_roundtrip(s: Seq<char>)
    ensures
        utf16_lossy(utf16_of(s)) == s,
    decreases s.len(),
{
    if s.len() == 0 {
        assert(utf16_of(s) =~= Seq::<u16>::empty());
    } else {
        lemma_utf16_front(s);
        lemma_decode_char(s[0], utf16_of(s.drop_first()));
        law_utf16_roundtrip(s.drop_first());
        assert(seq![s[0]] + s.drop_first() =~= s);
    }
}

proof fn lemma_utf16_nonempty(s: Seq<char>)
    requires
        s.len() > 0,
    ensures
        utf16_of(s).len() > 0,
{
    assert(utf16_of_char(s.last()).len() > 0);
}

// ---------------------------------------------------------------------------
// Dataset reader
// ---------------------------------------------------------------------------

/// Result of one read at a position: the value and the position after it.
pub type ReadAt<T> = Result<(T, int), Seq<char>>;

/// Reads a byte at `p`.
pub open spec fn u8_read(d: Seq<u8>, p: int) -> ReadAt<u8> {
    if p >= d.len() {
        Err("Unexpected end of PTP data (u8)"@)
    } else {
        Ok((d[p], p + 1))
    }
}

/// Reads a little-endian u16 at `p`.
pub open spec fn u16_read(d: Seq<u8>, p: int) -> ReadAt<u16> {
    if p + 2 > d.len() {
        Err("Unexpected end of PTP data (u16)"@)
    } else {
        Ok((u16_at(d, p), p + 2))
    }
}

/// Reads a little-endian u32 at `p`.
pub open spec fn u32_read(d: Seq<u8>, p: int) -> ReadAt<u32> {
    if p + 4 > d.len() {
        Err("Unexpected end of PTP data (u32)"@)
    } else {
        Ok((u32_at(d, p), p + 4))
    }
}

/// The `n` u16 values stored from `p` on.
pub open spec fn u16s_at(d: Seq<u8>, p: int, n: int) -> Seq<u16> {
    Seq::new(n as nat, |i: int| u16_at(d, p + 2 * i))
}

/// Reads a u16 array: a u32 count, then that many u16.
pub open spec fn u16_array_read(d: Seq<u8>, p: int) -> ReadAt<Seq<u16>> {
    match u32_read(d, p) {
        Err(m) => Err(m),
        Ok((n, q)) => if q + 2 * n > d.len() {
            Err("Unexpected end of PTP data (u16)"@)
        } else {
            Ok((u16s_at(d, q, n as int), q + 2 * n))
        },
    }
}

/// The units of a PTP string without a final zero terminator.
pub open spec fn without_terminator(us: Seq<u16>) -> Seq<u16> {
    if us.len() > 0 && us.last() == 0 {
        us.drop_last()
    } else {
        us
    }
}

/// Reads a PTP string: a count byte, then that many UTF-16 units (a final
/// zero terminator dropped).
pub open spec fn string_read(d: Seq<u8>, p: int) -> ReadAt<Seq<char>> {
    match u8_read(d, p) {
        Err(m) => Err(m),
        Ok((n, q)) => if n == 0 {
            Ok((Seq::<char>::empty(), q))
        } else if q + 2 * n > d.len() {
            Err("PTP string extends beyond data"@)
        } else {
            Ok((utf16_lossy(without_terminator(u16s_at(d, q, n as int))), q + 2 * n))
        },
    }
}

/// A cursor over a PTP dataset.
pub struct PtpReader<'a> {
    pub data: &'a [u8],
    pub pos: usize,
}

impl<'a> PtpReader<'a> {
    /// The cursor stays within the data.
    pub open spec fn wf(&self) -> bool {
        self.pos <= self.data@.len()
    }

    /// A cursor at the start of `data`.
    pub fn new(data: &'a [u8]) -> (r: Self)
        ensures
            r.wf(),
            r.data@ == data@,
            r.pos == 0,
    {
        PtpReader { data, pos: 0 }
    }

    /// Reads a byte.
    pub fn read_u8(&mut self) -> (r: Result<u8, String>)
        requires
            old(self).wf(),
        ensures
            final(self).wf(),
            final(self).data@ == old(self).data@,
            match u8_read(old(self).data@, old(self).pos as int) {
                Ok((v, q)) => r == Ok::<u8, String>(v) && final(self).pos == q,
                Err(m) => r matches Err(e) && e@ == m,
            },
    {
        if self.pos >= self.data.len() {
            return Err(string_of(&chars_of("Unexpected end of PTP data (u8)")));
        }
        let v = self.data[self.pos];
        self.pos = self.pos + 1;
        Ok(v)
    }

    /// Reads a little-endian u16.
    pub fn read_u16(&mut self) -> (r: Result<u16, String>)
        requires
            old(self).wf(),
        ensures
            final(self).wf(),
            final(self).data@ == old(self).data@,
            match u16_read(old(self).data@, old(self).pos as int) {
                Ok((v, q)) => r == Ok::<u16, String>(v) && final(self).pos == q,
                Err(m) => r matches Err(e) && e@ == m,
            },
    {
        if self.data.len() - self.pos < 2 {
            return Err(string_of(&chars_of("Unexpected end of PTP data (u16)")));
        }
        let v = read_u16_le(self.data, self.pos);
        self.pos = self.pos + 2;
        Ok(v)
    }

    /// Reads a little-endian u32.
    pub fn read_u32(&mut self) -> (r: Result<u32, String>)
        requires
            old(self).wf(),
        ensures
            final(self).wf(),
            final(self).data@ == old(self).data@,
            match u32_read(old(self).data@, old(self).pos as int) {
                Ok((v, q)) => r == Ok::<u32, String>(v) && final(self).pos == q,
                Err(m) => r matches Err(e) && e@ == m,
            },
    {
        if self.data.len() - self.pos < 4 {
            return Err(string_of(&chars_of("Unexpected end of PTP data (u32)")));
        }
        let v = read_u32_le(self.data, self.pos);
        self.pos = self.pos + 4;
        Ok(v)
    }

    fn read_u16s(&mut self, n: usize) -> (r: Vec<u16>)
        requires
            old(self).wf(),
            old(self).pos + 2 * n <= old(self).data@.len(),
        ensures
            final(self).wf(),
            final(self).data@ == old(self).data@,
            final(self).pos == old(self).pos + 2 * n,
            r@ == u16s_at(old(self).data@, old(self).pos as int, n as int),
    {
        let ghost p0 = self.pos as int;
        let ghost d0 = self.data@;
        let mut r: Vec<u16> = Vec::new();
        let mut i: usize = 0;
        while i < n
            invariant
                self.wf(),
                self.data@ == d0,
                i <= n,
                p0 + 2 * n <= self.data.len(),
                self.pos == p0 + 2 * i,
                r@ == u16s_at(self.data@, p0, i as int),
            decreases n - i,
        {
            let v = read_u16_le(self.data, self.pos);
            r.push(v);
            self.pos = self.pos + 2;
            i += 1;
            assert(r@ =~= u16s_at(self.data@, p0, i as int));
        }
        r
    }

    /// Reads a PTP string.
    pub fn read_ptp_string(&mut self) -> (r: Result<String, String>)
        requires
            old(self).wf(),
        ensures
            final(self).wf(),
            final(self).data@ == old(self).data@,
            match string_read(old(self).data@, old(self).pos as int) {
                Ok((v, q)) => r matches Ok(s) && s@ == v && final(self).pos == q,
                Err(m) => r matches Err(e) && e@ == m,
            },
    {
        let n = match self.read_u8() {
            Ok(n) => n as usize,
            Err(e) => {
                return Err(e);
            },
        };
        if n == 0 {
            return Ok(String::new());
        }
        if (self.data.len() - self.pos) / 2 < n {
            return Err(string_of(&chars_of("PTP string extends beyond data")));
        }
        let mut units = self.read_u16s(n);
        if units.len() > 0 && units[units.len() - 1] == 0 {
            units.pop();
        }
        Ok(decode_utf16_lossy(&units))
    }

    /// Reads a u16 array: a u32 count, then that many u16.
    pub fn read_u16_array(&mut self) -> (r: Result<Vec<u16>, String>)
        requires
            old(self).wf(),
        ensures
            final(self).wf(),
            final(self).data@ == old(self).data@,
            match u16_array_read(old(self).data@, old(self).pos as int) {
                Ok((v, q)) => r matches Ok(a) && a@ == v && final(self).pos == q,
                Err(m) => r matches Err(e) && e@ == m,
            },
    {
        let count = match self.read_u32() {
            Ok(c) => c as usize,
            Err(e) => {
                return Err(e);
            },
        };
        if (self.data.len() - self.pos) / 2 < count {
            return Err(string_of(&chars_of("Unexpected end of PTP data (u16)")));
        }
        Ok(self.read_u16s(count))
    }
}

/// A string written in PTP encoding reads back as the same string, for
/// strings of at most 254 UTF-16 units (a longer one overflows the count
/// byte).
pub proof fn law_ptp_string_roundtrip(s: Seq<char>)
    requires
        utf16_of(s).len() <= 254,
    ensures
        string_read(ptp_string_bytes(s), 0) == Ok::<(Seq<char>, int), Seq<char>>(
            (s, ptp_string_bytes(s).len() as int),
        ),
{
    law_utf16_roundtrip(s);
    if s.len() > 0 {
        lemma_utf16_nonempty(s);
        let u = utf16_of(s);
        let b = ptp_string_bytes(s);
        let n = (u.len() + 1) as int;
        assert(b[0] == n);
        let read = u16s_at(b, 1, n);
        assert forall|i: int| 0 <= i < u.len() implies #[trigger] read[i] == u[i] by {
            lemma_le16(u[i]);
            assert(b[1 + 2 * i] == le16(u[i])[0]);
            assert(b[1 + 2 * i + 1] == le16(u[i])[1]);
        }
        assert(b[1 + 2 * u.len() as int] == 0u8);
        assert(b[1 + 2 * u.len() as int + 1] == 0u8);
        assert(read[u.len() as int] == 0u16);
        assert(without_terminator(read) =~= u);
    }
}


// ---------------------------------------------------------------------------
// DeviceInfo dataset
// ---------------------------------------------------------------------------

/// The DeviceInfo dataset (ISO 15740 §5.5.1).
pub struct DeviceInfo {
    pub standard_version: u16,
    pub vendor_extension_id: u32,
    pub vendor_extension_version: u16,
    pub vendor_extension_desc: String,
    pub functional_mode: u16,
    pub operations_supported: Vec<u16>,
    pub events_supported: Vec<u16>,
    pub device_properties_supported: Vec<u16>,
    pub capture_formats: Vec<u16>,
    pub image_formats: Vec<u16>,
    pub manufacturer: String,
    pub model: String,
    pub device_version: String,
    pub serial_number: String,
}

/// Model of `DeviceInfo`: strings as characters, arrays as sequences.
pub struct DeviceInfoModel {
    pub standard_version: u16,
    pub vendor_extension_id: u32,
    pub vendor_extension_version: u16,
    pub vendor_extension_desc: Seq<char>,
    pub functional_mode: u16,
    pub operations_supported: Seq<u16>,
    pub events_supported: Seq<u16>,
    pub device_properties_supported: Seq<u16>,
    pub capture_formats: Seq<u16>,
    pub image_formats: Seq<u16>,
    pub manufacturer: Seq<char>,
    pub model: Seq<char>,
    pub device_version: Seq<char>,
    pub serial_number: Seq<char>,
}

impl View for DeviceInfo {
    type V = DeviceInfoModel;

    open spec fn view(&self) -> DeviceInfoModel {
        DeviceInfoModel {
            standard_version: self.standard_version,
            vendor_extension_id: self.vendor_extension_id,
            vendor_extension_version: self.vendor_extension_version,
            vendor_extension_desc: self.vendor_extension_desc@,
            functional_mode: self.functional_mode,
            operations_supported: self.operations_supported@,
            events_supported: self.events_supported@,
            device_properties_supported: self.device_properties_supported@,
            capture_formats: self.capture_formats@,
            image_formats: self.image_formats@,
            manufacturer: self.manufacturer@,
            model: self.model@,
            device_version: self.device_version@,
            serial_number: self.serial_number@,
        }
    }
}

/// The trailing part of DeviceInfo from the operation list on: five u16
/// arrays, then manufacturer, model, device version and serial number.
pub open spec fn device_info_tail(d: Seq<u8>, p: int) -> Result<
    (Seq<u16>, Seq<u16>, Seq<u16>, Seq<u16>, Seq<u16>, Seq<char>, Seq<char>, Seq<char>, Seq<char>),
    Seq<char>,
> {
    match u16_array_read(d, p) {
        Err(m) => Err(m),
        Ok((ops, p1)) => match u16_array_read(d, p1) {
            Err(m) => Err(m),
            Ok((evs, p2)) => match u16_array_read(d, p2) {
                Err(m) => Err(m),
                Ok((props, p3)) => match u16_array_read(d, p3) {
                    Err(m) => Err(m),
                    Ok((caps, p4)) => match u16_array_read(d, p4) {
                        Err(m) => Err(m),
                        Ok((imgs, p5)) => match string_read(d, p5) {
                            Err(m) => Err(m),
                            Ok((man, p6)) => match string_read(d, p6) {
                                Err(m) => Err(m),
                                Ok((model, p7)) => match string_read(d, p7) {
                                    Err(m) => Err(m),
                                    Ok((ver, p8)) => match string_read(d, p8) {
                                        Err(m) => Err(m),
                                        Ok((serial, _p9)) => Ok(
                                            (ops, evs, props, caps, imgs, man, model, ver, serial),
                                        ),
                                    },
                                },
                            },
                        },
                    },
                },
            },
        },
    }
}

/// The DeviceInfo dataset in `d`, or the message of the first read that fails.
pub open spec fn device_info_of(d: Seq<u8>) -> Result<DeviceInfoModel, Seq<char>> {
    match u16_read(d, 0) {
        Err(m) => Err(m),
        Ok((sv, p1)) => match u32_read(d, p1) {
            Err(m) => Err(m),
            Ok((vid, p2)) => match u16_read(d, p2) {
                Err(m) => Err(m),
                Ok((vver, p3)) => match string_read(d, p3) {
                    Err(m) => Err(m),
                    Ok((vdesc, p4)) => match u16_read(d, p4) {
                        Err(m) => Err(m),
                        Ok((fm, p5)) => match device_info_tail(d, p5) {
                            Err(m) => Err(m),
                            Ok(t) => Ok(
                                DeviceInfoModel {
                                    standard_version: sv,
                                    vendor_extension_id: vid,
                                    vendor_extension_version: vver,
                                    vendor_extension_desc: vdesc,
                                    functional_mode: fm,
                                    operations_supported: t.0,
                                    events_supported: t.1,
                                    device_properties_supported: t.2,
                                    capture_formats: t.3,
                                    image_formats: t.4,
                                    manufacturer: t.5,
                                    model: t.6,
                                    device_version: t.7,
                                    serial_number: t.8,
                                },
                            ),
                        },
                    },
                },
            },
        },
    }
}

/// Parses a DeviceInfo dataset.
pub fn parse_device_info(data: &[u8]) -> (r: Result<DeviceInfo, String>)
    ensures
        match device_info_of(data@) {
            Ok(m) => r matches Ok(info) && info@ == m,
            Err(m) => r matches Err(e) && e@ == m,
        },
{
    let mut r = PtpReader::new(data);
    let standard_version = match r.read_u16() {
        Ok(v) => v,
        Err(e) => {
            return Err(e);
        },
    };
    let vendor_extension_id = match r.read_u32() {
        Ok(v) => v,
        Err(e) => {
            return Err(e);
        },
    };
    let vendor_extension_version = match r.read_u16() {
        Ok(v) => v,
        Err(e) => {
            return Err(e);
        },
    };
    let vendor_extension_desc = match r.read_ptp_string() {
        Ok(v) => v,
        Err(e) => {
            return Err(e);
        },
    };
    let functional_mode = match r.read_u16() {
        Ok(v) => v,
        Err(e) => {
            return Err(e);
        },
    };
    let ghost p5 = r.pos as int;
    let operations_supported = match r.read_u16_array() {
        Ok(v) => v,
        Err(e) => {
            return Err(e);
        },
    };
    let events_supported = match r.read_u16_array() {
        Ok(v) => v,
        Err(e) => {
            return Err(e);
        },
    };
    let device_properties_supported = match r.read_u16_array() {
        Ok(v) => v,
        Err(e) => {
            return Err(e);
        },
    };
    let capture_formats = match r.read_u16_array() {
        Ok(v) => v,
        Err(e) => {
            return Err(e);
        },
    };
    let image_formats = match r.read_u16_array() {
        Ok(v) => v,
        Err(e) => {
            return Err(e);
        },
    };
    let manufacturer = match r.read_ptp_string() {
        Ok(v) => v,
        Err(e) => {
            return Err(e);
        },
    };
    let model = match r.read_ptp_string() {
        Ok(v) => v,
        Err(e) => {
            return Err(e);
        },
    };
    let device_version = match r.read_ptp_string() {
        Ok(v) => v,
        Err(e) => {
            return Err(e);
        },
    };
    let serial_number = match r.read_ptp_string() {
        Ok(v) => v,
        Err(e) => {
            return Err(e);
        },
    };
    Ok(
        DeviceInfo {
            standard_version,
            vendor_extension_id,
            vendor_extension_version,
            vendor_extension_desc,
            functional_mode,
            operations_supported,
            events_supported,
            device_properties_supported,
            capture_formats,
            image_formats,
            manufacturer,
            model,
            device_version,
            serial_number,
        },
    )
}

// ---------------------------------------------------------------------------
// u32 arrays and ObjectInfo
// ---------------------------------------------------------------------------

/// A u32 array dataset: a u32 count, then the values; as many as the data
/// holds when it is shorter than the count says, none when it has no count.
pub open spec fn u32_array_of(d: Seq<u8>) -> Seq<u32> {
    if d.len() < 4 {
        seq![]
    } else {
        let count = u32_at(d, 0) as int;
        let avail = (d.len() - 4) / 4;
        let n = if count < avail {
            count
        } else {
            avail
        };
        Seq::new(n as nat, |i: int| u32_at(d, 4 + 4 * i))
    }
}

/// Parses a u32 array dataset (such as a list of object handles).
pub fn parse_u32_array(data: &[u8]) -> (r: Vec<u32>)
    ensures
        r@ == u32_array_of(data@),
{
    let mut arr: Vec<u32> = Vec::new();
    if data.len() < 4 {
        return arr;
    }
    let count = read_u32_le(data, 0) as usize;
    let avail = (data.len() - 4) / 4;
    let n = if count < avail {
        count
    } else {
        avail
    };
    let mut i: usize = 0;
    let mut off: usize = 4;
    while i < n
        invariant
            i <= n <= avail,
            avail == (data@.len() - 4) / 4,
            4 + 4 * avail <= data.len(),
            off == 4 + 4 * i,
            n as int == (if (count as int) < avail {
                count as int
            } else {
                avail as int
            }),
            count as int == u32_at(data@, 0) as int,
            data@.len() >= 4,
            arr@ == Seq::new(i as nat, |k: int| u32_at(data@, 4 + 4 * k)),
        decreases n - i,
    {
        arr.push(read_u32_le(data, off));
        i += 1;
        off += 4;
        assert(arr@ =~= Seq::new(i as nat, |k: int| u32_at(data@, 4 + 4 * k)));
    }
    arr
}

/// The ObjectInfo dataset of an upload (ISO 15740 §5.5.2): only the format,
/// the compressed size and the file name are set.
pub open spec fn object_info_bytes(format: u16, size: u32, filename: Seq<char>) -> Seq<u8> {
    le32(0) + le16(format) + le16(0) + le32(size) + le16(0) + le32(0) + le32(0) + le32(0) + le32(0)
        + le32(0) + le32(0) + le32(0) + le16(0) + le32(0) + le32(0) + ptp_string_bytes(filename)
        + seq![0u8, 0u8, 0u8]
}

/// Builds the ObjectInfo dataset for the vendor SendObjectInfo (0x900C).
pub fn build_object_info(format: u16, compressed_size: u32, filename: &str) -> (r: Vec<u8>)
    ensures
        r@ == object_info_bytes(format, compressed_size, filename@),
{
    let mut buf: Vec<u8> = Vec::new();
    push_u32_le(&mut buf, 0);
    push_u16_le(&mut buf, format);
    push_u16_le(&mut buf, 0);
    push_u32_le(&mut buf, compressed_size);
    push_u16_le(&mut buf, 0);
    push_u32_le(&mut buf, 0);
    push_u32_le(&mut buf, 0);
    push_u32_le(&mut buf, 0);
    push_u32_le(&mut buf, 0);
    push_u32_le(&mut buf, 0);
    push_u32_le(&mut buf, 0);
    push_u32_le(&mut buf, 0);
    push_u16_le(&mut buf, 0);
    push_u32_le(&mut buf, 0);
    push_u32_le(&mut buf, 0);
    encode_ptp_string(&mut buf, filename);
    buf.push(0);
    buf.push(0);
    buf.push(0);
    assert(buf@ =~= object_info_bytes(format, compressed_size, filename@));
    buf
}

// ---------------------------------------------------------------------------
// Code names
// ---------------------------------------------------------------------------

/// Name of a PTP operation code.
pub open spec fn operation_text(code: u16) -> Seq<char> {
    if code == 0x1001 {
        "GetDeviceInfo"@
    } else if code == 0x1002 {
        "OpenSession"@
    } else if code == 0x1003 {
        "CloseSession"@
    } else if code == 0x1004 {
        "GetStorageIDs"@
    } else if code == 0x1005 {
        "GetStorageInfo"@
    } else if code == 0x1006 {
        "GetNumObjects"@
    } else if code == 0x1007 {
        "GetObjectHandles"@
    } else if code == 0x1008 {
        "GetObjectInfo"@
    } else if code == 0x1009 {
        "GetObject"@
    } else if code == 0x100A {
        "GetThumb"@
    } else if code == 0x100B {
        "DeleteObject"@
    } else if code == 0x100C {
        "SendObjectInfo"@
    } else if code == 0x100D {
        "SendObject"@
    } else if code == 0x100E {
        "InitiateCapture"@
    } else if code == 0x100F {
        "FormatStore"@
    } else if code == 0x1010 {
        "ResetDevice"@
    } else if code == 0x1011 {
        "SelfTest"@
    } else if code == 0x1012 {
        "SetObjectProtection"@
    } else if code == 0x1013 {
        "PowerDown"@
    } else if code == 0x1014 {
        "GetDevicePropDesc"@
    } else if code == 0x1015 {
        "GetDevicePropValue"@
    } else if code == 0x1016 {
        "SetDevicePropValue"@
    } else if code == 0x1017 {
        "ResetDevicePropValue"@
    } else if code == 0x1018 {
        "TerminateOpenCapture"@
    } else if code == 0x101B {
        "InitiateOpenCapture"@
    } else if code == 0x900C {
        "Fuji SendObjectInfo"@
    } else if code == 0x900D {
        "Fuji SendObject"@
    } else if code == 0x901D {
        "Fuji WriteFile"@
    } else if code == 0x9805 {
        "Fuji Hijack (debug)"@
    } else if code >= 0x9000 {
        "Vendor Operation"@
    } else {
        "(unknown)"@
    }
}

/// Human-readable name of a PTP operation code.
pub fn operation_name(code: u16) -> (r: &'static str)
    ensures
        r@ == operation_text(code),
{
    match code {
        0x1001 => "GetDeviceInfo",
        0x1002 => "OpenSession",
        0x1003 => "CloseSession",
        0x1004 => "GetStorageIDs",
        0x1005 => "GetStorageInfo",
        0x1006 => "GetNumObjects",
        0x1007 => "GetObjectHandles",
        0x1008 => "GetObjectInfo",
        0x1009 => "GetObject",
        0x100A => "GetThumb",
        0x100B => "DeleteObject",
        0x100C => "SendObjectInfo",
        0x100D => "SendObject",
        0x100E => "InitiateCapture",
        0x100F => "FormatStore",
        0x1010 => "ResetDevice",
        0x1011 => "SelfTest",
        0x1012 => "SetObjectProtection",
        0x1013 => "PowerDown",
        0x1014 => "GetDevicePropDesc",
        0x1015 => "GetDevicePropValue",
        0x1016 => "SetDevicePropValue",
        0x1017 => "ResetDevicePropValue",
        0x1018 => "TerminateOpenCapture",
        0x101B => "InitiateOpenCapture",
        0x900C => "Fuji SendObjectInfo",
        0x900D => "Fuji SendObject",
        0x901D => "Fuji WriteFile",
        0x9805 => "Fuji Hijack (debug)",
        _ => if code >= 0x9000 {
            "Vendor Operation"
        } else {
            "(unknown)"
        },
    }
}

/// Name of a PTP response code code.
pub open spec fn response_text(code: u16) -> Seq<char> {
    if code == 0x2001 {
        "OK"@
    } else if code == 0x2002 {
        "General Error"@
    } else if code == 0x2003 {
        "Session Not Open"@
    } else if code == 0x2004 {
        "Invalid TransactionID"@
    } else if code == 0x2005 {
        "Operation Not Supported"@
    } else if code == 0x2006 {
        "Parameter Not Supported"@
    } else if code == 0x2007 {
        "Incomplete Transfer"@
    } else if code == 0x2008 {
        "Invalid StorageID"@
    } else if code == 0x2009 {
        "Invalid ObjectHandle"@
    } else if code == 0x200A {
        "DeviceProp Not Supported"@
    } else if code == 0x200B {
        "Invalid ObjectFormatCode"@
    } else if code == 0x200C {
        "Store Full"@
    } else if code == 0x200D {
        "Object Write Protected"@
    } else if code == 0x200E {
        "Store Read-Only"@
    } else if code == 0x200F {
        "Access Denied"@
    } else if code == 0x2010 {
        "No Thumbnail Present"@
    } else if code == 0x2011 {
        "SelfTest Failed"@
    } else if code == 0x2012 {
        "Partial Deletion"@
    } else if code == 0x2013 {
        "Store Not Available"@
    } else if code == 0x2014 {
        "Specification By Format Unsupported"@
    } else if code == 0x2015 {
        "No Valid ObjectInfo"@
    } else if code == 0x2019 {
        "Device Busy"@
    } else if code == 0x201A {
        "Invalid DeviceProp Format"@
    } else if code == 0x201C {
        "Invalid DeviceProp Value"@
    } else if code == 0x201E {
        "Session Already Open"@
    } else if code >= 0xA000 {
        "Vendor Response"@
    } else {
        "(unknown response)"@
    }
}

/// Human-readable name of a PTP response code code.
pub fn response_name(code: u16) -> (r: &'static str)
    ensures
        r@ == response_text(code),
{
    match code {
        0x2001 => "OK",
        0x2002 => "General Error",
        0x2003 => "Session Not Open",
        0x2004 => "Invalid TransactionID",
        0x2005 => "Operation Not Supported",
        0x2006 => "Parameter Not Supported",
        0x2007 => "Incomplete Transfer",
        0x2008 => "Invalid StorageID",
        0x2009 => "Invalid ObjectHandle",
        0x200A => "DeviceProp Not Supported",
        0x200B => "Invalid ObjectFormatCode",
        0x200C => "Store Full",
        0x200D => "Object Write Protected",
        0x200E => "Store Read-Only",
        0x200F => "Access Denied",
        0x2010 => "No Thumbnail Present",
        0x2011 => "SelfTest Failed",
        0x2012 => "Partial Deletion",
        0x2013 => "Store Not Available",
        0x2014 => "Specification By Format Unsupported",
        0x2015 => "No Valid ObjectInfo",
        0x2019 => "Device Busy",
        0x201A => "Invalid DeviceProp Format",
        0x201C => "Invalid DeviceProp Value",
        0x201E => "Session Already Open",
        _ => if code >= 0xA000 {
            "Vendor Response"
        } else {
            "(unknown response)"
        },
    }
}

/// Name of a device property code.
pub open spec fn property_text(code: u16) -> Seq<char> {
    if code == 0x5001 {
        "BatteryLevel"@
    } else if code == 0x5003 {
        "ImageSize"@
    } else if code == 0x5004 {
        "CompressionSetting"@
    } else if code == 0x5005 {
        "WhiteBalance"@
    } else if code == 0x5007 {
        "FNumber"@
    } else if code == 0x5008 {
        "FocalLength"@
    } else if code == 0x5009 {
        "FocusDistance"@
    } else if code == 0x500A {
        "FocusMode"@
    } else if code == 0x500B {
        "ExposureMeteringMode"@
    } else if code == 0x500C {
        "FlashMode"@
    } else if code == 0x500D {
        "ExposureTime"@
    } else if code == 0x500E {
        "ExposureProgramMode"@
    } else if code == 0x500F {
        "ExposureIndex (ISO)"@
    } else if code == 0x5010 {
        "ExposureBiasCompensation"@
    } else if code == 0x5011 {
        "DateTime"@
    } else if code == 0x5012 {
        "CaptureDelay"@
    } else if code == 0x5013 {
        "StillCaptureMode"@
    } else if code == 0xD100 {
        "Fuji FilmSimulation"@
    } else if code == 0xD101 {
        "Fuji FilmSimulationTune"@
    } else if code == 0xD102 {
        "Fuji DRangeMode"@
    } else if code == 0xD103 {
        "Fuji ColorMode"@
    } else if code == 0xD104 {
        "Fuji ColorSpace"@
    } else if code == 0xD105 {
        "Fuji WhiteBalanceFineTune"@
    } else if code == 0xD106 {
        "Fuji NoiseReduction"@
    } else if code == 0xD108 {
        "Fuji HighISONoiseReduction"@
    } else if code == 0xD10A {
        "Fuji ColorChromeEffect"@
    } else if code == 0xD10B {
        "Fuji ColorChromeFXBlue"@
    } else if code == 0xD153 {
        "Fuji ShadowTone"@
    } else if code == 0xD154 {
        "Fuji HighlightTone"@
    } else if code == 0xD155 {
        "Fuji Sharpness"@
    } else if code == 0xD16E {
        "Fuji USBMode"@
    } else if code == 0xD171 {
        "Fuji ExposureCompensation"@
    } else if code == 0xD173 {
        "Fuji RecMode"@
    } else if code == 0xD174 {
        "Fuji CommandDialMode"@
    } else if code == 0xD183 {
        "Fuji StartRawConversion"@
    } else if code == 0xD185 {
        "Fuji RawConvProfile"@
    } else if code == 0xD200 {
        "Fuji FocusMeteringMode"@
    } else if code == 0xD208 {
        "Fuji FocusPoint"@
    } else if code == 0xD20E {
        "Fuji SelfTimer"@
    } else if code == 0xD210 {
        "Fuji FlashMode"@
    } else if code == 0xD211 {
        "Fuji FlashCompensation"@
    } else if code == 0xD212 {
        "Fuji FlashSyncMode"@
    } else if code == 0xD218 {
        "Fuji CropMode"@
    } else if code == 0xD219 {
        "Fuji GrainEffect"@
    } else if code == 0xD21C {
        "Fuji USBMode2"@
    } else if code == 0xD310 {
        "Fuji ShutterType"@
    } else if code == 0xD34D {
        "Fuji RawDevelopMode"@
    } else if code == 0xD36A {
        "Fuji RawConvVersion"@
    } else if code == 0xD36B {
        "Fuji RawConvParam"@
    } else if code >= 0xD000 {
        "Fuji Vendor Property"@
    } else {
        "(unknown property)"@
    }
}

/// Human-readable name of a device property code.
pub fn property_name(code: u16) -> (r: &'static str)
    ensures
        r@ == property_text(code),
{
    match code {
        0x5001 => "BatteryLevel",
        0x5003 => "ImageSize",
        0x5004 => "CompressionSetting",
        0x5005 => "WhiteBalance",
        0x5007 => "FNumber",
        0x5008 => "FocalLength",
        0x5009 => "FocusDistance",
        0x500A => "FocusMode",
        0x500B => "ExposureMeteringMode",
        0x500C => "FlashMode",
        0x500D => "ExposureTime",
        0x500E => "ExposureProgramMode",
        0x500F => "ExposureIndex (ISO)",
        0x5010 => "ExposureBiasCompensation",
        0x5011 => "DateTime",
        0x5012 => "CaptureDelay",
        0x5013 => "StillCaptureMode",
        0xD100 => "Fuji FilmSimulation",
        0xD101 => "Fuji FilmSimulationTune",
        0xD102 => "Fuji DRangeMode",
        0xD103 => "Fuji ColorMode",
        0xD104 => "Fuji ColorSpace",
        0xD105 => "Fuji WhiteBalanceFineTune",
        0xD106 => "Fuji NoiseReduction",
        0xD108 => "Fuji HighISONoiseReduction",
        0xD10A => "Fuji ColorChromeEffect",
        0xD10B => "Fuji ColorChromeFXBlue",
        0xD153 => "Fuji ShadowTone",
        0xD154 => "Fuji HighlightTone",
        0xD155 => "Fuji Sharpness",
        0xD16E => "Fuji USBMode",
        0xD171 => "Fuji ExposureCompensation",
        0xD173 => "Fuji RecMode",
        0xD174 => "Fuji CommandDialMode",
        0xD183 => "Fuji StartRawConversion",
        0xD185 => "Fuji RawConvProfile",
        0xD200 => "Fuji FocusMeteringMode",
        0xD208 => "Fuji FocusPoint",
        0xD20E => "Fuji SelfTimer",
        0xD210 => "Fuji FlashMode",
        0xD211 => "Fuji FlashCompensation",
        0xD212 => "Fuji FlashSyncMode",
        0xD218 => "Fuji CropMode",
        0xD219 => "Fuji GrainEffect",
        0xD21C => "Fuji USBMode2",
        0xD310 => "Fuji ShutterType",
        0xD34D => "Fuji RawDevelopMode",
        0xD36A => "Fuji RawConvVersion",
        0xD36B => "Fuji RawConvParam",
        _ => if code >= 0xD000 {
            "Fuji Vendor Property"
        } else {
            "(unknown property)"
        },
    }
}

/// Name of a object format code.
pub open spec fn format_text(code: u16) -> Seq<char> {
    if code == 0x3000 {
        "Undefined"@
    } else if code == 0x3001 {
        "Association (folder)"@
    } else if code == 0x3002 {
        "Script"@
    } else if code == 0x3006 {
        "DPOF"@
    } else if code == 0x3008 {
        "WAV"@
    } else if code == 0x3009 {
        "MP3"@
    } else if code == 0x3801 {
        "EXIF/JPEG"@
    } else if code == 0x3802 {
        "TIFF/EP"@
    } else if code == 0x3804 {
        "BMP"@
    } else if code == 0x3807 {
        "GIF"@
    } else if code == 0x3808 {
        "JFIF"@
    } else if code == 0x380B {
        "PNG"@
    } else if code == 0x380D {
        "TIFF"@
    } else if code == 0xB101 {
        "WMV"@
    } else if code == 0xB103 {
        "Fuji RAF"@
    } else if code == 0xB982 {
        "MP4"@
    } else if code == 0xF802 {
        "Fuji RAW Upload (vendor)"@
    } else if code >= 0xB000 {
        "Vendor Format"@
    } else {
        "(unknown format)"@
    }
}

/// Human-readable name of a object format code.
pub fn format_name(code: u16) -> (r: &'static str)
    ensures
        r@ == format_text(code),
{
    match code {
        0x3000 => "Undefined",
        0x3001 => "Association (folder)",
        0x3002 => "Script",
        0x3006 => "DPOF",
        0x3008 => "WAV",
        0x3009 => "MP3",
        0x3801 => "EXIF/JPEG",
        0x3802 => "TIFF/EP",
        0x3804 => "BMP",
        0x3807 => "GIF",
        0x3808 => "JFIF",
        0x380B => "PNG",
        0x380D => "TIFF",
        0xB101 => "WMV",
        0xB103 => "Fuji RAF",
        0xB982 => "MP4",
        0xF802 => "Fuji RAW Upload (vendor)",
        _ => if code >= 0xB000 {
            "Vendor Format"
        } else {
            "(unknown format)"
        },
    }
}

} // verus!
