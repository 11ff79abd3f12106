//! The fixed 80-byte header that precedes the signed payload of a rules
//! database, and the framing of a complete database file.
use vstd::prelude::*;
use vstd::slice::slice_subrange;
use crate::error::ConfigError;

verus! {

/// Length of the Ed25519 signature at the start of the file.
pub const SIGNATURE_LEN: usize = 64;

/// Length of the whole header: signature, version, timestamp, payload length.
pub const HEADER_LEN: usize = 80;

/// Little-endian value of the four bytes of `s` starting at `at`.
pub open spec fn le_u32_at(s: Seq<u8>, at: int) -> int {
    s[at] + 256 * s[at + 1] + 65536 * s[at + 2] + 16777216 * s[at + 3]
}

/// Little-endian value of the eight bytes of `s` starting at `at`.
pub open spec fn le_u64_at(s: Seq<u8>, at: int) -> int {
    le_u32_at(s, at) + 4294967296 * le_u32_at(s, at + 4)
}

/// Little-endian encoding of `v` in four bytes.
pub open spec fn le_u32_bytes(v: u32) -> Seq<u8> {
    seq![
        (v % 256) as u8,
        ((v / 256) % 256) as u8,
        ((v / 65536) % 256) as u8,
        ((v / 16777216) % 256) as u8,
    ]
}

/// Little-endian encoding of `v` in eight bytes.
pub open spec fn le_u64_bytes(v: u64) -> Seq<u8> {
    le_u32_bytes((v % 4294967296) as u32) + le_u32_bytes((v / 4294967296) as u32)
}

/// The header fields as mathematical values.
pub ghost struct HeaderView {
    pub signature: Seq<u8>,
    pub version: u32,
    pub epoch_timestamp: u64,
    pub payload_len: u32,
}

/// The decoded header of a rules database.
#[derive(Debug, Clone, Copy)]
pub struct DatabaseHeader {
    /// Ed25519 signature over the payload.
    pub signature: [u8; 64],
    /// Database version.
    pub version: u32,
    /// Release time of the database, in seconds since the Unix epoch.
    pub epoch_timestamp: u64,
    /// Number of payload bytes that follow the header.
    pub payload_len: u32,
}

impl View for DatabaseHeader {
    type V = HeaderView;

    open spec fn view(&self) -> HeaderView {
        HeaderView {
            signature: self.signature@,
            version: self.version,
            epoch_timestamp: self.epoch_timestamp,
            payload_len: self.payload_len,
        }
    }
}

/// What the header of the file `buf` says, or why the file is refused:
/// a file shorter than the header is too small, and a file shorter than
/// the header plus the announced payload length is truncated.
pub open spec fn database_header(buf: Seq<u8>) -> Result<HeaderView, ConfigError> {
    if buf.len() < HEADER_LEN {
        Err(ConfigError::FileTooSmall)
    } else if buf.len() < HEADER_LEN + le_u32_at(buf, 76) {
        Err(ConfigError::PayloadTruncated)
    } else {
        Ok(
            HeaderView {
                signature: buf.subrange(0, 64),
                version: le_u32_at(buf, 64) as u32,
                epoch_timestamp: le_u64_at(buf, 68) as u64,
                payload_len: le_u32_at(buf, 76) as u32,
            },
        )
    }
}

/// The signed payload of the file `buf` whose header announces `len` bytes.
pub open spec fn payload_bytes(buf: Seq<u8>, len: u32) -> Seq<u8> {
    buf.subrange(HEADER_LEN as int, HEADER_LEN + len)
}

/// The bytes of a database file made of `signature`, `version`,
/// `epoch_timestamp` and `payload`; the length field holds the payload
/// length truncated to 32 bits.
pub open spec fn database_bytes(
    signature: Seq<u8>,
    version: u32,
    epoch_timestamp: u64,
    payload: Seq<u8>,
) -> Seq<u8> {
    signature + le_u32_bytes(version) + le_u64_bytes(epoch_timestamp) + le_u32_bytes(
        (payload.len() % 4294967296) as u32,
    ) + payload
}

fn read_u32_le(buf: &[u8], at: usize) -> (r: u32)
    requires
        at + 4 <= buf@.len(),
    ensures
        r == le_u32_at(buf@, at as int),
{
    let b0 = buf[at] as u32;
    let b1 = buf[at + 1] as u32;
    let b2 = buf[at + 2] as u32;
    let b3 = buf[at + 3] as u32;
    b0 + b1 * 256 + b2 * 65536 + b3 * 16777216
}

fn read_u64_le(buf: &[u8], at: usize) -> (r: u64)
    requires
        at + 8 <= buf@.len(),
    ensures
        r == le_u64_at(buf@, at as int),
{
    let _len = buf.len();
    let lo = read_u32_le(buf, at) as u64;
    let hi = read_u32_le(buf, at + 4) as u64;
    lo + hi * 4294967296
}

/// Decodes the header of the database file `buffer`, checking that the
/// announced payload fits in the file.
pub fn parse_header(buffer: &[u8]) -> (r: Result<DatabaseHeader, ConfigError>)
    ensures
        match r {
            Ok(h) => database_header(buffer@) == Ok::<HeaderView, ConfigError>(h@),
            Err(e) => database_header(buffer@) == Err::<HeaderView, ConfigError>(e),
        },
{
    let len = buffer.len();
    if len < HEADER_LEN {
        return Err(ConfigError::FileTooSmall);
    }
    let payload_len = read_u32_le(buffer, 76);
    if len - HEADER_LEN < payload_len as usize {
        return Err(ConfigError::PayloadTruncated);
    }
    let mut signature = [0u8; 64];
    let mut i: usize = 0;
    while i < SIGNATURE_LEN
        invariant
            i <= SIGNATURE_LEN,
            len == buffer@.len(),
            len >= HEADER_LEN,
            forall|j: int| 0 <= j < i ==> signature@[j] == buffer@[j],
        decreases SIGNATURE_LEN - i,
    {
        signature[i] = buffer[i];
        i = i + 1;
    }
    let version = read_u32_le(buffer, 64);
    let epoch_timestamp = read_u64_le(buffer, 68);
    let header = DatabaseHeader { signature, version, epoch_timestamp, payload_len };
    assert(header@.signature =~= buffer@.subrange(0, 64));
    Ok(header)
}

/// The payload bytes that follow a header whose payload fits in `buffer`.
pub fn payload_of<'a>(buffer: &'a [u8], header: &DatabaseHeader) -> (r: &'a [u8])
    requires
        database_header(buffer@) == Ok::<HeaderView, ConfigError>(header@),
    ensures
        r@ == payload_bytes(buffer@, header.payload_len),
{
    let _len = buffer.len();
    slice_subrange(buffer, HEADER_LEN, HEADER_LEN + header.payload_len as usize)
}

fn push_u32_le(out: &mut Vec<u8>, v: u32)
    ensures
        final(out)@ == old(out)@ + le_u32_bytes(v),
{
    out.push((v % 256) as u8);
    out.push(((v / 256) % 256) as u8);
    out.push(((v / 65536) % 256) as u8);
    out.push(((v / 16777216) % 256) as u8);
    assert(final(out)@ =~= old(out)@ + le_u32_bytes(v));
}

fn push_bytes(out: &mut Vec<u8>, bytes: &[u8])
    ensures
        final(out)@ == old(out)@ + bytes@,
{
    let n = bytes.len();
    let mut i: usize = 0;
    while i < n
        invariant
            n == bytes@.len(),
            i <= n,
            out@ == old(out)@ + bytes@.subrange(0, i as int),
        decreases n - i,
    {
        out.push(bytes[i]);
        assert(bytes@.subrange(0, i + 1) =~= bytes@.subrange(0, i as int).push(bytes@[i as int]));
        i = i + 1;
    }
    assert(bytes@.subrange(0, n as int) =~= bytes@);
}

/// Frames a signed payload as a database file: the signature, the version,
/// the release time and the payload length (all little-endian), then the
/// payload itself.
pub fn encode_database(
    signature: &[u8; 64],
    version: u32,
    epoch_timestamp: u64,
    payload: &[u8],
) -> (r: Vec<u8>)
    ensures
        r@ == database_bytes(signature@, version, epoch_timestamp, payload@),
{
    let mut out: Vec<u8> = Vec::new();
    push_bytes(&mut out, signature.as_slice());
    push_u32_le(&mut out, version);
    push_u32_le(&mut out, (epoch_timestamp % 4294967296) as u32);
    push_u32_le(&mut out, (epoch_timestamp / 4294967296) as u32);
    let n = payload.len();
    push_u32_le(&mut out, (n as u64 % 4294967296) as u32);
    push_bytes(&mut out, payload);
    assert(out@ =~= database_bytes(signature@, version, epoch_timestamp, payload@));
    out
}

proof fn lemma_le_u32_roundtrip(v: u32)
    ensures
        le_u32_at(le_u32_bytes(v), 0) == v,
{
    let b = le_u32_bytes(v);
    assert(b[0] == v % 256);
    assert(b[1] == (v / 256) % 256);
    assert(b[2] == (v / 65536) % 256);
    assert(b[3] == (v / 16777216) % 256);
    assert((v % 256) + 256 * ((v / 256) % 256) + 65536 * ((v / 65536) % 256) + 16777216 * ((v
        / 16777216) % 256) == v) by (nonlinear_arith);
}

/// Reading back the header of a framed database gives back the signature,
/// version, release time and payload length that were written, and the
/// payload that follows it; this holds for every payload whose length fits
/// in the 32-bit length field.
pub proof fn lemma_header_roundtrip(
    signature: Seq<u8>,
    version: u32,
    epoch_timestamp: u64,
    payload: Seq<u8>,
)
    requires
        signature.len() == SIGNATURE_LEN,
        payload.len() <= u32::MAX,
    ensures
        database_header(database_bytes(signature, version, epoch_timestamp, payload)) == Ok::<
            HeaderView,
            ConfigError,
        >(
            HeaderView {
                signature,
                version,
                epoch_timestamp,
                payload_len: payload.len() as u32,
            },
        ),
        payload_bytes(
            database_bytes(signature, version, epoch_timestamp, payload),
            payload.len() as u32,
        ) == payload,
{
    let buf = database_bytes(signature, version, epoch_timestamp, payload);
    let lo = (epoch_timestamp % 4294967296) as u32;
    let hi = (epoch_timestamp / 4294967296) as u32;
    let len32 = (payload.len() % 4294967296) as u32;
    assert(len32 == payload.len());
    lemma_le_u32_roundtrip(version);
    lemma_le_u32_roundtrip(lo);
    lemma_le_u32_roundtrip(hi);
    lemma_le_u32_roundtrip(len32);
    assert(buf.subrange(64, 68) =~= le_u32_bytes(version));
    assert(buf.subrange(68, 72) =~= le_u32_bytes(lo));
    assert(buf.subrange(72, 76) =~= le_u32_bytes(hi));
    assert(buf.subrange(76, 80) =~= le_u32_bytes(len32));
    assert(le_u32_at(buf, 64) == le_u32_at(buf.subrange(64, 68), 0));
    assert(le_u32_at(buf, 68) == le_u32_at(buf.subrange(68, 72), 0));
    assert(le_u32_at(buf, 72) == le_u32_at(buf.subrange(72, 76), 0));
    assert(le_u32_at(buf, 76) == le_u32_at(buf.subrange(76, 80), 0));
    assert(lo + 4294967296 * hi == epoch_timestamp);
    assert(buf.subrange(0, 64) =~= signature);
    assert(buf.len() == 80 + payload.len());
    assert(buf.subrange(80, 80 + payload.len() as int) =~= payload);
}

} // verus!
