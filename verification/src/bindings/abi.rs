//! The canonical ABI layout of the values the HTTP imports return, and
//! the checked lifting of those values out of a return area.
//!
//! A return area is a byte buffer the host fills in; strings in it are a
//! 32-bit pointer and a 32-bit length that point into the component's linear
//! memory. Integers are little-endian.
use vstd::prelude::*;
use vstd::utf8::{decode_utf8, valid_utf8};

use super::http_resources::{FutureIncomingResponse, IncomingResponse, Fields};
use super::http_types::{
    error_code_discriminant, DnsErrorPayload, ErrorCode, FieldSizePayload, TlsAlertReceivedPayload,
};
use super::rt::taken_handle;

verus! {

/// Why a return area does not hold a value of the expected type.
#[derive(Clone, Copy, Debug, PartialEq, Eq, Structural)]
pub enum LiftError {
    /// A discriminant is outside the type's cases.
    InvalidDiscriminant,
    /// The area is too short, or a string lies outside the memory.
    OutOfBounds,
    /// A string's bytes are not UTF-8.
    InvalidUtf8,
    /// A resource handle is the reserved value.
    InvalidHandle,
}

// ---------------------------------------------------------------------------
// Scalars
// ---------------------------------------------------------------------------

/// The little-endian `u16` at `off`.
pub open spec fn le16(a: Seq<u8>, off: int) -> nat {
    a[off] as nat + 256 * a[off + 1] as nat
}

/// The little-endian `u32` at `off`.
pub open spec fn le32(a: Seq<u8>, off: int) -> nat {
    le16(a, off) + 65536 * le16(a, off + 2)
}

/// The little-endian `u64` at `off`.
pub open spec fn le64(a: Seq<u8>, off: int) -> nat {
    le32(a, off) + 4294967296 * le32(a, off + 4)
}

pub(crate) fn read_u16(a: &[u8], off: usize) -> (r: u16)
    requires
        off + 2 <= a.len(),
    ensures
        r == le16(a@, off as int),
{
    (a[off] as u16) + 256 * (a[off + 1] as u16)
}

pub(crate) fn read_u32(a: &[u8], off: usize) -> (r: u32)
    requires
        off + 4 <= a.len(),
    ensures
        r == le32(a@, off as int),
{
    let lo = read_u16(a, off);
    let hi = read_u16(a, off + 2);
    (lo as u32) + 65536 * (hi as u32)
}

pub(crate) fn read_u64(a: &[u8], off: usize) -> (r: u64)
    requires
        off + 8 <= a.len(),
    ensures
        r == le64(a@, off as int),
{
    let lo = read_u32(a, off);
    let hi = read_u32(a, off + 4);
    (lo as u64) + 4294967296 * (hi as u64)
}

// ---------------------------------------------------------------------------
// Options of scalars and strings
// ---------------------------------------------------------------------------

/// `o` stored as a tag byte at `t` (0 none, 1 some) and, when present, the
/// value `v` as given by `value`.
pub open spec fn encodes_opt_nat(a: Seq<u8>, t: int, o: Option<nat>, value: nat) -> bool {
    match o {
        None => a[t] == 0,
        Some(x) => a[t] == 1 && x == value,
    }
}

/// An optional `u8`: tag at `t`, value at `v`.
pub open spec fn encodes_opt_u8(a: Seq<u8>, t: int, v: int, o: Option<u8>) -> bool {
    encodes_opt_nat(a, t, match o { None => None, Some(x) => Some(x as nat) }, a[v] as nat)
}

/// An optional `u16`: tag at `t`, value at `v`.
pub open spec fn encodes_opt_u16(a: Seq<u8>, t: int, v: int, o: Option<u16>) -> bool {
    encodes_opt_nat(a, t, match o { None => None, Some(x) => Some(x as nat) }, le16(a, v))
}

/// An optional `u32`: tag at `t`, value at `v`.
pub open spec fn encodes_opt_u32(a: Seq<u8>, t: int, v: int, o: Option<u32>) -> bool {
    encodes_opt_nat(a, t, match o { None => None, Some(x) => Some(x as nat) }, le32(a, v))
}

/// An optional `u64`: tag at `t`, value at `v`.
pub open spec fn encodes_opt_u64(a: Seq<u8>, t: int, v: int, o: Option<u64>) -> bool {
    encodes_opt_nat(a, t, match o { None => None, Some(x) => Some(x as nat) }, le64(a, v))
}

/// The `len` bytes at address `ptr`, if they lie in the memory window
/// `mem`, whose first byte is at address `base`.
pub open spec fn bytes_at(mem: Seq<u8>, base: int, ptr: int, len: int) -> Option<Seq<u8>> {
    let start = ptr - base;
    if 0 <= start && start + len <= mem.len() {
        Some(mem.subrange(start, start + len))
    } else {
        None
    }
}

/// The bytes whose address and count are stored at `p` and `p + 4`.
pub open spec fn list_at(a: Seq<u8>, p: int, mem: Seq<u8>, base: int) -> Option<Seq<u8>> {
    bytes_at(mem, base, le32(a, p) as int, le32(a, p + 4) as int)
}

/// The string whose address and length are stored at `p` and `p + 4`, if
/// its bytes lie in the memory window and are UTF-8.
pub open spec fn string_at(a: Seq<u8>, p: int, mem: Seq<u8>, base: int) -> Option<Seq<char>> {
    match list_at(a, p, mem, base) {
        Some(bytes) => if valid_utf8(bytes) {
            Some(decode_utf8(bytes))
        } else {
            None
        },
        None => None,
    }
}

/// An optional string: tag at `t`, pointer and length at `p`.
pub open spec fn encodes_opt_string(a: Seq<u8>, t: int, p: int, mem: Seq<u8>, base: int, o: Option<String>) -> bool {
    match o {
        None => a[t] == 0,
        Some(s) => a[t] == 1 && string_at(a, p, mem, base) == Some(s@),
    }
}

/// The area holds some optional string at `t`/`p`.
pub open spec fn opt_string_ok(a: Seq<u8>, t: int, p: int, mem: Seq<u8>, base: int) -> bool {
    a[t] == 0 || (a[t] == 1 && string_at(a, p, mem, base) is Some)
}

/// A field-size payload starting at `q`: the optional name (tag `q`, string
/// at `q + 4`) and the optional size (tag `q + 12`, value at `q + 16`).
pub open spec fn encodes_field_size(a: Seq<u8>, q: int, mem: Seq<u8>, base: int, f: FieldSizePayload) -> bool {
    encodes_opt_string(a, q, q + 4, mem, base, f.field_name) && encodes_opt_u32(a, q + 12, q + 16, f.field_size)
}

/// The area holds some field-size payload at `q`.
pub open spec fn field_size_ok(a: Seq<u8>, q: int, mem: Seq<u8>, base: int) -> bool {
    opt_string_ok(a, q, q + 4, mem, base) && a[q + 12] <= 1
}

/// An optional field-size payload: tag at `t`, payload at `t + 4`.
pub open spec fn encodes_opt_field_size(a: Seq<u8>, t: int, mem: Seq<u8>, base: int, o: Option<FieldSizePayload>) -> bool {
    match o {
        None => a[t] == 0,
        Some(f) => a[t] == 1 && encodes_field_size(a, t + 4, mem, base, f),
    }
}

// ---------------------------------------------------------------------------
// Why a value cannot be lifted
// ---------------------------------------------------------------------------

/// The first of two checks that fails.
pub open spec fn first_fault(a: Option<LiftError>, b: Option<LiftError>) -> Option<LiftError> {
    if a is Some {
        a
    } else {
        b
    }
}

/// A tag byte at `t` that is neither 0 nor 1.
pub open spec fn tag_fault(a: Seq<u8>, t: int) -> Option<LiftError> {
    if a[t] <= 1 {
        None
    } else {
        Some(LiftError::InvalidDiscriminant)
    }
}

/// The bytes stored at `p` lie outside the memory window.
pub open spec fn list_fault(a: Seq<u8>, p: int, mem: Seq<u8>, base: int) -> Option<LiftError> {
    if list_at(a, p, mem, base) is Some {
        None
    } else {
        Some(LiftError::OutOfBounds)
    }
}

/// The string stored at `p` lies outside the window or is not UTF-8.
pub open spec fn string_fault(a: Seq<u8>, p: int, mem: Seq<u8>, base: int) -> Option<LiftError> {
    match list_at(a, p, mem, base) {
        None => Some(LiftError::OutOfBounds),
        Some(bytes) => if valid_utf8(bytes) {
            None
        } else {
            Some(LiftError::InvalidUtf8)
        },
    }
}

/// Why the optional string with tag `t` and string `p` cannot be lifted.
pub open spec fn opt_string_fault(a: Seq<u8>, t: int, p: int, mem: Seq<u8>, base: int) -> Option<LiftError> {
    if a[t] == 0 {
        None
    } else if a[t] == 1 {
        string_fault(a, p, mem, base)
    } else {
        Some(LiftError::InvalidDiscriminant)
    }
}

/// Why the field-size payload at `q` cannot be lifted.
pub open spec fn field_size_fault(a: Seq<u8>, q: int, mem: Seq<u8>, base: int) -> Option<LiftError> {
    first_fault(opt_string_fault(a, q, q + 4, mem, base), tag_fault(a, q + 12))
}

/// Why the optional field-size payload with tag `t` cannot be lifted.
pub open spec fn opt_field_size_fault(a: Seq<u8>, t: int, mem: Seq<u8>, base: int) -> Option<LiftError> {
    if a[t] == 0 {
        None
    } else if a[t] == 1 {
        field_size_fault(a, t + 4, mem, base)
    } else {
        Some(LiftError::InvalidDiscriminant)
    }
}

/// `String::from_utf8`: the string whose UTF-8 encoding is `bytes`, if they
/// are UTF-8.
#[verifier::external_body]
fn string_from_utf8(bytes: Vec<u8>) -> (r: Option<String>)
    ensures
        r is Some <==> valid_utf8(bytes@),
        r matches Some(s) ==> s@ == decode_utf8(bytes@),
{
    String::from_utf8(bytes).ok()
}

/// Copies out the bytes whose address and count are stored at `p`.
pub(crate) fn lift_bytes(area: &[u8], p: usize, mem: &[u8], base: usize) -> (r: Result<Vec<u8>, LiftError>)
    requires
        p + 8 <= area.len(),
    ensures
        r is Ok <==> list_at(area@, p as int, mem@, base as int) is Some,
        r matches Ok(v) ==> list_at(area@, p as int, mem@, base as int) == Some(v@),
        r matches Err(e) ==> e == LiftError::OutOfBounds,
{
    let ptr = read_u32(area, p) as usize;
    let len = read_u32(area, p + 4) as usize;
    if ptr < base || ptr - base > mem.len() || len > mem.len() - (ptr - base) {
        return Err(LiftError::OutOfBounds);
    }
    let start = ptr - base;
    let mut bytes: Vec<u8> = Vec::new();
    let mut i: usize = 0;
    while i < len
        invariant
            i <= len,
            start + len <= mem.len(),
            bytes@ == mem@.subrange(start as int, start + i),
        decreases len - i,
    {
        bytes.push(mem[start + i]);
        i = i + 1;
        assert(bytes@ =~= mem@.subrange(start as int, start + i));
    }
    Ok(bytes)
}

/// Copies out the string whose address and length are stored at `p`.
pub(crate) fn lift_string(area: &[u8], p: usize, mem: &[u8], base: usize) -> (r: Result<String, LiftError>)
    requires
        p + 8 <= area.len(),
    ensures
        r is Ok <==> string_at(area@, p as int, mem@, base as int) is Some,
        r matches Ok(s) ==> string_at(area@, p as int, mem@, base as int) == Some(s@),
        r matches Err(e) ==> string_fault(area@, p as int, mem@, base as int) == Some(e),
{
    let bytes = lift_bytes(area, p, mem, base)?;
    match string_from_utf8(bytes) {
        Some(s) => Ok(s),
        None => Err(LiftError::InvalidUtf8),
    }
}

pub(crate) fn lift_opt_string(area: &[u8], t: usize, p: usize, mem: &[u8], base: usize) -> (r: Result<Option<String>, LiftError>)
    requires
        t < area.len(),
        p + 8 <= area.len(),
    ensures
        r is Ok <==> opt_string_ok(area@, t as int, p as int, mem@, base as int),
        r matches Ok(o) ==> encodes_opt_string(area@, t as int, p as int, mem@, base as int, o),
        r matches Err(e) ==> opt_string_fault(area@, t as int, p as int, mem@, base as int) == Some(e),
{
    match area[t] {
        0 => Ok(None),
        1 => Ok(Some(lift_string(area, p, mem, base)?)),
        _ => Err(LiftError::InvalidDiscriminant),
    }
}

pub(crate) fn lift_opt_u8(area: &[u8], t: usize, v: usize) -> (r: Result<Option<u8>, LiftError>)
    requires
        t < area.len(),
        v < area.len(),
    ensures
        r is Ok <==> area@[t as int] <= 1,
        r matches Ok(o) ==> encodes_opt_u8(area@, t as int, v as int, o),
        r matches Err(e) ==> e == LiftError::InvalidDiscriminant,
{
    match area[t] {
        0 => Ok(None),
        1 => Ok(Some(area[v])),
        _ => Err(LiftError::InvalidDiscriminant),
    }
}

pub(crate) fn lift_opt_u16(area: &[u8], t: usize, v: usize) -> (r: Result<Option<u16>, LiftError>)
    requires
        t < area.len(),
        v + 2 <= area.len(),
    ensures
        r is Ok <==> area@[t as int] <= 1,
        r matches Ok(o) ==> encodes_opt_u16(area@, t as int, v as int, o),
        r matches Err(e) ==> e == LiftError::InvalidDiscriminant,
{
    match area[t] {
        0 => Ok(None),
        1 => Ok(Some(read_u16(area, v))),
        _ => Err(LiftError::InvalidDiscriminant),
    }
}

pub(crate) fn lift_opt_u32(area: &[u8], t: usize, v: usize) -> (r: Result<Option<u32>, LiftError>)
    requires
        t < area.len(),
        v + 4 <= area.len(),
    ensures
        r is Ok <==> area@[t as int] <= 1,
        r matches Ok(o) ==> encodes_opt_u32(area@, t as int, v as int, o),
        r matches Err(e) ==> e == LiftError::InvalidDiscriminant,
{
    match area[t] {
        0 => Ok(None),
        1 => Ok(Some(read_u32(area, v))),
        _ => Err(LiftError::InvalidDiscriminant),
    }
}

pub(crate) fn lift_opt_u64(area: &[u8], t: usize, v: usize) -> (r: Result<Option<u64>, LiftError>)
    requires
        t < area.len(),
        v + 8 <= area.len(),
    ensures
        r is Ok <==> area@[t as int] <= 1,
        r matches Ok(o) ==> encodes_opt_u64(area@, t as int, v as int, o),
        r matches Err(e) ==> e == LiftError::InvalidDiscriminant,
{
    match area[t] {
        0 => Ok(None),
        1 => Ok(Some(read_u64(area, v))),
        _ => Err(LiftError::InvalidDiscriminant),
    }
}

pub(crate) fn lift_field_size(area: &[u8], q: usize, mem: &[u8], base: usize) -> (r: Result<FieldSizePayload, LiftError>)
    requires
        q + 20 <= area.len(),
    ensures
        r is Ok <==> field_size_ok(area@, q as int, mem@, base as int),
        r matches Ok(f) ==> encodes_field_size(area@, q as int, mem@, base as int, f),
        r matches Err(e) ==> field_size_fault(area@, q as int, mem@, base as int) == Some(e),
{
    let field_name = lift_opt_string(area, q, q + 4, mem, base)?;
    let field_size = lift_opt_u32(area, q + 12, q + 16)?;
    Ok(FieldSizePayload { field_name, field_size })
}

pub(crate) fn lift_opt_field_size(area: &[u8], t: usize, mem: &[u8], base: usize) -> (r: Result<Option<FieldSizePayload>, LiftError>)
    requires
        t + 24 <= area.len(),
    ensures
        r is Ok <==> (area@[t as int] == 0 || (area@[t as int] == 1 && field_size_ok(area@, t + 4, mem@, base as int))),
        r matches Ok(o) ==> encodes_opt_field_size(area@, t as int, mem@, base as int, o),
        r matches Err(e) ==> opt_field_size_fault(area@, t as int, mem@, base as int) == Some(e),
{
    match area[t] {
        0 => Ok(None),
        1 => Ok(Some(lift_field_size(area, t + 4, mem, base)?)),
        _ => Err(LiftError::InvalidDiscriminant),
    }
}

// ---------------------------------------------------------------------------
// Error codes
// ---------------------------------------------------------------------------

/// The error code `e` stored in the 32 bytes at `b`: its discriminant byte,
/// and from `b + 8` its payload.
pub open spec fn encodes_error_code(area: Seq<u8>, b: int, mem: Seq<u8>, base: int, e: ErrorCode) -> bool {
    &&& 0 <= b
    &&& b + 32 <= area.len()
    &&& area[b] == error_code_discriminant(&e)
    &&& match e {
        ErrorCode::DnsTimeout => true,
        ErrorCode::DnsError(p) => encodes_opt_string(area, b + 8, b + 12, mem, base, p.rcode) && encodes_opt_u16(area, b + 20, b + 22, p.info_code),
        ErrorCode::DestinationNotFound => true,
        ErrorCode::DestinationUnavailable => true,
        ErrorCode::DestinationIpProhibited => true,
        ErrorCode::DestinationIpUnroutable => true,
        ErrorCode::ConnectionRefused => true,
        ErrorCode::ConnectionTerminated => true,
        ErrorCode::ConnectionTimeout => true,
        ErrorCode::ConnectionReadTimeout => true,
        ErrorCode::ConnectionWriteTimeout => true,
        ErrorCode::ConnectionLimitReached => true,
        ErrorCode::TlsProtocolError => true,
        ErrorCode::TlsCertificateError => true,
        ErrorCode::TlsAlertReceived(p) => encodes_opt_u8(area, b + 8, b + 9, p.alert_id) && encodes_opt_string(area, b + 12, b + 16, mem, base, p.alert_message),
        ErrorCode::HttpRequestDenied => true,
        ErrorCode::HttpRequestLengthRequired => true,
        ErrorCode::HttpRequestBodySize(p) => encodes_opt_u64(area, b + 8, b + 16, p),
        ErrorCode::HttpRequestMethodInvalid => true,
        ErrorCode::HttpRequestUriInvalid => true,
        ErrorCode::HttpRequestUriTooLong => true,
        ErrorCode::HttpRequestHeaderSectionSize(p) => encodes_opt_u32(area, b + 8, b + 12, p),
        ErrorCode::HttpRequestHeaderSize(p) => encodes_opt_field_size(area, b + 8, mem, base, p),
        ErrorCode::HttpRequestTrailerSectionSize(p) => encodes_opt_u32(area, b + 8, b + 12, p),
        ErrorCode::HttpRequestTrailerSize(p) => encodes_field_size(area, b + 8, mem, base, p),
        ErrorCode::HttpResponseIncomplete => true,
        ErrorCode::HttpResponseHeaderSectionSize(p) => encodes_opt_u32(area, b + 8, b + 12, p),
        ErrorCode::HttpResponseHeaderSize(p) => encodes_field_size(area, b + 8, mem, base, p),
        ErrorCode::HttpResponseBodySize(p) => encodes_opt_u64(area, b + 8, b + 16, p),
        ErrorCode::HttpResponseTrailerSectionSize(p) => encodes_opt_u32(area, b + 8, b + 12, p),
        ErrorCode::HttpResponseTrailerSize(p) => encodes_field_size(area, b + 8, mem, base, p),
        ErrorCode::HttpResponseTransferCoding(p) => encodes_opt_string(area, b + 8, b + 12, mem, base, p),
        ErrorCode::HttpResponseContentCoding(p) => encodes_opt_string(area, b + 8, b + 12, mem, base, p),
        ErrorCode::HttpResponseTimeout => true,
        ErrorCode::HttpUpgradeFailed => true,
        ErrorCode::HttpProtocolError => true,
        ErrorCode::LoopDetected => true,
        ErrorCode::ConfigurationError => true,
        ErrorCode::InternalError(p) => encodes_opt_string(area, b + 8, b + 12, mem, base, p),
    }
}

/// The 32 bytes at `b` hold some error code.
pub open spec fn error_code_ok(area: Seq<u8>, b: int, mem: Seq<u8>, base: int) -> bool {
    let d = area[b];
    &&& 0 <= b
    &&& b + 32 <= area.len()
    &&& d < 39
    &&& d == 1 ==> (opt_string_ok(area, b + 8, b + 12, mem, base) && area[b + 20] <= 1)
    &&& d == 14 ==> (area[b + 8] <= 1 && opt_string_ok(area, b + 12, b + 16, mem, base))
    &&& d == 17 ==> (area[b + 8] <= 1)
    &&& d == 21 ==> (area[b + 8] <= 1)
    &&& d == 22 ==> (area[b + 8] == 0 || (area[b + 8] == 1 && field_size_ok(area, b + 12, mem, base)))
    &&& d == 23 ==> (area[b + 8] <= 1)
    &&& d == 24 ==> (field_size_ok(area, b + 8, mem, base))
    &&& d == 26 ==> (area[b + 8] <= 1)
    &&& d == 27 ==> (field_size_ok(area, b + 8, mem, base))
    &&& d == 28 ==> (area[b + 8] <= 1)
    &&& d == 29 ==> (area[b + 8] <= 1)
    &&& d == 30 ==> (field_size_ok(area, b + 8, mem, base))
    &&& d == 31 ==> (opt_string_ok(area, b + 8, b + 12, mem, base))
    &&& d == 32 ==> (opt_string_ok(area, b + 8, b + 12, mem, base))
    &&& d == 38 ==> (opt_string_ok(area, b + 8, b + 12, mem, base))
}

/// Why the error code at `b` cannot be lifted: the area is too short, a
/// discriminant or tag is out of range, or a payload fails (its first
/// failing part).
pub open spec fn error_code_fault(area: Seq<u8>, b: int, mem: Seq<u8>, base: int) -> Option<LiftError> {
    if !(0 <= b && b + 32 <= area.len()) {
        Some(LiftError::OutOfBounds)
    } else {
        let d = area[b];
        if d == 1 {
            first_fault(opt_string_fault(area, b + 8, b + 12, mem, base), tag_fault(area, b + 20))
        } else if d == 14 {
            first_fault(tag_fault(area, b + 8), opt_string_fault(area, b + 12, b + 16, mem, base))
        } else if d == 17 || d == 21 || d == 23 || d == 26 || d == 28 || d == 29 {
            tag_fault(area, b + 8)
        } else if d == 22 {
            opt_field_size_fault(area, b + 8, mem, base)
        } else if d == 24 || d == 27 || d == 30 {
            field_size_fault(area, b + 8, mem, base)
        } else if d == 31 || d == 32 || d == 38 {
            opt_string_fault(area, b + 8, b + 12, mem, base)
        } else if d >= 39 {
            Some(LiftError::InvalidDiscriminant)
        } else {
            None
        }
    }
}

/// An error code that is stored somewhere is readable there.
pub proof fn lemma_encoded_error_code_ok(area: Seq<u8>, b: int, mem: Seq<u8>, base: int, e: ErrorCode)
    requires
        encodes_error_code(area, b, mem, base, e),
    ensures
        error_code_ok(area, b, mem, base),
{
}

/// Lifts the error code stored at `b`.
pub fn lift_error_code(area: &[u8], b: usize, mem: &[u8], base: usize) -> (r: Result<ErrorCode, LiftError>)
    ensures
        r is Ok <==> error_code_ok(area@, b as int, mem@, base as int),
        r matches Ok(e) ==> encodes_error_code(area@, b as int, mem@, base as int, e),
        r matches Err(e) ==> error_code_fault(area@, b as int, mem@, base as int) == Some(e),
{
    if area.len() < 32 || b > area.len() - 32 {
        return Err(LiftError::OutOfBounds);
    }
    let d = area[b];
    let e = match d {
            0 => ErrorCode::DnsTimeout,
            1 => {
                let rcode = lift_opt_string(area, b + 8, b + 12, mem, base)?;
                let info_code = lift_opt_u16(area, b + 20, b + 22)?;
                ErrorCode::DnsError(DnsErrorPayload { rcode, info_code })
            },
            2 => ErrorCode::DestinationNotFound,
            3 => ErrorCode::DestinationUnavailable,
            4 => ErrorCode::DestinationIpProhibited,
            5 => ErrorCode::DestinationIpUnroutable,
            6 => ErrorCode::ConnectionRefused,
            7 => ErrorCode::ConnectionTerminated,
            8 => ErrorCode::ConnectionTimeout,
            9 => ErrorCode::ConnectionReadTimeout,
            10 => ErrorCode::ConnectionWriteTimeout,
            11 => ErrorCode::ConnectionLimitReached,
            12 => ErrorCode::TlsProtocolError,
            13 => ErrorCode::TlsCertificateError,
            14 => {
                let alert_id = lift_opt_u8(area, b + 8, b + 9)?;
                let alert_message = lift_opt_string(area, b + 12, b + 16, mem, base)?;
                ErrorCode::TlsAlertReceived(TlsAlertReceivedPayload { alert_id, alert_message })
            },
            15 => ErrorCode::HttpRequestDenied,
            16 => ErrorCode::HttpRequestLengthRequired,
            17 => {
                ErrorCode::HttpRequestBodySize(lift_opt_u64(area, b + 8, b + 16)?)
            },
            18 => ErrorCode::HttpRequestMethodInvalid,
            19 => ErrorCode::HttpRequestUriInvalid,
            20 => ErrorCode::HttpRequestUriTooLong,
            21 => {
                ErrorCode::HttpRequestHeaderSectionSize(lift_opt_u32(area, b + 8, b + 12)?)
            },
            22 => {
                ErrorCode::HttpRequestHeaderSize(lift_opt_field_size(area, b + 8, mem, base)?)
            },
            23 => {
                ErrorCode::HttpRequestTrailerSectionSize(lift_opt_u32(area, b + 8, b + 12)?)
            },
            24 => {
                ErrorCode::HttpRequestTrailerSize(lift_field_size(area, b + 8, mem, base)?)
            },
            25 => ErrorCode::HttpResponseIncomplete,
            26 => {
                ErrorCode::HttpResponseHeaderSectionSize(lift_opt_u32(area, b + 8, b + 12)?)
            },
            27 => {
                ErrorCode::HttpResponseHeaderSize(lift_field_size(area, b + 8, mem, base)?)
            },
            28 => {
                ErrorCode::HttpResponseBodySize(lift_opt_u64(area, b + 8, b + 16)?)
            },
            29 => {
                ErrorCode::HttpResponseTrailerSectionSize(lift_opt_u32(area, b + 8, b + 12)?)
            },
            30 => {
                ErrorCode::HttpResponseTrailerSize(lift_field_size(area, b + 8, mem, base)?)
            },
            31 => {
                ErrorCode::HttpResponseTransferCoding(lift_opt_string(area, b + 8, b + 12, mem, base)?)
            },
            32 => {
                ErrorCode::HttpResponseContentCoding(lift_opt_string(area, b + 8, b + 12, mem, base)?)
            },
            33 => ErrorCode::HttpResponseTimeout,
            34 => ErrorCode::HttpUpgradeFailed,
            35 => ErrorCode::HttpProtocolError,
            36 => ErrorCode::LoopDetected,
            37 => ErrorCode::ConfigurationError,
            38 => {
                ErrorCode::InternalError(lift_opt_string(area, b + 8, b + 12, mem, base)?)
            },
            _ => {
                return Err(LiftError::InvalidDiscriminant);
            },
        };
    Ok(e)
}

// ---------------------------------------------------------------------------
// Results of the HTTP imports
// ---------------------------------------------------------------------------

/// The handle stored as a 32-bit integer at `off`.
pub open spec fn handle_at(area: Seq<u8>, off: int) -> nat {
    le32(area, off)
}

/// A handle at `off` that names a resource (not the reserved value).
pub open spec fn handle_ok(area: Seq<u8>, off: int) -> bool {
    handle_at(area, off) != taken_handle()
}

/// `http-error-code`: an optional error code, tag at 0 and code at 8.
pub open spec fn encodes_opt_error_code(area: Seq<u8>, mem: Seq<u8>, base: int, o: Option<ErrorCode>) -> bool {
    &&& 40 <= area.len()
    &&& match o {
        None => area[0] == 0,
        Some(e) => area[0] == 1 && encodes_error_code(area, 8, mem, base, e),
    }
}

/// The area holds some optional error code.
pub open spec fn opt_error_code_ok(area: Seq<u8>, mem: Seq<u8>, base: int) -> bool {
    &&& 40 <= area.len()
    &&& (area[0] == 0 || (area[0] == 1 && error_code_ok(area, 8, mem, base)))
}

/// Lifts the answer of `http-error-code`.
pub fn lift_http_error_code(area: &[u8], mem: &[u8], base: usize) -> (r: Result<Option<ErrorCode>, LiftError>)
    ensures
        r is Ok <==> opt_error_code_ok(area@, mem@, base as int),
        r matches Ok(o) ==> encodes_opt_error_code(area@, mem@, base as int, o),
        r matches Err(e) ==> e == (if area@.len() < 40 {
            LiftError::OutOfBounds
        } else if area@[0] == 1 {
            error_code_fault(area@, 8, mem@, base as int)->Some_0
        } else {
            LiftError::InvalidDiscriminant
        }),
{
    if area.len() < 40 {
        return Err(LiftError::OutOfBounds);
    }
    match area[0] {
        0 => Ok(None),
        1 => Ok(Some(lift_error_code(area, 8, mem, base)?)),
        _ => Err(LiftError::InvalidDiscriminant),
    }
}

/// `outgoing-handler.handle` and `outgoing-body.finish`: a result whose tag
/// is at 0; a success payload at 8, or an error code at 8.
pub open spec fn encodes_error_result(area: Seq<u8>, mem: Seq<u8>, base: int, ok: bool, e: Option<ErrorCode>) -> bool {
    &&& 40 <= area.len()
    &&& match e {
        None => ok && area[0] == 0,
        Some(e) => !ok && area[0] == 1 && encodes_error_code(area, 8, mem, base, e),
    }
}

/// The area holds a result of `outgoing-handler.handle`.
pub open spec fn handle_result_ok(area: Seq<u8>, mem: Seq<u8>, base: int) -> bool {
    &&& 40 <= area.len()
    &&& ((area[0] == 0 && handle_ok(area, 8)) || (area[0] == 1 && error_code_ok(area, 8, mem, base)))
}

/// Lifts the answer of `outgoing-handler.handle`: the future response, or
/// the error code.
pub fn lift_handle_result(area: &[u8], mem: &[u8], base: usize) -> (r: Result<Result<FutureIncomingResponse, ErrorCode>, LiftError>)
    ensures
        r is Ok <==> handle_result_ok(area@, mem@, base as int),
        r matches Ok(Ok(f)) ==> area@[0] == 0 && f.spec_handle() == handle_at(area@, 8),
        r matches Ok(Err(e)) ==> encodes_error_result(area@, mem@, base as int, false, Some(e)),
        r matches Err(e) ==> e == (if area@.len() < 40 {
            LiftError::OutOfBounds
        } else if area@[0] == 0 {
            LiftError::InvalidHandle
        } else if area@[0] == 1 {
            error_code_fault(area@, 8, mem@, base as int)->Some_0
        } else {
            LiftError::InvalidDiscriminant
        }),
{
    if area.len() < 40 {
        return Err(LiftError::OutOfBounds);
    }
    match area[0] {
        0 => {
            let h = read_u32(area, 8);
            if h == u32::MAX {
                return Err(LiftError::InvalidHandle);
            }
            Ok(Ok(FutureIncomingResponse::from_handle(h)))
        },
        1 => Ok(Err(lift_error_code(area, 8, mem, base)?)),
        _ => Err(LiftError::InvalidDiscriminant),
    }
}

/// The area holds a result of `outgoing-body.finish`.
pub open spec fn finish_result_ok(area: Seq<u8>, mem: Seq<u8>, base: int) -> bool {
    &&& 40 <= area.len()
    &&& (area[0] == 0 || (area[0] == 1 && error_code_ok(area, 8, mem, base)))
}

/// Lifts the answer of `outgoing-body.finish`.
pub fn lift_finish_result(area: &[u8], mem: &[u8], base: usize) -> (r: Result<Result<(), ErrorCode>, LiftError>)
    ensures
        r is Ok <==> finish_result_ok(area@, mem@, base as int),
        r matches Ok(Ok(())) ==> encodes_error_result(area@, mem@, base as int, true, None),
        r matches Ok(Err(e)) ==> encodes_error_result(area@, mem@, base as int, false, Some(e)),
        r matches Err(e) ==> e == (if area@.len() < 40 {
            LiftError::OutOfBounds
        } else if area@[0] == 1 {
            error_code_fault(area@, 8, mem@, base as int)->Some_0
        } else {
            LiftError::InvalidDiscriminant
        }),
{
    if area.len() < 40 {
        return Err(LiftError::OutOfBounds);
    }
    match area[0] {
        0 => Ok(Ok(())),
        1 => Ok(Err(lift_error_code(area, 8, mem, base)?)),
        _ => Err(LiftError::InvalidDiscriminant),
    }
}

/// A poll of a future: `none` (tag 0 at 0), or the outcome (tag 1) whose
/// result tag is at 8: 1 when the outcome was already taken, 0 when it is
/// the inner result whose tag is at 16 and whose payload is at 24.
pub open spec fn poll_shape_ok(area: Seq<u8>, mem: Seq<u8>, base: int, ok_payload: bool) -> bool {
    &&& 56 <= area.len()
    &&& (area[0] == 0 || (area[0] == 1 && (area[8] == 1 || (area[8] == 0 && (
            (area[16] == 0 && ok_payload) || (area[16] == 1 && error_code_ok(area, 24, mem, base)))))))
}

/// Why a poll cannot be lifted, given the fault of its success payload.
pub open spec fn poll_fault(area: Seq<u8>, mem: Seq<u8>, base: int, ok_fault: Option<LiftError>) -> Option<LiftError> {
    if area.len() < 56 {
        Some(LiftError::OutOfBounds)
    } else if area[0] == 0 {
        None
    } else if area[0] != 1 {
        Some(LiftError::InvalidDiscriminant)
    } else if area[8] == 1 {
        None
    } else if area[8] != 0 {
        Some(LiftError::InvalidDiscriminant)
    } else if area[16] == 0 {
        ok_fault
    } else if area[16] == 1 {
        error_code_fault(area, 24, mem, base)
    } else {
        Some(LiftError::InvalidDiscriminant)
    }
}

/// A handle at `off` that is the reserved value.
pub open spec fn handle_fault(area: Seq<u8>, off: int) -> Option<LiftError> {
    if handle_ok(area, off) {
        None
    } else {
        Some(LiftError::InvalidHandle)
    }
}

/// `future-incoming-response.get`, with the response handle at 24.
pub open spec fn response_poll_ok(area: Seq<u8>, mem: Seq<u8>, base: int) -> bool {
    poll_shape_ok(area, mem, base, handle_ok(area, 24))
}

/// Lifts the answer of `future-incoming-response.get`.
pub fn lift_incoming_response_poll(area: &[u8], mem: &[u8], base: usize)
    -> (r: Result<Option<Result<Result<IncomingResponse, ErrorCode>, ()>>, LiftError>)
    ensures
        r is Ok <==> response_poll_ok(area@, mem@, base as int),
        r matches Ok(None) ==> area@[0] == 0,
        r matches Ok(Some(Err(()))) ==> area@[0] == 1 && area@[8] == 1,
        r matches Ok(Some(Ok(Ok(resp)))) ==> area@[0] == 1 && area@[8] == 0 && area@[16] == 0
            && resp.spec_handle() == handle_at(area@, 24),
        r matches Ok(Some(Ok(Err(e)))) ==> area@[0] == 1 && area@[8] == 0 && area@[16] == 1
            && encodes_error_code(area@, 24, mem@, base as int, e),
        r matches Err(e) ==> poll_fault(area@, mem@, base as int, handle_fault(area@, 24)) == Some(e),
{
    if area.len() < 56 {
        return Err(LiftError::OutOfBounds);
    }
    match area[0] {
        0 => Ok(None),
        1 => match area[8] {
            0 => match area[16] {
                0 => {
                    let h = read_u32(area, 24);
                    if h == u32::MAX {
                        return Err(LiftError::InvalidHandle);
                    }
                    Ok(Some(Ok(Ok(IncomingResponse::from_handle(h)))))
                },
                1 => Ok(Some(Ok(Err(lift_error_code(area, 24, mem, base)?)))),
                _ => Err(LiftError::InvalidDiscriminant),
            },
            1 => Ok(Some(Err(()))),
            _ => Err(LiftError::InvalidDiscriminant),
        },
        _ => Err(LiftError::InvalidDiscriminant),
    }
}

/// `future-trailers.get`, with optional trailers (tag at 24, handle at 28).
pub open spec fn trailers_poll_ok(area: Seq<u8>, mem: Seq<u8>, base: int) -> bool {
    poll_shape_ok(area, mem, base, area[24] == 0 || (area[24] == 1 && handle_ok(area, 28)))
}

/// Lifts the answer of `future-trailers.get`.
pub fn lift_trailers_poll(area: &[u8], mem: &[u8], base: usize)
    -> (r: Result<Option<Result<Result<Option<Fields>, ErrorCode>, ()>>, LiftError>)
    ensures
        r is Ok <==> trailers_poll_ok(area@, mem@, base as int),
        r matches Ok(None) ==> area@[0] == 0,
        r matches Ok(Some(Err(()))) ==> area@[0] == 1 && area@[8] == 1,
        r matches Ok(Some(Ok(Ok(None)))) ==> area@[0] == 1 && area@[8] == 0 && area@[16] == 0
            && area@[24] == 0,
        r matches Ok(Some(Ok(Ok(Some(t))))) ==> area@[0] == 1 && area@[8] == 0 && area@[16] == 0
            && area@[24] == 1 && t.spec_handle() == handle_at(area@, 28),
        r matches Ok(Some(Ok(Err(e)))) ==> area@[0] == 1 && area@[8] == 0 && area@[16] == 1
            && encodes_error_code(area@, 24, mem@, base as int, e),
        r matches Err(e) ==> poll_fault(area@, mem@, base as int, if area@[24] == 0 {
            None
        } else if area@[24] == 1 {
            handle_fault(area@, 28)
        } else {
            Some(LiftError::InvalidDiscriminant)
        }) == Some(e),
{
    if area.len() < 56 {
        return Err(LiftError::OutOfBounds);
    }
    match area[0] {
        0 => Ok(None),
        1 => match area[8] {
            0 => match area[16] {
                0 => match area[24] {
                    0 => Ok(Some(Ok(Ok(None)))),
                    1 => {
                        let h = read_u32(area, 28);
                        if h == u32::MAX {
                            return Err(LiftError::InvalidHandle);
                        }
                        Ok(Some(Ok(Ok(Some(Fields::from_handle(h))))))
                    },
                    _ => Err(LiftError::InvalidDiscriminant),
                },
                1 => Ok(Some(Ok(Err(lift_error_code(area, 24, mem, base)?)))),
                _ => Err(LiftError::InvalidDiscriminant),
            },
            1 => Ok(Some(Err(()))),
            _ => Err(LiftError::InvalidDiscriminant),
        },
        _ => Err(LiftError::InvalidDiscriminant),
    }
}

} // verus!
