//! Checked lifting of the smaller results of the HTTP and stream imports:
//! methods, schemes, optional strings and durations, header errors, resource
//! results, field lists and stream results.
use vstd::prelude::*;

use super::abi::{
    first_fault, list_fault, opt_string_fault, string_fault, tag_fault, encodes_opt_string, encodes_opt_u64, le32, lift_bytes, lift_opt_string, lift_opt_u64,
    lift_string, list_at, opt_string_ok, read_u32, string_at, LiftError,
};
use super::http_types::{HeaderError, Method, Scheme};
use super::io_resources::{Error, Pollable, StreamError};
use super::rt::taken_handle;

verus! {

/// The method stored in a 12-byte area: its discriminant at 0 and, for a
/// method outside the list (discriminant 9), its name at 4.
pub open spec fn encodes_method(area: Seq<u8>, mem: Seq<u8>, base: int, m: Method) -> bool {
    &&& 12 <= area.len()
    &&& match m {
        Method::Get => area[0] == 0,
        Method::Head => area[0] == 1,
        Method::Post => area[0] == 2,
        Method::Put => area[0] == 3,
        Method::Delete => area[0] == 4,
        Method::Connect => area[0] == 5,
        Method::Options => area[0] == 6,
        Method::Trace => area[0] == 7,
        Method::Patch => area[0] == 8,
        Method::Other(s) => area[0] == 9 && string_at(area, 4, mem, base) == Some(s@),
    }
}

/// The area holds some method.
pub open spec fn method_ok(area: Seq<u8>, mem: Seq<u8>, base: int) -> bool {
    &&& 12 <= area.len()
    &&& (area[0] < 9 || (area[0] == 9 && string_at(area, 4, mem, base) is Some))
}

/// Lifts the answer of `incoming-request.method` and `outgoing-request.method`.
pub fn lift_method(area: &[u8], mem: &[u8], base: usize) -> (r: Result<Method, LiftError>)
    ensures
        r is Ok <==> method_ok(area@, mem@, base as int),
        r matches Ok(m) ==> encodes_method(area@, mem@, base as int, m),
        r matches Err(e) ==> Some(e) == (if area@.len() < 12 {
            Some(LiftError::OutOfBounds)
        } else if area@[0] == 9 {
            string_fault(area@, 4, mem@, base as int)
        } else {
            Some(LiftError::InvalidDiscriminant)
        }),
{
    if area.len() < 12 {
        return Err(LiftError::OutOfBounds);
    }
    match area[0] {
        0 => Ok(Method::Get),
        1 => Ok(Method::Head),
        2 => Ok(Method::Post),
        3 => Ok(Method::Put),
        4 => Ok(Method::Delete),
        5 => Ok(Method::Connect),
        6 => Ok(Method::Options),
        7 => Ok(Method::Trace),
        8 => Ok(Method::Patch),
        9 => Ok(Method::Other(lift_string(area, 4, mem, base)?)),
        _ => Err(LiftError::InvalidDiscriminant),
    }
}

/// The optional scheme stored in a 16-byte area: a tag at 0, the scheme's
/// discriminant at 4 and, for a scheme outside the list (discriminant 2),
/// its name at 8.
pub open spec fn encodes_opt_scheme(area: Seq<u8>, mem: Seq<u8>, base: int, o: Option<Scheme>) -> bool {
    &&& 16 <= area.len()
    &&& match o {
        None => area[0] == 0,
        Some(Scheme::Http) => area[0] == 1 && area[4] == 0,
        Some(Scheme::Https) => area[0] == 1 && area[4] == 1,
        Some(Scheme::Other(s)) => area[0] == 1 && area[4] == 2 && string_at(area, 8, mem, base) == Some(s@),
    }
}

/// The area holds some optional scheme.
pub open spec fn opt_scheme_ok(area: Seq<u8>, mem: Seq<u8>, base: int) -> bool {
    &&& 16 <= area.len()
    &&& (area[0] == 0 || (area[0] == 1 && (area[4] < 2 || (area[4] == 2 && string_at(area, 8, mem, base) is Some))))
}

/// Lifts the answer of `incoming-request.scheme` and `outgoing-request.scheme`.
pub fn lift_opt_scheme(area: &[u8], mem: &[u8], base: usize) -> (r: Result<Option<Scheme>, LiftError>)
    ensures
        r is Ok <==> opt_scheme_ok(area@, mem@, base as int),
        r matches Ok(o) ==> encodes_opt_scheme(area@, mem@, base as int, o),
        r matches Err(e) ==> Some(e) == (if area@.len() < 16 {
            Some(LiftError::OutOfBounds)
        } else if area@[0] == 1 && area@[4] == 2 {
            string_fault(area@, 8, mem@, base as int)
        } else {
            Some(LiftError::InvalidDiscriminant)
        }),
{
    if area.len() < 16 {
        return Err(LiftError::OutOfBounds);
    }
    match area[0] {
        0 => Ok(None),
        1 => match area[4] {
            0 => Ok(Some(Scheme::Http)),
            1 => Ok(Some(Scheme::Https)),
            2 => Ok(Some(Scheme::Other(lift_string(area, 8, mem, base)?))),
            _ => Err(LiftError::InvalidDiscriminant),
        },
        _ => Err(LiftError::InvalidDiscriminant),
    }
}

/// Lifts an optional string stored in a 12-byte area (tag at 0, string at
/// 4): the answer of `path-with-query` and `authority`.
pub fn lift_opt_text(area: &[u8], mem: &[u8], base: usize) -> (r: Result<Option<String>, LiftError>)
    ensures
        r is Ok <==> 12 <= area@.len() && opt_string_ok(area@, 0, 4, mem@, base as int),
        r matches Ok(o) ==> encodes_opt_string(area@, 0, 4, mem@, base as int, o),
        r matches Err(e) ==> Some(e) == (if area@.len() < 12 {
            Some(LiftError::OutOfBounds)
        } else {
            opt_string_fault(area@, 0, 4, mem@, base as int)
        }),
{
    if area.len() < 12 {
        return Err(LiftError::OutOfBounds);
    }
    lift_opt_string(area, 0, 4, mem, base)
}

/// Lifts an optional duration in nanoseconds stored in a 16-byte area (tag
/// at 0, value at 8): the answer of the timeouts of `request-options`.
pub fn lift_opt_duration(area: &[u8]) -> (r: Result<Option<u64>, LiftError>)
    ensures
        r is Ok <==> 16 <= area@.len() && area@[0] <= 1,
        r matches Ok(o) ==> encodes_opt_u64(area@, 0, 8, o),
        r matches Err(e) ==> e == (if area@.len() < 16 {
            LiftError::OutOfBounds
        } else {
            LiftError::InvalidDiscriminant
        }),
{
    if area.len() < 16 {
        return Err(LiftError::OutOfBounds);
    }
    lift_opt_u64(area, 0, 8)
}

/// The code of a header error.
pub open spec fn header_error_code(e: HeaderError) -> u8 {
    match e {
        HeaderError::InvalidSyntax => 0,
        HeaderError::Forbidden => 1,
        HeaderError::Immutable => 2,
    }
}

fn header_error_from(d: u8) -> (r: Result<HeaderError, LiftError>)
    ensures
        r is Ok <==> d < 3,
        r matches Ok(e) ==> header_error_code(e) == d,
        r matches Err(e) ==> e == LiftError::InvalidDiscriminant,
{
    match d {
        0 => Ok(HeaderError::InvalidSyntax),
        1 => Ok(HeaderError::Forbidden),
        2 => Ok(HeaderError::Immutable),
        _ => Err(LiftError::InvalidDiscriminant),
    }
}

/// Lifts the answer of `fields.set`, `fields.append` and `fields.delete`: a
/// tag at 0 and, on failure, the header error's code at 1.
pub fn lift_header_result(area: &[u8]) -> (r: Result<Result<(), HeaderError>, LiftError>)
    ensures
        r is Ok <==> 2 <= area@.len() && (area@[0] == 0 || (area@[0] == 1 && area@[1] < 3)),
        r matches Ok(Ok(())) ==> area@[0] == 0,
        r matches Ok(Err(e)) ==> area@[0] == 1 && area@[1] == header_error_code(e),
        r matches Err(e) ==> e == (if area@.len() < 2 {
            LiftError::OutOfBounds
        } else {
            LiftError::InvalidDiscriminant
        }),
{
    if area.len() < 2 {
        return Err(LiftError::OutOfBounds);
    }
    match area[0] {
        0 => Ok(Ok(())),
        1 => Ok(Err(header_error_from(area[1])?)),
        _ => Err(LiftError::InvalidDiscriminant),
    }
}

/// Lifts the answer of `fields.from-list`: a tag at 0, then the handle of
/// the new fields at 4, or the header error's code at 4.
pub fn lift_fields_result(area: &[u8]) -> (r: Result<Result<u32, HeaderError>, LiftError>)
    ensures
        r is Ok <==> 8 <= area@.len() && ((area@[0] == 0 && le32(area@, 4) != taken_handle())
            || (area@[0] == 1 && area@[4] < 3)),
        r matches Ok(Ok(h)) ==> area@[0] == 0 && h == le32(area@, 4) && h != taken_handle(),
        r matches Ok(Err(e)) ==> area@[0] == 1 && area@[4] == header_error_code(e),
        r matches Err(e) ==> e == (if area@.len() < 8 {
            LiftError::OutOfBounds
        } else if area@[0] == 0 {
            LiftError::InvalidHandle
        } else {
            LiftError::InvalidDiscriminant
        }),
{
    if area.len() < 8 {
        return Err(LiftError::OutOfBounds);
    }
    match area[0] {
        0 => {
            let h = read_u32(area, 4);
            if h == u32::MAX {
                return Err(LiftError::InvalidHandle);
            }
            Ok(Ok(h))
        },
        1 => Ok(Err(header_error_from(area[4])?)),
        _ => Err(LiftError::InvalidDiscriminant),
    }
}

/// Lifts a resource result stored in an 8-byte area: a tag at 0 and, on
/// success, the handle at 4. This is the answer of `consume`, `body`,
/// `stream` and `write`, which fail when the resource was already handed
/// out.
pub fn lift_resource_result(area: &[u8]) -> (r: Result<Result<u32, ()>, LiftError>)
    ensures
        r is Ok <==> 8 <= area@.len() && ((area@[0] == 0 && le32(area@, 4) != taken_handle()) || area@[0] == 1),
        r matches Ok(Ok(h)) ==> area@[0] == 0 && h == le32(area@, 4) && h != taken_handle(),
        r matches Ok(Err(())) ==> area@[0] == 1,
        r matches Err(e) ==> e == (if area@.len() < 8 {
            LiftError::OutOfBounds
        } else if area@[0] == 0 {
            LiftError::InvalidHandle
        } else {
            LiftError::InvalidDiscriminant
        }),
{
    if area.len() < 8 {
        return Err(LiftError::OutOfBounds);
    }
    match area[0] {
        0 => {
            let h = read_u32(area, 4);
            if h == u32::MAX {
                return Err(LiftError::InvalidHandle);
            }
            Ok(Ok(h))
        },
        1 => Ok(Err(())),
        _ => Err(LiftError::InvalidDiscriminant),
    }
}

/// Lifts a unit result returned as an integer: 0 for success, 1 for
/// failure. This is the answer of the setters of requests and responses.
pub fn lift_unit_result(ret: i32) -> (r: Result<Result<(), ()>, LiftError>)
    ensures
        r is Ok <==> ret == 0 || ret == 1,
        r matches Ok(Ok(())) ==> ret == 0,
        r matches Ok(Err(())) ==> ret == 1,
        r matches Err(e) ==> e == LiftError::InvalidDiscriminant,
{
    match ret {
        0 => Ok(Ok(())),
        1 => Ok(Err(())),
        _ => Err(LiftError::InvalidDiscriminant),
    }
}

/// Lifts a boolean returned as an integer: the answer of `fields.has`,
/// `fields.is-mutable` and `pollable.ready`.
pub fn lift_bool(ret: i32) -> (r: Result<bool, LiftError>)
    ensures
        r is Ok <==> ret == 0 || ret == 1,
        r matches Ok(b) ==> b == (ret == 1),
        r matches Err(e) ==> e == LiftError::InvalidDiscriminant,
{
    match ret {
        0 => Ok(false),
        1 => Ok(true),
        _ => Err(LiftError::InvalidDiscriminant),
    }
}

// ---------------------------------------------------------------------------
// Field lists
// ---------------------------------------------------------------------------

/// The start of the records of a list whose address and count are stored
/// at 0 and 4, relative to the memory window.
pub open spec fn records_start(area: Seq<u8>, base: int) -> int {
    le32(area, 0) - base
}

/// The number of records of that list.
pub open spec fn records_count(area: Seq<u8>) -> int {
    le32(area, 4) as int
}

/// The records of the list lie in the window, `size` bytes each.
pub open spec fn records_in_window(area: Seq<u8>, mem: Seq<u8>, base: int, size: int) -> bool {
    &&& 8 <= area.len()
    &&& 0 <= records_start(area, base)
    &&& records_start(area, base) + size * records_count(area) <= mem.len()
}

/// The offset in the window of record `i`.
pub open spec fn record_offset(area: Seq<u8>, base: int, size: int, i: int) -> int {
    records_start(area, base) + size * i
}

/// `fields.get`: a list of values, each an 8-byte record holding the
/// address and count of its bytes.
pub open spec fn field_values_ok(area: Seq<u8>, mem: Seq<u8>, base: int) -> bool {
    &&& records_in_window(area, mem, base, 8)
    &&& forall|i: int| 0 <= i < records_count(area) ==> (#[trigger] list_at(mem, record_offset(area, base, 8, i), mem, base)) is Some
}

/// The values of the list are `v`.
pub open spec fn encodes_field_values(area: Seq<u8>, mem: Seq<u8>, base: int, v: Seq<Seq<u8>>) -> bool {
    &&& records_in_window(area, mem, base, 8)
    &&& v.len() == records_count(area)
    &&& forall|i: int| 0 <= i < v.len() ==> #[trigger] list_at(mem, record_offset(area, base, 8, i), mem, base) == Some(v[i])
}

/// The byte views of a list of values.
pub open spec fn values_view(v: Seq<Vec<u8>>) -> Seq<Seq<u8>> {
    v.map_values(|x: Vec<u8>| x@)
}

/// Lifts the answer of `fields.get`: the values of a header.
pub fn lift_field_values(area: &[u8], mem: &[u8], base: usize) -> (r: Result<Vec<Vec<u8>>, LiftError>)
    ensures
        r is Ok <==> field_values_ok(area@, mem@, base as int),
        r matches Ok(v) ==> encodes_field_values(area@, mem@, base as int, values_view(v@)),
        r matches Err(e) ==> e == LiftError::OutOfBounds,
{
    if area.len() < 8 {
        return Err(LiftError::OutOfBounds);
    }
    let ptr = read_u32(area, 0) as usize;
    let n = read_u32(area, 4) as usize;
    if ptr < base || ptr - base > mem.len() || n > (mem.len() - (ptr - base)) / 8 {
        proof {
            if records_in_window(area@, mem@, base as int, 8) {
                assert(n <= (mem.len() - (ptr - base)) / 8) by (nonlinear_arith)
                    requires
                        8 * n <= mem.len() - (ptr - base),
                        mem.len() - (ptr - base) >= 0;
            }
        }
        return Err(LiftError::OutOfBounds);
    }
    let start = ptr - base;
    assert(8 * n <= mem.len() - start) by (nonlinear_arith)
        requires
            n <= (mem.len() - start) / 8,
            mem.len() - start >= 0;
    let mut out: Vec<Vec<u8>> = Vec::new();
    let mut i: usize = 0;
    while i < n
        invariant
            i <= n,
            start + 8 * n <= mem.len(),
            start == records_start(area@, base as int),
            n == records_count(area@),
            records_in_window(area@, mem@, base as int, 8),
            out@.len() == i,
            forall|k: int| 0 <= k < i ==> #[trigger] list_at(mem@, record_offset(area@, base as int, 8, k), mem@, base as int) == Some(out@[k]@),
        decreases n - i,
    {
        let rec = start + 8 * i;
        assert(rec == record_offset(area@, base as int, 8, i as int));
        match lift_bytes(mem, rec, mem, base) {
            Ok(b) => out.push(b),
            Err(e) => {
                return Err(e);
            },
        }
        i = i + 1;
    }
    assert(values_view(out@).len() == out@.len());
    assert forall|k: int| 0 <= k < values_view(out@).len() implies
        #[trigger] list_at(mem@, record_offset(area@, base as int, 8, k), mem@, base as int) == Some(values_view(out@)[k]) by {
        assert(values_view(out@)[k] == out@[k]@);
    }
    Ok(out)
}

/// `fields.entries`: a list of entries, each a 16-byte record holding its
/// name (a string) and its value (bytes).
pub open spec fn field_entries_ok(area: Seq<u8>, mem: Seq<u8>, base: int) -> bool {
    &&& records_in_window(area, mem, base, 16)
    &&& forall|i: int| 0 <= i < records_count(area) ==> {
        &&& (#[trigger] string_at(mem, record_offset(area, base, 16, i), mem, base)) is Some
        &&& list_at(mem, record_offset(area, base, 16, i) + 8, mem, base) is Some
    }
}

/// The entries of the list are `v`.
pub open spec fn encodes_field_entries(area: Seq<u8>, mem: Seq<u8>, base: int, v: Seq<(Seq<char>, Seq<u8>)>) -> bool {
    &&& records_in_window(area, mem, base, 16)
    &&& v.len() == records_count(area)
    &&& forall|i: int| 0 <= i < v.len() ==> {
        &&& #[trigger] string_at(mem, record_offset(area, base, 16, i), mem, base) == Some(v[i].0)
        &&& list_at(mem, record_offset(area, base, 16, i) + 8, mem, base) == Some(v[i].1)
    }
}

/// Why the entries from record `i` on cannot be lifted: the first record
/// whose name or value fails.
pub open spec fn entries_fault_from(area: Seq<u8>, mem: Seq<u8>, base: int, i: int) -> Option<LiftError>
    decreases records_count(area) - i,
{
    if i < 0 || i >= records_count(area) {
        None
    } else {
        let rec = record_offset(area, base, 16, i);
        match first_fault(string_fault(mem, rec, mem, base), list_fault(mem, rec + 8, mem, base)) {
            Some(f) => Some(f),
            None => entries_fault_from(area, mem, base, i + 1),
        }
    }
}

/// The views of a list of entries.
pub open spec fn entries_view(v: Seq<(String, Vec<u8>)>) -> Seq<(Seq<char>, Seq<u8>)> {
    v.map_values(|x: (String, Vec<u8>)| (x.0@, x.1@))
}

/// Lifts the answer of `fields.entries`: the name and value of each header.
pub fn lift_field_entries(area: &[u8], mem: &[u8], base: usize) -> (r: Result<Vec<(String, Vec<u8>)>, LiftError>)
    ensures
        r is Ok <==> field_entries_ok(area@, mem@, base as int),
        r matches Ok(v) ==> encodes_field_entries(area@, mem@, base as int, entries_view(v@)),
        r matches Err(e) ==> Some(e) == (if records_in_window(area@, mem@, base as int, 16) {
            entries_fault_from(area@, mem@, base as int, 0)
        } else {
            Some(LiftError::OutOfBounds)
        }),
{
    if area.len() < 8 {
        return Err(LiftError::OutOfBounds);
    }
    let ptr = read_u32(area, 0) as usize;
    let n = read_u32(area, 4) as usize;
    if ptr < base || ptr - base > mem.len() || n > (mem.len() - (ptr - base)) / 16 {
        proof {
            if records_in_window(area@, mem@, base as int, 16) {
                assert(n <= (mem.len() - (ptr - base)) / 16) by (nonlinear_arith)
                    requires
                        16 * n <= mem.len() - (ptr - base),
                        mem.len() - (ptr - base) >= 0;
            }
        }
        return Err(LiftError::OutOfBounds);
    }
    let start = ptr - base;
    assert(16 * n <= mem.len() - start) by (nonlinear_arith)
        requires
            n <= (mem.len() - start) / 16,
            mem.len() - start >= 0;
    let mut out: Vec<(String, Vec<u8>)> = Vec::new();
    let mut i: usize = 0;
    while i < n
        invariant
            i <= n,
            start + 16 * n <= mem.len(),
            start == records_start(area@, base as int),
            n == records_count(area@),
            records_in_window(area@, mem@, base as int, 16),
            entries_fault_from(area@, mem@, base as int, 0) == entries_fault_from(area@, mem@, base as int, i as int),
            out@.len() == i,
            forall|k: int| 0 <= k < i ==> {
                &&& #[trigger] string_at(mem@, record_offset(area@, base as int, 16, k), mem@, base as int) == Some(out@[k].0@)
                &&& list_at(mem@, record_offset(area@, base as int, 16, k) + 8, mem@, base as int) == Some(out@[k].1@)
            },
        decreases n - i,
    {
        let rec = start + 16 * i;
        assert(rec == record_offset(area@, base as int, 16, i as int));
        let name = match lift_string(mem, rec, mem, base) {
            Ok(s) => s,
            Err(e) => {
                return Err(e);
            },
        };
        let value = match lift_bytes(mem, rec + 8, mem, base) {
            Ok(b) => b,
            Err(e) => {
                return Err(e);
            },
        };
        out.push((name, value));
        i = i + 1;
    }
    assert forall|k: int| 0 <= k < entries_view(out@).len() implies {
        &&& #[trigger] string_at(mem@, record_offset(area@, base as int, 16, k), mem@, base as int) == Some(entries_view(out@)[k].0)
        &&& list_at(mem@, record_offset(area@, base as int, 16, k) + 8, mem@, base as int) == Some(entries_view(out@)[k].1)
    } by {
        assert(entries_view(out@)[k] == (out@[k].0@, out@[k].1@));
    }
    Ok(out)
}

// ---------------------------------------------------------------------------
// Stream results
// ---------------------------------------------------------------------------

/// A stream error stored with its tag at `t`: 0 with the handle of the
/// error at `t + 4`, or 1 for a closed stream.
pub open spec fn encodes_stream_error(area: Seq<u8>, t: int, e: StreamError) -> bool {
    match e {
        StreamError::LastOperationFailed(err) => area[t] == 0 && err.spec_handle() == le32(area, t + 4),
        StreamError::Closed => area[t] == 1,
    }
}

/// A stream error is stored at `t`.
pub open spec fn stream_error_ok(area: Seq<u8>, t: int) -> bool {
    (area[t] == 0 && le32(area, t + 4) != taken_handle()) || area[t] == 1
}

/// Why the stream error at `t` cannot be lifted.
pub open spec fn stream_error_fault(area: Seq<u8>, t: int) -> Option<LiftError> {
    if area[t] == 0 {
        if le32(area, t + 4) != taken_handle() {
            None
        } else {
            Some(LiftError::InvalidHandle)
        }
    } else if area[t] == 1 {
        None
    } else {
        Some(LiftError::InvalidDiscriminant)
    }
}

fn lift_stream_error(area: &[u8], t: usize) -> (r: Result<StreamError, LiftError>)
    requires
        t + 8 <= area.len(),
    ensures
        r is Ok <==> stream_error_ok(area@, t as int),
        r matches Ok(e) ==> encodes_stream_error(area@, t as int, e),
        r matches Err(e) ==> stream_error_fault(area@, t as int) == Some(e),
{
    match area[t] {
        0 => {
            let h = read_u32(area, t + 4);
            if h == u32::MAX {
                return Err(LiftError::InvalidHandle);
            }
            Ok(StreamError::LastOperationFailed(Error::from_handle(h)))
        },
        1 => Ok(StreamError::Closed),
        _ => Err(LiftError::InvalidDiscriminant),
    }
}

/// Lifts the answer of `input-stream.read` and `blocking-read`, stored in a
/// 12-byte area: a tag at 0, then the bytes read (address and count at 4),
/// or the stream error at 4.
pub fn lift_read_result(area: &[u8], mem: &[u8], base: usize) -> (r: Result<Result<Vec<u8>, StreamError>, LiftError>)
    ensures
        r is Ok <==> 12 <= area@.len() && ((area@[0] == 0 && list_at(area@, 4, mem@, base as int) is Some)
            || (area@[0] == 1 && stream_error_ok(area@, 4))),
        r matches Ok(Ok(v)) ==> area@[0] == 0 && list_at(area@, 4, mem@, base as int) == Some(v@),
        r matches Ok(Err(e)) ==> area@[0] == 1 && encodes_stream_error(area@, 4, e),
        r matches Err(e) ==> Some(e) == (if area@.len() < 12 {
            Some(LiftError::OutOfBounds)
        } else if area@[0] == 0 {
            list_fault(area@, 4, mem@, base as int)
        } else if area@[0] == 1 {
            stream_error_fault(area@, 4)
        } else {
            Some(LiftError::InvalidDiscriminant)
        }),
{
    if area.len() < 12 {
        return Err(LiftError::OutOfBounds);
    }
    match area[0] {
        0 => Ok(Ok(lift_bytes(area, 4, mem, base)?)),
        1 => Ok(Err(lift_stream_error(area, 4)?)),
        _ => Err(LiftError::InvalidDiscriminant),
    }
}

/// Lifts the answer of `check-write`, `skip`, `splice` and their blocking
/// forms, stored in a 16-byte area: a tag at 0, then a count at 8, or the
/// stream error at 8.
pub fn lift_count_result(area: &[u8]) -> (r: Result<Result<u64, StreamError>, LiftError>)
    ensures
        r is Ok <==> 16 <= area@.len() && (area@[0] == 0 || (area@[0] == 1 && stream_error_ok(area@, 8))),
        r matches Ok(Ok(n)) ==> area@[0] == 0 && n == super::abi::le64(area@, 8),
        r matches Ok(Err(e)) ==> area@[0] == 1 && encodes_stream_error(area@, 8, e),
        r matches Err(e) ==> Some(e) == (if area@.len() < 16 {
            Some(LiftError::OutOfBounds)
        } else if area@[0] == 1 {
            stream_error_fault(area@, 8)
        } else {
            Some(LiftError::InvalidDiscriminant)
        }),
{
    if area.len() < 16 {
        return Err(LiftError::OutOfBounds);
    }
    match area[0] {
        0 => Ok(Ok(super::abi::read_u64(area, 8))),
        1 => Ok(Err(lift_stream_error(area, 8)?)),
        _ => Err(LiftError::InvalidDiscriminant),
    }
}

/// Lifts the answer of `write`, `flush`, `write-zeroes` and their blocking
/// forms, stored in a 12-byte area: a tag at 0 and, on failure, the stream
/// error at 4.
pub fn lift_stream_unit_result(area: &[u8]) -> (r: Result<Result<(), StreamError>, LiftError>)
    ensures
        r is Ok <==> 12 <= area@.len() && (area@[0] == 0 || (area@[0] == 1 && stream_error_ok(area@, 4))),
        r matches Ok(Ok(())) ==> area@[0] == 0,
        r matches Ok(Err(e)) ==> area@[0] == 1 && encodes_stream_error(area@, 4, e),
        r matches Err(e) ==> Some(e) == (if area@.len() < 12 {
            Some(LiftError::OutOfBounds)
        } else if area@[0] == 1 {
            stream_error_fault(area@, 4)
        } else {
            Some(LiftError::InvalidDiscriminant)
        }),
{
    if area.len() < 12 {
        return Err(LiftError::OutOfBounds);
    }
    match area[0] {
        0 => Ok(Ok(())),
        1 => Ok(Err(lift_stream_error(area, 4)?)),
        _ => Err(LiftError::InvalidDiscriminant),
    }
}

// ---------------------------------------------------------------------------
// Texts and lists of numbers
// ---------------------------------------------------------------------------

/// Lifts a string stored in an 8-byte area (address and length at 0): the
/// answer of `error.to-debug-string`.
pub fn lift_text(area: &[u8], mem: &[u8], base: usize) -> (r: Result<String, LiftError>)
    ensures
        r is Ok <==> 8 <= area@.len() && string_at(area@, 0, mem@, base as int) is Some,
        r matches Ok(s) ==> string_at(area@, 0, mem@, base as int) == Some(s@),
        r matches Err(e) ==> Some(e) == (if area@.len() < 8 {
            Some(LiftError::OutOfBounds)
        } else {
            string_fault(area@, 0, mem@, base as int)
        }),
{
    if area.len() < 8 {
        return Err(LiftError::OutOfBounds);
    }
    lift_string(area, 0, mem, base)
}

/// The little-endian bytes of `h`.
pub open spec fn le_bytes32(h: u32) -> Seq<u8> {
    seq![(h % 256) as u8, ((h / 256) % 256) as u8, ((h / 65536) % 256) as u8, (h / 16777216) as u8]
}

/// The handles of `ps`, four little-endian bytes each.
pub open spec fn handle_records(ps: Seq<&Pollable>, n: int) -> Seq<u8>
    decreases n,
{
    if n <= 0 {
        Seq::empty()
    } else {
        handle_records(ps, n - 1) + le_bytes32(ps[n - 1].spec_handle())
    }
}

/// A number written as four little-endian bytes reads back as itself.
pub proof fn lemma_le_bytes32_round_trip(h: u32)
    ensures
        le32(le_bytes32(h), 0) == h,
{
    let b = le_bytes32(h);
    let (b0, b1, b2, b3) = (h % 256, (h / 256) % 256, (h / 65536) % 256, h / 16777216);
    assert(b[0] == b0 && b[1] == b1 && b[2] == b2 && b[3] == b3);
    assert(b0 + 256 * b1 + 65536 * (b2 + 256 * b3) == h) by (nonlinear_arith)
        requires
            b0 == h % 256,
            b1 == (h / 256) % 256,
            b2 == (h / 65536) % 256,
            b3 == h / 16777216,
            h < 4294967296,
    ;
}

/// The list of pollables handed to `poll`: the handle of each, as four
/// little-endian bytes.
pub fn lower_pollables(ps: &[&Pollable]) -> (r: Vec<u8>)
    ensures
        r@ == handle_records(ps@, ps@.len() as int),
{
    let mut out: Vec<u8> = Vec::new();
    let mut i: usize = 0;
    while i < ps.len()
        invariant
            i <= ps@.len(),
            out@ == handle_records(ps@, i as int),
        decreases ps@.len() - i,
    {
        let h = ps[i].handle();
        out.push((h % 256) as u8);
        out.push(((h / 256) % 256) as u8);
        out.push(((h / 65536) % 256) as u8);
        out.push((h / 16777216) as u8);
        i = i + 1;
        assert(out@ =~= handle_records(ps@, i as int));
    }
    out
}

/// Records of address and length pairs, eight little-endian bytes each:
/// the lists of values and entries that `fields.set`, `fields.append` and
/// `fields.from-list` take.
pub open spec fn pair_records(parts: Seq<(u32, u32)>, n: int) -> Seq<u8>
    decreases n,
{
    if n <= 0 {
        Seq::empty()
    } else {
        pair_records(parts, n - 1) + le_bytes32(parts[n - 1].0) + le_bytes32(parts[n - 1].1)
    }
}

/// Writes address and length pairs as records.
pub fn lower_pairs(parts: &[(u32, u32)]) -> (r: Vec<u8>)
    ensures
        r@ == pair_records(parts@, parts@.len() as int),
{
    let mut out: Vec<u8> = Vec::new();
    let mut i: usize = 0;
    while i < parts.len()
        invariant
            i <= parts@.len(),
            out@ == pair_records(parts@, i as int),
        decreases parts@.len() - i,
    {
        let (a, l) = parts[i];
        out.push((a % 256) as u8);
        out.push(((a / 256) % 256) as u8);
        out.push(((a / 65536) % 256) as u8);
        out.push((a / 16777216) as u8);
        out.push((l % 256) as u8);
        out.push(((l / 256) % 256) as u8);
        out.push(((l / 65536) % 256) as u8);
        out.push((l / 16777216) as u8);
        i = i + 1;
        assert(out@ =~= pair_records(parts@, i as int));
    }
    out
}

proof fn lemma_pair_records_bytes(parts: Seq<(u32, u32)>, n: int, i: int, k: int)
    requires
        0 <= i < n <= parts.len(),
        0 <= k < 4,
    ensures
        pair_records(parts, n).len() == 8 * n,
        pair_records(parts, n)[8 * i + k] == le_bytes32(parts[i].0)[k],
        pair_records(parts, n)[8 * i + 4 + k] == le_bytes32(parts[i].1)[k],
    decreases n,
{
    let pre = pair_records(parts, n - 1);
    let a = le_bytes32(parts[n - 1].0);
    let b = le_bytes32(parts[n - 1].1);
    assert(pair_records(parts, n) == pre + a + b);
    assert(a.len() == 4 && b.len() == 4);
    if n > 1 {
        lemma_pair_records_bytes(parts, n - 1, if i < n - 1 { i } else { 0 }, k);
    } else {
        assert(pre =~= Seq::<u8>::empty());
    }
    assert(pre.len() == 8 * (n - 1));
    if i == n - 1 {
        assert((pre + a + b)[8 * i + k] == a[k]);
        assert((pre + a + b)[8 * i + 4 + k] == b[k]);
    } else {
        assert((pre + a + b)[8 * i + k] == pre[8 * i + k]);
        assert((pre + a + b)[8 * i + 4 + k] == pre[8 * i + 4 + k]);
    }
}

/// Each record written by [`lower_pairs`] reads back as its pair: the
/// record format is the one the lists are lifted with.
pub proof fn lemma_pair_records_read_back(parts: Seq<(u32, u32)>, i: int)
    requires
        0 <= i < parts.len(),
    ensures
        pair_records(parts, parts.len() as int).len() == 8 * parts.len(),
        le32(pair_records(parts, parts.len() as int), 8 * i) == parts[i].0,
        le32(pair_records(parts, parts.len() as int), 8 * i + 4) == parts[i].1,
{
    let n = parts.len() as int;
    let r = pair_records(parts, n);
    lemma_pair_records_bytes(parts, n, i, 0);
    lemma_pair_records_bytes(parts, n, i, 1);
    lemma_pair_records_bytes(parts, n, i, 2);
    lemma_pair_records_bytes(parts, n, i, 3);
    lemma_le_bytes32_round_trip(parts[i].0);
    lemma_le_bytes32_round_trip(parts[i].1);
    assert(le32(r, 8 * i) == le32(le_bytes32(parts[i].0), 0));
    assert(le32(r, 8 * i + 4) == le32(le_bytes32(parts[i].1), 0));
}

/// The numbers of a list stored in the window, four bytes each.
pub open spec fn encodes_u32_list(area: Seq<u8>, mem: Seq<u8>, base: int, v: Seq<u32>) -> bool {
    &&& records_in_window(area, mem, base, 4)
    &&& v.len() == records_count(area)
    &&& forall|i: int| 0 <= i < v.len() ==> #[trigger] v[i] == le32(mem, record_offset(area, base, 4, i))
}

/// Lifts a list of numbers whose address and count are stored at 0: the
/// answer of `poll`, the indexes of the ready pollables.
pub fn lift_u32_list(area: &[u8], mem: &[u8], base: usize) -> (r: Result<Vec<u32>, LiftError>)
    ensures
        r is Ok <==> records_in_window(area@, mem@, base as int, 4),
        r matches Ok(v) ==> encodes_u32_list(area@, mem@, base as int, v@),
        r matches Err(e) ==> e == LiftError::OutOfBounds,
{
    if area.len() < 8 {
        return Err(LiftError::OutOfBounds);
    }
    let ptr = read_u32(area, 0) as usize;
    let n = read_u32(area, 4) as usize;
    if ptr < base || ptr - base > mem.len() || n > (mem.len() - (ptr - base)) / 4 {
        proof {
            if records_in_window(area@, mem@, base as int, 4) {
                assert(n <= (mem.len() - (ptr - base)) / 4) by (nonlinear_arith)
                    requires
                        4 * n <= mem.len() - (ptr - base),
                        mem.len() - (ptr - base) >= 0;
            }
        }
        return Err(LiftError::OutOfBounds);
    }
    let start = ptr - base;
    assert(4 * n <= mem.len() - start) by (nonlinear_arith)
        requires
            n <= (mem.len() - start) / 4,
            mem.len() - start >= 0;
    let mut out: Vec<u32> = Vec::new();
    let mut i: usize = 0;
    while i < n
        invariant
            i <= n,
            start + 4 * n <= mem.len(),
            start == records_start(area@, base as int),
            n == records_count(area@),
            records_in_window(area@, mem@, base as int, 4),
            out@.len() == i,
            forall|k: int| 0 <= k < i ==> #[trigger] out@[k] == le32(mem@, record_offset(area@, base as int, 4, k)),
        decreases n - i,
    {
        let rec = start + 4 * i;
        assert(rec == record_offset(area@, base as int, 4, i as int));
        out.push(read_u32(mem, rec));
        i = i + 1;
    }
    Ok(out)
}

} // verus!
