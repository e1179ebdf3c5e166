//! Flattening of the values the HTTP imports take as arguments.
//!
//! A host call takes a list of core values. Integers are passed as they are;
//! a string takes two consecutive core values, the address of its UTF-8 bytes
//! and their count. The functions here compute that list, with each string
//! kept as a value, so that the caller can pass the addresses of the very
//! strings listed.
use vstd::prelude::*;

use super::http_resources::{
    Fields, OutgoingBody, OutgoingRequest, OutgoingResponse, RequestOptions, ResponseOutparam,
};
use super::abi::string_at;
use super::abi_requests::{encodes_method, encodes_opt_scheme};
use super::http_types::{error_code_discriminant, ErrorCode, FieldSizePayload, Method, Scheme};

verus! {

/// One flattened argument.
pub enum FlatValue {
    /// An integer core value.
    Int(u64),
    /// A string: its address and its length, two core values.
    Str(String),
}

/// The mathematical value of a flattened argument.
pub ghost enum FlatView {
    Int(nat),
    Str(Seq<char>),
}

impl View for FlatValue {
    type V = FlatView;

    open spec fn view(&self) -> FlatView {
        match self {
            FlatValue::Int(x) => FlatView::Int(*x as nat),
            FlatValue::Str(s) => FlatView::Str(s@),
        }
    }
}

/// The views of a list of flattened arguments.
pub open spec fn flat_views(v: Seq<FlatValue>) -> Seq<FlatView> {
    v.map_values(|x: FlatValue| x@)
}

/// How many core values a flattened list stands for.
pub open spec fn core_width(v: Seq<FlatView>) -> nat
    decreases v.len(),
{
    if v.len() == 0 {
        0
    } else {
        core_width(v.drop_last()) + match v.last() {
            FlatView::Int(_) => 1nat,
            FlatView::Str(_) => 2nat,
        }
    }
}

/// `n` zero integers.
pub open spec fn zeros(n: nat) -> Seq<FlatView> {
    Seq::new(n, |i: int| FlatView::Int(0))
}

/// An optional number: a tag, then the number (or zero).
pub open spec fn flat_opt_num(o: Option<nat>) -> Seq<FlatView> {
    match o {
        None => seq![FlatView::Int(0), FlatView::Int(0)],
        Some(x) => seq![FlatView::Int(1), FlatView::Int(x)],
    }
}

/// An optional string: a tag, then the string (or a null address and zero).
pub open spec fn flat_opt_string(o: Option<Seq<char>>) -> Seq<FlatView> {
    match o {
        None => seq![FlatView::Int(0), FlatView::Int(0), FlatView::Int(0)],
        Some(s) => seq![FlatView::Int(1), FlatView::Str(s)],
    }
}

/// The view of an optional string.
pub open spec fn opt_view(o: Option<String>) -> Option<Seq<char>> {
    match o {
        None => None,
        Some(s) => Some(s@),
    }
}

/// An optional number of any width, as a natural number.
pub open spec fn opt_u8(o: Option<u8>) -> Option<nat> {
    match o { None => None, Some(x) => Some(x as nat) }
}

pub open spec fn opt_u16(o: Option<u16>) -> Option<nat> {
    match o { None => None, Some(x) => Some(x as nat) }
}

pub open spec fn opt_u32(o: Option<u32>) -> Option<nat> {
    match o { None => None, Some(x) => Some(x as nat) }
}

pub open spec fn opt_u64(o: Option<u64>) -> Option<nat> {
    match o { None => None, Some(x) => Some(x as nat) }
}

/// A field-size payload: its optional name, then its optional size.
pub open spec fn flat_field_size(f: FieldSizePayload) -> Seq<FlatView> {
    flat_opt_string(opt_view(f.field_name)) + flat_opt_num(opt_u32(f.field_size))
}

/// The payload of an error code, before padding.
pub open spec fn flat_error_payload(e: ErrorCode) -> Seq<FlatView> {
    match e {
        ErrorCode::DnsError(p) => flat_opt_string(opt_view(p.rcode)) + flat_opt_num(opt_u16(p.info_code)),
        ErrorCode::TlsAlertReceived(p) => flat_opt_num(opt_u8(p.alert_id)) + flat_opt_string(opt_view(p.alert_message)),
        ErrorCode::HttpRequestBodySize(p) => flat_opt_num(opt_u64(p)),
        ErrorCode::HttpRequestHeaderSectionSize(p) => flat_opt_num(opt_u32(p)),
        ErrorCode::HttpRequestHeaderSize(p) => match p {
            None => zeros(6),
            Some(f) => seq![FlatView::Int(1)] + flat_field_size(f),
        },
        ErrorCode::HttpRequestTrailerSectionSize(p) => flat_opt_num(opt_u32(p)),
        ErrorCode::HttpRequestTrailerSize(f) => flat_field_size(f),
        ErrorCode::HttpResponseHeaderSectionSize(p) => flat_opt_num(opt_u32(p)),
        ErrorCode::HttpResponseHeaderSize(f) => flat_field_size(f),
        ErrorCode::HttpResponseBodySize(p) => flat_opt_num(opt_u64(p)),
        ErrorCode::HttpResponseTrailerSectionSize(p) => flat_opt_num(opt_u32(p)),
        ErrorCode::HttpResponseTrailerSize(f) => flat_field_size(f),
        ErrorCode::HttpResponseTransferCoding(p) => flat_opt_string(opt_view(p)),
        ErrorCode::HttpResponseContentCoding(p) => flat_opt_string(opt_view(p)),
        ErrorCode::InternalError(p) => flat_opt_string(opt_view(p)),
        _ => Seq::empty(),
    }
}

/// An error code: its discriminant, then its payload, padded with zeros to
/// six core values.
pub open spec fn flat_error_code(e: ErrorCode) -> Seq<FlatView> {
    let p = flat_error_payload(e);
    seq![FlatView::Int(error_code_discriminant(&e) as nat)] + p + zeros((6 - core_width(p)) as nat)
}

/// The response handed to `response-outparam.set`: a tag, then the handle
/// of the response and zeros, or the error code.
pub open spec fn flat_response(r: Result<u32, ErrorCode>) -> Seq<FlatView> {
    match r {
        Ok(h) => seq![FlatView::Int(0), FlatView::Int(h as nat)] + zeros(6),
        Err(e) => seq![FlatView::Int(1)] + flat_error_code(e),
    }
}

proof fn lemma_core_width_append(a: Seq<FlatView>, b: Seq<FlatView>)
    ensures
        core_width(a + b) == core_width(a) + core_width(b),
    decreases b.len(),
{
    if b.len() == 0 {
        assert(a + b =~= a);
    } else {
        assert((a + b).drop_last() =~= a + b.drop_last());
        lemma_core_width_append(a, b.drop_last());
    }
}

proof fn lemma_core_width_zeros(n: nat)
    ensures
        core_width(zeros(n)) == n,
    decreases n,
{
    if n > 0 {
        assert(zeros(n).drop_last() =~= zeros((n - 1) as nat));
        lemma_core_width_zeros((n - 1) as nat);
    }
}

proof fn lemma_small_widths(o: Option<nat>, s: Option<Seq<char>>)
    ensures
        core_width(flat_opt_num(o)) == 2,
        core_width(flat_opt_string(s)) == 3,
{
    reveal_with_fuel(core_width, 4);
    match o {
        None => { assert(flat_opt_num(o).drop_last().drop_last() =~= Seq::<FlatView>::empty()); },
        Some(_) => { assert(flat_opt_num(o).drop_last().drop_last() =~= Seq::<FlatView>::empty()); },
    }
    match s {
        None => {
            assert(flat_opt_string(s).drop_last().drop_last().drop_last() =~= Seq::<FlatView>::empty());
        },
        Some(_) => { assert(flat_opt_string(s).drop_last().drop_last() =~= Seq::<FlatView>::empty()); },
    }
}

/// How many core values the payload of an error code takes.
pub open spec fn payload_width(e: ErrorCode) -> nat {
    match e {
        ErrorCode::DnsError(_) => 5,
        ErrorCode::TlsAlertReceived(_) => 5,
        ErrorCode::HttpRequestBodySize(_) => 2,
        ErrorCode::HttpRequestHeaderSectionSize(_) => 2,
        ErrorCode::HttpRequestHeaderSize(_) => 6,
        ErrorCode::HttpRequestTrailerSectionSize(_) => 2,
        ErrorCode::HttpRequestTrailerSize(_) => 5,
        ErrorCode::HttpResponseHeaderSectionSize(_) => 2,
        ErrorCode::HttpResponseHeaderSize(_) => 5,
        ErrorCode::HttpResponseBodySize(_) => 2,
        ErrorCode::HttpResponseTrailerSectionSize(_) => 2,
        ErrorCode::HttpResponseTrailerSize(_) => 5,
        ErrorCode::HttpResponseTransferCoding(_) => 3,
        ErrorCode::HttpResponseContentCoding(_) => 3,
        ErrorCode::InternalError(_) => 3,
        _ => 0,
    }
}

proof fn lemma_field_size_width(f: FieldSizePayload)
    ensures
        core_width(flat_field_size(f)) == 5,
{
    lemma_small_widths(opt_u32(f.field_size), opt_view(f.field_name));
    lemma_core_width_append(flat_opt_string(opt_view(f.field_name)), flat_opt_num(opt_u32(f.field_size)));
}

proof fn lemma_payload_width(e: ErrorCode)
    ensures
        core_width(flat_error_payload(e)) == payload_width(e),
{
    match e {
        ErrorCode::DnsError(d) => {
            lemma_small_widths(opt_u16(d.info_code), opt_view(d.rcode));
            lemma_core_width_append(flat_opt_string(opt_view(d.rcode)), flat_opt_num(opt_u16(d.info_code)));
        },
        ErrorCode::TlsAlertReceived(t) => {
            lemma_small_widths(opt_u8(t.alert_id), opt_view(t.alert_message));
            lemma_core_width_append(flat_opt_num(opt_u8(t.alert_id)), flat_opt_string(opt_view(t.alert_message)));
        },
        ErrorCode::HttpRequestHeaderSize(p) => match p {
            None => lemma_core_width_zeros(6),
            Some(f) => {
                lemma_field_size_width(f);
                lemma_core_width_append(seq![FlatView::Int(1)], flat_field_size(f));
                reveal_with_fuel(core_width, 2);
            },
        },
        ErrorCode::HttpRequestTrailerSize(f) => lemma_field_size_width(f),
        ErrorCode::HttpResponseHeaderSize(f) => lemma_field_size_width(f),
        ErrorCode::HttpResponseTrailerSize(f) => lemma_field_size_width(f),
        ErrorCode::HttpRequestBodySize(x) => lemma_small_widths(opt_u64(x), None),
        ErrorCode::HttpResponseBodySize(x) => lemma_small_widths(opt_u64(x), None),
        ErrorCode::HttpRequestHeaderSectionSize(x) => lemma_small_widths(opt_u32(x), None),
        ErrorCode::HttpRequestTrailerSectionSize(x) => lemma_small_widths(opt_u32(x), None),
        ErrorCode::HttpResponseHeaderSectionSize(x) => lemma_small_widths(opt_u32(x), None),
        ErrorCode::HttpResponseTrailerSectionSize(x) => lemma_small_widths(opt_u32(x), None),
        ErrorCode::HttpResponseTransferCoding(x) => lemma_small_widths(None, opt_view(x)),
        ErrorCode::HttpResponseContentCoding(x) => lemma_small_widths(None, opt_view(x)),
        ErrorCode::InternalError(x) => lemma_small_widths(None, opt_view(x)),
        _ => {},
    }
}

/// Every error code flattens to seven core values: its discriminant and six
/// payload values.
pub proof fn lemma_error_code_width(e: ErrorCode)
    ensures
        core_width(flat_error_code(e)) == 7,
{
    let p = flat_error_payload(e);
    lemma_payload_width(e);
    let head = seq![FlatView::Int(error_code_discriminant(&e) as nat)];
    lemma_core_width_append(head, p);
    lemma_core_width_append(head + p, zeros((6 - core_width(p)) as nat));
    lemma_core_width_zeros((6 - core_width(p)) as nat);
    reveal_with_fuel(core_width, 2);
}

proof fn lemma_flat_push(v: Seq<FlatValue>, x: FlatValue)
    ensures
        flat_views(v.push(x)) == flat_views(v).push(x@),
{
    assert(flat_views(v.push(x)) =~= flat_views(v).push(x@));
}

fn push_zeros(out: &mut Vec<FlatValue>, n: usize)
    ensures
        flat_views(final(out)@) == flat_views(old(out)@) + zeros(n as nat),
{
    let ghost start = flat_views(out@);
    let mut i: usize = 0;
    while i < n
        invariant
            i <= n,
            flat_views(out@) == start + zeros(i as nat),
        decreases n - i,
    {
        let ghost prev = out@;
        out.push(FlatValue::Int(0));
        proof {
            lemma_flat_push(prev, FlatValue::Int(0));
        }
        i = i + 1;
        assert(flat_views(out@) =~= start + zeros(i as nat));
    }
}

fn push_opt_string(out: &mut Vec<FlatValue>, o: &Option<String>)
    ensures
        flat_views(final(out)@) == flat_views(old(out)@) + flat_opt_string(opt_view(*o)),
{
    let ghost start = flat_views(out@);
    match o {
        None => {
            out.push(FlatValue::Int(0));
            out.push(FlatValue::Int(0));
            out.push(FlatValue::Int(0));
        },
        Some(s) => {
            out.push(FlatValue::Int(1));
            out.push(FlatValue::Str(s.clone()));
        },
    }
    assert(flat_views(out@) =~= start + flat_opt_string(opt_view(*o)));
}

fn push_opt_num(out: &mut Vec<FlatValue>, o: Option<u64>)
    ensures
        flat_views(final(out)@) == flat_views(old(out)@) + flat_opt_num(opt_u64(o)),
{
    let ghost start = flat_views(out@);
    match o {
        None => {
            out.push(FlatValue::Int(0));
            out.push(FlatValue::Int(0));
        },
        Some(x) => {
            out.push(FlatValue::Int(1));
            out.push(FlatValue::Int(x));
        },
    }
    assert(flat_views(out@) =~= start + flat_opt_num(opt_u64(o)));
}

fn widen_u8(o: Option<u8>) -> (r: Option<u64>)
    ensures
        opt_u64(r) == opt_u8(o),
{
    match o { None => None, Some(x) => Some(x as u64) }
}

fn widen_u16(o: Option<u16>) -> (r: Option<u64>)
    ensures
        opt_u64(r) == opt_u16(o),
{
    match o { None => None, Some(x) => Some(x as u64) }
}

fn widen_u32(o: Option<u32>) -> (r: Option<u64>)
    ensures
        opt_u64(r) == opt_u32(o),
{
    match o { None => None, Some(x) => Some(x as u64) }
}

fn push_field_size(out: &mut Vec<FlatValue>, f: &FieldSizePayload)
    ensures
        flat_views(final(out)@) == flat_views(old(out)@) + flat_field_size(*f),
{
    let ghost start = flat_views(out@);
    push_opt_string(out, &f.field_name);
    push_opt_num(out, widen_u32(f.field_size));
    assert(flat_views(out@) =~= start + flat_field_size(*f));
}

/// Appends the flattened error code `e` to `out`.
pub fn push_error_code(out: &mut Vec<FlatValue>, e: &ErrorCode)
    ensures
        flat_views(final(out)@) == flat_views(old(out)@) + flat_error_code(*e),
{
    let ghost start = flat_views(out@);
    let d = e.discriminant();
    out.push(FlatValue::Int(d as u64));
    let ghost after_head = flat_views(out@);
    assert(after_head =~= start + seq![FlatView::Int(error_code_discriminant(e) as nat)]);
    let used: usize = match e {
        ErrorCode::DnsError(p) => {
            push_opt_string(out, &p.rcode);
            push_opt_num(out, widen_u16(p.info_code));
            5
        },
        ErrorCode::TlsAlertReceived(p) => {
            push_opt_num(out, widen_u8(p.alert_id));
            push_opt_string(out, &p.alert_message);
            5
        },
        ErrorCode::HttpRequestBodySize(p) => {
            push_opt_num(out, *p);
            2
        },
        ErrorCode::HttpRequestHeaderSectionSize(p) => {
            push_opt_num(out, widen_u32(*p));
            2
        },
        ErrorCode::HttpRequestHeaderSize(p) => {
            match p {
                None => push_zeros(out, 6),
                Some(f) => {
                    out.push(FlatValue::Int(1));
                    push_field_size(out, f);
                },
            }
            6
        },
        ErrorCode::HttpRequestTrailerSectionSize(p) => {
            push_opt_num(out, widen_u32(*p));
            2
        },
        ErrorCode::HttpRequestTrailerSize(f) => {
            push_field_size(out, f);
            5
        },
        ErrorCode::HttpResponseHeaderSectionSize(p) => {
            push_opt_num(out, widen_u32(*p));
            2
        },
        ErrorCode::HttpResponseHeaderSize(f) => {
            push_field_size(out, f);
            5
        },
        ErrorCode::HttpResponseBodySize(p) => {
            push_opt_num(out, *p);
            2
        },
        ErrorCode::HttpResponseTrailerSectionSize(p) => {
            push_opt_num(out, widen_u32(*p));
            2
        },
        ErrorCode::HttpResponseTrailerSize(f) => {
            push_field_size(out, f);
            5
        },
        ErrorCode::HttpResponseTransferCoding(p) => {
            push_opt_string(out, p);
            3
        },
        ErrorCode::HttpResponseContentCoding(p) => {
            push_opt_string(out, p);
            3
        },
        ErrorCode::InternalError(p) => {
            push_opt_string(out, p);
            3
        },
        _ => 0,
    };
    proof {
        lemma_payload_width(*e);
        assert(flat_views(out@) =~= after_head + flat_error_payload(*e));
        assert(used == payload_width(*e));
    }
    push_zeros(out, 6 - used);
    assert(flat_views(out@) =~= start + flat_error_code(*e));
}

/// The flattened arguments of `outgoing-request.set-method`: the method's
/// discriminant, then its name for a method outside the list (or a null
/// address and zero).
pub open spec fn flat_method(m: Method) -> Seq<FlatView> {
    match m {
        Method::Get => seq![FlatView::Int(0), FlatView::Int(0), FlatView::Int(0)],
        Method::Head => seq![FlatView::Int(1), FlatView::Int(0), FlatView::Int(0)],
        Method::Post => seq![FlatView::Int(2), FlatView::Int(0), FlatView::Int(0)],
        Method::Put => seq![FlatView::Int(3), FlatView::Int(0), FlatView::Int(0)],
        Method::Delete => seq![FlatView::Int(4), FlatView::Int(0), FlatView::Int(0)],
        Method::Connect => seq![FlatView::Int(5), FlatView::Int(0), FlatView::Int(0)],
        Method::Options => seq![FlatView::Int(6), FlatView::Int(0), FlatView::Int(0)],
        Method::Trace => seq![FlatView::Int(7), FlatView::Int(0), FlatView::Int(0)],
        Method::Patch => seq![FlatView::Int(8), FlatView::Int(0), FlatView::Int(0)],
        Method::Other(s) => seq![FlatView::Int(9), FlatView::Str(s@)],
    }
}

/// The discriminant a method is flattened with is the one it is lifted
/// from: a return area holding that discriminant (and, for a method outside
/// the list, its name) holds the same method, and the discriminant of a
/// lifted method is the one it is flattened with.
pub proof fn lemma_method_lowering_matches_lifting(m: Method, area: Seq<u8>, mem: Seq<u8>, base: int)
    requires
        12 <= area.len(),
    ensures
        flat_method(m)[0] == FlatView::Int(area[0] as nat) && (m matches Method::Other(n)
            ==> string_at(area, 4, mem, base) == Some(n@)) ==> encodes_method(area, mem, base, m),
        encodes_method(area, mem, base, m) ==> flat_method(m)[0] == FlatView::Int(area[0] as nat),
{
}

/// Flattens a method.
pub fn lower_method(m: &Method) -> (v: Vec<FlatValue>)
    ensures
        flat_views(v@) == flat_method(*m),
{
    let d: u64 = match m {
        Method::Get => 0,
        Method::Head => 1,
        Method::Post => 2,
        Method::Put => 3,
        Method::Delete => 4,
        Method::Connect => 5,
        Method::Options => 6,
        Method::Trace => 7,
        Method::Patch => 8,
        Method::Other(_) => 9,
    };
    let mut v: Vec<FlatValue> = Vec::new();
    v.push(FlatValue::Int(d));
    match m {
        Method::Other(s) => v.push(FlatValue::Str(s.clone())),
        _ => {
            v.push(FlatValue::Int(0));
            v.push(FlatValue::Int(0));
        },
    }
    assert(flat_views(v@) =~= flat_method(*m));
    v
}

/// The flattened arguments of `outgoing-request.set-scheme`: a tag, then the
/// scheme's discriminant and its name for a scheme outside the list.
pub open spec fn flat_opt_scheme(o: Option<Scheme>) -> Seq<FlatView> {
    match o {
        None => seq![FlatView::Int(0), FlatView::Int(0), FlatView::Int(0), FlatView::Int(0)],
        Some(Scheme::Http) => seq![FlatView::Int(1), FlatView::Int(0), FlatView::Int(0), FlatView::Int(0)],
        Some(Scheme::Https) => seq![FlatView::Int(1), FlatView::Int(1), FlatView::Int(0), FlatView::Int(0)],
        Some(Scheme::Other(s)) => seq![FlatView::Int(1), FlatView::Int(2), FlatView::Str(s@)],
    }
}

/// The tag and discriminant an optional scheme is flattened with are the
/// ones it is lifted from, in both directions (see
/// [`lemma_method_lowering_matches_lifting`]).
pub proof fn lemma_scheme_lowering_matches_lifting(o: Option<Scheme>, area: Seq<u8>, mem: Seq<u8>, base: int)
    requires
        16 <= area.len(),
    ensures
        flat_opt_scheme(o)[0] == FlatView::Int(area[0] as nat) && (o is Some ==> flat_opt_scheme(o)[1]
            == FlatView::Int(area[4] as nat)) && (o matches Some(Scheme::Other(n)) ==> string_at(
            area,
            8,
            mem,
            base,
        ) == Some(n@)) ==> encodes_opt_scheme(area, mem, base, o),
        encodes_opt_scheme(area, mem, base, o) ==> flat_opt_scheme(o)[0] == FlatView::Int(
            area[0] as nat,
        ) && (o is Some ==> flat_opt_scheme(o)[1] == FlatView::Int(area[4] as nat)),
{
}

/// Flattens an optional scheme.
pub fn lower_opt_scheme(o: Option<&Scheme>) -> (v: Vec<FlatValue>)
    ensures
        flat_views(v@) == flat_opt_scheme(match o { None => None, Some(s) => Some(*s) }),
{
    let mut v: Vec<FlatValue> = Vec::new();
    match o {
        None => {
            v.push(FlatValue::Int(0));
            v.push(FlatValue::Int(0));
            v.push(FlatValue::Int(0));
            v.push(FlatValue::Int(0));
        },
        Some(Scheme::Http) => {
            v.push(FlatValue::Int(1));
            v.push(FlatValue::Int(0));
            v.push(FlatValue::Int(0));
            v.push(FlatValue::Int(0));
        },
        Some(Scheme::Https) => {
            v.push(FlatValue::Int(1));
            v.push(FlatValue::Int(1));
            v.push(FlatValue::Int(0));
            v.push(FlatValue::Int(0));
        },
        Some(Scheme::Other(s)) => {
            v.push(FlatValue::Int(1));
            v.push(FlatValue::Int(2));
            v.push(FlatValue::Str(s.clone()));
        },
    }
    assert(flat_views(v@) =~= flat_opt_scheme(match o { None => None, Some(s) => Some(*s) }));
    v
}

/// Flattens an optional string argument, such as the path of
/// `outgoing-request.set-path-with-query`.
pub fn lower_opt_str(o: Option<&str>) -> (v: Vec<FlatValue>)
    ensures
        flat_views(v@) == flat_opt_string(match o { None => None, Some(s) => Some(s@) }),
{
    let mut v: Vec<FlatValue> = Vec::new();
    match o {
        None => {
            v.push(FlatValue::Int(0));
            v.push(FlatValue::Int(0));
            v.push(FlatValue::Int(0));
        },
        Some(s) => {
            v.push(FlatValue::Int(1));
            v.push(FlatValue::Str(s.to_owned()));
        },
    }
    assert(flat_views(v@) =~= flat_opt_string(match o { None => None, Some(s) => Some(s@) }));
    v
}

/// Flattens an optional duration, such as the timeout of
/// `request-options.set-connect-timeout`.
pub fn lower_opt_duration(o: Option<u64>) -> (v: Vec<FlatValue>)
    ensures
        flat_views(v@) == flat_opt_num(opt_u64(o)),
{
    let mut v: Vec<FlatValue> = Vec::new();
    push_opt_num(&mut v, o);
    assert(flat_views(Seq::<FlatValue>::empty()) =~= Seq::<FlatView>::empty());
    assert(flat_views(v@) =~= flat_opt_num(opt_u64(o)));
    v
}

/// The arguments of `outgoing-handler.handle`: the handle of the request,
/// which is handed on, then a tag (0 or 1) and the handle of the options,
/// handed on too when there are options (zero otherwise).
pub fn handle_arguments(request: OutgoingRequest, options: Option<RequestOptions>) -> (r: (u32, u32, u32))
    ensures
        r.0 == request.spec_handle(),
        options is None ==> r.1 == 0 && r.2 == 0,
        options matches Some(o) ==> r.1 == 1 && r.2 == o.spec_handle(),
{
    let mut request = request;
    let h = request.take_handle();
    match options {
        Some(o) => {
            let mut o = o;
            (h, 1, o.take_handle())
        },
        None => (h, 0, 0),
    }
}

impl OutgoingBody {
    /// The arguments of `outgoing-body.finish`: the handle of the body,
    /// which is handed on, then a tag (0 or 1) and the handle of the
    /// trailers, handed on too when there are trailers (zero otherwise).
    pub fn finish_arguments(this: OutgoingBody, trailers: Option<Fields>) -> (r: (u32, u32, u32))
        ensures
            r.0 == this.spec_handle(),
            trailers is None ==> r.1 == 0 && r.2 == 0,
            trailers matches Some(t) ==> r.1 == 1 && r.2 == t.spec_handle(),
    {
        let mut this = this;
        let h = this.take_handle();
        match trailers {
            Some(t) => {
                let mut t = t;
                (h, 1, t.take_handle())
            },
            None => (h, 0, 0),
        }
    }
}

impl ResponseOutparam {
    /// The arguments of `response-outparam.set`: the handle of the out-param,
    /// which is handed on, and the flattened response, whose handle is
    /// handed on too when it is one.
    pub fn set_arguments(param: ResponseOutparam, response: Result<OutgoingResponse, ErrorCode>) -> (r: (u32, Vec<FlatValue>))
        ensures
            r.0 == param.spec_handle(),
            flat_views(r.1@) == flat_response(match response {
                Ok(o) => Ok(o.spec_handle()),
                Err(e) => Err(e),
            }),
            core_width(flat_views(r.1@)) == 8,
    {
        let mut param = param;
        let h = param.take_handle();
        let mut v: Vec<FlatValue> = Vec::new();
        assert(flat_views(v@) =~= Seq::<FlatView>::empty());
        match response {
            Ok(o) => {
                let mut o = o;
                let rh = o.take_handle();
                v.push(FlatValue::Int(0));
                v.push(FlatValue::Int(rh as u64));
                push_zeros(&mut v, 6);
                assert(flat_views(v@) =~= seq![FlatView::Int(0), FlatView::Int(rh as nat)] + zeros(6));
                proof {
                    lemma_core_width_append(seq![FlatView::Int(0), FlatView::Int(rh as nat)], zeros(6));
                    lemma_core_width_zeros(6);
                    reveal_with_fuel(core_width, 3);
                }
            },
            Err(e) => {
                v.push(FlatValue::Int(1));
                push_error_code(&mut v, &e);
                assert(flat_views(v@) =~= seq![FlatView::Int(1)] + flat_error_code(e));
                proof {
                    lemma_error_code_width(e);
                    lemma_core_width_append(seq![FlatView::Int(1)], flat_error_code(e));
                    reveal_with_fuel(core_width, 2);
                }
            },
        }
        (h, v)
    }
}

} // verus!
