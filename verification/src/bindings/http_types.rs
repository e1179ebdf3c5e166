//! Data types of the `wasi:http/types` interface and their debug text.
use vstd::prelude::*;
use vstd::string::StringExecFns;

use super::fmt::{
    debug_str, opt_str_debug, opt_u32_debug, opt_u64_debug, opt_u8_debug, opt_u16_debug,
    push_opt_str, push_opt_u16, push_opt_u32, push_opt_u64, push_opt_u8, push_str_debug,
};

verus! {

/// The method of an HTTP request.
#[derive(Clone, Debug)]
pub enum Method {
    Get,
    Head,
    Post,
    Put,
    Delete,
    Connect,
    Options,
    Trace,
    Patch,
    Other(String),
}

/// The debug text of a method, such as `Method::Get`.
pub open spec fn method_debug(m: &Method) -> Seq<char> {
    match m {
        Method::Get => "Method::Get"@,
        Method::Head => "Method::Head"@,
        Method::Post => "Method::Post"@,
        Method::Put => "Method::Put"@,
        Method::Delete => "Method::Delete"@,
        Method::Connect => "Method::Connect"@,
        Method::Options => "Method::Options"@,
        Method::Trace => "Method::Trace"@,
        Method::Patch => "Method::Patch"@,
        Method::Other(s) => "Method::Other("@ + debug_str(s@) + ")"@,
    }
}

impl Method {
    /// The debug text of the method (see [`method_debug`]).
    pub fn debug_string(&self) -> (s: String)
        ensures
            s@ == method_debug(self),
    {
        let mut out = String::new();
        match self {
            Method::Get => out.append("Method::Get"),
            Method::Head => out.append("Method::Head"),
            Method::Post => out.append("Method::Post"),
            Method::Put => out.append("Method::Put"),
            Method::Delete => out.append("Method::Delete"),
            Method::Connect => out.append("Method::Connect"),
            Method::Options => out.append("Method::Options"),
            Method::Trace => out.append("Method::Trace"),
            Method::Patch => out.append("Method::Patch"),
            Method::Other(s) => {
                out.append("Method::Other(");
                push_str_debug(&mut out, s.as_str());
                out.append(")");
            },
        }
        out
    }
}

/// The scheme of an HTTP request.
#[derive(Clone, Debug)]
pub enum Scheme {
    Http,
    Https,
    Other(String),
}

/// The debug text of a scheme, such as `Scheme::Https`.
pub open spec fn scheme_debug(s: &Scheme) -> Seq<char> {
    match s {
        Scheme::Http => "Scheme::Http"@,
        Scheme::Https => "Scheme::Https"@,
        Scheme::Other(o) => "Scheme::Other("@ + debug_str(o@) + ")"@,
    }
}

impl Scheme {
    /// The debug text of the scheme (see [`scheme_debug`]).
    pub fn debug_string(&self) -> (s: String)
        ensures
            s@ == scheme_debug(self),
    {
        let mut out = String::new();
        match self {
            Scheme::Http => out.append("Scheme::Http"),
            Scheme::Https => out.append("Scheme::Https"),
            Scheme::Other(o) => {
                out.append("Scheme::Other(");
                push_str_debug(&mut out, o.as_str());
                out.append(")");
            },
        }
        out
    }
}

/// Details of a DNS error.
#[derive(Clone, Debug)]
pub struct DnsErrorPayload {
    pub rcode: Option<String>,
    pub info_code: Option<u16>,
}

/// Details of a TLS alert.
#[derive(Clone, Debug)]
pub struct TlsAlertReceivedPayload {
    pub alert_id: Option<u8>,
    pub alert_message: Option<String>,
}

/// Details of an oversized field.
#[derive(Clone, Debug)]
pub struct FieldSizePayload {
    pub field_name: Option<String>,
    pub field_size: Option<u32>,
}

/// `DnsErrorPayload { rcode: .., info-code: .. }`
pub open spec fn dns_payload_debug(p: &DnsErrorPayload) -> Seq<char> {
    "DnsErrorPayload { rcode: "@ + opt_str_debug(&p.rcode) + ", info-code: "@ + opt_u16_debug(
        p.info_code,
    ) + " }"@
}

/// `TlsAlertReceivedPayload { alert-id: .., alert-message: .. }`
pub open spec fn tls_payload_debug(p: &TlsAlertReceivedPayload) -> Seq<char> {
    "TlsAlertReceivedPayload { alert-id: "@ + opt_u8_debug(p.alert_id) + ", alert-message: "@
        + opt_str_debug(&p.alert_message) + " }"@
}

/// `FieldSizePayload { field-name: .., field-size: .. }`
pub open spec fn field_size_debug(p: &FieldSizePayload) -> Seq<char> {
    "FieldSizePayload { field-name: "@ + opt_str_debug(&p.field_name) + ", field-size: "@
        + opt_u32_debug(p.field_size) + " }"@
}

/// `None` or `Some(FieldSizePayload { .. })`
pub open spec fn opt_field_size_debug(p: &Option<FieldSizePayload>) -> Seq<char> {
    match p {
        None => "None"@,
        Some(f) => "Some("@ + field_size_debug(f) + ")"@,
    }
}

fn push_dns_payload(out: &mut String, p: &DnsErrorPayload)
    ensures
        final(out)@ == old(out)@ + dns_payload_debug(p),
{
    out.append("DnsErrorPayload { rcode: ");
    push_opt_str(out, &p.rcode);
    out.append(", info-code: ");
    push_opt_u16(out, p.info_code);
    out.append(" }");
    assert(out@ =~= old(out)@ + dns_payload_debug(p));
}

fn push_tls_payload(out: &mut String, p: &TlsAlertReceivedPayload)
    ensures
        final(out)@ == old(out)@ + tls_payload_debug(p),
{
    out.append("TlsAlertReceivedPayload { alert-id: ");
    push_opt_u8(out, p.alert_id);
    out.append(", alert-message: ");
    push_opt_str(out, &p.alert_message);
    out.append(" }");
    assert(out@ =~= old(out)@ + tls_payload_debug(p));
}

fn push_field_size(out: &mut String, p: &FieldSizePayload)
    ensures
        final(out)@ == old(out)@ + field_size_debug(p),
{
    out.append("FieldSizePayload { field-name: ");
    push_opt_str(out, &p.field_name);
    out.append(", field-size: ");
    push_opt_u32(out, p.field_size);
    out.append(" }");
    assert(out@ =~= old(out)@ + field_size_debug(p));
}

fn push_opt_field_size(out: &mut String, p: &Option<FieldSizePayload>)
    ensures
        final(out)@ == old(out)@ + opt_field_size_debug(p),
{
    match p {
        None => out.append("None"),
        Some(f) => {
            out.append("Some(");
            push_field_size(out, f);
            out.append(")");
            assert(out@ =~= old(out)@ + opt_field_size_debug(p));
        },
    }
}

/// Why an HTTP operation failed.
#[derive(Clone, Debug)]
pub enum ErrorCode {
    DnsTimeout,
    DnsError(DnsErrorPayload),
    DestinationNotFound,
    DestinationUnavailable,
    DestinationIpProhibited,
    DestinationIpUnroutable,
    ConnectionRefused,
    ConnectionTerminated,
    ConnectionTimeout,
    ConnectionReadTimeout,
    ConnectionWriteTimeout,
    ConnectionLimitReached,
    TlsProtocolError,
    TlsCertificateError,
    TlsAlertReceived(TlsAlertReceivedPayload),
    HttpRequestDenied,
    HttpRequestLengthRequired,
    HttpRequestBodySize(Option<u64>),
    HttpRequestMethodInvalid,
    HttpRequestUriInvalid,
    HttpRequestUriTooLong,
    HttpRequestHeaderSectionSize(Option<u32>),
    HttpRequestHeaderSize(Option<FieldSizePayload>),
    HttpRequestTrailerSectionSize(Option<u32>),
    HttpRequestTrailerSize(FieldSizePayload),
    HttpResponseIncomplete,
    HttpResponseHeaderSectionSize(Option<u32>),
    HttpResponseHeaderSize(FieldSizePayload),
    HttpResponseBodySize(Option<u64>),
    HttpResponseTrailerSectionSize(Option<u32>),
    HttpResponseTrailerSize(FieldSizePayload),
    HttpResponseTransferCoding(Option<String>),
    HttpResponseContentCoding(Option<String>),
    HttpResponseTimeout,
    HttpUpgradeFailed,
    HttpProtocolError,
    LoopDetected,
    ConfigurationError,
    InternalError(Option<String>),
}

/// The discriminant of each error code in the component model's encoding.
pub open spec fn error_code_discriminant(e: &ErrorCode) -> u8 {
    match e {
        ErrorCode::DnsTimeout => 0,
        ErrorCode::DnsError(_) => 1,
        ErrorCode::DestinationNotFound => 2,
        ErrorCode::DestinationUnavailable => 3,
        ErrorCode::DestinationIpProhibited => 4,
        ErrorCode::DestinationIpUnroutable => 5,
        ErrorCode::ConnectionRefused => 6,
        ErrorCode::ConnectionTerminated => 7,
        ErrorCode::ConnectionTimeout => 8,
        ErrorCode::ConnectionReadTimeout => 9,
        ErrorCode::ConnectionWriteTimeout => 10,
        ErrorCode::ConnectionLimitReached => 11,
        ErrorCode::TlsProtocolError => 12,
        ErrorCode::TlsCertificateError => 13,
        ErrorCode::TlsAlertReceived(_) => 14,
        ErrorCode::HttpRequestDenied => 15,
        ErrorCode::HttpRequestLengthRequired => 16,
        ErrorCode::HttpRequestBodySize(_) => 17,
        ErrorCode::HttpRequestMethodInvalid => 18,
        ErrorCode::HttpRequestUriInvalid => 19,
        ErrorCode::HttpRequestUriTooLong => 20,
        ErrorCode::HttpRequestHeaderSectionSize(_) => 21,
        ErrorCode::HttpRequestHeaderSize(_) => 22,
        ErrorCode::HttpRequestTrailerSectionSize(_) => 23,
        ErrorCode::HttpRequestTrailerSize(_) => 24,
        ErrorCode::HttpResponseIncomplete => 25,
        ErrorCode::HttpResponseHeaderSectionSize(_) => 26,
        ErrorCode::HttpResponseHeaderSize(_) => 27,
        ErrorCode::HttpResponseBodySize(_) => 28,
        ErrorCode::HttpResponseTrailerSectionSize(_) => 29,
        ErrorCode::HttpResponseTrailerSize(_) => 30,
        ErrorCode::HttpResponseTransferCoding(_) => 31,
        ErrorCode::HttpResponseContentCoding(_) => 32,
        ErrorCode::HttpResponseTimeout => 33,
        ErrorCode::HttpUpgradeFailed => 34,
        ErrorCode::HttpProtocolError => 35,
        ErrorCode::LoopDetected => 36,
        ErrorCode::ConfigurationError => 37,
        ErrorCode::InternalError(_) => 38,
    }
}

/// The debug text of an error code, such as `ErrorCode::DnsTimeout` or
/// `ErrorCode::HttpRequestBodySize(Some(10))`; it is also its display text.
pub open spec fn error_code_debug(e: &ErrorCode) -> Seq<char> {
    match e {
        ErrorCode::DnsTimeout => "ErrorCode::DnsTimeout"@,
        ErrorCode::DnsError(p) => "ErrorCode::DnsError("@ + dns_payload_debug(p) + ")"@,
        ErrorCode::DestinationNotFound => "ErrorCode::DestinationNotFound"@,
        ErrorCode::DestinationUnavailable => "ErrorCode::DestinationUnavailable"@,
        ErrorCode::DestinationIpProhibited => "ErrorCode::DestinationIpProhibited"@,
        ErrorCode::DestinationIpUnroutable => "ErrorCode::DestinationIpUnroutable"@,
        ErrorCode::ConnectionRefused => "ErrorCode::ConnectionRefused"@,
        ErrorCode::ConnectionTerminated => "ErrorCode::ConnectionTerminated"@,
        ErrorCode::ConnectionTimeout => "ErrorCode::ConnectionTimeout"@,
        ErrorCode::ConnectionReadTimeout => "ErrorCode::ConnectionReadTimeout"@,
        ErrorCode::ConnectionWriteTimeout => "ErrorCode::ConnectionWriteTimeout"@,
        ErrorCode::ConnectionLimitReached => "ErrorCode::ConnectionLimitReached"@,
        ErrorCode::TlsProtocolError => "ErrorCode::TlsProtocolError"@,
        ErrorCode::TlsCertificateError => "ErrorCode::TlsCertificateError"@,
        ErrorCode::TlsAlertReceived(p) => "ErrorCode::TlsAlertReceived("@ + tls_payload_debug(p) + ")"@,
        ErrorCode::HttpRequestDenied => "ErrorCode::HttpRequestDenied"@,
        ErrorCode::HttpRequestLengthRequired => "ErrorCode::HttpRequestLengthRequired"@,
        ErrorCode::HttpRequestBodySize(p) => "ErrorCode::HttpRequestBodySize("@ + opt_u64_debug(*p) + ")"@,
        ErrorCode::HttpRequestMethodInvalid => "ErrorCode::HttpRequestMethodInvalid"@,
        ErrorCode::HttpRequestUriInvalid => "ErrorCode::HttpRequestUriInvalid"@,
        ErrorCode::HttpRequestUriTooLong => "ErrorCode::HttpRequestUriTooLong"@,
        ErrorCode::HttpRequestHeaderSectionSize(p) => "ErrorCode::HttpRequestHeaderSectionSize("@ + opt_u32_debug(*p) + ")"@,
        ErrorCode::HttpRequestHeaderSize(p) => "ErrorCode::HttpRequestHeaderSize("@ + opt_field_size_debug(p) + ")"@,
        ErrorCode::HttpRequestTrailerSectionSize(p) => "ErrorCode::HttpRequestTrailerSectionSize("@ + opt_u32_debug(*p) + ")"@,
        ErrorCode::HttpRequestTrailerSize(p) => "ErrorCode::HttpRequestTrailerSize("@ + field_size_debug(p) + ")"@,
        ErrorCode::HttpResponseIncomplete => "ErrorCode::HttpResponseIncomplete"@,
        ErrorCode::HttpResponseHeaderSectionSize(p) => "ErrorCode::HttpResponseHeaderSectionSize("@ + opt_u32_debug(*p) + ")"@,
        ErrorCode::HttpResponseHeaderSize(p) => "ErrorCode::HttpResponseHeaderSize("@ + field_size_debug(p) + ")"@,
        ErrorCode::HttpResponseBodySize(p) => "ErrorCode::HttpResponseBodySize("@ + opt_u64_debug(*p) + ")"@,
        ErrorCode::HttpResponseTrailerSectionSize(p) => "ErrorCode::HttpResponseTrailerSectionSize("@ + opt_u32_debug(*p) + ")"@,
        ErrorCode::HttpResponseTrailerSize(p) => "ErrorCode::HttpResponseTrailerSize("@ + field_size_debug(p) + ")"@,
        ErrorCode::HttpResponseTransferCoding(p) => "ErrorCode::HttpResponseTransferCoding("@ + opt_str_debug(p) + ")"@,
        ErrorCode::HttpResponseContentCoding(p) => "ErrorCode::HttpResponseContentCoding("@ + opt_str_debug(p) + ")"@,
        ErrorCode::HttpResponseTimeout => "ErrorCode::HttpResponseTimeout"@,
        ErrorCode::HttpUpgradeFailed => "ErrorCode::HttpUpgradeFailed"@,
        ErrorCode::HttpProtocolError => "ErrorCode::HttpProtocolError"@,
        ErrorCode::LoopDetected => "ErrorCode::LoopDetected"@,
        ErrorCode::ConfigurationError => "ErrorCode::ConfigurationError"@,
        ErrorCode::InternalError(p) => "ErrorCode::InternalError("@ + opt_str_debug(p) + ")"@,
    }
}

impl ErrorCode {
    /// The discriminant of the error code in the component model's encoding.
    pub fn discriminant(&self) -> (d: u8)
        ensures
            d == error_code_discriminant(self),
            d < 39,
    {
        match self {
            ErrorCode::DnsTimeout => 0,
            ErrorCode::DnsError(_) => 1,
            ErrorCode::DestinationNotFound => 2,
            ErrorCode::DestinationUnavailable => 3,
            ErrorCode::DestinationIpProhibited => 4,
            ErrorCode::DestinationIpUnroutable => 5,
            ErrorCode::ConnectionRefused => 6,
            ErrorCode::ConnectionTerminated => 7,
            ErrorCode::ConnectionTimeout => 8,
            ErrorCode::ConnectionReadTimeout => 9,
            ErrorCode::ConnectionWriteTimeout => 10,
            ErrorCode::ConnectionLimitReached => 11,
            ErrorCode::TlsProtocolError => 12,
            ErrorCode::TlsCertificateError => 13,
            ErrorCode::TlsAlertReceived(_) => 14,
            ErrorCode::HttpRequestDenied => 15,
            ErrorCode::HttpRequestLengthRequired => 16,
            ErrorCode::HttpRequestBodySize(_) => 17,
            ErrorCode::HttpRequestMethodInvalid => 18,
            ErrorCode::HttpRequestUriInvalid => 19,
            ErrorCode::HttpRequestUriTooLong => 20,
            ErrorCode::HttpRequestHeaderSectionSize(_) => 21,
            ErrorCode::HttpRequestHeaderSize(_) => 22,
            ErrorCode::HttpRequestTrailerSectionSize(_) => 23,
            ErrorCode::HttpRequestTrailerSize(_) => 24,
            ErrorCode::HttpResponseIncomplete => 25,
            ErrorCode::HttpResponseHeaderSectionSize(_) => 26,
            ErrorCode::HttpResponseHeaderSize(_) => 27,
            ErrorCode::HttpResponseBodySize(_) => 28,
            ErrorCode::HttpResponseTrailerSectionSize(_) => 29,
            ErrorCode::HttpResponseTrailerSize(_) => 30,
            ErrorCode::HttpResponseTransferCoding(_) => 31,
            ErrorCode::HttpResponseContentCoding(_) => 32,
            ErrorCode::HttpResponseTimeout => 33,
            ErrorCode::HttpUpgradeFailed => 34,
            ErrorCode::HttpProtocolError => 35,
            ErrorCode::LoopDetected => 36,
            ErrorCode::ConfigurationError => 37,
            ErrorCode::InternalError(_) => 38,
        }
    }

    /// The debug text (see [`error_code_debug`]).
    pub fn debug_string(&self) -> (s: String)
        ensures
            s@ == error_code_debug(self),
    {
        let mut out = String::new();
        match self {
            ErrorCode::DnsTimeout => {
                out.append("ErrorCode::DnsTimeout");
            },
            ErrorCode::DnsError(p) => {
                out.append("ErrorCode::DnsError(");
                push_dns_payload(&mut out, p);
                out.append(")");
            },
            ErrorCode::DestinationNotFound => {
                out.append("ErrorCode::DestinationNotFound");
            },
            ErrorCode::DestinationUnavailable => {
                out.append("ErrorCode::DestinationUnavailable");
            },
            ErrorCode::DestinationIpProhibited => {
                out.append("ErrorCode::DestinationIpProhibited");
            },
            ErrorCode::DestinationIpUnroutable => {
                out.append("ErrorCode::DestinationIpUnroutable");
            },
            ErrorCode::ConnectionRefused => {
                out.append("ErrorCode::ConnectionRefused");
            },
            ErrorCode::ConnectionTerminated => {
                out.append("ErrorCode::ConnectionTerminated");
            },
            ErrorCode::ConnectionTimeout => {
                out.append("ErrorCode::ConnectionTimeout");
            },
            ErrorCode::ConnectionReadTimeout => {
                out.append("ErrorCode::ConnectionReadTimeout");
            },
            ErrorCode::ConnectionWriteTimeout => {
                out.append("ErrorCode::ConnectionWriteTimeout");
            },
            ErrorCode::ConnectionLimitReached => {
                out.append("ErrorCode::ConnectionLimitReached");
            },
            ErrorCode::TlsProtocolError => {
                out.append("ErrorCode::TlsProtocolError");
            },
            ErrorCode::TlsCertificateError => {
                out.append("ErrorCode::TlsCertificateError");
            },
            ErrorCode::TlsAlertReceived(p) => {
                out.append("ErrorCode::TlsAlertReceived(");
                push_tls_payload(&mut out, p);
                out.append(")");
            },
            ErrorCode::HttpRequestDenied => {
                out.append("ErrorCode::HttpRequestDenied");
            },
            ErrorCode::HttpRequestLengthRequired => {
                out.append("ErrorCode::HttpRequestLengthRequired");
            },
            ErrorCode::HttpRequestBodySize(p) => {
                out.append("ErrorCode::HttpRequestBodySize(");
                push_opt_u64(&mut out, *p);
                out.append(")");
            },
            ErrorCode::HttpRequestMethodInvalid => {
                out.append("ErrorCode::HttpRequestMethodInvalid");
            },
            ErrorCode::HttpRequestUriInvalid => {
                out.append("ErrorCode::HttpRequestUriInvalid");
            },
            ErrorCode::HttpRequestUriTooLong => {
                out.append("ErrorCode::HttpRequestUriTooLong");
            },
            ErrorCode::HttpRequestHeaderSectionSize(p) => {
                out.append("ErrorCode::HttpRequestHeaderSectionSize(");
                push_opt_u32(&mut out, *p);
                out.append(")");
            },
            ErrorCode::HttpRequestHeaderSize(p) => {
                out.append("ErrorCode::HttpRequestHeaderSize(");
                push_opt_field_size(&mut out, p);
                out.append(")");
            },
            ErrorCode::HttpRequestTrailerSectionSize(p) => {
                out.append("ErrorCode::HttpRequestTrailerSectionSize(");
                push_opt_u32(&mut out, *p);
                out.append(")");
            },
            ErrorCode::HttpRequestTrailerSize(p) => {
                out.append("ErrorCode::HttpRequestTrailerSize(");
                push_field_size(&mut out, p);
                out.append(")");
            },
            ErrorCode::HttpResponseIncomplete => {
                out.append("ErrorCode::HttpResponseIncomplete");
            },
            ErrorCode::HttpResponseHeaderSectionSize(p) => {
                out.append("ErrorCode::HttpResponseHeaderSectionSize(");
                push_opt_u32(&mut out, *p);
                out.append(")");
            },
            ErrorCode::HttpResponseHeaderSize(p) => {
                out.append("ErrorCode::HttpResponseHeaderSize(");
                push_field_size(&mut out, p);
                out.append(")");
            },
            ErrorCode::HttpResponseBodySize(p) => {
                out.append("ErrorCode::HttpResponseBodySize(");
                push_opt_u64(&mut out, *p);
                out.append(")");
            },
            ErrorCode::HttpResponseTrailerSectionSize(p) => {
                out.append("ErrorCode::HttpResponseTrailerSectionSize(");
                push_opt_u32(&mut out, *p);
                out.append(")");
            },
            ErrorCode::HttpResponseTrailerSize(p) => {
                out.append("ErrorCode::HttpResponseTrailerSize(");
                push_field_size(&mut out, p);
                out.append(")");
            },
            ErrorCode::HttpResponseTransferCoding(p) => {
                out.append("ErrorCode::HttpResponseTransferCoding(");
                push_opt_str(&mut out, p);
                out.append(")");
            },
            ErrorCode::HttpResponseContentCoding(p) => {
                out.append("ErrorCode::HttpResponseContentCoding(");
                push_opt_str(&mut out, p);
                out.append(")");
            },
            ErrorCode::HttpResponseTimeout => {
                out.append("ErrorCode::HttpResponseTimeout");
            },
            ErrorCode::HttpUpgradeFailed => {
                out.append("ErrorCode::HttpUpgradeFailed");
            },
            ErrorCode::HttpProtocolError => {
                out.append("ErrorCode::HttpProtocolError");
            },
            ErrorCode::LoopDetected => {
                out.append("ErrorCode::LoopDetected");
            },
            ErrorCode::ConfigurationError => {
                out.append("ErrorCode::ConfigurationError");
            },
            ErrorCode::InternalError(p) => {
                out.append("ErrorCode::InternalError(");
                push_opt_str(&mut out, p);
                out.append(")");
            },
        }
        assert(out@ =~= error_code_debug(self));
        out
    }

    /// The display text, which is the debug text.
    pub fn to_string(&self) -> (s: String)
        ensures
            s@ == error_code_debug(self),
    {
        self.debug_string()
    }
}

/// Why a header operation was refused.
#[derive(Clone, Copy, Debug)]
pub enum HeaderError {
    InvalidSyntax,
    Forbidden,
    Immutable,
}

/// The debug text of a header error, such as `HeaderError::Forbidden`.
pub open spec fn header_error_debug(e: HeaderError) -> Seq<char> {
    match e {
        HeaderError::InvalidSyntax => "HeaderError::InvalidSyntax"@,
        HeaderError::Forbidden => "HeaderError::Forbidden"@,
        HeaderError::Immutable => "HeaderError::Immutable"@,
    }
}

impl HeaderError {
    /// The debug text, which is also the display text.
    pub fn to_string(&self) -> (s: String)
        ensures
            s@ == header_error_debug(*self),
    {
        let mut out = String::new();
        match self {
            HeaderError::InvalidSyntax => out.append("HeaderError::InvalidSyntax"),
            HeaderError::Forbidden => out.append("HeaderError::Forbidden"),
            HeaderError::Immutable => out.append("HeaderError::Immutable"),
        }
        out
    }
}

} // verus!
