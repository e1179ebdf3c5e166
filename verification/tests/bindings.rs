use avs_toolkit::bindings::abi::{
    lift_error_code, lift_finish_result, lift_handle_result, lift_http_error_code,
    lift_incoming_response_poll, lift_trailers_poll, LiftError,
};
use avs_toolkit::bindings::abi_lower::{
    handle_arguments, lower_method, lower_opt_duration, lower_opt_scheme, lower_opt_str,
    push_error_code, FlatValue,
};
use avs_toolkit::bindings::abi_requests::{
    lift_bool, lift_count_result, lift_field_entries, lift_field_values, lift_fields_result,
    lift_header_result, lift_method, lift_opt_duration, lift_opt_scheme, lift_opt_text,
    lift_read_result, lift_resource_result, lift_stream_unit_result, lift_text, lift_u32_list,
    lift_unit_result, lower_pairs, lower_pollables,
};
use avs_toolkit::bindings::http_resources::{
    Fields, FutureIncomingResponse, OutgoingBody, OutgoingRequest, OutgoingResponse, RequestOptions,
    ResponseOutparam,
};
use avs_toolkit::bindings::http_types::{
    DnsErrorPayload, ErrorCode, FieldSizePayload, HeaderError, Method, Scheme,
};
use avs_toolkit::bindings::io_resources::{Error, Pollable, StreamError};
use avs_toolkit::bindings::rt::{as_i32, as_i64, Resource};

fn put32(a: &mut [u8], off: usize, v: u32) {
    a[off..off + 4].copy_from_slice(&v.to_le_bytes());
}

fn flat_int(v: &FlatValue) -> u64 {
    match v {
        FlatValue::Int(x) => *x,
        FlatValue::Str(s) => panic!("string {s}"),
    }
}

#[test]
fn handles_are_taken_once() {
    let mut r = Resource::from_handle(7);
    assert_eq!(Resource::handle(&r), 7);
    assert_eq!(r.handle_to_release(), Some(7));
    assert_eq!(Resource::take_handle(&mut r), 7);
    assert_eq!(Resource::handle(&r), u32::MAX);
    assert_eq!(r.handle_to_release(), None);
    let mut f = Fields::from_handle(3);
    assert_eq!(f.handle(), 3);
    assert_eq!(f.take_handle(), 3);
    assert_eq!(f.handle(), u32::MAX);
}

#[test]
fn core_values_keep_their_bits() {
    assert_eq!(as_i64(u64::MAX), -1);
    assert_eq!(as_i64(&5i64), 5);
    assert_eq!(as_i32(u32::MAX), -1);
    assert_eq!(as_i32(200u8), 200);
    assert_eq!(as_i32(-3i16), -3);
    assert_eq!(as_i32('a'), 97);
    assert_eq!(as_i32(65535u16), 65535);
}

#[test]
fn error_codes_print_like_their_debug_form() {
    assert_eq!(ErrorCode::DnsTimeout.to_string(), "ErrorCode::DnsTimeout");
    assert_eq!(ErrorCode::HttpRequestBodySize(Some(5)).to_string(), "ErrorCode::HttpRequestBodySize(Some(5))");
    assert_eq!(
        ErrorCode::DnsError(DnsErrorPayload { rcode: Some("x\"y".to_string()), info_code: None }).to_string(),
        "ErrorCode::DnsError(DnsErrorPayload { rcode: Some(\"x\\\"y\"), info-code: None })"
    );
    assert_eq!(ErrorCode::InternalError(None).discriminant(), 38);
    assert_eq!(HeaderError::Forbidden.to_string(), "HeaderError::Forbidden");
    assert_eq!(Method::Other("PURGE".to_string()).debug_string(), "Method::Other(\"PURGE\")");
    assert_eq!(Scheme::Https.debug_string(), "Scheme::Https");
    assert_eq!(StreamError::Closed.to_string(), "StreamError::Closed");
}

#[test]
fn error_codes_are_lifted_from_return_areas() {
    let mut area = [0u8; 40];
    area[0] = 1;
    area[8] = 1; // DnsError
    area[16] = 1; // rcode present
    put32(&mut area, 20, 100); // address
    put32(&mut area, 24, 3); // length
    area[28] = 1; // info-code present
    area[30] = 0x34;
    area[31] = 0x12;
    let mem = b"abc";
    match lift_http_error_code(&area, mem, 100).unwrap() {
        Some(ErrorCode::DnsError(p)) => {
            assert_eq!(p.rcode, Some("abc".to_string()));
            assert_eq!(p.info_code, Some(0x1234));
        }
        other => panic!("unexpected {:?}", other),
    }
    assert_eq!(lift_http_error_code(&area, mem, 101).unwrap_err(), LiftError::OutOfBounds);
    assert_eq!(lift_http_error_code(&area, &[0xff, 0xfe, 0xfd], 100).unwrap_err(), LiftError::InvalidUtf8);
    area[8] = 39;
    assert_eq!(lift_http_error_code(&area, mem, 100).unwrap_err(), LiftError::InvalidDiscriminant);
    area[0] = 0;
    assert!(lift_http_error_code(&area, mem, 100).unwrap().is_none());
    assert_eq!(lift_http_error_code(&area[..39], mem, 100).unwrap_err(), LiftError::OutOfBounds);
    let mut small = [0u8; 32];
    small[0] = 28;
    small[8] = 1;
    small[16..24].copy_from_slice(&9u64.to_le_bytes());
    assert!(matches!(lift_error_code(&small, 0, &[], 0).unwrap(), ErrorCode::HttpResponseBodySize(Some(9))));
}

#[test]
fn handle_and_finish_results_are_lifted() {
    let mut area = [0u8; 40];
    put32(&mut area, 8, 42);
    let f = lift_handle_result(&area, &[], 0).unwrap().unwrap();
    assert_eq!(f.handle(), 42);
    put32(&mut area, 8, u32::MAX);
    assert_eq!(lift_handle_result(&area, &[], 0).unwrap_err(), LiftError::InvalidHandle);
    area[0] = 1;
    area[8] = 25;
    assert!(matches!(lift_handle_result(&area, &[], 0).unwrap(), Err(ErrorCode::HttpResponseIncomplete)));
    assert!(matches!(lift_finish_result(&area, &[], 0).unwrap(), Err(ErrorCode::HttpResponseIncomplete)));
    area[0] = 0;
    assert!(lift_finish_result(&area, &[], 0).unwrap().is_ok());
    area[0] = 2;
    assert_eq!(lift_finish_result(&area, &[], 0).unwrap_err(), LiftError::InvalidDiscriminant);
}

#[test]
fn polls_are_lifted() {
    let mut area = [0u8; 56];
    assert!(lift_incoming_response_poll(&area, &[], 0).unwrap().is_none());
    area[0] = 1;
    area[8] = 1;
    assert!(matches!(lift_incoming_response_poll(&area, &[], 0).unwrap(), Some(Err(()))));
    area[8] = 0;
    put32(&mut area, 24, 11);
    match lift_incoming_response_poll(&area, &[], 0).unwrap() {
        Some(Ok(Ok(resp))) => assert_eq!(resp.handle(), 11),
        other => panic!("unexpected {:?}", other),
    }
    put32(&mut area, 24, 0);
    assert!(matches!(lift_trailers_poll(&area, &[], 0).unwrap(), Some(Ok(Ok(None)))));
    area[24] = 1;
    put32(&mut area, 28, 12);
    match lift_trailers_poll(&area, &[], 0).unwrap() {
        Some(Ok(Ok(Some(t)))) => assert_eq!(t.handle(), 12),
        other => panic!("unexpected {:?}", other),
    }
    area[16] = 1;
    area[24] = 33;
    assert!(matches!(lift_trailers_poll(&area, &[], 0).unwrap(), Some(Ok(Err(ErrorCode::HttpResponseTimeout)))));
    assert!(matches!(lift_incoming_response_poll(&area, &[], 0).unwrap(), Some(Ok(Err(ErrorCode::HttpResponseTimeout)))));
}

#[test]
fn methods_schemes_and_options_are_lifted() {
    let mut area = [0u8; 16];
    area[0] = 2;
    assert!(matches!(lift_method(&area, &[], 0).unwrap(), Method::Post));
    area[0] = 9;
    put32(&mut area, 4, 0);
    put32(&mut area, 8, 5);
    assert!(matches!(lift_method(&area, b"PURGE", 0).unwrap(), Method::Other(s) if s == "PURGE"));
    area[0] = 10;
    assert_eq!(lift_method(&area, b"PURGE", 0).unwrap_err(), LiftError::InvalidDiscriminant);

    let mut s = [0u8; 16];
    assert!(lift_opt_scheme(&s, &[], 0).unwrap().is_none());
    s[0] = 1;
    s[4] = 1;
    assert!(matches!(lift_opt_scheme(&s, &[], 0).unwrap(), Some(Scheme::Https)));
    s[4] = 2;
    put32(&mut s, 8, 0);
    put32(&mut s, 12, 3);
    assert!(matches!(lift_opt_scheme(&s, b"ftp", 0).unwrap(), Some(Scheme::Other(x)) if x == "ftp"));

    let mut t = [0u8; 12];
    t[0] = 1;
    put32(&mut t, 4, 2);
    put32(&mut t, 8, 2);
    assert_eq!(lift_opt_text(&t, b"xx/a", 0).unwrap(), Some("/a".to_string()));

    let mut d = [0u8; 16];
    d[0] = 1;
    d[8..16].copy_from_slice(&1_000u64.to_le_bytes());
    assert_eq!(lift_opt_duration(&d).unwrap(), Some(1_000));
}

#[test]
fn small_results_are_lifted() {
    assert!(matches!(lift_header_result(&[1, 2]).unwrap(), Err(HeaderError::Immutable)));
    assert!(lift_header_result(&[0, 9]).unwrap().is_ok());
    assert_eq!(lift_header_result(&[1, 3]).unwrap_err(), LiftError::InvalidDiscriminant);
    let mut a = [0u8; 8];
    put32(&mut a, 4, 6);
    assert_eq!(lift_fields_result(&a).unwrap().unwrap(), 6);
    assert_eq!(lift_resource_result(&a).unwrap(), Ok(6));
    a[0] = 1;
    assert_eq!(lift_resource_result(&a).unwrap(), Err(()));
    a[4] = 0;
    assert!(matches!(lift_fields_result(&a).unwrap(), Err(HeaderError::InvalidSyntax)));
    assert_eq!(lift_unit_result(0).unwrap(), Ok(()));
    assert_eq!(lift_unit_result(1).unwrap(), Err(()));
    assert_eq!(lift_unit_result(2).unwrap_err(), LiftError::InvalidDiscriminant);
    assert_eq!(lift_bool(1), Ok(true));
    assert_eq!(lift_bool(0), Ok(false));
    assert!(lift_bool(7).is_err());
}

#[test]
fn field_lists_are_lifted() {
    // memory window at address 1000: two value records, then their bytes
    let mut mem = vec![0u8; 32];
    put32(&mut mem, 0, 1016);
    put32(&mut mem, 4, 2);
    put32(&mut mem, 8, 1018);
    put32(&mut mem, 12, 0);
    mem[16] = b'h';
    mem[17] = b'i';
    let mut area = [0u8; 8];
    put32(&mut area, 0, 1000);
    put32(&mut area, 4, 2);
    let values = lift_field_values(&area, &mem, 1000).unwrap();
    assert_eq!(values, vec![b"hi".to_vec(), Vec::new()]);
    put32(&mut area, 4, 5);
    assert_eq!(lift_field_values(&area, &mem, 1000).unwrap_err(), LiftError::OutOfBounds);

    let mut mem = vec![0u8; 24];
    put32(&mut mem, 0, 1016);
    put32(&mut mem, 4, 4);
    put32(&mut mem, 8, 1020);
    put32(&mut mem, 12, 2);
    mem[16..20].copy_from_slice(b"host");
    mem[20..22].copy_from_slice(b"ex");
    put32(&mut area, 4, 1);
    let entries = lift_field_entries(&area, &mem, 1000).unwrap();
    assert_eq!(entries, vec![("host".to_string(), b"ex".to_vec())]);
}

#[test]
fn stream_results_are_lifted() {
    let mut area = [0u8; 16];
    area[8..16].copy_from_slice(&4096u64.to_le_bytes());
    assert_eq!(lift_count_result(&area).unwrap().unwrap(), 4096);
    area[0] = 1;
    area[8] = 1;
    assert!(matches!(lift_count_result(&area).unwrap(), Err(StreamError::Closed)));
    area[8] = 0;
    put32(&mut area, 12, 8);
    match lift_count_result(&area).unwrap() {
        Err(StreamError::LastOperationFailed(e)) => assert_eq!(e.handle(), 8),
        other => panic!("unexpected {:?}", other),
    }
    let mut w = [0u8; 12];
    assert!(lift_stream_unit_result(&w).unwrap().is_ok());
    w[0] = 1;
    w[4] = 1;
    assert!(matches!(lift_stream_unit_result(&w).unwrap(), Err(StreamError::Closed)));
    let mut r = [0u8; 12];
    put32(&mut r, 4, 50);
    put32(&mut r, 8, 3);
    assert_eq!(lift_read_result(&r, b"abc", 50).unwrap().unwrap(), b"abc".to_vec());
    let e = Error::from_handle(1);
    assert_eq!(e.handle(), 1);
}

#[test]
fn arguments_are_flattened() {
    let m = lower_method(&Method::Put);
    assert_eq!(m.iter().map(flat_int).collect::<Vec<_>>(), vec![3, 0, 0]);
    let o = lower_method(&Method::Other("PURGE".to_string()));
    assert_eq!(flat_int(&o[0]), 9);
    assert!(matches!(&o[1], FlatValue::Str(s) if s == "PURGE"));
    assert_eq!(lower_opt_scheme(None).iter().map(flat_int).collect::<Vec<_>>(), vec![0, 0, 0, 0]);
    assert_eq!(lower_opt_scheme(Some(&Scheme::Https)).iter().map(flat_int).collect::<Vec<_>>(), vec![1, 1, 0, 0]);
    let p = lower_opt_str(Some("/x"));
    assert_eq!(flat_int(&p[0]), 1);
    assert!(matches!(&p[1], FlatValue::Str(s) if s == "/x"));
    assert_eq!(lower_opt_duration(Some(7)).iter().map(flat_int).collect::<Vec<_>>(), vec![1, 7]);

    let mut v = Vec::new();
    push_error_code(&mut v, &ErrorCode::HttpRequestBodySize(Some(5)));
    assert_eq!(v.iter().map(flat_int).collect::<Vec<_>>(), vec![17, 1, 5, 0, 0, 0, 0]);
    let mut v = Vec::new();
    push_error_code(
        &mut v,
        &ErrorCode::HttpResponseTrailerSize(FieldSizePayload { field_name: Some("n".to_string()), field_size: None }),
    );
    assert_eq!(v.len(), 6);
    assert_eq!(flat_int(&v[0]), 30);
    assert_eq!(flat_int(&v[1]), 1);
    assert!(matches!(&v[2], FlatValue::Str(s) if s == "n"));
    assert_eq!((flat_int(&v[3]), flat_int(&v[4]), flat_int(&v[5])), (0, 0, 0));

    let (h, args) = ResponseOutparam::set_arguments(
        ResponseOutparam::from_handle(4),
        Ok(OutgoingResponse::from_handle(9)),
    );
    assert_eq!(h, 4);
    assert_eq!(args.iter().map(flat_int).collect::<Vec<_>>(), vec![0, 9, 0, 0, 0, 0, 0, 0]);
    let (_, args) = ResponseOutparam::set_arguments(ResponseOutparam::from_handle(4), Err(ErrorCode::LoopDetected));
    assert_eq!(args.iter().map(flat_int).collect::<Vec<_>>(), vec![1, 36, 0, 0, 0, 0, 0, 0]);
    let _ = FutureIncomingResponse::from_handle(1);
}

#[test]
fn texts_and_ready_lists_are_lifted() {
    let mut area = [0u8; 8];
    put32(&mut area, 0, 10);
    put32(&mut area, 4, 4);
    assert_eq!(lift_text(&area, b"boom", 10).unwrap(), "boom");
    assert_eq!(lift_text(&area[..7], b"boom", 10).unwrap_err(), LiftError::OutOfBounds);
    assert_eq!(lift_text(&area, &[b'a', 0xff, b'b', b'c'], 10).unwrap_err(), LiftError::InvalidUtf8);

    let mut mem = [0u8; 8];
    put32(&mut mem, 0, 2);
    put32(&mut mem, 4, 0);
    put32(&mut area, 0, 500);
    put32(&mut area, 4, 2);
    assert_eq!(lift_u32_list(&area, &mem, 500).unwrap(), vec![2, 0]);
    put32(&mut area, 4, 3);
    assert_eq!(lift_u32_list(&area, &mem, 500).unwrap_err(), LiftError::OutOfBounds);

    let a = Pollable::from_handle(0x01020304);
    let b = Pollable::from_handle(7);
    assert_eq!(lower_pollables(&[&a, &b]), vec![4, 3, 2, 1, 7, 0, 0, 0]);
}

#[test]
fn lift_failures_name_the_first_bad_part() {
    // a TLS alert whose alert-id tag is bad and whose message is out of bounds
    let mut area = [0u8; 40];
    area[0] = 1;
    area[8] = 14;
    area[16] = 2;
    area[20] = 1;
    put32(&mut area, 24, 1000);
    put32(&mut area, 28, 1);
    assert_eq!(lift_http_error_code(&area, &[], 0).unwrap_err(), LiftError::InvalidDiscriminant);
    area[16] = 0;
    assert_eq!(lift_http_error_code(&area, &[], 0).unwrap_err(), LiftError::OutOfBounds);
    assert!(matches!(
        lift_http_error_code(&area, b"x", 1000).unwrap(),
        Some(ErrorCode::TlsAlertReceived(p)) if p.alert_id.is_none() && p.alert_message.as_deref() == Some("x")
    ));
}

#[test]
fn pair_records_read_back_as_lists() {
    let records = lower_pairs(&[(1016, 2), (1018, 0)]);
    assert_eq!(records.len(), 16);
    let mut mem = records.clone();
    mem.extend_from_slice(b"hi");
    let mut area = [0u8; 8];
    put32(&mut area, 0, 1000);
    put32(&mut area, 4, 2);
    assert_eq!(lift_field_values(&area, &mem, 1000).unwrap(), vec![b"hi".to_vec(), Vec::new()]);
    assert!(lower_pairs(&[]).is_empty());
}

#[test]
fn host_call_arguments_hand_on_the_handles() {
    assert_eq!(handle_arguments(OutgoingRequest::from_handle(5), None), (5, 0, 0));
    assert_eq!(handle_arguments(OutgoingRequest::from_handle(5), Some(RequestOptions::from_handle(8))), (5, 1, 8));
    assert_eq!(OutgoingBody::finish_arguments(OutgoingBody::from_handle(2), None), (2, 0, 0));
    assert_eq!(OutgoingBody::finish_arguments(OutgoingBody::from_handle(2), Some(Fields::from_handle(3))), (2, 1, 3));
}
