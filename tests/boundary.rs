use transcribe_ffi::error::{ffi_execute, transcribe_ffi_free_error, CallOutcome, Error, ErrorCode, ErrorKind, FfiError};
use transcribe_ffi::kinds::{FfiLanguage, FfiTranscribeExportFormat, FfiTranscribeExportType, ModelType};
use transcribe_ffi::text::{array_call, bytes_to_c_text, free_c_string, to_boundary_array, to_boundary_string};
use transcribe_ffi::transcribe_api::{export_copy_out, export_request, upload_request};
use transcribe_ffi::transcribe_stream::{receive_copy_out, receive_request, receive_step, start_session, stop_session, write_allowed, write_bytes_request, SessionPhase, WaitPlan};
use transcribe_ffi::utils::{lossy_string, parse_c_str, parse_token, parse_format_type, parse_language, parse_model_type, parse_transcribe_export_type};
use transcribe_ffi::decimal::decimal_string;

fn message_of(e: &Option<FfiError>) -> String {
    let bytes = e.as_ref().unwrap().message.as_ref().unwrap().to_bytes();
    String::from_utf8(bytes).unwrap()
}

#[test]
fn model_names_in_any_case() {
    for s in ["speed", "Speed", "SPEED"] {
        assert_eq!(parse_model_type(Some(s.as_bytes())).unwrap(), ModelType::Speed);
    }
    assert_eq!(parse_model_type(Some(b"Quality")).unwrap(), ModelType::Quality);
    assert_eq!(parse_model_type(Some(b"QUALITY_V2")).unwrap(), ModelType::QualityV2);
    let e = parse_model_type(Some(b"fast")).unwrap_err();
    assert_eq!(e.kind, ErrorKind::InvalidInput);
    assert_eq!(e.detail, "Invalid model type");
}

#[test]
fn language_codes_in_any_case() {
    assert_eq!(parse_language(Some(b"ZH")).unwrap(), FfiLanguage::ChineseSimplified);
    assert_eq!(parse_language(Some(b"en")).unwrap(), FfiLanguage::EnglishUS);
    assert_eq!(parse_language(Some(b"Ja")).unwrap(), FfiLanguage::Japanese);
    assert_eq!(parse_language(Some(b"ko")).unwrap(), FfiLanguage::Korean);
    assert_eq!(parse_language(Some(b"FR")).unwrap(), FfiLanguage::French);
    assert_eq!(parse_language(Some(b"de")).unwrap(), FfiLanguage::German);
    assert_eq!(parse_language(Some(b"es")).unwrap_err().detail, "Invalid language");
    assert_eq!(parse_language(Some(b"zhh")).unwrap_err().kind, ErrorKind::InvalidInput);
}

#[test]
fn export_vocabularies() {
    assert_eq!(parse_format_type(Some(b"PDF")).unwrap(), FfiTranscribeExportFormat::Pdf);
    assert_eq!(parse_format_type(Some(b"txt")).unwrap(), FfiTranscribeExportFormat::Txt);
    assert_eq!(parse_format_type(Some(b"Docx")).unwrap(), FfiTranscribeExportFormat::Docx);
    assert_eq!(parse_format_type(Some(b"doc")).unwrap_err().detail, "Invalid format type");
    assert_eq!(parse_transcribe_export_type(Some(b"Transcript")).unwrap(), FfiTranscribeExportType::Transcript);
    assert_eq!(parse_transcribe_export_type(Some(b"OVERVIEW")).unwrap(), FfiTranscribeExportType::Overview);
    assert_eq!(parse_transcribe_export_type(Some(b"summary")).unwrap(), FfiTranscribeExportType::Summary);
    assert_eq!(parse_transcribe_export_type(Some(b"")).unwrap_err().detail, "Invalid export type");
}

#[test]
fn null_strings_are_refused_ill_formed_ones_replaced() {
    let e = parse_c_str(None).unwrap_err();
    assert_eq!(e.kind, ErrorKind::InvalidInput);
    assert_eq!(e.detail, "s is null");
    assert_eq!(parse_c_str(Some(&[0x66, 0xff, 0x66])).unwrap(), "f\u{FFFD}f");
    assert_eq!(parse_c_str(Some("héllo".as_bytes())).unwrap(), "héllo");
}

#[test]
fn tokens_are_read_strictly() {
    let e = parse_token(Some(&[0x66, 0xff, 0x66])).unwrap_err();
    assert_eq!(e.kind, ErrorKind::InvalidInput);
    assert!(e.detail.contains("utf-8"));
    assert_eq!(parse_token(Some(b"abc")).unwrap(), "abc");
    assert_eq!(parse_token(None).unwrap_err().detail, "s is null");
    let e = upload_request(true, Some(&[0xff]), false, false, Some(b"speed"), Some(&[0xc3])).unwrap_err();
    assert!(e.detail.contains("utf-8"));
    let q = upload_request(true, Some(&[0x61, 0xff]), false, false, Some(b"speed"), Some(b"k")).unwrap();
    assert_eq!(q.filepath, "a\u{FFFD}");
}

#[test]
fn lenient_decoding_replaces() {
    assert_eq!(lossy_string(&[0x61, 0xff, 0x62]), "a\u{FFFD}b");
    assert_eq!(lossy_string("ok".as_bytes()), "ok");
}

#[test]
fn malformed_model_upload_reports_invalid_input() {
    let e = upload_request(true, Some(b"/tmp/a.wav"), false, false, Some(b"fast"), Some(b"tok")).unwrap_err();
    let mut slot = Some(FfiError::new(ErrorCode::OtherError, None));
    let status = ffi_execute(&mut slot, CallOutcome::Failed(e));
    assert_eq!(status, 4);
    assert_eq!(slot.as_ref().unwrap().code, ErrorCode::InvalidInput);
    let msg = message_of(&slot);
    assert_eq!(msg, "Invalid input: Invalid model type");
}

#[test]
fn upload_arguments_read_in_order() {
    let q = upload_request(true, Some(b"/tmp/a.wav"), true, false, Some(b"Quality_V2"), Some(b"tok")).unwrap();
    assert_eq!(q.filepath, "/tmp/a.wav");
    assert!(q.transcribe_only);
    assert!(!q.short_asr);
    assert_eq!(q.model, ModelType::QualityV2);
    assert_eq!(q.token, "tok");
    let e = upload_request(false, None, true, false, None, None).unwrap_err();
    assert_eq!(e.detail, "Invalid output parameters");
    let e = upload_request(true, Some(b"p"), true, false, Some(b"speed"), None).unwrap_err();
    assert_eq!(e.detail, "s is null");
}

#[test]
fn export_with_undersized_buffer_then_exact() {
    let data: Vec<u8> = (0..100u8).collect();
    let mut small = vec![7u8; 10];
    let mut len: usize = 10;
    let e = export_copy_out(&data, &mut small, &mut len).unwrap_err();
    assert_eq!(len, 100);
    assert_eq!(small, vec![7u8; 10]);
    assert_eq!(e.kind, ErrorKind::InvalidInput);
    assert_eq!(e.detail, "Buffer too small, need 100 bytes");
    let mut slot = None;
    assert_eq!(ffi_execute(&mut slot, CallOutcome::Failed(e)), 4);
    assert!(slot.is_none());

    let mut exact = vec![0u8; 100];
    let mut len2 = len;
    export_copy_out(&data, &mut exact, &mut len2).unwrap();
    assert_eq!(len2, 100);
    assert_eq!(exact, data);
    let mut slot = None;
    assert_eq!(ffi_execute(&mut slot, CallOutcome::Completed), 0);

    let mut large = vec![9u8; 150];
    let mut len3: usize = 150;
    export_copy_out(&data, &mut large, &mut len3).unwrap();
    assert_eq!(len3, 100);
    assert_eq!(&large[..100], &exact[..]);
    assert_eq!(&large[100..], &[9u8; 50][..]);
}

#[test]
fn export_request_checks_buffer_first() {
    let e = export_request(false, true, Some(b"t"), Some(b"pdf"), Some(b"pdf"), Some(b"k")).unwrap_err();
    assert_eq!(e.detail, "Invalid input parameters");
    let e = export_request(true, true, Some(b"t"), Some(b"pdf"), Some(b"pdf"), Some(b"k")).unwrap_err();
    assert_eq!(e.detail, "Invalid export type");
    let q = export_request(true, true, Some(b"t1"), Some(b"summary"), Some(b"TXT"), Some(b"k")).unwrap();
    assert_eq!(q.task_id, "t1");
    assert_eq!(q.export_type, FfiTranscribeExportType::Summary);
    assert_eq!(q.export_format, FfiTranscribeExportFormat::Txt);
}

#[test]
fn receive_timeout_is_empty_not_error() {
    assert_eq!(receive_request(true, true, true, 50).unwrap(), WaitPlan::Within(50));
    assert_eq!(receive_request(true, true, true, 0).unwrap(), WaitPlan::Poll);
    assert_eq!(receive_request(true, false, true, 0).unwrap_err().detail, "Invalid input parameters");
    let mut buf = vec![1u8; 16];
    let mut len: usize = 16;
    receive_copy_out(None, &mut buf, &mut len).unwrap();
    assert_eq!(len, 0);
    assert_eq!(buf, vec![1u8; 16]);
    let mut slot = Some(FfiError::new(ErrorCode::OtherError, None));
    assert_eq!(ffi_execute(&mut slot, CallOutcome::Completed), 0);
    assert!(slot.as_ref().unwrap().message.is_none());
}

#[test]
fn receive_message_is_nul_terminated() {
    let msg = b"{\"a\":1}";
    let mut buf = vec![5u8; 7];
    let mut len: usize = 7;
    let e = receive_copy_out(Some(msg), &mut buf, &mut len).unwrap_err();
    assert_eq!(len, 8);
    assert_eq!(buf, vec![5u8; 7]);
    assert_eq!(e.kind, ErrorKind::OtherError);
    assert_eq!(e.detail, "Buffer too small, need 8 bytes");
    let mut buf = vec![5u8; 10];
    let mut len: usize = 8;
    receive_copy_out(Some(msg), &mut buf, &mut len).unwrap();
    assert_eq!(len, 7);
    assert_eq!(&buf[..7], msg);
    assert_eq!(buf[7], 0);
    assert_eq!(&buf[8..], &[5u8, 5u8]);
}

#[test]
fn error_codes_and_messages() {
    let cases = [
        (ErrorKind::WsError, 1, "Websocket Error: x"),
        (ErrorKind::HttpError, 2, "HTTP error: x"),
        (ErrorKind::ServerError, 3, "Server error: x"),
        (ErrorKind::InvalidInput, 4, "Invalid input: x"),
        (ErrorKind::InvalidResponse, 5, "Invalid response: x"),
        (ErrorKind::InvalidToken, 6, "Invalid token: x"),
        (ErrorKind::InvalidApiKey, 7, "Invalid api key: x"),
        (ErrorKind::JsonError, 8, "JSON error: x"),
        (ErrorKind::OtherError, 9, "Other error: x"),
    ];
    for (kind, code, text) in cases {
        let mut slot = Some(FfiError::new(ErrorCode::UnknownError, None));
        let status = FfiError::fill_error(&mut slot, Error::new(kind, "x"));
        assert_eq!(status, code);
        assert_eq!(slot.as_ref().unwrap().code.value(), code);
        assert_eq!(message_of(&slot), text);
    }
    assert_eq!(ErrorCode::UnknownError.value(), -1);
}

#[test]
fn null_error_slot_gets_nothing() {
    let mut slot: Option<FfiError> = None;
    assert_eq!(FfiError::fill_error(&mut slot, Error::new(ErrorKind::ServerError, "down")), 3);
    assert!(slot.is_none());
    assert_eq!(ffi_execute(&mut slot, CallOutcome::Panicked), -1);
    assert!(slot.is_none());
}

#[test]
fn panic_becomes_unknown_error() {
    let mut slot = Some(FfiError::new(ErrorCode::OtherError, None));
    assert_eq!(ffi_execute(&mut slot, CallOutcome::Panicked), -1);
    assert_eq!(slot.as_ref().unwrap().code, ErrorCode::UnknownError);
    assert_eq!(message_of(&slot), "Rust panic occurred");
}

#[test]
fn message_with_nul_is_null() {
    let f = FfiError::from(Error::new(ErrorKind::OtherError, "a\0b"));
    assert_eq!(f.code, ErrorCode::OtherError);
    assert!(f.message.is_none());
    assert_eq!(FfiError::from(to_boundary_string("a\0").unwrap_err()).code.value(), 8);
}

#[test]
fn free_error_twice_is_harmless() {
    let mut slot = Some(FfiError::from(Error::new(ErrorKind::HttpError, "503")));
    transcribe_ffi_free_error(&mut slot);
    assert!(slot.as_ref().unwrap().message.is_none());
    transcribe_ffi_free_error(&mut slot);
    assert!(slot.as_ref().unwrap().message.is_none());
    assert_eq!(slot.as_ref().unwrap().code, ErrorCode::HttpError);
    let mut none: Option<FfiError> = None;
    transcribe_ffi_free_error(&mut none);
    assert!(none.is_none());
}

#[test]
fn boundary_strings_refuse_nul() {
    let t = to_boundary_string("abc").unwrap();
    assert_eq!(t.to_bytes(), b"abc".to_vec());
    let e = to_boundary_string("a\0c").unwrap_err();
    assert_eq!(e.kind, ErrorKind::JsonError);
    assert_eq!(e.detail, "Failed to create CString: nul byte found in provided data");
    assert!(bytes_to_c_text(&[1, 0]).is_err());
    let mut p = Some(t);
    free_c_string(&mut p);
    assert!(p.is_none());
    free_c_string(&mut p);
    assert!(p.is_none());
}

#[test]
fn empty_arrays_use_the_null_form() {
    let (p, n) = to_boundary_array::<u8>(Vec::new());
    assert!(p.is_none());
    assert_eq!(n, 0);
    let (mut p, mut n) = to_boundary_array(vec![1u8, 2]);
    assert_eq!(n, 2);
    array_call(&mut p, &mut n);
    assert!(p.is_none());
    assert_eq!(n, 0);
    array_call(&mut p, &mut n);
    assert!(p.is_none());
    let mut q: Option<Vec<u8>> = Some(Vec::new());
    let mut m: usize = 0;
    array_call(&mut q, &mut m);
    assert!(q.is_none());
}

#[test]
fn session_phases() {
    let mut phase = SessionPhase::Created;
    assert!(write_allowed(phase).is_err());
    start_session(&mut phase).unwrap();
    assert_eq!(phase, SessionPhase::Started);
    assert!(write_allowed(phase).is_ok());
    assert_eq!(start_session(&mut phase).unwrap_err().detail, "session already started");
    stop_session(&mut phase);
    stop_session(&mut phase);
    assert_eq!(phase, SessionPhase::Stopped);
    assert_eq!(write_allowed(phase).unwrap_err().detail, "session is not started");
    assert!(write_bytes_request(true, Some(&[])).is_err());
    assert!(write_bytes_request(false, Some(&[1])).is_err());
    assert_eq!(write_bytes_request(true, Some(&[1, 2])).unwrap(), vec![1, 2]);
}

#[test]
fn decimal_spelling() {
    assert_eq!(decimal_string(0), "0");
    assert_eq!(decimal_string(7), "7");
    assert_eq!(decimal_string(100), "100");
    assert_eq!(decimal_string(90210), "90210");
}

#[test]
fn receive_keeps_a_message_that_did_not_fit() {
    let mut pending: Option<Vec<u8>> = None;
    let mut buf = vec![3u8; 4];
    let mut len: usize = 4;
    let e = receive_step(&mut pending, Some(b"hello".to_vec()), &mut buf, &mut len).unwrap_err();
    assert_eq!(e.detail, "Buffer too small, need 6 bytes");
    assert_eq!(len, 6);
    assert_eq!(buf, vec![3u8; 4]);
    assert_eq!(pending.as_deref(), Some(&b"hello"[..]));
    let mut buf = vec![3u8; 6];
    let mut len: usize = 6;
    receive_step(&mut pending, None, &mut buf, &mut len).unwrap();
    assert_eq!(len, 5);
    assert_eq!(&buf[..5], b"hello");
    assert_eq!(buf[5], 0);
    assert!(pending.is_none());
    let mut len: usize = 6;
    receive_step(&mut pending, None, &mut buf, &mut len).unwrap();
    assert_eq!(len, 0);
}
