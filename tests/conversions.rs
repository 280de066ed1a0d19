use transcribe_ffi::error::ErrorKind;
use transcribe_ffi::kinds::{FfiLanguage, FfiTranscribeTaskType, FfiTranslateTaskType};
use transcribe_ffi::text::{bytes_to_c_text, CText};
use transcribe_ffi::transcribe_api::{callback_request, share_link_request, status_request, summary_request, translate_utterance_request, close_session_request};
use transcribe_ffi::types_ffi::share::{transcribe_ffi_free_share_link, FfiShareLink, ShareLink};
use transcribe_ffi::types_ffi::status::{
    transcribe_ffi_free_transcribe_status, CallbackHistory, FfiCallbackRequest, FfiSummaryContent, FfiTranscribeStatus,
    TranscribeStatus,
};
use transcribe_ffi::types_ffi::translate::{
    transcribe_ffi_free_transcribe_translator, FfiTranscribeTranslator, TranscribeTranslator, TranslateDetail,
};
use transcribe_ffi::types_ffi::upload::{transcribe_ffi_free_upload_response, FfiUploadResponse, UploadResponse};
use transcribe_ffi::types_ffi::ws::{transcribe_ffi_free_session_ender, FfiSessionEnder, SessionEnder};
use transcribe_ffi::types_ffi::{FfiUtterance, Utterance};

fn text(t: &Option<CText>) -> String {
    String::from_utf8(t.as_ref().unwrap().to_bytes()).unwrap()
}

fn utt(s: &str) -> Utterance {
    Utterance { start_time: 1.5f64.to_bits(), end_time: 2.0f64.to_bits(), speaker: 3, text: s.to_string() }
}

#[test]
fn share_link_converts_and_releases() {
    let v = ShareLink { share_url: "https://x/s".to_string(), expiration_day: 7, expired_at: "2025".to_string() };
    let mut f = FfiShareLink::try_from(v).unwrap();
    assert_eq!(text(&f.share_url), "https://x/s");
    assert_eq!(f.expiration_day, 7);
    assert_eq!(text(&f.expired_at), "2025");
    transcribe_ffi_free_share_link(&mut f);
    assert!(f.share_url.is_none() && f.expired_at.is_none());
    transcribe_ffi_free_share_link(&mut f);
    assert!(f.share_url.is_none());
    let bad = ShareLink { share_url: "u".to_string(), expiration_day: 1, expired_at: "\0".to_string() };
    assert!(FfiShareLink::try_from(bad).is_err());
}

fn status_value() -> TranscribeStatus {
    TranscribeStatus {
        status: "done".to_string(),
        overview_md: Some("# o".to_string()),
        summary_md: None,
        details: vec![utt("hello"), utt("world")],
        message: Some("queued".to_string()),
        usage_id: Some("u1".to_string()),
        task_id: None,
        keywords: vec!["a".to_string(), "b".to_string(), "c".to_string()],
        callback_history: vec![CallbackHistory { timestamp: "t".to_string(), status: "ok".to_string(), code: 200 }],
        task_type: Some(FfiTranscribeTaskType::ShortAsrSpeed),
    }
}

#[test]
fn status_converts_every_field() {
    let mut f = FfiTranscribeStatus::try_from(status_value()).unwrap();
    assert_eq!(text(&f.status), "done");
    assert_eq!(text(&f.overview_md), "# o");
    assert!(f.summary_md.is_none());
    assert_eq!(text(&f.message), "queued");
    assert_eq!(text(&f.usage_id), "u1");
    assert!(f.task_id.is_none());
    assert_eq!(f.details_len, 2);
    let ds = f.details.as_ref().unwrap();
    assert_eq!(text(&ds[1].text), "world");
    assert_eq!(f64::from_bits(ds[0].start_time), 1.5);
    assert_eq!(ds[0].speaker, 3);
    assert_eq!(f.keywords_len, 3);
    let ks = f.keywords.as_ref().unwrap();
    assert_eq!(ks[0].to_bytes(), b"a".to_vec());
    assert_eq!(ks[1].to_bytes(), b"b".to_vec());
    assert_eq!(ks[2].to_bytes(), b"c".to_vec());
    assert_eq!(f.callback_history_len, 1);
    assert_eq!(f.callback_history.as_ref().unwrap()[0].code, 200);
    assert!(f.has_task_type);
    assert_eq!(f.task_type, FfiTranscribeTaskType::ShortAsrSpeed);
    transcribe_ffi_free_transcribe_status(&mut f);
    transcribe_ffi_free_transcribe_status(&mut f);
    assert!(f.status.is_none() && f.details.is_none() && f.keywords.is_none());
    assert_eq!(f.details_len + f.keywords_len + f.callback_history_len, 0);
}

#[test]
fn status_fails_whole_on_strict_field() {
    let mut v = status_value();
    v.details.push(utt("x\0y"));
    let e = FfiTranscribeStatus::try_from(v).unwrap_err();
    assert_eq!(e.kind, ErrorKind::JsonError);
    assert_eq!(e.detail, "Failed to create CString: nul byte found in provided data");
    let mut v = status_value();
    v.message = Some("bad\0msg".to_string());
    assert_eq!(FfiTranscribeStatus::try_from(v).unwrap_err().kind, ErrorKind::JsonError);
    let mut v = status_value();
    v.task_id = Some("t\0".to_string());
    assert!(FfiTranscribeStatus::try_from(v).is_err());
    let mut v = status_value();
    v.keywords.push("k\0".to_string());
    assert!(FfiTranscribeStatus::try_from(v).is_err());
    let mut v = status_value();
    v.details.clear();
    v.keywords.clear();
    v.callback_history.clear();
    v.task_type = None;
    let f = FfiTranscribeStatus::try_from(v).unwrap();
    assert!(f.details.is_none() && f.keywords.is_none() && f.callback_history.is_none());
    assert!(!f.has_task_type);
    assert_eq!(f.task_type, FfiTranscribeTaskType::NormalQuality);
}

#[test]
fn task_translation_converts() {
    let v = TranscribeTranslator {
        task_id: "t".to_string(),
        task_type: FfiTranslateTaskType::Summary,
        status: "ok".to_string(),
        lang: FfiLanguage::German,
        message: None,
        details: Some(vec![
            TranslateDetail { utterance: utt("hi"), translation: Some("hallo".to_string()) },
            TranslateDetail { utterance: utt("yo"), translation: None },
        ]),
        overview_md: None,
        summary_md: Some("s".to_string()),
        keywords: Some(vec!["k".to_string()]),
    };
    let mut f = FfiTranscribeTranslator::try_from(v).unwrap();
    assert_eq!(f.details_len, 2);
    let ds = f.details.as_ref().unwrap();
    assert_eq!(text(&ds[0].translation), "hallo");
    assert_eq!(text(&ds[1].translation), "");
    assert_eq!(text(&ds[1].utterance.text), "yo");
    assert_eq!(f.lang, FfiLanguage::German);
    assert_eq!(f.keywords_len, 1);
    assert_eq!(text(&f.summary_md), "s");
    transcribe_ffi_free_transcribe_translator(&mut f);
    assert!(f.details.is_none() && f.task_id.is_none() && f.summary_md.is_none());
    assert!(f.keywords.is_none() && f.keywords_len == 0);
}

#[test]
fn task_translation_refuses_nul_keyword() {
    let v = TranscribeTranslator {
        task_id: "t".to_string(),
        task_type: FfiTranslateTaskType::Transcribe,
        status: "ok".to_string(),
        lang: FfiLanguage::Korean,
        message: None,
        details: None,
        overview_md: None,
        summary_md: None,
        keywords: Some(vec!["a".to_string(), "b\0".to_string()]),
    };
    let e = FfiTranscribeTranslator::try_from(v).unwrap_err();
    assert_eq!(e.kind, ErrorKind::JsonError);
}

#[test]
fn upload_answer_halves() {
    let mut f = FfiUploadResponse::try_from(UploadResponse::Normal { task_id: "t9".to_string() }).unwrap();
    assert!(f.is_normal);
    assert_eq!(text(&f.normal.task_id), "t9");
    assert!(f.one_sentence.status.is_none());
    transcribe_ffi_free_upload_response(&mut f);
    assert!(f.normal.task_id.is_none());
    let f = FfiUploadResponse::try_from(UploadResponse::OneSentence {
        status: "ok".to_string(),
        message: "m".to_string(),
        data: "d".to_string(),
    })
    .unwrap();
    assert!(!f.is_normal);
    assert!(f.normal.task_id.is_none());
    assert_eq!(text(&f.one_sentence.data), "d");
}

#[test]
fn session_ender_flags() {
    let v = SessionEnder { status: "ok".to_string(), duration: Some(12), error_code: None, message: None };
    let mut f = FfiSessionEnder::try_from(v).unwrap();
    assert!(f.has_duration && f.duration == 12);
    assert!(!f.has_error_code && f.error_code == 0);
    assert!(f.message.is_none());
    transcribe_ffi_free_session_ender(&mut f);
    assert!(f.status.is_none());
}

fn in_utt(s: &[u8]) -> FfiUtterance {
    FfiUtterance { start_time: 0, end_time: 1, speaker: 0, text: Some(bytes_to_c_text(s).unwrap()) }
}

#[test]
fn summary_request_reads_sentences() {
    let us = vec![in_utt(b"a\xffb")];
    let q = summary_request(Some(&us), true, Some(b"tok")).unwrap();
    assert_eq!(q.utterances[0].text, "a\u{FFFD}b");
    assert_eq!(q.token, "tok");
    let empty: Vec<FfiUtterance> = Vec::new();
    assert_eq!(summary_request(Some(&empty), true, Some(b"tok")).unwrap_err().detail, "Invalid input parameters");
    let missing = vec![FfiUtterance { start_time: 0, end_time: 0, speaker: 0, text: None }];
    assert_eq!(summary_request(Some(&missing), true, Some(b"tok")).unwrap_err().detail, "utterance text is null");
    assert_eq!(translate_utterance_request(None, true, Some(b"en"), Some(b"k")).unwrap_err().detail, "Invalid input");
    let q = translate_utterance_request(Some(&us), true, Some(b"EN"), Some(b"k")).unwrap();
    assert_eq!(q.lang, FfiLanguage::EnglishUS);
}

#[test]
fn other_requests() {
    let q = share_link_request(true, Some(b"t"), 0, Some(b"k")).unwrap();
    assert_eq!(q.expiration_day, None);
    let q = share_link_request(true, Some(b"t"), 3, Some(b"k")).unwrap();
    assert_eq!(q.expiration_day, Some(3));
    let q = status_request(true, None, Some(b"sh"), Some(b"k")).unwrap();
    assert!(q.task_id.is_none());
    assert_eq!(q.share_id.as_deref(), Some("sh"));
    assert_eq!(status_request(true, None, None, None).unwrap_err().detail, "s is null");
    let q = close_session_request(true, Some(b"t"), Some(b"k"), 0).unwrap();
    assert_eq!(q.timeout, None);
    let req = FfiCallbackRequest {
        task_id: bytes_to_c_text(b"t").unwrap(),
        status: bytes_to_c_text(b"done").unwrap(),
        code: 0,
        utterances: vec![in_utt(b"x")],
        summary: Some(FfiSummaryContent {
            short: bytes_to_c_text(b"s").unwrap(),
            long: bytes_to_c_text(b"l").unwrap(),
            all: bytes_to_c_text(b"a").unwrap(),
            keywords: vec![bytes_to_c_text(b"k1").unwrap()],
        }),
        duration: Some(5),
        message: None,
    };
    let c = callback_request(Some(&req), true, Some(b"k")).unwrap();
    assert_eq!(c.request.status, "done");
    assert_eq!(c.request.summary.as_ref().unwrap().keywords, vec!["k1".to_string()]);
    assert_eq!(c.request.duration, Some(5));
    assert!(callback_request(None, true, Some(b"k")).is_err());
}
