//! Task status, callback history and the callback exchange.
use vstd::prelude::*;
use crate::error::Error;
use crate::kinds::FfiTranscribeTaskType;
use crate::text::{CText, array_call, free_c_string, nul_error, to_boundary_array};
use crate::types_ffi::{
    Utterance, FfiUtterance, array_holds, c_text, fits, fits_opt, holds, holds_opt, keyword_array,
    opt_c_text, texts_fit, texts_holds, texts_of, utterance_array, utterance_form,
    utterances_fit,
};
use crate::utils::lossy_text;

verus! {

/// One delivery attempt of a task's callback.
#[derive(Debug)]
pub struct CallbackHistory {
    pub timestamp: String,
    pub status: String,
    pub code: u32,
}

/// A callback delivery attempt in its boundary form.
#[derive(Debug)]
pub struct FfiCallbackHistory {
    pub timestamp: Option<CText>,
    pub status: Option<CText>,
    pub code: u32,
}

pub open spec fn history_fits(h: CallbackHistory) -> bool {
    fits(h.timestamp@) && fits(h.status@)
}

pub open spec fn history_form(f: FfiCallbackHistory, h: CallbackHistory) -> bool {
    &&& holds(f.timestamp, h.timestamp@)
    &&& holds(f.status, h.status@)
    &&& f.code == h.code
}

impl FfiCallbackHistory {
    pub fn try_from(v: &CallbackHistory) -> (r: Result<FfiCallbackHistory, Error>)
        ensures
            r is Ok <==> history_fits(*v),
            r matches Ok(f) ==> history_form(f, *v),
            r matches Err(e) ==> e@ == nul_error(),
    {
        let timestamp = c_text(&v.timestamp)?;
        let status = c_text(&v.status)?;
        Ok(FfiCallbackHistory { timestamp: Some(timestamp), status: Some(status), code: v.code })
    }
}

pub open spec fn histories_fit(hs: Seq<CallbackHistory>) -> bool {
    forall|i: int| 0 <= i < hs.len() ==> history_fits(#[trigger] hs[i])
}

/// The boundary form of a callback history; fails when a text holds a nul.
pub fn history_array(hs: &Vec<CallbackHistory>) -> (r: Result<(Option<Vec<FfiCallbackHistory>>, usize), Error>)
    ensures
        r is Ok <==> histories_fit(hs@),
        r matches Ok(a) ==> array_holds(a.0, a.1, hs@, |f: FfiCallbackHistory, h: CallbackHistory| history_form(f, h)),
        r matches Err(e) ==> e@ == nul_error(),
{
    let mut out: Vec<FfiCallbackHistory> = Vec::new();
    let mut i: usize = 0;
    while i < hs.len()
        invariant
            i <= hs@.len(),
            out@.len() == i,
            forall|j: int| 0 <= j < i ==> history_fits(#[trigger] hs@[j]),
            forall|j: int| 0 <= j < i ==> history_form(#[trigger] out@[j], hs@[j]),
        decreases hs@.len() - i,
    {
        let f = FfiCallbackHistory::try_from(&hs[i])?;
        out.push(f);
        i = i + 1;
    }
    Ok(to_boundary_array(out))
}

/// The state of a transcription task as the service reports it.
#[derive(Debug)]
pub struct TranscribeStatus {
    pub status: String,
    pub overview_md: Option<String>,
    pub summary_md: Option<String>,
    pub details: Vec<Utterance>,
    pub message: Option<String>,
    pub usage_id: Option<String>,
    pub task_id: Option<String>,
    pub keywords: Vec<String>,
    pub callback_history: Vec<CallbackHistory>,
    pub task_type: Option<FfiTranscribeTaskType>,
}

/// A task state in its boundary form.
#[derive(Debug)]
pub struct FfiTranscribeStatus {
    pub status: Option<CText>,
    pub overview_md: Option<CText>,
    pub summary_md: Option<CText>,
    pub details: Option<Vec<FfiUtterance>>,
    pub details_len: usize,
    pub message: Option<CText>,
    pub usage_id: Option<CText>,
    pub task_id: Option<CText>,
    pub keywords: Option<Vec<CText>>,
    pub keywords_len: usize,
    pub callback_history: Option<Vec<FfiCallbackHistory>>,
    pub callback_history_len: usize,
    pub task_type: FfiTranscribeTaskType,
    pub has_task_type: bool,
}

/// Every text of a task state fits the boundary.
pub open spec fn status_fits(v: TranscribeStatus) -> bool {
    &&& fits(v.status@)
    &&& fits_opt(v.overview_md)
    &&& fits_opt(v.summary_md)
    &&& utterances_fit(v.details@)
    &&& fits_opt(v.message)
    &&& fits_opt(v.usage_id)
    &&& fits_opt(v.task_id)
    &&& texts_fit(texts_of(v.keywords@))
    &&& histories_fit(v.callback_history@)
}

/// `f` is the boundary form of `v`: absent texts are null, empty lists are `(None, 0)`.
pub open spec fn status_form(f: FfiTranscribeStatus, v: TranscribeStatus) -> bool {
    &&& holds(f.status, v.status@)
    &&& holds_opt(f.overview_md, v.overview_md)
    &&& holds_opt(f.summary_md, v.summary_md)
    &&& array_holds(f.details, f.details_len, v.details@, |a: FfiUtterance, b: Utterance| utterance_form(a, b))
    &&& holds_opt(f.message, v.message)
    &&& holds_opt(f.usage_id, v.usage_id)
    &&& holds_opt(f.task_id, v.task_id)
    &&& texts_holds(f.keywords, f.keywords_len, texts_of(v.keywords@))
    &&& array_holds(f.callback_history, f.callback_history_len, v.callback_history@,
        |a: FfiCallbackHistory, b: CallbackHistory| history_form(a, b))
    &&& match v.task_type {
        Some(t) => f.has_task_type && f.task_type == t,
        None => !f.has_task_type && f.task_type == FfiTranscribeTaskType::NormalQuality,
    }
}

impl FfiTranscribeStatus {
    /// Converts a task state, all or nothing: on failure nothing is handed out.
    pub fn try_from(v: TranscribeStatus) -> (r: Result<FfiTranscribeStatus, Error>)
        ensures
            r is Ok <==> status_fits(v),
            r matches Ok(f) ==> status_form(f, v),
            r matches Err(e) ==> e@ == nul_error(),
    {
        let status = c_text(&v.status)?;
        let overview_md = opt_c_text(&v.overview_md)?;
        let summary_md = opt_c_text(&v.summary_md)?;
        let details = utterance_array(&v.details)?;
        let message = opt_c_text(&v.message)?;
        let usage_id = opt_c_text(&v.usage_id)?;
        let task_id = opt_c_text(&v.task_id)?;
        let keywords = keyword_array(&v.keywords)?;
        let history = history_array(&v.callback_history)?;
        let (task_type, has_task_type) = match v.task_type {
            Some(t) => (t, true),
            None => (FfiTranscribeTaskType::NormalQuality, false),
        };
        Ok(FfiTranscribeStatus {
            status: Some(status),
            overview_md,
            summary_md,
            details: details.0,
            details_len: details.1,
            message,
            usage_id,
            task_id,
            keywords: keywords.0,
            keywords_len: keywords.1,
            callback_history: history.0,
            callback_history_len: history.1,
            task_type,
            has_task_type,
        })
    }

    /// The value with every owned field released: strings null, lists `(None, 0)`.
    pub open spec fn released(self) -> FfiTranscribeStatus {
        FfiTranscribeStatus {
            status: None,
            overview_md: None,
            summary_md: None,
            details: None,
            details_len: 0,
            message: None,
            usage_id: None,
            task_id: None,
            keywords: None,
            keywords_len: 0,
            callback_history: None,
            callback_history_len: 0,
            ..self
        }
    }
}

/// Releases every owned field of a task state and leaves them null.
pub fn transcribe_ffi_free_transcribe_status(s: &mut FfiTranscribeStatus)
    ensures
        *final(s) == old(s).released(),
{
    free_c_string(&mut s.status);
    free_c_string(&mut s.overview_md);
    free_c_string(&mut s.summary_md);
    free_c_string(&mut s.message);
    free_c_string(&mut s.usage_id);
    free_c_string(&mut s.task_id);
    array_call(&mut s.details, &mut s.details_len);
    array_call(&mut s.keywords, &mut s.keywords_len);
    array_call(&mut s.callback_history, &mut s.callback_history_len);
}

/// The service's answer to a callback.
#[derive(Debug)]
pub struct CallbackResponse {
    pub status: String,
}

/// A callback answer in its boundary form.
#[derive(Debug)]
pub struct FfiCallbackResponse {
    pub status: Option<CText>,
}

impl FfiCallbackResponse {
    pub fn try_from(v: CallbackResponse) -> (r: Result<FfiCallbackResponse, Error>)
        ensures
            r is Ok <==> fits(v.status@),
            r matches Ok(f) ==> holds(f.status, v.status@),
            r matches Err(e) ==> e@ == nul_error(),
    {
        let status = c_text(&v.status)?;
        Ok(FfiCallbackResponse { status: Some(status) })
    }
}

/// Releases the status of a callback answer and leaves it null.
pub fn transcribe_ffi_free_callback_response(s: &mut FfiCallbackResponse)
    ensures
        final(s).status is None,
{
    free_c_string(&mut s.status);
}

/// Summary texts that a callback carries, as the caller supplied them.
#[derive(Debug)]
pub struct FfiSummaryContent {
    pub short: CText,
    pub long: CText,
    pub all: CText,
    pub keywords: Vec<CText>,
}

/// A callback as the caller supplied it; each sentence must carry a text.
#[derive(Debug)]
pub struct FfiCallbackRequest {
    pub task_id: CText,
    pub status: CText,
    pub code: u16,
    pub utterances: Vec<FfiUtterance>,
    pub summary: Option<FfiSummaryContent>,
    pub duration: Option<u32>,
    pub message: Option<CText>,
}

/// Summary texts of a callback.
#[derive(Debug)]
pub struct SummaryContent {
    pub short: String,
    pub long: String,
    pub all: String,
    pub keywords: Vec<String>,
}

/// A callback to forward to the service.
#[derive(Debug)]
pub struct CallbackRequest {
    pub task_id: String,
    pub status: String,
    pub code: u16,
    pub utterances: Vec<Utterance>,
    pub summary: Option<SummaryContent>,
    pub duration: Option<u32>,
    pub message: Option<String>,
}

/// Every sentence of a caller's list carries a text.
pub open spec fn texts_present(us: Seq<FfiUtterance>) -> bool {
    forall|i: int| 0 <= i < us.len() ==> (#[trigger] us[i]).text is Some
}

/// `u` is the sentence that the caller's `f` reads as.
pub open spec fn read_utterance(u: Utterance, f: FfiUtterance) -> bool {
    &&& u.start_time == f.start_time
    &&& u.end_time == f.end_time
    &&& u.speaker == f.speaker
    &&& u.text@ == lossy_text(f.text->0.view())
}

/// `out` is the caller's list of sentences, texts decoded leniently.
pub open spec fn read_utterances(out: Seq<Utterance>, us: Seq<FfiUtterance>) -> bool {
    &&& out.len() == us.len()
    &&& forall|i: int| 0 <= i < us.len() ==> read_utterance(#[trigger] out[i], us[i])
}

/// Reads a caller's list of sentences; ill-formed UTF-8 is replaced, not refused.
pub fn utterances_from(us: &Vec<FfiUtterance>) -> (r: Vec<Utterance>)
    requires
        texts_present(us@),
    ensures
        read_utterances(r@, us@),
{
    let mut out: Vec<Utterance> = Vec::new();
    let mut i: usize = 0;
    while i < us.len()
        invariant
            i <= us@.len(),
            texts_present(us@),
            out@.len() == i,
            forall|j: int| 0 <= j < i ==> read_utterance(#[trigger] out@[j], us@[j]),
        decreases us@.len() - i,
    {
        let u = &us[i];
        assert(us@[i as int].text is Some);
        let text = match &u.text {
            Some(t) => t.as_slice(),
            None => { proof { assert(false); } &[] },
        };
        out.push(Utterance::from_parts(u.start_time, u.end_time, u.speaker, text));
        i = i + 1;
    }
    out
}

/// Reads caller texts; ill-formed UTF-8 is replaced, not refused.
pub fn texts_from(ks: &Vec<CText>) -> (r: Vec<String>)
    ensures
        r@.len() == ks@.len(),
        forall|i: int| 0 <= i < ks@.len() ==> (#[trigger] r@[i])@ == lossy_text(ks@[i].view()),
{
    let mut out: Vec<String> = Vec::new();
    let mut i: usize = 0;
    while i < ks.len()
        invariant
            i <= ks@.len(),
            out@.len() == i,
            forall|j: int| 0 <= j < i ==> (#[trigger] out@[j])@ == lossy_text(ks@[j].view()),
        decreases ks@.len() - i,
    {
        out.push(crate::utils::lossy_string(ks[i].as_slice()));
        i = i + 1;
    }
    out
}

/// `r` is the caller's callback `req`, every text decoded leniently.
pub open spec fn read_callback(r: CallbackRequest, req: FfiCallbackRequest) -> bool {
    &&& r.task_id@ == lossy_text(req.task_id.view())
    &&& r.status@ == lossy_text(req.status.view())
    &&& r.code == req.code
    &&& read_utterances(r.utterances@, req.utterances@)
    &&& (r.summary is Some <==> req.summary is Some)
    &&& (r.summary matches Some(s) ==> {
        let c = req.summary->0;
        &&& s.short@ == lossy_text(c.short.view())
        &&& s.long@ == lossy_text(c.long.view())
        &&& s.all@ == lossy_text(c.all.view())
        &&& s.keywords@.len() == c.keywords@.len()
        &&& forall|i: int| 0 <= i < c.keywords@.len()
            ==> (#[trigger] s.keywords@[i])@ == lossy_text(c.keywords@[i].view())
    })
    &&& r.duration == req.duration
    &&& (r.message is Some <==> req.message is Some)
    &&& (r.message matches Some(m) ==> m@ == lossy_text(req.message->0.view()))
}

impl CallbackRequest {
    /// Reads a caller's callback; texts are decoded leniently.
    pub fn from(req: &FfiCallbackRequest) -> (r: CallbackRequest)
        requires
            texts_present(req.utterances@),
        ensures
            read_callback(r, *req),
    {
        let summary = match &req.summary {
            None => None,
            Some(c) => Some(SummaryContent {
                short: crate::utils::lossy_string(c.short.as_slice()),
                long: crate::utils::lossy_string(c.long.as_slice()),
                all: crate::utils::lossy_string(c.all.as_slice()),
                keywords: texts_from(&c.keywords),
            }),
        };
        let message = match &req.message {
            None => None,
            Some(m) => Some(crate::utils::lossy_string(m.as_slice())),
        };
        CallbackRequest {
            task_id: crate::utils::lossy_string(req.task_id.as_slice()),
            status: crate::utils::lossy_string(req.status.as_slice()),
            code: req.code,
            utterances: utterances_from(&req.utterances),
            summary,
            duration: req.duration,
            message,
        }
    }
}

} // verus!
