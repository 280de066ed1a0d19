//! Checking and reading the arguments of each call, before the service is asked, and
//! copying binary answers out.
use vstd::prelude::*;
use vstd::string::*;
use crate::decimal::{decimal, decimal_string};
use crate::error::{Error, ErrorKind, ErrorView, invalid_input};
use crate::kinds::{FfiLanguage, FfiTranscribeExportFormat, FfiTranscribeExportType, ModelType};
use crate::types_ffi::{FfiUtterance, Utterance};
use crate::types_ffi::status::{
    CallbackRequest, FfiCallbackRequest, read_callback, read_utterances, texts_present, utterances_from,
};
use crate::utils::{
    bytes_of, export_type_arg, format_arg, language_arg, model_arg, parse_c_str, parse_format_type,
    parse_language, parse_model_type, parse_token, parse_transcribe_export_type, text_arg, token_arg,
};

verus! {

/// A result seen through the views of its value and of its failure.
pub open spec fn viewed<T: View>(r: Result<T, Error>) -> Result<T::V, ErrorView> {
    match r {
        Ok(v) => Ok(v@),
        Err(e) => Err(e@),
    }
}

/// The arguments of an export.
#[derive(Debug)]
pub struct ExportRequest {
    pub task_id: String,
    pub export_type: FfiTranscribeExportType,
    pub export_format: FfiTranscribeExportFormat,
    pub token: String,
}

impl View for ExportRequest {
    type V = (Seq<char>, FfiTranscribeExportType, FfiTranscribeExportFormat, Seq<char>);

    open spec fn view(&self) -> Self::V {
        (self.task_id@, self.export_type, self.export_format, self.token@)
    }
}

pub open spec fn export_args(
    has_data: bool,
    has_len: bool,
    task_id: Option<Seq<u8>>,
    export_type: Option<Seq<u8>>,
    export_format: Option<Seq<u8>>,
    token: Option<Seq<u8>>,
) -> Result<(Seq<char>, FfiTranscribeExportType, FfiTranscribeExportFormat, Seq<char>), ErrorView> {
    if !has_data || !has_len {
        Err(invalid_input("Invalid input parameters"@))
    } else {
        match text_arg(task_id) {
            Err(e) => Err(e),
            Ok(t) => match export_type_arg(export_type) {
                Err(e) => Err(e),
                Ok(ty) => match format_arg(export_format) {
                    Err(e) => Err(e),
                    Ok(f) => match token_arg(token) {
                        Err(e) => Err(e),
                        Ok(k) => Ok((t, ty, f, k)),
                    },
                },
            },
        }
    }
}

/// Checks the arguments of an export: the output buffer and its length slot must be
/// given, then task id, export type, export format and token are read in that order.
/// Ids and words are decoded leniently; the token strictly.
pub fn export_request(
    has_data: bool,
    has_len: bool,
    task_id: Option<&[u8]>,
    export_type: Option<&[u8]>,
    export_format: Option<&[u8]>,
    token: Option<&[u8]>,
) -> (r: Result<ExportRequest, Error>)
    ensures
        viewed(r) == export_args(has_data, has_len, bytes_of(task_id), bytes_of(export_type),
            bytes_of(export_format), bytes_of(token)),
{
    if !has_data || !has_len {
        return Err(Error::new(ErrorKind::InvalidInput, "Invalid input parameters"));
    }
    let task_id = parse_c_str(task_id)?;
    let export_type = parse_transcribe_export_type(export_type)?;
    let export_format = parse_format_type(export_format)?;
    let token = parse_token(token)?;
    Ok(ExportRequest { task_id, export_type, export_format, token })
}

/// The failure of a copy-out into a buffer that is too small for `need` bytes.
pub open spec fn too_small(kind: ErrorKind, need: nat) -> ErrorView {
    ErrorView { kind, detail: "Buffer too small, need "@ + decimal(need) + " bytes"@ }
}

pub(crate) fn too_small_error(kind: ErrorKind, need: usize) -> (r: Error)
    ensures
        r@ == too_small(kind, need as nat),
{
    let detail = String::from_str("Buffer too small, need ").concat(decimal_string(need).as_str()).concat(" bytes");
    Error { kind, detail }
}

/// Writes `data` at the start of `buffer`, leaving the rest of it as it was.
pub(crate) fn copy_into(data: &[u8], buffer: &mut Vec<u8>)
    requires
        data@.len() <= old(buffer)@.len(),
    ensures
        final(buffer)@.len() == old(buffer)@.len(),
        final(buffer)@.subrange(0, data@.len() as int) == data@,
        final(buffer)@.subrange(data@.len() as int, old(buffer)@.len() as int)
            == old(buffer)@.subrange(data@.len() as int, old(buffer)@.len() as int),
{
    let ghost start = buffer@;
    let mut i: usize = 0;
    while i < data.len()
        invariant
            i <= data@.len(),
            data@.len() <= start.len(),
            buffer@.len() == start.len(),
            forall|j: int| 0 <= j < i ==> buffer@[j] == data@[j],
            forall|j: int| i <= j < start.len() ==> buffer@[j] == start[j],
        decreases data@.len() - i,
    {
        buffer.set(i, data[i]);
        i = i + 1;
    }
    assert(buffer@.subrange(0, data@.len() as int) =~= data@);
    assert(buffer@.subrange(data@.len() as int, start.len() as int)
        =~= start.subrange(data@.len() as int, start.len() as int));
}

/// What a copy-out of `data` under the capacity-probe protocol leaves behind, from a
/// buffer holding `buffer` and a declared capacity `cap`: the buffer, the length slot,
/// and whether the call succeeded.
pub open spec fn probe(data: Seq<u8>, buffer: Seq<u8>, cap: nat) -> (Seq<u8>, nat, bool) {
    if data.len() <= cap {
        (data + buffer.subrange(data.len() as int, buffer.len() as int), data.len(), true)
    } else {
        (buffer, data.len(), false)
    }
}

/// Copies an export out under the capacity-probe protocol: `*len` is the capacity on
/// entry. When the data fits it is written at the start of the buffer and `*len` becomes
/// its size; otherwise nothing is written, `*len` becomes the size needed, and the call
/// fails.
pub fn export_copy_out(data: &[u8], buffer: &mut Vec<u8>, len: &mut usize) -> (r: Result<(), Error>)
    requires
        *old(len) <= old(buffer)@.len(),
    ensures
        final(buffer)@ == probe(data@, old(buffer)@, *old(len) as nat).0,
        *final(len) == probe(data@, old(buffer)@, *old(len) as nat).1,
        r is Ok <==> probe(data@, old(buffer)@, *old(len) as nat).2,
        r matches Err(e) ==> e@ == too_small(ErrorKind::InvalidInput, data@.len()),
{
    let n = data.len();
    if n > *len {
        *len = n;
        return Err(too_small_error(ErrorKind::InvalidInput, n));
    }
    let ghost before = buffer@;
    copy_into(data, buffer);
    proof {
        assert(buffer@ =~= buffer@.subrange(0, n as int) + buffer@.subrange(n as int, before.len() as int));
    }
    *len = n;
    Ok(())
}

/// Arguments of a share-link request: task id, days until expiry (absent means the
/// service's default), token.
#[derive(Debug)]
pub struct ShareLinkRequest {
    pub task_id: String,
    pub expiration_day: Option<i32>,
    pub token: String,
}

impl View for ShareLinkRequest {
    type V = (Seq<char>, Option<i32>, Seq<char>);

    open spec fn view(&self) -> Self::V {
        (self.task_id@, self.expiration_day, self.token@)
    }
}

pub open spec fn share_link_args(has_out: bool, task_id: Option<Seq<u8>>, expiration_day: i32, token: Option<Seq<u8>>)
    -> Result<(Seq<char>, Option<i32>, Seq<char>), ErrorView> {
    if !has_out {
        Err(invalid_input("Invalid input parameters"@))
    } else {
        match text_arg(task_id) {
            Err(e) => Err(e),
            Ok(t) => match token_arg(token) {
                Err(e) => Err(e),
                Ok(k) => Ok((t, if expiration_day == 0 { None } else { Some(expiration_day) }, k)),
            },
        }
    }
}

/// Checks the arguments of a share-link request; `0` days asks for the default.
pub fn share_link_request(has_out: bool, task_id: Option<&[u8]>, expiration_day: i32, token: Option<&[u8]>)
    -> (r: Result<ShareLinkRequest, Error>)
    ensures
        viewed(r) == share_link_args(has_out, bytes_of(task_id), expiration_day, bytes_of(token)),
{
    if !has_out {
        return Err(Error::new(ErrorKind::InvalidInput, "Invalid input parameters"));
    }
    let task_id = parse_c_str(task_id)?;
    let token = parse_token(token)?;
    let expiration_day = if expiration_day == 0 { None } else { Some(expiration_day) };
    Ok(ShareLinkRequest { task_id, expiration_day, token })
}

/// Arguments of a status request: a task id or a share id (either may be absent), token.
#[derive(Debug)]
pub struct StatusRequest {
    pub task_id: Option<String>,
    pub share_id: Option<String>,
    pub token: String,
}

pub open spec fn opt_view(s: Option<String>) -> Option<Seq<char>> {
    match s {
        Some(x) => Some(x@),
        None => None,
    }
}

impl View for StatusRequest {
    type V = (Option<Seq<char>>, Option<Seq<char>>, Seq<char>);

    open spec fn view(&self) -> Self::V {
        (opt_view(self.task_id), opt_view(self.share_id), self.token@)
    }
}

/// An optional string argument: absent stays absent; present is decoded leniently.
pub open spec fn opt_text_arg(s: Option<Seq<u8>>) -> Result<Option<Seq<char>>, ErrorView> {
    match s {
        None => Ok(None),
        Some(_) => match text_arg(s) {
            Err(e) => Err(e),
            Ok(t) => Ok(Some(t)),
        },
    }
}

fn parse_opt_c_str(s: Option<&[u8]>) -> (r: Result<Option<String>, Error>)
    ensures
        match r {
            Ok(v) => opt_text_arg(bytes_of(s)) == Ok::<Option<Seq<char>>, ErrorView>(opt_view(v)),
            Err(e) => opt_text_arg(bytes_of(s)) == Err::<Option<Seq<char>>, ErrorView>(e@),
        },
{
    match s {
        None => Ok(None),
        Some(_) => {
            let t = parse_c_str(s)?;
            Ok(Some(t))
        },
    }
}

pub open spec fn status_args(has_out: bool, task_id: Option<Seq<u8>>, share_id: Option<Seq<u8>>, token: Option<Seq<u8>>)
    -> Result<(Option<Seq<char>>, Option<Seq<char>>, Seq<char>), ErrorView> {
    if !has_out {
        Err(invalid_input("Invalid input parameters"@))
    } else {
        match opt_text_arg(task_id) {
            Err(e) => Err(e),
            Ok(t) => match opt_text_arg(share_id) {
                Err(e) => Err(e),
                Ok(s) => match token_arg(token) {
                    Err(e) => Err(e),
                    Ok(k) => Ok((t, s, k)),
                },
            },
        }
    }
}

/// Checks the arguments of a status request.
pub fn status_request(has_out: bool, task_id: Option<&[u8]>, share_id: Option<&[u8]>, token: Option<&[u8]>)
    -> (r: Result<StatusRequest, Error>)
    ensures
        viewed(r) == status_args(has_out, bytes_of(task_id), bytes_of(share_id), bytes_of(token)),
{
    if !has_out {
        return Err(Error::new(ErrorKind::InvalidInput, "Invalid input parameters"));
    }
    let task_id = parse_opt_c_str(task_id)?;
    let share_id = parse_opt_c_str(share_id)?;
    let token = parse_token(token)?;
    Ok(StatusRequest { task_id, share_id, token })
}

/// Reads a caller's sentences; a sentence without a text is refused.
pub fn read_utterance_list(us: &Vec<FfiUtterance>) -> (r: Result<Vec<Utterance>, Error>)
    ensures
        r is Ok <==> texts_present(us@),
        r matches Ok(v) ==> read_utterances(v@, us@),
        r matches Err(e) ==> e@ == invalid_input("utterance text is null"@),
{
    if !all_texts_present(us) {
        return Err(Error::new(ErrorKind::InvalidInput, "utterance text is null"));
    }
    Ok(utterances_from(us))
}

/// Whether every sentence of a caller's list carries a text.
fn all_texts_present(us: &Vec<FfiUtterance>) -> (r: bool)
    ensures
        r == texts_present(us@),
{
    let mut i: usize = 0;
    while i < us.len()
        invariant
            i <= us@.len(),
            forall|j: int| 0 <= j < i ==> (#[trigger] us@[j]).text is Some,
        decreases us@.len() - i,
    {
        if us[i].text.is_none() {
            return false;
        }
        i = i + 1;
    }
    true
}

/// A list argument is given and not empty.
pub open spec fn list_given(us: Option<&Vec<FfiUtterance>>) -> bool {
    us matches Some(v) && v@.len() > 0
}

/// Arguments of a summary request: the sentences to summarise and a token.
#[derive(Debug)]
pub struct SummaryRequest {
    pub utterances: Vec<Utterance>,
    pub token: String,
}

/// Checks the arguments of a summary request: a non-empty list and the output slot,
/// then the token, then each sentence's text.
pub fn summary_request(utterances: Option<&Vec<FfiUtterance>>, has_out: bool, token: Option<&[u8]>)
    -> (r: Result<SummaryRequest, Error>)
    ensures
        !list_given(utterances) || !has_out ==> (r matches Err(e) && e@ == invalid_input("Invalid input parameters"@)),
        list_given(utterances) && has_out ==> match token_arg(bytes_of(token)) {
            Err(te) => r matches Err(e) && e@ == te,
            Ok(k) => if texts_present(utterances->0@) {
                r matches Ok(q) && q.token@ == k && read_utterances(q.utterances@, utterances->0@)
            } else {
                r matches Err(e) && e@ == invalid_input("utterance text is null"@)
            },
        },
{
    let us = match utterances {
        Some(v) if v.len() > 0 && has_out => v,
        _ => {
            return Err(Error::new(ErrorKind::InvalidInput, "Invalid input parameters"));
        },
    };
    let token = parse_token(token)?;
    let utterances = read_utterance_list(us)?;
    Ok(SummaryRequest { utterances, token })
}

/// Arguments of an upload: file path, the two mode flags, model, token.
#[derive(Debug)]
pub struct UploadRequest {
    pub filepath: String,
    pub transcribe_only: bool,
    pub short_asr: bool,
    pub model: ModelType,
    pub token: String,
}

impl View for UploadRequest {
    type V = (Seq<char>, bool, bool, ModelType, Seq<char>);

    open spec fn view(&self) -> Self::V {
        (self.filepath@, self.transcribe_only, self.short_asr, self.model, self.token@)
    }
}

pub open spec fn upload_args(
    has_out: bool,
    filepath: Option<Seq<u8>>,
    transcribe_only: bool,
    short_asr: bool,
    model: Option<Seq<u8>>,
    token: Option<Seq<u8>>,
) -> Result<(Seq<char>, bool, bool, ModelType, Seq<char>), ErrorView> {
    if !has_out {
        Err(invalid_input("Invalid output parameters"@))
    } else {
        match text_arg(filepath) {
            Err(e) => Err(e),
            Ok(p) => match model_arg(model) {
                Err(e) => Err(e),
                Ok(m) => match token_arg(token) {
                    Err(e) => Err(e),
                    Ok(k) => Ok((p, transcribe_only, short_asr, m, k)),
                },
            },
        }
    }
}

/// Checks the arguments of an upload.
pub fn upload_request(
    has_out: bool,
    filepath: Option<&[u8]>,
    transcribe_only: bool,
    short_asr: bool,
    model: Option<&[u8]>,
    token: Option<&[u8]>,
) -> (r: Result<UploadRequest, Error>)
    ensures
        viewed(r) == upload_args(has_out, bytes_of(filepath), transcribe_only, short_asr,
            bytes_of(model), bytes_of(token)),
{
    if !has_out {
        return Err(Error::new(ErrorKind::InvalidInput, "Invalid output parameters"));
    }
    let filepath = parse_c_str(filepath)?;
    let model = parse_model_type(model)?;
    let token = parse_token(token)?;
    Ok(UploadRequest { filepath, transcribe_only, short_asr, model, token })
}

/// Arguments of a translation of a text, or of a task: text or task id, target
/// language, token.
#[derive(Debug)]
pub struct TranslateRequest {
    pub subject: String,
    pub lang: FfiLanguage,
    pub token: String,
}

impl View for TranslateRequest {
    type V = (Seq<char>, FfiLanguage, Seq<char>);

    open spec fn view(&self) -> Self::V {
        (self.subject@, self.lang, self.token@)
    }
}

pub open spec fn translate_args(has_out: bool, missing_out: Seq<char>, subject: Option<Seq<u8>>, lang: Option<Seq<u8>>, token: Option<Seq<u8>>)
    -> Result<(Seq<char>, FfiLanguage, Seq<char>), ErrorView> {
    if !has_out {
        Err(invalid_input(missing_out))
    } else {
        match text_arg(subject) {
            Err(e) => Err(e),
            Ok(s) => match language_arg(lang) {
                Err(e) => Err(e),
                Ok(l) => match token_arg(token) {
                    Err(e) => Err(e),
                    Ok(k) => Ok((s, l, k)),
                },
            },
        }
    }
}

fn translate_args_read(subject: Option<&[u8]>, lang: Option<&[u8]>, token: Option<&[u8]>)
    -> (r: Result<TranslateRequest, Error>)
    ensures
        viewed(r) == translate_args(true, Seq::empty(), bytes_of(subject), bytes_of(lang), bytes_of(token)),
{
    let subject = parse_c_str(subject)?;
    let lang = parse_language(lang)?;
    let token = parse_token(token)?;
    Ok(TranslateRequest { subject, lang, token })
}

/// Checks the arguments of a text translation.
pub fn translate_text_request(has_out: bool, text: Option<&[u8]>, target_lang: Option<&[u8]>, token: Option<&[u8]>)
    -> (r: Result<TranslateRequest, Error>)
    ensures
        viewed(r) == translate_args(has_out, "Invalid input parameters"@, bytes_of(text),
            bytes_of(target_lang), bytes_of(token)),
{
    if !has_out {
        return Err(Error::new(ErrorKind::InvalidInput, "Invalid input parameters"));
    }
    translate_args_read(text, target_lang, token)
}

/// Checks the arguments of a task translation.
pub fn translate_transcribe_request(has_out: bool, task_id: Option<&[u8]>, target_lang: Option<&[u8]>, token: Option<&[u8]>)
    -> (r: Result<TranslateRequest, Error>)
    ensures
        viewed(r) == translate_args(has_out, "out_result is null"@, bytes_of(task_id),
            bytes_of(target_lang), bytes_of(token)),
{
    if !has_out {
        return Err(Error::new(ErrorKind::InvalidInput, "out_result is null"));
    }
    translate_args_read(task_id, target_lang, token)
}

/// Arguments of a translation of sentences.
#[derive(Debug)]
pub struct TranslateUtteranceRequest {
    pub utterances: Vec<Utterance>,
    pub lang: FfiLanguage,
    pub token: String,
}

/// Checks the arguments of a translation of sentences: a non-empty list and the output
/// slot, then each sentence's text, then language and token.
pub fn translate_utterance_request(
    utterances: Option<&Vec<FfiUtterance>>,
    has_out: bool,
    target_lang: Option<&[u8]>,
    token: Option<&[u8]>,
) -> (r: Result<TranslateUtteranceRequest, Error>)
    ensures
        !list_given(utterances) || !has_out ==> (r matches Err(e) && e@ == invalid_input("Invalid input"@)),
        list_given(utterances) && has_out && !texts_present(utterances->0@)
            ==> (r matches Err(e) && e@ == invalid_input("utterance text is null"@)),
        list_given(utterances) && has_out && texts_present(utterances->0@) ==> match language_arg(bytes_of(target_lang)) {
            Err(le) => r matches Err(e) && e@ == le,
            Ok(l) => match token_arg(bytes_of(token)) {
                Err(te) => r matches Err(e) && e@ == te,
                Ok(k) => r matches Ok(q) && q.lang == l && q.token@ == k
                    && read_utterances(q.utterances@, utterances->0@),
            },
        },
{
    let us = match utterances {
        Some(v) if v.len() > 0 && has_out => v,
        _ => {
            return Err(Error::new(ErrorKind::InvalidInput, "Invalid input"));
        },
    };
    let utterances = read_utterance_list(us)?;
    let lang = parse_language(target_lang)?;
    let token = parse_token(token)?;
    Ok(TranslateUtteranceRequest { utterances, lang, token })
}

/// Arguments of a callback: the callback to forward and a token.
#[derive(Debug)]
pub struct CallbackCall {
    pub request: CallbackRequest,
    pub token: String,
}

/// Checks the arguments of a callback: the callback and the output slot, then the
/// token, then each sentence's text.
pub fn callback_request(request: Option<&FfiCallbackRequest>, has_out: bool, token: Option<&[u8]>)
    -> (r: Result<CallbackCall, Error>)
    ensures
        request is None || !has_out ==> (r matches Err(e) && e@ == invalid_input("Invalid input parameters"@)),
        request is Some && has_out ==> match token_arg(bytes_of(token)) {
            Err(te) => r matches Err(e) && e@ == te,
            Ok(k) => if texts_present(request->0.utterances@) {
                r matches Ok(q) && q.token@ == k
                    && read_callback(q.request, *request->0)
            } else {
                r matches Err(e) && e@ == invalid_input("utterance text is null"@)
            },
        },
{
    let req = match request {
        Some(q) if has_out => q,
        _ => {
            return Err(Error::new(ErrorKind::InvalidInput, "Invalid input parameters"));
        },
    };
    let token = parse_token(token)?;
    if !all_texts_present(&req.utterances) {
        return Err(Error::new(ErrorKind::InvalidInput, "utterance text is null"));
    }
    Ok(CallbackCall { request: CallbackRequest::from(req), token })
}

/// Arguments of opening a live session: model and token.
#[derive(Debug)]
pub struct CreateSessionRequest {
    pub model: ModelType,
    pub token: String,
}

impl View for CreateSessionRequest {
    type V = (ModelType, Seq<char>);

    open spec fn view(&self) -> Self::V {
        (self.model, self.token@)
    }
}

pub open spec fn create_session_args(has_out: bool, model: Option<Seq<u8>>, token: Option<Seq<u8>>)
    -> Result<(ModelType, Seq<char>), ErrorView> {
    if !has_out {
        Err(invalid_input("Invalid output parameters"@))
    } else {
        match model_arg(model) {
            Err(e) => Err(e),
            Ok(m) => match token_arg(token) {
                Err(e) => Err(e),
                Ok(k) => Ok((m, k)),
            },
        }
    }
}

/// Checks the arguments of opening a live session.
pub fn create_session_request(has_out: bool, model: Option<&[u8]>, token: Option<&[u8]>)
    -> (r: Result<CreateSessionRequest, Error>)
    ensures
        viewed(r) == create_session_args(has_out, bytes_of(model), bytes_of(token)),
{
    if !has_out {
        return Err(Error::new(ErrorKind::InvalidInput, "Invalid output parameters"));
    }
    let model = parse_model_type(model)?;
    let token = parse_token(token)?;
    Ok(CreateSessionRequest { model, token })
}

/// Arguments of closing a live session: task id, token, and a wait in seconds (absent
/// means the service's default).
#[derive(Debug)]
pub struct CloseSessionRequest {
    pub task_id: String,
    pub token: String,
    pub timeout: Option<u64>,
}

impl View for CloseSessionRequest {
    type V = (Seq<char>, Seq<char>, Option<u64>);

    open spec fn view(&self) -> Self::V {
        (self.task_id@, self.token@, self.timeout)
    }
}

pub open spec fn close_session_args(has_out: bool, task_id: Option<Seq<u8>>, token: Option<Seq<u8>>, timeout: u64)
    -> Result<(Seq<char>, Seq<char>, Option<u64>), ErrorView> {
    if !has_out {
        Err(invalid_input("Invalid output parameters"@))
    } else {
        match text_arg(task_id) {
            Err(e) => Err(e),
            Ok(t) => match token_arg(token) {
                Err(e) => Err(e),
                Ok(k) => Ok((t, k, if timeout == 0 { None } else { Some(timeout) })),
            },
        }
    }
}

/// Checks the arguments of closing a live session; a wait of `0` asks for the default.
pub fn close_session_request(has_out: bool, task_id: Option<&[u8]>, token: Option<&[u8]>, timeout: u64)
    -> (r: Result<CloseSessionRequest, Error>)
    ensures
        viewed(r) == close_session_args(has_out, bytes_of(task_id), bytes_of(token), timeout),
{
    if !has_out {
        return Err(Error::new(ErrorKind::InvalidInput, "Invalid output parameters"));
    }
    let task_id = parse_c_str(task_id)?;
    let token = parse_token(token)?;
    let timeout = if timeout == 0 { None } else { Some(timeout) };
    Ok(CloseSessionRequest { task_id, token, timeout })
}

} // verus!
