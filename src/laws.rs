//! Properties that hold across calls of the library.
use vstd::prelude::*;
use vstd::utf8::{decode_utf8, valid_utf8};
use crate::error::{code_value, kind_code, ErrorKind};
use crate::kinds::{FfiLanguage, FfiTranscribeExportFormat, FfiTranscribeExportType, ModelType};
use crate::transcribe_api::{export_args, probe, upload_args};
use crate::types_ffi::share::FfiShareLink;
use crate::types_ffi::status::{FfiTranscribeStatus, TranscribeStatus, status_form};
use crate::types_ffi::translate::{FfiTextTranslator, FfiTranscribeTranslator, FfiUtteranceTranslator};
use crate::types_ffi::upload::FfiUploadResponse;
use crate::types_ffi::ws::{FfiSessionCreator, FfiSessionEnder};
use crate::utils::{export_type_of, format_of, language_of, lossy_text, lower_equals, model_of};

verus! {

/// Releasing twice is releasing once: the released form of a value is a fixed point of
/// every release operation.
pub proof fn lemma_release_idempotent(
    a: FfiTranscribeStatus,
    b: FfiShareLink,
    c: FfiUploadResponse,
    d: FfiSessionCreator,
    e: FfiSessionEnder,
    f: FfiTextTranslator,
    g: FfiUtteranceTranslator,
    h: FfiTranscribeTranslator,
)
    ensures
        a.released().released() == a.released(),
        b.released().released() == b.released(),
        c.released().released() == c.released(),
        d.released().released() == d.released(),
        e.released().released() == e.released(),
        f.released().released() == f.released(),
        g.released().released() == g.released(),
        h.released().released() == h.released(),
{
}

/// A status converted successfully hands out every field that the service filled: the
/// status, each present Markdown text, every sentence and every history entry, each an
/// owned value of its own.
pub proof fn lemma_status_outputs_populated(f: FfiTranscribeStatus, v: TranscribeStatus)
    requires
        status_form(f, v),
    ensures
        f.status is Some,
        v.overview_md is Some ==> f.overview_md is Some,
        v.summary_md is Some ==> f.summary_md is Some,
        f.details_len == v.details@.len(),
        v.details@.len() > 0 ==> (f.details matches Some(ds) && ds@.len() == v.details@.len()
            && forall|i: int| 0 <= i < ds@.len() ==> (#[trigger] ds@[i]).text is Some),
        f.callback_history_len == v.callback_history@.len(),
        v.callback_history@.len() > 0 ==> (f.callback_history matches Some(hs)
            && forall|i: int| 0 <= i < hs@.len() ==> (#[trigger] hs@[i]).timestamp is Some
                && hs@[i].status is Some),
        v.task_type is Some <==> f.has_task_type,
{
    if v.details@.len() > 0 {
        let ds = f.details->0;
        assert forall|i: int| 0 <= i < ds@.len() implies (#[trigger] ds@[i]).text is Some by {
            let form = |a: crate::types_ffi::FfiUtterance, b: crate::types_ffi::Utterance|
                crate::types_ffi::utterance_form(a, b);
            assert(form(ds@[i], v.details@[i]));
        }
    }
    if v.callback_history@.len() > 0 {
        let hs = f.callback_history->0;
        assert forall|i: int| 0 <= i < hs@.len() implies (#[trigger] hs@[i]).timestamp is Some
            && hs@[i].status is Some by {
            let form = |a: crate::types_ffi::status::FfiCallbackHistory, b: crate::types_ffi::status::CallbackHistory|
                crate::types_ffi::status::history_form(a, b);
            assert(form(hs@[i], v.callback_history@[i]));
        }
    }
}

/// Arguments that are all given, with a well-formed token and known words, are
/// accepted: an upload and an export read into exactly the values given, ids and paths
/// decoded leniently whatever their bytes.
pub proof fn lemma_valid_arguments_accepted(
    path: Seq<u8>,
    model: Seq<u8>,
    token: Seq<u8>,
    transcribe_only: bool,
    short_asr: bool,
    task_id: Seq<u8>,
    export_type: Seq<u8>,
    export_format: Seq<u8>,
)
    requires
        valid_utf8(token),
        model_of(lossy_text(model)) is Some,
        export_type_of(lossy_text(export_type)) is Some,
        format_of(lossy_text(export_format)) is Some,
    ensures
        upload_args(true, Some(path), transcribe_only, short_asr, Some(model), Some(token)) == Ok::<
            (Seq<char>, bool, bool, ModelType, Seq<char>),
            crate::error::ErrorView,
        >((lossy_text(path), transcribe_only, short_asr, model_of(lossy_text(model))->0, decode_utf8(token))),
        export_args(true, true, Some(task_id), Some(export_type), Some(export_format), Some(token)) == Ok::<
            (Seq<char>, FfiTranscribeExportType, FfiTranscribeExportFormat, Seq<char>),
            crate::error::ErrorView,
        >((lossy_text(task_id), export_type_of(lossy_text(export_type))->0,
            format_of(lossy_text(export_format))->0, decode_utf8(token))),
{
}

/// Each failure kind has its own non-zero code, and the unknown code is negative.
pub proof fn lemma_codes_distinct(a: ErrorKind, b: ErrorKind)
    ensures
        code_value(kind_code(a)) > 0,
        a != b ==> code_value(kind_code(a)) != code_value(kind_code(b)),
        code_value(crate::error::ErrorCode::UnknownError) < 0,
{
}

/// Capacity probe round trip: a buffer too small for `data` is left as it was and the
/// length slot reports exactly the size needed; a second call with that size succeeds,
/// and the payload it writes is what any larger buffer would have received.
pub proof fn lemma_capacity_probe_round_trip(data: Seq<u8>, small: Seq<u8>, cap: nat, exact: Seq<u8>, large: Seq<u8>, big: nat)
    requires
        cap < data.len(),
        cap <= small.len(),
        data.len() <= exact.len(),
        data.len() <= big,
        big <= large.len(),
    ensures
        !probe(data, small, cap).2,
        probe(data, small, cap).0 == small,
        probe(data, small, cap).1 == data.len(),
        probe(data, exact, probe(data, small, cap).1).2,
        probe(data, exact, probe(data, small, cap).1).1 == data.len(),
        probe(data, exact, probe(data, small, cap).1).0.subrange(0, data.len() as int)
            == probe(data, large, big).0.subrange(0, data.len() as int),
        probe(data, large, big).0.subrange(0, data.len() as int) == data,
{
    assert(probe(data, exact, data.len()).0.subrange(0, data.len() as int) =~= data);
    assert(probe(data, large, big).0.subrange(0, data.len() as int) =~= data);
}

/// Every word of each closed vocabulary, in any ASCII case, reads as its value; a word
/// outside the vocabulary reads as nothing.
pub proof fn lemma_vocabularies(s: Seq<char>)
    ensures
        lower_equals(s, "speed"@) ==> model_of(s) == Some(ModelType::Speed),
        lower_equals(s, "quality"@) ==> model_of(s) == Some(ModelType::Quality),
        lower_equals(s, "quality_v2"@) ==> model_of(s) == Some(ModelType::QualityV2),
        !lower_equals(s, "speed"@) && !lower_equals(s, "quality"@) && !lower_equals(s, "quality_v2"@)
            ==> model_of(s) is None,
        lower_equals(s, "zh"@) ==> language_of(s) == Some(FfiLanguage::ChineseSimplified),
        lower_equals(s, "en"@) ==> language_of(s) == Some(FfiLanguage::EnglishUS),
        lower_equals(s, "ja"@) ==> language_of(s) == Some(FfiLanguage::Japanese),
        lower_equals(s, "ko"@) ==> language_of(s) == Some(FfiLanguage::Korean),
        lower_equals(s, "fr"@) ==> language_of(s) == Some(FfiLanguage::French),
        lower_equals(s, "de"@) ==> language_of(s) == Some(FfiLanguage::German),
        !lower_equals(s, "zh"@) && !lower_equals(s, "en"@) && !lower_equals(s, "ja"@)
            && !lower_equals(s, "ko"@) && !lower_equals(s, "fr"@) && !lower_equals(s, "de"@)
            ==> language_of(s) is None,
        lower_equals(s, "pdf"@) ==> format_of(s) == Some(FfiTranscribeExportFormat::Pdf),
        lower_equals(s, "txt"@) ==> format_of(s) == Some(FfiTranscribeExportFormat::Txt),
        lower_equals(s, "docx"@) ==> format_of(s) == Some(FfiTranscribeExportFormat::Docx),
        !lower_equals(s, "pdf"@) && !lower_equals(s, "txt"@) && !lower_equals(s, "docx"@)
            ==> format_of(s) is None,
        lower_equals(s, "transcript"@) ==> export_type_of(s) == Some(FfiTranscribeExportType::Transcript),
        lower_equals(s, "overview"@) ==> export_type_of(s) == Some(FfiTranscribeExportType::Overview),
        lower_equals(s, "summary"@) ==> export_type_of(s) == Some(FfiTranscribeExportType::Summary),
        !lower_equals(s, "transcript"@) && !lower_equals(s, "overview"@) && !lower_equals(s, "summary"@)
            ==> export_type_of(s) is None,
{
    reveal_strlit("speed");
    reveal_strlit("quality");
    reveal_strlit("quality_v2");
    reveal_strlit("zh");
    reveal_strlit("en");
    reveal_strlit("ja");
    reveal_strlit("ko");
    reveal_strlit("fr");
    reveal_strlit("de");
    reveal_strlit("pdf");
    reveal_strlit("txt");
    reveal_strlit("docx");
    reveal_strlit("transcript");
    reveal_strlit("overview");
    reveal_strlit("summary");
    if lower_equals(s, "en"@) || lower_equals(s, "ja"@) || lower_equals(s, "ko"@)
        || lower_equals(s, "fr"@) || lower_equals(s, "de"@) {
        assert(crate::utils::lower_is(s[0], "zh"@[0]) ==> s[0] == 'z' || s[0] == 'Z');
    }
    if lower_equals(s, "ja"@) || lower_equals(s, "ko"@) || lower_equals(s, "fr"@) || lower_equals(s, "de"@) {
        assert(crate::utils::lower_is(s[0], "en"@[0]) ==> s[0] == 'e' || s[0] == 'E');
    }
    if lower_equals(s, "ko"@) || lower_equals(s, "fr"@) || lower_equals(s, "de"@) {
        assert(crate::utils::lower_is(s[0], "ja"@[0]) ==> s[0] == 'j' || s[0] == 'J');
    }
    if lower_equals(s, "fr"@) || lower_equals(s, "de"@) {
        assert(crate::utils::lower_is(s[0], "ko"@[0]) ==> s[0] == 'k' || s[0] == 'K');
    }
    if lower_equals(s, "de"@) {
        assert(crate::utils::lower_is(s[0], "fr"@[0]) ==> s[0] == 'f' || s[0] == 'F');
    }
    if lower_equals(s, "txt"@) {
        assert(crate::utils::lower_is(s[0], "pdf"@[0]) ==> s[0] == 'p' || s[0] == 'P');
    }
}

} // verus!
