//! Translation results.
use vstd::prelude::*;
use crate::error::Error;
use crate::kinds::{FfiLanguage, FfiTranslateTaskType};
use crate::text::{CText, array_call, free_c_string, nul_error, to_boundary_array};
use crate::types_ffi::{
    Utterance, FfiUtterance, array_holds, c_text, fits, fits_opt, holds, holds_opt, keyword_array,
    opt_c_text, texts_fit, texts_holds, texts_of, utterance_array, utterance_form, utterances_fit,
};

verus! {

/// A translated text.
#[derive(Debug)]
pub struct TextTranslator {
    pub status: String,
    pub data: String,
}

/// A translated text in its boundary form.
#[derive(Debug)]
pub struct FfiTextTranslator {
    pub status: Option<CText>,
    pub data: Option<CText>,
}

/// Translated sentences.
#[derive(Debug)]
pub struct UtteranceTranslator {
    pub status: String,
    pub lang: FfiLanguage,
    pub details: Vec<Utterance>,
}

/// Translated sentences in their boundary form.
#[derive(Debug)]
pub struct FfiUtteranceTranslator {
    pub status: Option<CText>,
    pub lang: FfiLanguage,
    pub details: Option<Vec<FfiUtterance>>,
    pub details_len: usize,
}

/// One sentence of a task with its translation into the result's language, when the
/// service has one.
#[derive(Debug)]
pub struct TranslateDetail {
    pub utterance: Utterance,
    pub translation: Option<String>,
}

/// A translated sentence in its boundary form.
#[derive(Debug)]
pub struct FfiTranslateDetail {
    pub utterance: FfiUtterance,
    pub translation: Option<CText>,
}

/// The translation of a whole task.
#[derive(Debug)]
pub struct TranscribeTranslator {
    pub task_id: String,
    pub task_type: FfiTranslateTaskType,
    pub status: String,
    pub lang: FfiLanguage,
    pub message: Option<String>,
    pub details: Option<Vec<TranslateDetail>>,
    pub overview_md: Option<String>,
    pub summary_md: Option<String>,
    pub keywords: Option<Vec<String>>,
}

/// A task translation in its boundary form.
#[derive(Debug)]
pub struct FfiTranscribeTranslator {
    pub task_id: Option<CText>,
    pub task_type: FfiTranslateTaskType,
    pub status: Option<CText>,
    pub lang: FfiLanguage,
    pub message: Option<CText>,
    pub details: Option<Vec<FfiTranslateDetail>>,
    pub details_len: usize,
    pub overview_md: Option<CText>,
    pub summary_md: Option<CText>,
    pub keywords: Option<Vec<CText>>,
    pub keywords_len: usize,
}

impl FfiTextTranslator {
    /// Converts a translated text, all or nothing.
    pub fn try_from(v: TextTranslator) -> (r: Result<FfiTextTranslator, Error>)
        ensures
            r is Ok <==> fits(v.status@) && fits(v.data@),
            r matches Ok(f) ==> holds(f.status, v.status@) && holds(f.data, v.data@),
            r matches Err(e) ==> e@ == nul_error(),
    {
        let status = c_text(&v.status)?;
        let data = c_text(&v.data)?;
        Ok(FfiTextTranslator { status: Some(status), data: Some(data) })
    }

    pub open spec fn released(self) -> FfiTextTranslator {
        FfiTextTranslator { status: None, data: None }
    }
}

impl FfiUtteranceTranslator {
    /// Converts translated sentences, all or nothing.
    pub fn try_from(v: UtteranceTranslator) -> (r: Result<FfiUtteranceTranslator, Error>)
        ensures
            r is Ok <==> fits(v.status@) && utterances_fit(v.details@),
            r matches Ok(f) ==> holds(f.status, v.status@) && f.lang == v.lang
                && array_holds(f.details, f.details_len, v.details@,
                    |a: FfiUtterance, b: Utterance| utterance_form(a, b)),
            r matches Err(e) ==> e@ == nul_error(),
    {
        let status = c_text(&v.status)?;
        let details = utterance_array(&v.details)?;
        Ok(FfiUtteranceTranslator { status: Some(status), lang: v.lang, details: details.0, details_len: details.1 })
    }

    pub open spec fn released(self) -> FfiUtteranceTranslator {
        FfiUtteranceTranslator { status: None, details: None, details_len: 0, ..self }
    }
}

/// The translation text of a sentence: empty when the service has none.
pub open spec fn translation_text(d: TranslateDetail) -> Seq<char> {
    match d.translation {
        Some(t) => t@,
        None => Seq::empty(),
    }
}

pub open spec fn detail_fits(d: TranslateDetail) -> bool {
    fits(d.utterance.text@) && fits(translation_text(d))
}

pub open spec fn detail_form(f: FfiTranslateDetail, d: TranslateDetail) -> bool {
    utterance_form(f.utterance, d.utterance) && holds(f.translation, translation_text(d))
}

impl FfiTranslateDetail {
    pub fn try_from(d: &TranslateDetail) -> (r: Result<FfiTranslateDetail, Error>)
        ensures
            r is Ok <==> detail_fits(*d),
            r matches Ok(f) ==> detail_form(f, *d),
            r matches Err(e) ==> e@ == nul_error(),
    {
        let utterance = FfiUtterance::try_from(&d.utterance)?;
        let translation = match &d.translation {
            Some(t) => c_text(t)?,
            None => {
                let empty = String::new();
                c_text(&empty)?
            },
        };
        Ok(FfiTranslateDetail { utterance, translation: Some(translation) })
    }
}

pub open spec fn details_fit(ds: Seq<TranslateDetail>) -> bool {
    forall|i: int| 0 <= i < ds.len() ==> detail_fits(#[trigger] ds[i])
}

/// The boundary form of translated sentences; fails when a text holds a nul.
pub fn detail_array(ds: &Vec<TranslateDetail>) -> (r: Result<(Option<Vec<FfiTranslateDetail>>, usize), Error>)
    ensures
        r is Ok <==> details_fit(ds@),
        r matches Ok(a) ==> array_holds(a.0, a.1, ds@, |f: FfiTranslateDetail, d: TranslateDetail| detail_form(f, d)),
        r matches Err(e) ==> e@ == nul_error(),
{
    let mut out: Vec<FfiTranslateDetail> = Vec::new();
    let mut i: usize = 0;
    while i < ds.len()
        invariant
            i <= ds@.len(),
            out@.len() == i,
            forall|j: int| 0 <= j < i ==> detail_fits(#[trigger] ds@[j]),
            forall|j: int| 0 <= j < i ==> detail_form(#[trigger] out@[j], ds@[j]),
        decreases ds@.len() - i,
    {
        let f = FfiTranslateDetail::try_from(&ds[i])?;
        out.push(f);
        i = i + 1;
    }
    Ok(to_boundary_array(out))
}

/// Every text of a task translation fits the boundary.
pub open spec fn task_translation_fits(v: TranscribeTranslator) -> bool {
    &&& fits(v.task_id@)
    &&& fits(v.status@)
    &&& fits_opt(v.message)
    &&& (v.details matches Some(ds) ==> details_fit(ds@))
    &&& fits_opt(v.overview_md)
    &&& fits_opt(v.summary_md)
    &&& (v.keywords matches Some(ks) ==> texts_fit(texts_of(ks@)))
}

/// `f` is the boundary form of `v`; an absent list is the null form.
pub open spec fn task_translation_form(f: FfiTranscribeTranslator, v: TranscribeTranslator) -> bool {
    &&& holds(f.task_id, v.task_id@)
    &&& f.task_type == v.task_type
    &&& holds(f.status, v.status@)
    &&& f.lang == v.lang
    &&& holds_opt(f.message, v.message)
    &&& array_holds(f.details, f.details_len,
        match v.details { Some(ds) => ds@, None => Seq::empty() },
        |a: FfiTranslateDetail, b: TranslateDetail| detail_form(a, b))
    &&& holds_opt(f.overview_md, v.overview_md)
    &&& holds_opt(f.summary_md, v.summary_md)
    &&& texts_holds(f.keywords, f.keywords_len,
        match v.keywords { Some(ks) => texts_of(ks@), None => Seq::empty() })
}

impl FfiTranscribeTranslator {
    /// Converts a task translation, all or nothing: on failure nothing is handed out.
    pub fn try_from(v: TranscribeTranslator) -> (r: Result<FfiTranscribeTranslator, Error>)
        ensures
            r is Ok <==> task_translation_fits(v),
            r matches Ok(f) ==> task_translation_form(f, v),
            r matches Err(e) ==> e@ == nul_error(),
    {
        let task_id = c_text(&v.task_id)?;
        let status = c_text(&v.status)?;
        let message = opt_c_text(&v.message)?;
        let details = match &v.details {
            Some(ds) => detail_array(ds)?,
            None => (None, 0),
        };
        let overview_md = opt_c_text(&v.overview_md)?;
        let summary_md = opt_c_text(&v.summary_md)?;
        let keywords = match &v.keywords {
            Some(ks) => keyword_array(ks)?,
            None => (None, 0),
        };
        Ok(FfiTranscribeTranslator {
            task_id: Some(task_id),
            task_type: v.task_type,
            status: Some(status),
            lang: v.lang,
            message,
            details: details.0,
            details_len: details.1,
            overview_md,
            summary_md,
            keywords: keywords.0,
            keywords_len: keywords.1,
        })
    }

    pub open spec fn released(self) -> FfiTranscribeTranslator {
        FfiTranscribeTranslator {
            task_id: None,
            status: None,
            message: None,
            details: None,
            details_len: 0,
            overview_md: None,
            summary_md: None,
            keywords: None,
            keywords_len: 0,
            ..self
        }
    }
}

/// Releases the strings of a translated text and leaves them null.
pub fn transcribe_ffi_free_text_translator(s: &mut FfiTextTranslator)
    ensures
        *final(s) == old(s).released(),
{
    free_c_string(&mut s.status);
    free_c_string(&mut s.data);
}

/// Releases translated sentences and leaves them null.
pub fn transcribe_ffi_free_utterance_translator(s: &mut FfiUtteranceTranslator)
    ensures
        *final(s) == old(s).released(),
{
    free_c_string(&mut s.status);
    array_call(&mut s.details, &mut s.details_len);
}

/// Releases every owned field of a task translation and leaves them null.
pub fn transcribe_ffi_free_transcribe_translator(s: &mut FfiTranscribeTranslator)
    ensures
        *final(s) == old(s).released(),
{
    free_c_string(&mut s.task_id);
    free_c_string(&mut s.status);
    free_c_string(&mut s.message);
    free_c_string(&mut s.overview_md);
    free_c_string(&mut s.summary_md);
    array_call(&mut s.details, &mut s.details_len);
    array_call(&mut s.keywords, &mut s.keywords_len);
}

} // verus!
