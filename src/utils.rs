//! Reading caller-supplied strings and the closed vocabularies they name.
use vstd::prelude::*;
use vstd::string::*;
use vstd::utf8::{decode_utf8, valid_utf8};
use crate::error::{Error, ErrorKind, ErrorView, invalid_input};
use crate::kinds::{FfiLanguage, FfiTranscribeExportFormat, FfiTranscribeExportType, ModelType};

verus! {

/// The text of the error that a failed strict UTF-8 decoding of `b` reports.
pub uninterp spec fn utf8_error_text(b: Seq<u8>) -> Seq<char>;

/// The characters that lenient UTF-8 decoding makes of `b`.
pub uninterp spec fn lossy_text(b: Seq<u8>) -> Seq<char>;

/// Relies on `std::str::from_utf8`: it succeeds exactly on well-formed UTF-8, with the
/// decoded characters; its error's text depends on the bytes alone.
#[verifier::external_body]
fn decode_strict(b: &[u8]) -> (r: Result<String, String>)
    ensures
        r is Ok <==> valid_utf8(b@),
        r matches Ok(s) ==> s@ == decode_utf8(b@),
        r matches Err(m) ==> m@ == utf8_error_text(b@),
{
    match std::str::from_utf8(b) {
        Ok(s) => Ok(s.to_string()),
        Err(e) => Err(e.to_string()),
    }
}

/// Relies on `String::from_utf8_lossy`: ill-formed sequences become U+FFFD, and
/// well-formed UTF-8 is decoded unchanged.
#[verifier::external_body]
fn decode_lossy(b: &[u8]) -> (r: String)
    ensures
        r@ == lossy_text(b@),
        valid_utf8(b@) ==> r@ == decode_utf8(b@),
{
    String::from_utf8_lossy(b).into_owned()
}

/// Decodes caller bytes leniently: ill-formed sequences are replaced, never refused.
pub fn lossy_string(b: &[u8]) -> (r: String)
    ensures
        r@ == lossy_text(b@),
        valid_utf8(b@) ==> r@ == decode_utf8(b@),
{
    decode_lossy(b)
}

pub open spec fn bytes_of(s: Option<&[u8]>) -> Option<Seq<u8>> {
    match s {
        Some(b) => Some(b@),
        None => None,
    }
}

/// A result with its failure seen through the failure's view.
pub open spec fn outcome<T>(r: Result<T, Error>) -> Result<T, ErrorView> {
    match r {
        Ok(v) => Ok(v),
        Err(e) => Err(e@),
    }
}

/// A text result seen through views.
pub open spec fn text_outcome(r: Result<String, Error>) -> Result<Seq<char>, ErrorView> {
    match r {
        Ok(v) => Ok(v@),
        Err(e) => Err(e@),
    }
}

/// A required string argument: absent is refused; ill-formed UTF-8 is replaced, never
/// refused.
pub open spec fn text_arg(s: Option<Seq<u8>>) -> Result<Seq<char>, ErrorView> {
    match s {
        None => Err(invalid_input("s is null"@)),
        Some(b) => Ok(lossy_text(b)),
    }
}

/// A bearer token: absent is refused, and so is ill-formed UTF-8, since a token with
/// replaced bytes can never authenticate and would only be sent to fail.
pub open spec fn token_arg(s: Option<Seq<u8>>) -> Result<Seq<char>, ErrorView> {
    match s {
        None => Err(invalid_input("s is null"@)),
        Some(b) => if valid_utf8(b) {
            Ok(decode_utf8(b))
        } else {
            Err(invalid_input(utf8_error_text(b)))
        },
    }
}

/// Reads a required string argument, decoding it leniently.
pub fn parse_c_str(s: Option<&[u8]>) -> (r: Result<String, Error>)
    ensures
        text_outcome(r) == text_arg(bytes_of(s)),
{
    match s {
        None => Err(Error::new(ErrorKind::InvalidInput, "s is null")),
        Some(b) => Ok(lossy_string(b)),
    }
}

/// Reads a bearer token, refusing ill-formed UTF-8.
pub fn parse_token(s: Option<&[u8]>) -> (r: Result<String, Error>)
    ensures
        text_outcome(r) == token_arg(bytes_of(s)),
{
    match s {
        None => Err(Error::new(ErrorKind::InvalidInput, "s is null")),
        Some(b) => match decode_strict(b) {
            Ok(t) => Ok(t),
            Err(m) => Err(Error { kind: ErrorKind::InvalidInput, detail: m }),
        },
    }
}

/// `c`, ASCII-lowercased, is `w`.
pub open spec fn lower_is(c: char, w: char) -> bool {
    if 'A' <= c <= 'Z' {
        c as u32 + 32 == w as u32
    } else {
        c == w
    }
}

/// `s`, ASCII-lowercased, is `word`.
pub open spec fn lower_equals(s: Seq<char>, word: Seq<char>) -> bool {
    &&& s.len() == word.len()
    &&& forall|i: int| 0 <= i < s.len() ==> lower_is(#[trigger] s[i], word[i])
}

/// Whether `s` spells `word` once ASCII letters are lowercased.
pub fn matches_word(s: &str, word: &str) -> (r: bool)
    ensures
        r == lower_equals(s@, word@),
{
    let n = s.unicode_len();
    if n != word.unicode_len() {
        return false;
    }
    let mut i: usize = 0;
    while i < n
        invariant
            n == s@.len(),
            n == word@.len(),
            i <= n,
            forall|j: int| 0 <= j < i ==> lower_is(#[trigger] s@[j], word@[j]),
        decreases n - i,
    {
        let c = s.get_char(i);
        let w = word.get_char(i);
        let ok = if 'A' <= c && c <= 'Z' {
            c as u32 + 32 == w as u32
        } else {
            c == w
        };
        if !ok {
            return false;
        }
        i = i + 1;
    }
    true
}

pub open spec fn model_of(t: Seq<char>) -> Option<ModelType> {
    if lower_equals(t, "speed"@) {
        Some(ModelType::Speed)
    } else if lower_equals(t, "quality"@) {
        Some(ModelType::Quality)
    } else if lower_equals(t, "quality_v2"@) {
        Some(ModelType::QualityV2)
    } else {
        None
    }
}

pub open spec fn language_of(t: Seq<char>) -> Option<FfiLanguage> {
    if lower_equals(t, "zh"@) {
        Some(FfiLanguage::ChineseSimplified)
    } else if lower_equals(t, "en"@) {
        Some(FfiLanguage::EnglishUS)
    } else if lower_equals(t, "ja"@) {
        Some(FfiLanguage::Japanese)
    } else if lower_equals(t, "ko"@) {
        Some(FfiLanguage::Korean)
    } else if lower_equals(t, "fr"@) {
        Some(FfiLanguage::French)
    } else if lower_equals(t, "de"@) {
        Some(FfiLanguage::German)
    } else {
        None
    }
}

pub open spec fn format_of(t: Seq<char>) -> Option<FfiTranscribeExportFormat> {
    if lower_equals(t, "pdf"@) {
        Some(FfiTranscribeExportFormat::Pdf)
    } else if lower_equals(t, "txt"@) {
        Some(FfiTranscribeExportFormat::Txt)
    } else if lower_equals(t, "docx"@) {
        Some(FfiTranscribeExportFormat::Docx)
    } else {
        None
    }
}

pub open spec fn export_type_of(t: Seq<char>) -> Option<FfiTranscribeExportType> {
    if lower_equals(t, "transcript"@) {
        Some(FfiTranscribeExportType::Transcript)
    } else if lower_equals(t, "overview"@) {
        Some(FfiTranscribeExportType::Overview)
    } else if lower_equals(t, "summary"@) {
        Some(FfiTranscribeExportType::Summary)
    } else {
        None
    }
}

/// A vocabulary argument: read as text, then looked up, else refused with `reason`.
pub open spec fn word_arg<T>(s: Option<Seq<u8>>, found: spec_fn(Seq<char>) -> Option<T>, reason: Seq<char>) -> Result<T, ErrorView> {
    match text_arg(s) {
        Err(e) => Err(e),
        Ok(t) => match found(t) {
            Some(v) => Ok(v),
            None => Err(invalid_input(reason)),
        },
    }
}

pub open spec fn model_arg(s: Option<Seq<u8>>) -> Result<ModelType, ErrorView> {
    word_arg(s, |t| model_of(t), "Invalid model type"@)
}

pub open spec fn language_arg(s: Option<Seq<u8>>) -> Result<FfiLanguage, ErrorView> {
    word_arg(s, |t| language_of(t), "Invalid language"@)
}

pub open spec fn format_arg(s: Option<Seq<u8>>) -> Result<FfiTranscribeExportFormat, ErrorView> {
    word_arg(s, |t| format_of(t), "Invalid format type"@)
}

pub open spec fn export_type_arg(s: Option<Seq<u8>>) -> Result<FfiTranscribeExportType, ErrorView> {
    word_arg(s, |t| export_type_of(t), "Invalid export type"@)
}

/// Reads a model name: `speed`, `quality` or `quality_v2`, in any ASCII case.
pub fn parse_model_type(s: Option<&[u8]>) -> (r: Result<ModelType, Error>)
    ensures
        outcome(r) == model_arg(bytes_of(s)),
{
    let t = parse_c_str(s)?;
    if matches_word(t.as_str(), "speed") {
        Ok(ModelType::Speed)
    } else if matches_word(t.as_str(), "quality") {
        Ok(ModelType::Quality)
    } else if matches_word(t.as_str(), "quality_v2") {
        Ok(ModelType::QualityV2)
    } else {
        Err(Error::new(ErrorKind::InvalidInput, "Invalid model type"))
    }
}

/// Reads a language code: `zh`, `en`, `ja`, `ko`, `fr` or `de`, in any ASCII case.
pub fn parse_language(s: Option<&[u8]>) -> (r: Result<FfiLanguage, Error>)
    ensures
        outcome(r) == language_arg(bytes_of(s)),
{
    let t = parse_c_str(s)?;
    if matches_word(t.as_str(), "zh") {
        Ok(FfiLanguage::ChineseSimplified)
    } else if matches_word(t.as_str(), "en") {
        Ok(FfiLanguage::EnglishUS)
    } else if matches_word(t.as_str(), "ja") {
        Ok(FfiLanguage::Japanese)
    } else if matches_word(t.as_str(), "ko") {
        Ok(FfiLanguage::Korean)
    } else if matches_word(t.as_str(), "fr") {
        Ok(FfiLanguage::French)
    } else if matches_word(t.as_str(), "de") {
        Ok(FfiLanguage::German)
    } else {
        Err(Error::new(ErrorKind::InvalidInput, "Invalid language"))
    }
}

/// Reads an export format: `pdf`, `txt` or `docx`, in any ASCII case.
pub fn parse_format_type(s: Option<&[u8]>) -> (r: Result<FfiTranscribeExportFormat, Error>)
    ensures
        outcome(r) == format_arg(bytes_of(s)),
{
    let t = parse_c_str(s)?;
    if matches_word(t.as_str(), "pdf") {
        Ok(FfiTranscribeExportFormat::Pdf)
    } else if matches_word(t.as_str(), "txt") {
        Ok(FfiTranscribeExportFormat::Txt)
    } else if matches_word(t.as_str(), "docx") {
        Ok(FfiTranscribeExportFormat::Docx)
    } else {
        Err(Error::new(ErrorKind::InvalidInput, "Invalid format type"))
    }
}

/// Reads an export type: `transcript`, `overview` or `summary`, in any ASCII case.
pub fn parse_transcribe_export_type(s: Option<&[u8]>) -> (r: Result<FfiTranscribeExportType, Error>)
    ensures
        outcome(r) == export_type_arg(bytes_of(s)),
{
    let t = parse_c_str(s)?;
    if matches_word(t.as_str(), "transcript") {
        Ok(FfiTranscribeExportType::Transcript)
    } else if matches_word(t.as_str(), "overview") {
        Ok(FfiTranscribeExportType::Overview)
    } else if matches_word(t.as_str(), "summary") {
        Ok(FfiTranscribeExportType::Summary)
    } else {
        Err(Error::new(ErrorKind::InvalidInput, "Invalid export type"))
    }
}

} // verus!
