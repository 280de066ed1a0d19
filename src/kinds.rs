//! Closed vocabularies shared by requests and results.
use vstd::prelude::*;

verus! {

/// Recognition model of a transcription.
#[derive(Debug, Copy, Clone, PartialEq, Eq, Hash, Structural)]
pub enum ModelType {
    Speed,
    Quality,
    QualityV2,
}

/// What an export holds.
#[derive(Debug, Copy, Clone, PartialEq, Eq, Hash, Structural)]
pub enum FfiTranscribeExportType {
    /// The transcript (summary tasks do not offer it).
    Transcript,
    /// The overview.
    Overview,
    /// The summary.
    Summary,
}

/// File format of an export.
#[derive(Debug, Copy, Clone, PartialEq, Eq, Hash, Structural)]
pub enum FfiTranscribeExportFormat {
    Pdf,
    /// Plain text.
    Txt,
    /// Word document.
    Docx,
}

/// Kind of a transcription task, as reported by its status.
#[derive(Debug, Copy, Clone, PartialEq, Eq, Hash, Structural)]
pub enum FfiTranscribeTaskType {
    NormalQuality,
    NormalSpeed,
    ShortAsrQuality,
    ShortAsrSpeed,
}

/// Target language of a translation.
#[derive(Debug, Copy, Clone, PartialEq, Eq, Hash, Structural)]
pub enum FfiLanguage {
    ChineseSimplified,
    EnglishUS,
    Japanese,
    Korean,
    French,
    German,
}

/// What a task translation covers.
#[derive(Debug, Copy, Clone, PartialEq, Eq, Hash, Structural)]
pub enum FfiTranslateTaskType {
    Transcribe,
    Summary,
}

} // verus!
