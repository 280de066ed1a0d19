//! Upload answers.
use vstd::prelude::*;
use crate::error::Error;
use crate::text::{CText, free_c_string, nul_error};
use crate::types_ffi::{c_text, fits, holds};

verus! {

/// The answer to an upload: a task to poll, or a sentence recognised at once.
#[derive(Debug)]
pub enum UploadResponse {
    Normal { task_id: String },
    OneSentence { status: String, message: String, data: String },
}

/// Upload answer, task form.
#[derive(Debug)]
pub struct FfiUploadNormal {
    pub task_id: Option<CText>,
}

/// Upload answer, single-sentence form.
#[derive(Debug)]
pub struct FfiUploadOneSentence {
    pub status: Option<CText>,
    pub message: Option<CText>,
    pub data: Option<CText>,
}

/// An upload answer in its boundary form: `is_normal` tells which half is filled,
/// the other half is null.
#[derive(Debug)]
pub struct FfiUploadResponse {
    pub is_normal: bool,
    pub normal: FfiUploadNormal,
    pub one_sentence: FfiUploadOneSentence,
}

pub open spec fn upload_fits(v: UploadResponse) -> bool {
    match v {
        UploadResponse::Normal { task_id } => fits(task_id@),
        UploadResponse::OneSentence { status, message, data } => fits(status@) && fits(message@)
            && fits(data@),
    }
}

pub open spec fn upload_form(f: FfiUploadResponse, v: UploadResponse) -> bool {
    match v {
        UploadResponse::Normal { task_id } => {
            &&& f.is_normal
            &&& holds(f.normal.task_id, task_id@)
            &&& f.one_sentence.status is None
            &&& f.one_sentence.message is None
            &&& f.one_sentence.data is None
        },
        UploadResponse::OneSentence { status, message, data } => {
            &&& !f.is_normal
            &&& f.normal.task_id is None
            &&& holds(f.one_sentence.status, status@)
            &&& holds(f.one_sentence.message, message@)
            &&& holds(f.one_sentence.data, data@)
        },
    }
}

impl FfiUploadResponse {
    /// Converts an upload answer, all or nothing.
    pub fn try_from(v: UploadResponse) -> (r: Result<FfiUploadResponse, Error>)
        ensures
            r is Ok <==> upload_fits(v),
            r matches Ok(f) ==> upload_form(f, v),
            r matches Err(e) ==> e@ == nul_error(),
    {
        match v {
            UploadResponse::Normal { task_id } => {
                let task_id = c_text(&task_id)?;
                Ok(FfiUploadResponse {
                    is_normal: true,
                    normal: FfiUploadNormal { task_id: Some(task_id) },
                    one_sentence: FfiUploadOneSentence { status: None, message: None, data: None },
                })
            },
            UploadResponse::OneSentence { status, message, data } => {
                let status = c_text(&status)?;
                let message = c_text(&message)?;
                let data = c_text(&data)?;
                Ok(FfiUploadResponse {
                    is_normal: false,
                    normal: FfiUploadNormal { task_id: None },
                    one_sentence: FfiUploadOneSentence {
                        status: Some(status),
                        message: Some(message),
                        data: Some(data),
                    },
                })
            },
        }
    }

    pub open spec fn released(self) -> FfiUploadResponse {
        FfiUploadResponse {
            normal: FfiUploadNormal { task_id: None },
            one_sentence: FfiUploadOneSentence { status: None, message: None, data: None },
            ..self
        }
    }
}

/// Releases every string of an upload answer and leaves them null.
pub fn transcribe_ffi_free_upload_response(s: &mut FfiUploadResponse)
    ensures
        *final(s) == old(s).released(),
{
    free_c_string(&mut s.normal.task_id);
    free_c_string(&mut s.one_sentence.status);
    free_c_string(&mut s.one_sentence.message);
    free_c_string(&mut s.one_sentence.data);
}

} // verus!
