//! Live session creation and closing.
use vstd::prelude::*;
use crate::error::Error;
use crate::text::{CText, free_c_string, nul_error};
use crate::types_ffi::{c_text, fits, fits_opt, holds, holds_opt, opt_c_text};

verus! {

/// A live session that the service opened.
#[derive(Debug)]
pub struct SessionCreator {
    pub task_id: String,
    pub session_id: String,
    pub usage_id: String,
    pub max_time: i32,
}

/// An opened session in its boundary form.
#[derive(Debug)]
pub struct FfiSessionCreator {
    pub task_id: Option<CText>,
    pub session_id: Option<CText>,
    pub usage_id: Option<CText>,
    pub max_time: i32,
}

/// The service's report on a closed session.
#[derive(Debug)]
pub struct SessionEnder {
    pub status: String,
    pub duration: Option<i32>,
    pub error_code: Option<i32>,
    pub message: Option<String>,
}

/// A closing report in its boundary form; absent numbers are `0` with their flag off.
#[derive(Debug)]
pub struct FfiSessionEnder {
    pub status: Option<CText>,
    pub duration: i32,
    pub has_duration: bool,
    pub error_code: i32,
    pub has_error_code: bool,
    pub message: Option<CText>,
}

/// `(value, present)` is the boundary form of an optional number.
pub open spec fn number_form(value: i32, present: bool, v: Option<i32>) -> bool {
    match v {
        Some(x) => present && value == x,
        None => !present && value == 0,
    }
}

impl FfiSessionCreator {
    /// Converts an opened session, all or nothing.
    pub fn try_from(v: SessionCreator) -> (r: Result<FfiSessionCreator, Error>)
        ensures
            r is Ok <==> fits(v.task_id@) && fits(v.session_id@) && fits(v.usage_id@),
            r matches Ok(f) ==> holds(f.task_id, v.task_id@) && holds(f.session_id, v.session_id@)
                && holds(f.usage_id, v.usage_id@) && f.max_time == v.max_time,
            r matches Err(e) ==> e@ == nul_error(),
    {
        let task_id = c_text(&v.task_id)?;
        let session_id = c_text(&v.session_id)?;
        let usage_id = c_text(&v.usage_id)?;
        Ok(FfiSessionCreator {
            task_id: Some(task_id),
            session_id: Some(session_id),
            usage_id: Some(usage_id),
            max_time: v.max_time,
        })
    }

    pub open spec fn released(self) -> FfiSessionCreator {
        FfiSessionCreator { task_id: None, session_id: None, usage_id: None, ..self }
    }
}

impl FfiSessionEnder {
    /// Converts a closing report, all or nothing.
    pub fn try_from(v: SessionEnder) -> (r: Result<FfiSessionEnder, Error>)
        ensures
            r is Ok <==> fits(v.status@) && fits_opt(v.message),
            r matches Ok(f) ==> holds(f.status, v.status@)
                && number_form(f.duration, f.has_duration, v.duration)
                && number_form(f.error_code, f.has_error_code, v.error_code)
                && holds_opt(f.message, v.message),
            r matches Err(e) ==> e@ == nul_error(),
    {
        let status = c_text(&v.status)?;
        let (duration, has_duration) = match v.duration {
            Some(d) => (d, true),
            None => (0i32, false),
        };
        let (error_code, has_error_code) = match v.error_code {
            Some(e) => (e, true),
            None => (0i32, false),
        };
        let message = opt_c_text(&v.message)?;
        Ok(FfiSessionEnder { status: Some(status), duration, has_duration, error_code, has_error_code, message })
    }

    pub open spec fn released(self) -> FfiSessionEnder {
        FfiSessionEnder { status: None, message: None, ..self }
    }
}

/// Releases the strings of an opened session and leaves them null.
pub fn transcribe_ffi_free_session_creator(s: &mut FfiSessionCreator)
    ensures
        *final(s) == old(s).released(),
{
    free_c_string(&mut s.task_id);
    free_c_string(&mut s.session_id);
    free_c_string(&mut s.usage_id);
}

/// Releases the strings of a closing report and leaves them null.
pub fn transcribe_ffi_free_session_ender(s: &mut FfiSessionEnder)
    ensures
        *final(s) == old(s).released(),
{
    free_c_string(&mut s.status);
    free_c_string(&mut s.message);
}

} // verus!
