//! Summary tasks.
use vstd::prelude::*;
use crate::error::Error;
use crate::text::{CText, free_c_string, nul_error};
use crate::types_ffi::{c_text, fits, holds};

verus! {

/// The task that a summary request started.
#[derive(Debug)]
pub struct SummaryCreator {
    pub task_id: String,
}

/// A started summary task in its boundary form.
#[derive(Debug)]
pub struct FfiSummaryCreator {
    pub task_id: Option<CText>,
}

impl FfiSummaryCreator {
    pub fn try_from(v: SummaryCreator) -> (r: Result<FfiSummaryCreator, Error>)
        ensures
            r is Ok <==> fits(v.task_id@),
            r matches Ok(f) ==> holds(f.task_id, v.task_id@),
            r matches Err(e) ==> e@ == nul_error(),
    {
        let task_id = c_text(&v.task_id)?;
        Ok(FfiSummaryCreator { task_id: Some(task_id) })
    }
}

/// Releases the task id and leaves it null.
pub fn transcribe_ffi_free_summary_creator(s: &mut FfiSummaryCreator)
    ensures
        final(s).task_id is None,
{
    free_c_string(&mut s.task_id);
}

} // verus!
