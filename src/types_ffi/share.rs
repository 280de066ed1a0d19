//! Share links.
use vstd::prelude::*;
use crate::error::Error;
use crate::text::{CText, free_c_string, nul_error};
use crate::types_ffi::{c_text, fits, holds};

verus! {

/// A link that shares a task's transcript.
#[derive(Debug)]
pub struct ShareLink {
    pub share_url: String,
    pub expiration_day: i32,
    pub expired_at: String,
}

/// A share link in its boundary form.
#[derive(Debug)]
pub struct FfiShareLink {
    pub share_url: Option<CText>,
    pub expiration_day: i32,
    pub expired_at: Option<CText>,
}

impl FfiShareLink {
    /// Converts a share link, all or nothing.
    pub fn try_from(v: ShareLink) -> (r: Result<FfiShareLink, Error>)
        ensures
            r is Ok <==> fits(v.share_url@) && fits(v.expired_at@),
            r matches Ok(f) ==> holds(f.share_url, v.share_url@) && f.expiration_day == v.expiration_day
                && holds(f.expired_at, v.expired_at@),
            r matches Err(e) ==> e@ == nul_error(),
    {
        let share_url = c_text(&v.share_url)?;
        let expired_at = c_text(&v.expired_at)?;
        Ok(FfiShareLink { share_url: Some(share_url), expiration_day: v.expiration_day, expired_at: Some(expired_at) })
    }

    pub open spec fn released(self) -> FfiShareLink {
        FfiShareLink { share_url: None, expired_at: None, ..self }
    }
}

/// Releases the strings of a share link and leaves them null.
pub fn transcribe_ffi_free_share_link(s: &mut FfiShareLink)
    ensures
        *final(s) == old(s).released(),
{
    free_c_string(&mut s.share_url);
    free_c_string(&mut s.expired_at);
}

} // verus!
