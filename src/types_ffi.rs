//! Results of the transcription service and their boundary forms.
use vstd::prelude::*;
use vstd::string::*;
use vstd::utf8::encode_utf8;
use crate::error::Error;
use crate::text::{CText, nul_free, nul_error, to_boundary_array, to_boundary_string};
use crate::utils::{lossy_string, lossy_text};

pub mod share;
pub mod status;
pub mod summary;
pub mod translate;
pub mod upload;
pub mod ws;

verus! {

/// A text can cross the boundary: its UTF-8 bytes hold no nul.
pub open spec fn fits(s: Seq<char>) -> bool {
    nul_free(encode_utf8(s))
}

/// `m` is the boundary string of `s`.
pub open spec fn holds(m: Option<CText>, s: Seq<char>) -> bool {
    m matches Some(t) && t.view() == encode_utf8(s)
}

/// `m` is the boundary form of an optional text: null when absent.
pub open spec fn holds_opt(m: Option<CText>, s: Option<String>) -> bool {
    match s {
        None => m is None,
        Some(x) => holds(m, x@),
    }
}

/// An optional text can cross the boundary.
pub open spec fn fits_opt(s: Option<String>) -> bool {
    s matches Some(x) ==> fits(x@)
}

/// A boundary string of a text; fails when the text holds a nul.
pub fn c_text(s: &String) -> (r: Result<CText, Error>)
    ensures
        r is Ok <==> fits(s@),
        r matches Ok(t) ==> t.view() == encode_utf8(s@),
        r matches Err(e) ==> e@ == nul_error(),
{
    to_boundary_string(s.as_str())
}

/// The boundary form of an optional text; fails when it holds a nul.
pub fn opt_c_text(s: &Option<String>) -> (r: Result<Option<CText>, Error>)
    ensures
        r is Ok <==> fits_opt(*s),
        r matches Ok(m) ==> holds_opt(m, *s),
        r matches Err(e) ==> e@ == nul_error(),
{
    match s {
        None => Ok(None),
        Some(x) => {
            let t = c_text(x)?;
            Ok(Some(t))
        },
    }
}

/// One recognised sentence. Times are the IEEE-754 bit patterns of seconds, carried
/// through unchanged.
#[derive(Debug)]
pub struct Utterance {
    pub start_time: u64,
    pub end_time: u64,
    pub speaker: i32,
    pub text: String,
}

/// A sentence in its boundary form.
#[derive(Debug)]
pub struct FfiUtterance {
    pub start_time: u64,
    pub end_time: u64,
    pub speaker: i32,
    pub text: Option<CText>,
}

impl Utterance {
    /// A sentence read from the caller; its text is decoded leniently.
    pub fn from_parts(start_time: u64, end_time: u64, speaker: i32, text: &[u8]) -> (r: Utterance)
        ensures
            r.start_time == start_time,
            r.end_time == end_time,
            r.speaker == speaker,
            r.text@ == lossy_text(text@),
    {
        Utterance { start_time, end_time, speaker, text: lossy_string(text) }
    }
}

/// `f` is the boundary form of `u`.
pub open spec fn utterance_form(f: FfiUtterance, u: Utterance) -> bool {
    &&& f.start_time == u.start_time
    &&& f.end_time == u.end_time
    &&& f.speaker == u.speaker
    &&& holds(f.text, u.text@)
}

impl FfiUtterance {
    pub fn try_from(v: &Utterance) -> (r: Result<FfiUtterance, Error>)
        ensures
            r is Ok <==> fits(v.text@),
            r matches Ok(f) ==> utterance_form(f, *v),
            r matches Err(e) ==> e@ == nul_error(),
    {
        let text = c_text(&v.text)?;
        Ok(FfiUtterance { start_time: v.start_time, end_time: v.end_time, speaker: v.speaker, text: Some(text) })
    }
}

/// `(ptr, len)` is the boundary form of a list whose items stand in `form` to `items`.
pub open spec fn array_holds<A, B>(ptr: Option<Vec<A>>, len: usize, items: Seq<B>, form: spec_fn(A, B) -> bool) -> bool {
    &&& len == items.len()
    &&& items.len() == 0 ==> ptr is None
    &&& items.len() > 0 ==> (ptr matches Some(v) && v@.len() == items.len()
        && forall|i: int| 0 <= i < items.len() ==> #[trigger] form(v@[i], items[i]))
}

/// Every sentence of a list can cross the boundary.
pub open spec fn utterances_fit(us: Seq<Utterance>) -> bool {
    forall|i: int| 0 <= i < us.len() ==> fits(#[trigger] us[i].text@)
}

/// The boundary form of a list of sentences; fails when a text holds a nul.
pub fn utterance_array(us: &Vec<Utterance>) -> (r: Result<(Option<Vec<FfiUtterance>>, usize), Error>)
    ensures
        r is Ok <==> utterances_fit(us@),
        r matches Ok(a) ==> array_holds(a.0, a.1, us@, |f: FfiUtterance, u: Utterance| utterance_form(f, u)),
        r matches Err(e) ==> e@ == nul_error(),
{
    let mut out: Vec<FfiUtterance> = Vec::new();
    let mut i: usize = 0;
    while i < us.len()
        invariant
            i <= us@.len(),
            out@.len() == i,
            forall|j: int| 0 <= j < i ==> fits(#[trigger] us@[j].text@),
            forall|j: int| 0 <= j < i ==> utterance_form(#[trigger] out@[j], us@[j]),
        decreases us@.len() - i,
    {
        let f = FfiUtterance::try_from(&us[i])?;
        out.push(f);
        i = i + 1;
    }
    Ok(to_boundary_array(out))
}

pub open spec fn texts_of(ks: Seq<String>) -> Seq<Seq<char>> {
    ks.map_values(|k: String| k@)
}

/// `(ptr, len)` is the boundary form of the texts `ks`.
pub open spec fn texts_holds(ptr: Option<Vec<CText>>, len: usize, ks: Seq<Seq<char>>) -> bool {
    &&& len == ks.len()
    &&& ks.len() == 0 ==> ptr is None
    &&& ks.len() > 0 ==> (ptr matches Some(v) && v@.len() == ks.len()
        && forall|i: int| 0 <= i < ks.len() ==> #[trigger] v@[i].view() == encode_utf8(ks[i]))
}

/// Every text of a list can cross the boundary.
pub open spec fn texts_fit(ks: Seq<Seq<char>>) -> bool {
    forall|i: int| 0 <= i < ks.len() ==> fits(#[trigger] ks[i])
}

/// The boundary form of a list of keywords; fails when one holds a nul.
pub fn keyword_array(ks: &Vec<String>) -> (r: Result<(Option<Vec<CText>>, usize), Error>)
    ensures
        r is Ok <==> texts_fit(texts_of(ks@)),
        r matches Ok(a) ==> texts_holds(a.0, a.1, texts_of(ks@)),
        r matches Err(e) ==> e@ == nul_error(),
{
    let mut out: Vec<CText> = Vec::new();
    let mut i: usize = 0;
    while i < ks.len()
        invariant
            i <= ks@.len(),
            out@.len() == i,
            texts_of(ks@).len() == ks@.len(),
            forall|j: int| 0 <= j < i ==> fits(#[trigger] texts_of(ks@)[j]),
            forall|j: int| 0 <= j < i ==> #[trigger] out@[j].view() == encode_utf8(texts_of(ks@)[j]),
        decreases ks@.len() - i,
    {
        assert(texts_of(ks@)[i as int] == ks@[i as int]@);
        let t = c_text(&ks[i])?;
        out.push(t);
        i = i + 1;
    }
    Ok(to_boundary_array(out))
}

} // verus!
