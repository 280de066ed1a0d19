//! The closed error taxonomy and its flattening into a status code and a message.
use vstd::prelude::*;
use vstd::string::*;
use crate::text::{CText, nul_free, to_boundary_string};

verus! {

/// Status codes reported across the boundary; success is `0` and is not a variant.
#[derive(Debug, Copy, Clone, PartialEq, Eq, Hash, Structural)]
pub enum ErrorCode {
    WsError,
    HttpError,
    ServerError,
    InvalidInput,
    InvalidResponse,
    InvalidToken,
    InvalidApiKey,
    JsonError,
    OtherError,
    UnknownError,
}

pub open spec fn code_value(c: ErrorCode) -> int {
    match c {
        ErrorCode::WsError => 1,
        ErrorCode::HttpError => 2,
        ErrorCode::ServerError => 3,
        ErrorCode::InvalidInput => 4,
        ErrorCode::InvalidResponse => 5,
        ErrorCode::InvalidToken => 6,
        ErrorCode::InvalidApiKey => 7,
        ErrorCode::JsonError => 8,
        ErrorCode::OtherError => 9,
        ErrorCode::UnknownError => -1,
    }
}

impl ErrorCode {
    /// The numeric status for this code.
    pub fn value(&self) -> (r: i32)
        ensures
            r == code_value(*self),
    {
        match self {
            ErrorCode::WsError => 1,
            ErrorCode::HttpError => 2,
            ErrorCode::ServerError => 3,
            ErrorCode::InvalidInput => 4,
            ErrorCode::InvalidResponse => 5,
            ErrorCode::InvalidToken => 6,
            ErrorCode::InvalidApiKey => 7,
            ErrorCode::JsonError => 8,
            ErrorCode::OtherError => 9,
            ErrorCode::UnknownError => -1,
        }
    }
}

/// The kinds of failure that an operation can report.
#[derive(Debug, Copy, Clone, PartialEq, Eq, Hash, Structural)]
pub enum ErrorKind {
    WsError,
    HttpError,
    ServerError,
    InvalidInput,
    InvalidResponse,
    InvalidToken,
    InvalidApiKey,
    JsonError,
    OtherError,
}

/// A failure of an operation: its kind and a description.
#[derive(Debug)]
pub struct Error {
    pub kind: ErrorKind,
    pub detail: String,
}

pub struct ErrorView {
    pub kind: ErrorKind,
    pub detail: Seq<char>,
}

impl View for Error {
    type V = ErrorView;

    open spec fn view(&self) -> ErrorView {
        ErrorView { kind: self.kind, detail: self.detail@ }
    }
}

pub open spec fn invalid_input(detail: Seq<char>) -> ErrorView {
    ErrorView { kind: ErrorKind::InvalidInput, detail }
}

impl Error {
    pub fn new(kind: ErrorKind, detail: &str) -> (r: Error)
        ensures
            r@ == (ErrorView { kind, detail: detail@ }),
    {
        Error { kind, detail: String::from_str(detail) }
    }
}

/// The code that each kind of failure is reported with.
pub open spec fn kind_code(k: ErrorKind) -> ErrorCode {
    match k {
        ErrorKind::WsError => ErrorCode::WsError,
        ErrorKind::HttpError => ErrorCode::HttpError,
        ErrorKind::ServerError => ErrorCode::ServerError,
        ErrorKind::InvalidInput => ErrorCode::InvalidInput,
        ErrorKind::InvalidResponse => ErrorCode::InvalidResponse,
        ErrorKind::InvalidToken => ErrorCode::InvalidToken,
        ErrorKind::InvalidApiKey => ErrorCode::InvalidApiKey,
        ErrorKind::JsonError => ErrorCode::JsonError,
        ErrorKind::OtherError => ErrorCode::OtherError,
    }
}

/// The words that open the message of each kind of failure.
pub open spec fn kind_prefix(k: ErrorKind) -> Seq<char> {
    match k {
        ErrorKind::WsError => "Websocket Error: "@,
        ErrorKind::HttpError => "HTTP error: "@,
        ErrorKind::ServerError => "Server error: "@,
        ErrorKind::InvalidInput => "Invalid input: "@,
        ErrorKind::InvalidResponse => "Invalid response: "@,
        ErrorKind::InvalidToken => "Invalid token: "@,
        ErrorKind::InvalidApiKey => "Invalid api key: "@,
        ErrorKind::JsonError => "JSON error: "@,
        ErrorKind::OtherError => "Other error: "@,
    }
}

/// The full message of a failure.
pub open spec fn message_text(e: ErrorView) -> Seq<char> {
    kind_prefix(e.kind) + e.detail
}

/// The message of a failure as a boundary string, or null when it holds a nul byte.
pub open spec fn message_form(e: ErrorView, m: Option<CText>) -> bool {
    let bytes = vstd::utf8::encode_utf8(message_text(e));
    &&& (m is Some <==> nul_free(bytes))
    &&& (m matches Some(t) ==> t.view() == bytes)
}

fn kind_code_of(k: ErrorKind) -> (r: ErrorCode)
    ensures
        r == kind_code(k),
{
    match k {
        ErrorKind::WsError => ErrorCode::WsError,
        ErrorKind::HttpError => ErrorCode::HttpError,
        ErrorKind::ServerError => ErrorCode::ServerError,
        ErrorKind::InvalidInput => ErrorCode::InvalidInput,
        ErrorKind::InvalidResponse => ErrorCode::InvalidResponse,
        ErrorKind::InvalidToken => ErrorCode::InvalidToken,
        ErrorKind::InvalidApiKey => ErrorCode::InvalidApiKey,
        ErrorKind::JsonError => ErrorCode::JsonError,
        ErrorKind::OtherError => ErrorCode::OtherError,
    }
}

fn kind_prefix_of(k: ErrorKind) -> (r: &'static str)
    ensures
        r@ == kind_prefix(k),
{
    match k {
        ErrorKind::WsError => "Websocket Error: ",
        ErrorKind::HttpError => "HTTP error: ",
        ErrorKind::ServerError => "Server error: ",
        ErrorKind::InvalidInput => "Invalid input: ",
        ErrorKind::InvalidResponse => "Invalid response: ",
        ErrorKind::InvalidToken => "Invalid token: ",
        ErrorKind::InvalidApiKey => "Invalid api key: ",
        ErrorKind::JsonError => "JSON error: ",
        ErrorKind::OtherError => "Other error: ",
    }
}

/// An error as the caller sees it: a code and an owned message that may be null.
#[derive(Debug)]
pub struct FfiError {
    pub code: ErrorCode,
    pub message: Option<CText>,
}

impl FfiError {
    pub fn new(code: ErrorCode, message: Option<CText>) -> (r: FfiError)
        ensures
            r.code == code,
            r.message == message,
    {
        FfiError { code, message }
    }

    /// Flattens a failure into its code and message.
    pub fn from(e: Error) -> (r: FfiError)
        ensures
            r.code == kind_code(e.kind),
            message_form(e@, r.message),
    {
        let code = kind_code_of(e.kind);
        let text = String::from_str(kind_prefix_of(e.kind)).concat(e.detail.as_str());
        let message = match to_boundary_string(text.as_str()) {
            Ok(t) => Some(t),
            Err(_) => None,
        };
        FfiError { code, message }
    }

    /// Reports a failure: writes it into the slot when there is one, and returns its code.
    /// Without a slot no message is built.
    pub fn fill_error(out_error: &mut Option<FfiError>, err: Error) -> (r: i32)
        ensures
            r == code_value(kind_code(err.kind)),
            (*old(out_error)) is None ==> (*final(out_error)) is None,
            (*old(out_error)) is Some ==> ((*final(out_error)) matches Some(f)
                && f.code == kind_code(err.kind) && message_form(err@, f.message)),
    {
        let code = kind_code_of(err.kind);
        if out_error.is_some() {
            *out_error = Some(FfiError::from(err));
        }
        code.value()
    }
}

/// Releases the message of an error slot and leaves it null; a no-op on a null message
/// or a missing slot.
pub fn transcribe_ffi_free_error(e: &mut Option<FfiError>)
    ensures
        (*old(e)) is None ==> (*final(e)) is None,
        (*old(e)) matches Some(x) ==> ((*final(e)) matches Some(y) && y.code == x.code && y.message is None),
{
    if let Some(x) = e {
        crate::text::free_c_string(&mut x.message);
    }
}

/// Printable ASCII text encodes to bytes without a nul.
pub proof fn lemma_printable_ascii_nul_free(s: Seq<char>)
    requires
        forall|i: int| 0 <= i < s.len() ==> ' ' <= #[trigger] s[i] <= '~',
    ensures
        nul_free(vstd::utf8::encode_utf8(s)),
{
    assert(vstd::utf8::is_ascii_chars(s));
    vstd::utf8::is_ascii_chars_encode_utf8(s);
    assert forall|i: int| 0 <= i < vstd::utf8::encode_utf8(s).len()
        implies vstd::utf8::encode_utf8(s)[i] != 0u8 by {
        assert(s[i] as u8 == vstd::utf8::encode_utf8(s)[i]);
        assert(' ' <= s[i]);
    }
}

/// How a guarded operation ended.
#[derive(Debug)]
pub enum CallOutcome {
    /// It returned success.
    Completed,
    /// It returned a failure.
    Failed(Error),
    /// It aborted (a panic) instead of returning.
    Panicked,
}

/// The generic message written for an aborted operation.
pub open spec fn panic_text() -> Seq<char> {
    "Rust panic occurred"@
}

/// Turns the outcome of an operation into the status returned across the boundary:
/// `0` and an untouched slot on success, the failure's code and message on failure,
/// the unknown code and a generic message when the operation aborted.
pub fn ffi_execute(error: &mut Option<FfiError>, outcome: CallOutcome) -> (r: i32)
    ensures
        outcome is Completed ==> r == 0 && *final(error) == *old(error),
        outcome matches CallOutcome::Failed(e) ==> {
            &&& r == code_value(kind_code(e.kind))
            &&& (*old(error)) is None ==> (*final(error)) is None
            &&& (*old(error)) is Some ==> ((*final(error)) matches Some(f)
                && f.code == kind_code(e.kind) && message_form(e@, f.message))
        },
        outcome is Panicked ==> {
            &&& r == -1
            &&& (*old(error)) is None ==> (*final(error)) is None
            &&& (*old(error)) is Some ==> ((*final(error)) matches Some(f)
                && f.code == ErrorCode::UnknownError
                && (f.message matches Some(t) && t.view() == vstd::utf8::encode_utf8(panic_text())))
        },
{
    match outcome {
        CallOutcome::Completed => 0,
        CallOutcome::Failed(e) => FfiError::fill_error(error, e),
        CallOutcome::Panicked => {
            if error.is_some() {
                let text = "Rust panic occurred";
                proof {
                    reveal_strlit("Rust panic occurred");
                    lemma_printable_ascii_nul_free(text@);
                }
                let message = to_boundary_string(text);
                *error = Some(FfiError { code: ErrorCode::UnknownError, message: message.ok() });
            }
            -1
        },
    }
}

} // verus!
