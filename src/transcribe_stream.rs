//! The rules of a live session handle: its phases, the checks on each call, and how a
//! received message is copied out.
use vstd::prelude::*;
use vstd::slice::slice_to_vec;
use crate::error::{Error, ErrorKind, ErrorView, invalid_input};
use crate::transcribe_api::{copy_into, too_small, too_small_error, viewed};
use crate::utils::{bytes_of, parse_c_str, text_arg, text_outcome};

verus! {

/// The phase of a live session: messages flow only once it is started.
#[derive(Debug, Copy, Clone, PartialEq, Eq, Structural)]
pub enum SessionPhase {
    Created,
    Started,
    Stopped,
}

pub open spec fn phase_error(detail: Seq<char>) -> ErrorView {
    ErrorView { kind: ErrorKind::OtherError, detail }
}

/// Checks that a call names a handle.
pub fn handle_check(has_handle: bool) -> (r: Result<(), Error>)
    ensures
        has_handle <==> r is Ok,
        r matches Err(e) ==> e@ == invalid_input("Invalid handle"@),
{
    if !has_handle {
        return Err(Error::new(ErrorKind::InvalidInput, "Invalid handle"));
    }
    Ok(())
}

/// Checks the arguments of making a handle: the slot for it, then the session id.
pub fn ws_create_request(has_slot: bool, session_id: Option<&[u8]>) -> (r: Result<String, Error>)
    ensures
        !has_slot ==> (r matches Err(e) && e@ == invalid_input("Invalid input parameters"@)),
        has_slot ==> text_outcome(r) == text_arg(bytes_of(session_id)),
{
    if !has_slot {
        return Err(Error::new(ErrorKind::InvalidInput, "Invalid input parameters"));
    }
    parse_c_str(session_id)
}

/// Starts a created session.
pub fn start_session(phase: &mut SessionPhase) -> (r: Result<(), Error>)
    ensures
        *old(phase) == SessionPhase::Created ==> r is Ok && *final(phase) == SessionPhase::Started,
        *old(phase) == SessionPhase::Started ==> (r matches Err(e)
            && e@ == phase_error("session already started"@)) && *final(phase) == *old(phase),
        *old(phase) == SessionPhase::Stopped ==> (r matches Err(e)
            && e@ == phase_error("session was stopped"@)) && *final(phase) == *old(phase),
{
    match *phase {
        SessionPhase::Created => {
            *phase = SessionPhase::Started;
            Ok(())
        },
        SessionPhase::Started => Err(Error::new(ErrorKind::OtherError, "session already started")),
        SessionPhase::Stopped => Err(Error::new(ErrorKind::OtherError, "session was stopped")),
    }
}

/// Stops a session; stopping again changes nothing.
pub fn stop_session(phase: &mut SessionPhase)
    ensures
        *final(phase) == SessionPhase::Stopped,
{
    *phase = SessionPhase::Stopped;
}

/// Whether releasing a handle must first stop its connection.
pub fn needs_stop(phase: SessionPhase) -> (r: bool)
    ensures
        r <==> phase == SessionPhase::Started,
{
    phase == SessionPhase::Started
}

/// Checks that a session in `phase` may send a message.
pub fn write_allowed(phase: SessionPhase) -> (r: Result<(), Error>)
    ensures
        r is Ok <==> phase == SessionPhase::Started,
        r matches Err(e) ==> e@ == phase_error("session is not started"@),
{
    if phase == SessionPhase::Started {
        Ok(())
    } else {
        Err(Error::new(ErrorKind::OtherError, "session is not started"))
    }
}

/// Checks the arguments of sending a text: handle and text must be given; the text is
/// decoded leniently.
pub fn write_text_request(has_handle: bool, text: Option<&[u8]>) -> (r: Result<String, Error>)
    ensures
        !has_handle || text is None ==> (r matches Err(e) && e@ == invalid_input("Invalid input parameters"@)),
        has_handle && text is Some ==> text_outcome(r) == text_arg(bytes_of(text)),
{
    if !has_handle || text.is_none() {
        return Err(Error::new(ErrorKind::InvalidInput, "Invalid input parameters"));
    }
    parse_c_str(text)
}

/// Checks the arguments of sending bytes and copies them: handle and a non-empty block
/// must be given.
pub fn write_bytes_request(has_handle: bool, data: Option<&[u8]>) -> (r: Result<Vec<u8>, Error>)
    ensures
        has_handle && (data matches Some(d) && d@.len() > 0) <==> r is Ok,
        r matches Ok(v) ==> v@ == data->0@,
        r matches Err(e) ==> e@ == invalid_input("Invalid input parameters"@),
{
    match data {
        Some(d) if has_handle && d.len() > 0 => Ok(slice_to_vec(d)),
        _ => Err(Error::new(ErrorKind::InvalidInput, "Invalid input parameters")),
    }
}

/// How long a receive waits for the next message.
#[derive(Debug, Copy, Clone, PartialEq, Eq, Structural)]
pub enum WaitPlan {
    /// Take what is already buffered, or nothing.
    Poll,
    /// Wait up to this many milliseconds.
    Within(u64),
}

/// Checks the arguments of a receive and chooses the wait: `0` polls.
pub fn receive_request(has_handle: bool, has_buffer: bool, has_len: bool, timeout_ms: u64) -> (r: Result<WaitPlan, Error>)
    ensures
        has_handle && has_buffer && has_len <==> r is Ok,
        r matches Err(e) ==> e@ == invalid_input("Invalid input parameters"@),
        r matches Ok(p) ==> p == if timeout_ms == 0 { WaitPlan::Poll } else { WaitPlan::Within(timeout_ms) },
{
    if !has_handle || !has_buffer || !has_len {
        return Err(Error::new(ErrorKind::InvalidInput, "Invalid input parameters"));
    }
    if timeout_ms == 0 {
        Ok(WaitPlan::Poll)
    } else {
        Ok(WaitPlan::Within(timeout_ms))
    }
}

/// Copies a received message out under the capacity-probe protocol, nul-terminated:
/// `*len` is the capacity on entry. With no message `*len` becomes `0` and the call
/// succeeds. A message of `n` bytes needs `n + 1`: when that fits, the bytes and a nul
/// are written and `*len` becomes `n`; otherwise nothing is written, `*len` becomes
/// `n + 1`, and the call fails.
pub fn receive_copy_out(message: Option<&[u8]>, buffer: &mut Vec<u8>, len: &mut usize) -> (r: Result<(), Error>)
    requires
        *old(len) <= old(buffer)@.len(),
        message matches Some(m) ==> m@.len() < usize::MAX,
    ensures
        final(buffer)@.len() == old(buffer)@.len(),
        message is None ==> r is Ok && *final(len) == 0 && final(buffer)@ == old(buffer)@,
        message matches Some(m) ==> {
            let n = m@.len() as int;
            if n + 1 <= *old(len) {
                &&& r is Ok
                &&& *final(len) == n
                &&& final(buffer)@.subrange(0, n as int) == m@
                &&& final(buffer)@[n as int] == 0u8
                &&& final(buffer)@.subrange(n + 1 as int, old(buffer)@.len() as int)
                    == old(buffer)@.subrange(n + 1 as int, old(buffer)@.len() as int)
            } else {
                &&& (r matches Err(e) && e@ == too_small(ErrorKind::OtherError, (n + 1) as nat))
                &&& *final(len) == n + 1
                &&& final(buffer)@ == old(buffer)@
            }
        },
{
    match message {
        None => {
            *len = 0;
            Ok(())
        },
        Some(m) => {
            let n = m.len();
            if n >= *len {
                *len = n + 1;
                return Err(too_small_error(ErrorKind::OtherError, n + 1));
            }
            let ghost before = buffer@;
            copy_into(m, buffer);
            let ghost mid = buffer@;
            buffer.set(n, 0u8);
            proof {
                assert(buffer@.subrange(0, n as int) =~= mid.subrange(0, n as int));
                assert(buffer@.subrange(n + 1, before.len() as int)
                    =~= mid.subrange(n as int, before.len() as int).subrange(1, before.len() - n));
                assert(before.subrange(n + 1, before.len() as int)
                    =~= before.subrange(n as int, before.len() as int).subrange(1, before.len() - n));
            }
            *len = n;
            Ok(())
        },
    }
}

/// The message that a receive delivers: one held back by an earlier call goes first.
pub open spec fn next_message(pending: Option<Vec<u8>>, incoming: Option<Vec<u8>>) -> Option<Seq<u8>> {
    match pending {
        Some(m) => Some(m@),
        None => match incoming {
            Some(m) => Some(m@),
            None => None,
        },
    }
}

/// One receive on a handle. It delivers the message held back by an earlier call, or
/// else the one that just arrived, under the protocol of `receive_copy_out`. A message
/// that does not fit is held back for the next call, so a retry with a buffer of the
/// reported size gets it; nothing is lost.
pub fn receive_step(
    pending: &mut Option<Vec<u8>>,
    incoming: Option<Vec<u8>>,
    buffer: &mut Vec<u8>,
    len: &mut usize,
) -> (r: Result<(), Error>)
    requires
        *old(len) <= old(buffer)@.len(),
        (*old(pending)) is Some ==> incoming is None,
        (*old(pending)) matches Some(m) ==> m@.len() < usize::MAX,
        incoming matches Some(m) ==> m@.len() < usize::MAX,
    ensures
        final(buffer)@.len() == old(buffer)@.len(),
        next_message(*old(pending), incoming) is None ==> {
            &&& r is Ok
            &&& *final(len) == 0
            &&& final(buffer)@ == old(buffer)@
            &&& (*final(pending)) is None
        },
        next_message(*old(pending), incoming) matches Some(m) ==> {
            let n = m.len() as int;
            if n + 1 <= *old(len) {
                &&& r is Ok
                &&& *final(len) == n
                &&& final(buffer)@.subrange(0, n) == m
                &&& final(buffer)@[n] == 0u8
                &&& final(buffer)@.subrange(n + 1, old(buffer)@.len() as int)
                    == old(buffer)@.subrange(n + 1, old(buffer)@.len() as int)
                &&& (*final(pending)) is None
            } else {
                &&& (r matches Err(e) && e@ == too_small(ErrorKind::OtherError, (n + 1) as nat))
                &&& *final(len) == n + 1
                &&& final(buffer)@ == old(buffer)@
                &&& ((*final(pending)) matches Some(p) && p@ == m)
            }
        },
{
    let message = match pending.take() {
        Some(m) => Some(m),
        None => incoming,
    };
    match message {
        None => {
            *len = 0;
            Ok(())
        },
        Some(m) => {
            let r = receive_copy_out(Some(m.as_slice()), buffer, len);
            if r.is_err() {
                *pending = Some(m);
            }
            r
        },
    }
}

} // verus!
