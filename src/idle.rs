//! The IDLE sub-protocol (RFC 2177) and the APPEND literal handshake.
use vstd::prelude::*;
use crate::error::{Error, IoErrorKind};
use crate::response::{Response, ResponseData, Status};
use crate::router::{completes, handle_unilateral, is_completion, routed, unilateral, Step};
use crate::types::UnsolicitedResponse;

verus! {

/// How waiting in IDLE ended.
#[derive(Debug)]
pub enum IdleResponse {
    /// The wait was cancelled by the caller.
    ManualInterrupt,
    /// The wait timed out.
    Timeout,
    /// The server sent new data.
    NewData(ResponseData),
}

/// What one response means while waiting in IDLE.
#[derive(Debug)]
pub enum WaitStep {
    /// Keep waiting.
    Ignore,
    /// Goes to the unsolicited channel; keep waiting.
    Route(UnsolicitedResponse),
    /// The wait ends with this outcome.
    Resolve(IdleResponse),
}

/// One response after `IDLE` was sent: a continuation request means the
/// server is idling; a BAD completion of `IDLE` refuses it; anything else is
/// routed to the unsolicited channel.
pub fn idle_init_step(tag: &[u8], d: ResponseData) -> (r: Step<()>)
    ensures
        d.spec_parsed() is Continue ==> r is Complete,
        completes(tag@, d) && d.spec_parsed()->Done_status == Status::Bad
            ==> r matches Step::Failed(Error::Io(IoErrorKind::ConnectionRefused)),
        !(d.spec_parsed() is Continue) && !(completes(tag@, d) && d.spec_parsed()->Done_status == Status::Bad)
            ==> r == routed::<()>(d),
{
    if match d.parsed() { Response::Continue { .. } => true, _ => false } {
        return Step::Complete;
    }
    if is_completion(tag, &d) {
        if match d.parsed() { Response::Done { status: Status::Bad, .. } => true, _ => false } {
            return Step::Failed(Error::Io(IoErrorKind::ConnectionRefused));
        }
    }
    Step::Route(handle_unilateral(d))
}

/// One response while waiting in IDLE: untagged OK and continuation
/// requests are consumed, tagged completions are routed, and anything else
/// ends the wait as new data.
pub fn idle_wait_step(d: ResponseData) -> (r: WaitStep)
    ensures
        match d.spec_parsed() {
            Response::Data { status: Status::Okay, .. } => r is Ignore,
            Response::Continue { .. } => r is Ignore,
            Response::Done { .. } => r == WaitStep::Route(unilateral(d)),
            _ => r == WaitStep::Resolve(IdleResponse::NewData(d)),
        },
{
    match d.parsed() {
        Response::Data { status: Status::Okay, .. } => WaitStep::Ignore,
        Response::Continue { .. } => WaitStep::Ignore,
        Response::Done { .. } => WaitStep::Route(handle_unilateral(d)),
        _ => WaitStep::Resolve(IdleResponse::NewData(d)),
    }
}

/// The first response after `APPEND mailbox {n}`: only a continuation
/// request lets the literal be sent.
pub fn append_step(d: &ResponseData) -> (r: Result<(), Error>)
    ensures
        d.spec_parsed() is Continue ==> r is Ok,
        !(d.spec_parsed() is Continue) ==> r matches Err(Error::Append),
{
    match d.parsed() {
        Response::Continue { .. } => Ok(()),
        _ => Err(Error::Append),
    }
}

} // verus!
