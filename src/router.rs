//! Correlation of responses with the command in flight: each response is
//! either the command's tagged completion, part of its result, or routed to
//! the unsolicited channel.
use vstd::prelude::*;
use crate::capabilities::bytes_eq;
use crate::error::{Error, IoErrorKind};
use crate::response::{Response, ResponseData, Status};
use crate::types::{Fetch, Name, UnsolicitedResponse};

verus! {

/// What one response means for the command in flight.
#[derive(Debug)]
pub enum Step<T> {
    /// Part of the command's result.
    Item(T),
    /// Not the command's business: goes to the unsolicited channel.
    Route(UnsolicitedResponse),
    /// The command completed successfully.
    Complete,
    /// The command failed.
    Failed(Error),
}

/// Whether `d` is the tagged completion of the command tagged `tag`.
pub open spec fn completes(tag: Seq<u8>, d: ResponseData) -> bool {
    d.spec_parsed() matches Response::Done { tag: t, .. } && t@ == tag
}

/// How a tagged completion ends its command: OK succeeds, NO and BAD fail
/// with the code and text, any other status is an I/O failure.
pub open spec fn completion<T>(d: ResponseData) -> Step<T> {
    match d.spec_parsed() {
        Response::Done { status, code, information, .. } => match status {
            Status::Okay => Step::Complete,
            Status::No => Step::Failed(Error::No(code, information)),
            Status::Bad => Step::Failed(Error::Bad(code, information)),
            _ => Step::Failed(Error::Io(IoErrorKind::Other)),
        },
        _ => Step::Failed(Error::Io(IoErrorKind::Other)),
    }
}

/// The unsolicited response that `d` becomes.
pub open spec fn unilateral(d: ResponseData) -> UnsolicitedResponse {
    match d.spec_parsed() {
        Response::Status { mailbox, attributes } => UnsolicitedResponse::Status { mailbox, attributes },
        Response::Recent(n) => UnsolicitedResponse::Recent(n),
        Response::Exists(n) => UnsolicitedResponse::Exists(n),
        Response::Expunge(n) => UnsolicitedResponse::Expunge(n),
        Response::MetadataUnsolicited { mailbox, entries } => UnsolicitedResponse::Metadata {
            mailbox,
            metadata_entries: entries,
        },
        _ => UnsolicitedResponse::Other(d),
    }
}

/// `d` routed to the unsolicited channel.
pub open spec fn routed<T>(d: ResponseData) -> Step<T> {
    Step::Route(unilateral(d))
}

/// A command whose only result is its completion (NOOP, CHECK, CREATE, ...).
pub open spec fn check_ok_outcome(tag: Seq<u8>, d: ResponseData) -> Step<()> {
    if completes(tag, d) { completion(d) } else { routed(d) }
}

/// `FETCH` and `STORE`: each `FETCH` row is a result.
pub open spec fn fetch_outcome(tag: Seq<u8>, d: ResponseData) -> Step<Fetch> {
    if completes(tag, d) {
        completion(d)
    } else if d.spec_parsed() is Fetch {
        Step::Item(Fetch {
            message: d.spec_parsed()->Fetch_0.message,
            uid: d.spec_parsed()->Fetch_0.uid,
            size: d.spec_parsed()->Fetch_0.size,
            response: d,
        })
    } else {
        routed(d)
    }
}

/// `EXPUNGE`: each expunged sequence number is a result.
pub open spec fn expunge_outcome(tag: Seq<u8>, d: ResponseData) -> Step<u32> {
    if completes(tag, d) {
        completion(d)
    } else if d.spec_parsed() is Expunge {
        Step::Item(d.spec_parsed()->Expunge_0)
    } else {
        routed(d)
    }
}

/// Index of the first response in `rs` that completes the command tagged `tag`.
pub open spec fn first_completion(tag: Seq<u8>, rs: Seq<ResponseData>, k: int) -> bool {
    &&& 0 <= k < rs.len()
    &&& completes(tag, rs[k])
    &&& forall|i: int| 0 <= i < k ==> !completes(tag, #[trigger] rs[i])
}

/// For a command in flight, the correlator consumes exactly one tagged
/// completion: the first response carrying the command's tag ends the
/// command, and every response before it is either part of the result or
/// routed to the unsolicited channel; none is dropped and none ends the
/// command early. Stated for commands without result data and for FETCH.
pub proof fn lemma_one_completion_per_command(tag: Seq<u8>, rs: Seq<ResponseData>, k: int)
    requires
        first_completion(tag, rs, k),
    ensures
        check_ok_outcome(tag, rs[k]) is Complete || check_ok_outcome(tag, rs[k]) is Failed,
        fetch_outcome(tag, rs[k]) is Complete || fetch_outcome(tag, rs[k]) is Failed,
        forall|i: int| 0 <= i < k ==> #[trigger] check_ok_outcome(tag, rs[i]) == routed::<()>(rs[i]),
        forall|i: int| 0 <= i < k ==> {
            let o = #[trigger] fetch_outcome(tag, rs[i]);
            o is Item || o is Route
        },
        forall|i: int| 0 <= i < k ==> {
            let o = #[trigger] expunge_outcome(tag, rs[i]);
            o is Item || o is Route
        },
{
    assert forall|i: int| 0 <= i < k implies #[trigger] check_ok_outcome(tag, rs[i]) == routed::<()>(rs[i]) by {
        assert(!completes(tag, rs[i]));
    }
    assert forall|i: int| 0 <= i < k implies {
        let o = #[trigger] fetch_outcome(tag, rs[i]);
        o is Item || o is Route
    } by {
        assert(!completes(tag, rs[i]));
    }
    assert forall|i: int| 0 <= i < k implies {
        let o = #[trigger] expunge_outcome(tag, rs[i]);
        o is Item || o is Route
    } by {
        assert(!completes(tag, rs[i]));
    }
}

/// Feeding the responses `rs`, in order, to a command without result data
/// until one ends it: what the unsolicited channel receives, the ending
/// outcome (`None` when the responses run out first), and how many
/// responses were consumed.
pub open spec fn drive_check_ok(tag: Seq<u8>, rs: Seq<ResponseData>) -> (Seq<UnsolicitedResponse>, Option<Step<()>>, int)
    decreases rs.len(),
{
    if rs.len() == 0 {
        (Seq::empty(), None, 0)
    } else {
        match check_ok_outcome(tag, rs[0]) {
            Step::Route(u) => {
                let rest = drive_check_ok(tag, rs.drop_first());
                (seq![u] + rest.0, rest.1, rest.2 + 1)
            },
            other => (Seq::empty(), Some(other), 1),
        }
    }
}

/// The responses `rs[0..k]`, each classified for the unsolicited channel.
pub open spec fn routed_before(rs: Seq<ResponseData>, k: int) -> Seq<UnsolicitedResponse> {
    Seq::new(k as nat, |i: int| unilateral(rs[i]))
}

/// A whole command without result data: when `rs[k]` is the first response
/// carrying the command's tag, the command consumes exactly `rs[0..=k]`,
/// sends `rs[0..k]` to the unsolicited channel classified and in arrival
/// order, and ends as that completion says (OK, NO, BAD or other).
pub proof fn lemma_check_ok_command(tag: Seq<u8>, rs: Seq<ResponseData>, k: int)
    requires
        first_completion(tag, rs, k),
    ensures
        drive_check_ok(tag, rs) == (routed_before(rs, k), Some(completion::<()>(rs[k])), k + 1),
    decreases k,
{
    if k == 0 {
        assert(routed_before(rs, 0) =~= Seq::<UnsolicitedResponse>::empty());
    } else {
        let tail = rs.drop_first();
        assert(!completes(tag, rs[0]));
        assert forall|i: int| 0 <= i < k - 1 implies !completes(tag, #[trigger] tail[i]) by {
            assert(tail[i] == rs[i + 1]);
        }
        assert(tail[k - 1] == rs[k]);
        lemma_check_ok_command(tag, tail, k - 1);
        assert(routed_before(rs, k) =~= seq![unilateral(rs[0])] + routed_before(tail, k - 1));
    }
}

/// Whether `d` is the tagged completion of the command tagged `tag`.
pub fn is_completion(tag: &[u8], d: &ResponseData) -> (r: bool)
    ensures
        r == completes(tag@, *d),
{
    match d.parsed() {
        Response::Done { tag: t, .. } => bytes_eq(t.as_slice(), tag),
        _ => false,
    }
}

/// Ends a command on its tagged completion `d`.
pub fn complete<T>(d: ResponseData) -> (r: Step<T>)
    ensures
        r == completion::<T>(d),
{
    let (_, parsed) = d.into_parts();
    match parsed {
        Response::Done { status, code, information, .. } => match status {
            Status::Okay => Step::Complete,
            Status::No => Step::Failed(Error::No(code, information)),
            Status::Bad => Step::Failed(Error::Bad(code, information)),
            _ => Step::Failed(Error::Io(IoErrorKind::Other)),
        },
        _ => Step::Failed(Error::Io(IoErrorKind::Other)),
    }
}

/// Classifies a response the command in flight does not consume.
pub fn handle_unilateral(d: ResponseData) -> (r: UnsolicitedResponse)
    ensures
        r == unilateral(d),
{
    let moves = match d.parsed() {
        Response::Status { .. } => true,
        Response::Recent(_) => true,
        Response::Exists(_) => true,
        Response::Expunge(_) => true,
        Response::MetadataUnsolicited { .. } => true,
        _ => false,
    };
    if !moves {
        return UnsolicitedResponse::Other(d);
    }
    let (_, parsed) = d.into_parts();
    match parsed {
        Response::Status { mailbox, attributes } => UnsolicitedResponse::Status { mailbox, attributes },
        Response::Recent(n) => UnsolicitedResponse::Recent(n),
        Response::Exists(n) => UnsolicitedResponse::Exists(n),
        Response::Expunge(n) => UnsolicitedResponse::Expunge(n),
        Response::MetadataUnsolicited { mailbox, entries } => UnsolicitedResponse::Metadata {
            mailbox,
            metadata_entries: entries,
        },
        _ => UnsolicitedResponse::Recent(0),
    }
}

/// One response while a command without result data is in flight.
pub fn check_ok_step(tag: &[u8], d: ResponseData) -> (r: Step<()>)
    ensures
        r == check_ok_outcome(tag@, d),
{
    if is_completion(tag, &d) {
        complete(d)
    } else {
        Step::Route(handle_unilateral(d))
    }
}

/// One response while `FETCH` or `STORE` is in flight.
pub fn fetch_step(tag: &[u8], d: ResponseData) -> (r: Step<Fetch>)
    ensures
        r == fetch_outcome(tag@, d),
{
    if is_completion(tag, &d) {
        complete(d)
    } else if (match d.parsed() { Response::Fetch(_) => true, _ => false }) {
        Step::Item(Fetch::new(d))
    } else {
        Step::Route(handle_unilateral(d))
    }
}

/// One response while `EXPUNGE` is in flight.
pub fn expunge_step(tag: &[u8], d: ResponseData) -> (r: Step<u32>)
    ensures
        r == expunge_outcome(tag@, d),
{
    if is_completion(tag, &d) {
        complete(d)
    } else {
        match d.parsed() {
            Response::Expunge(n) => Step::Item(*n),
            _ => Step::Route(handle_unilateral(d)),
        }
    }
}

/// One response while `LIST` or `LSUB` is in flight: each `LIST` row is a result.
pub fn names_step(tag: &[u8], d: ResponseData) -> (r: Step<Name>)
    ensures
        completes(tag@, d) ==> r == completion::<Name>(d),
        !completes(tag@, d) && d.spec_parsed() is List ==> (r matches Step::Item(n) && n.wf() && n.spec_response() == d),
        !completes(tag@, d) && !(d.spec_parsed() is List) ==> r == routed::<Name>(d),
{
    if is_completion(tag, &d) {
        complete(d)
    } else if (match d.parsed() { Response::List { .. } => true, _ => false }) {
        Step::Item(Name::from_mailbox_data(d))
    } else {
        Step::Route(handle_unilateral(d))
    }
}

} // verus!
