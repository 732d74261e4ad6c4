//! Collectors that assemble a command's single result from the untagged
//! responses that arrive before its tagged completion.
use vstd::prelude::*;
use vstd::string::StringSliceAdditionalSpecFns;
use vstd::utf8::encode_utf8;
use crate::capabilities::{bytes_eq, Capabilities, CapabilityView};
use crate::error::{Error, IoErrorKind, ParseError};
use crate::quota::{Quota, QuotaRoot};
use crate::response::{Metadata, Response, ResponseCode, ResponseData, Status};
use crate::router::{complete, completes, completion, handle_unilateral, is_completion, routed, Step};
use crate::types::Mailbox;

verus! {

/// `new` is `old` with the response code of an untagged OK applied.
pub open spec fn code_applied(old: Mailbox, new: Mailbox, code: Option<ResponseCode>) -> bool {
    match code {
        Some(ResponseCode::UidValidity(u)) => new == Mailbox { uid_validity: Some(u), ..old },
        Some(ResponseCode::UidNext(u)) => new == Mailbox { uid_next: Some(u), ..old },
        Some(ResponseCode::Unseen(n)) => new == Mailbox { unseen: Some(n), ..old },
        Some(ResponseCode::PermanentFlags(f)) => {
            &&& new.permanent_flags@ == old.permanent_flags@ + f@
            &&& new == Mailbox { permanent_flags: new.permanent_flags, ..old }
        },
        _ => new == old,
    }
}

/// The UID validity a snapshot holds after response `d`: that of an
/// untagged OK with a UIDVALIDITY code, else `v` unchanged.
pub open spec fn uid_validity_after(tag: Seq<u8>, v: Option<u32>, d: ResponseData) -> Option<u32> {
    if !completes(tag, d) && d.spec_parsed() matches Response::Data {
        status: Status::Okay,
        code: Some(ResponseCode::UidValidity(u)),
        ..
    } {
        Some(d.spec_parsed()->Data_code->0->UidValidity_0)
    } else {
        v
    }
}

/// The UID validity after the responses `rs`, starting from `v`.
pub open spec fn uid_validity_over(tag: Seq<u8>, v: Option<u32>, rs: Seq<ResponseData>) -> Option<u32>
    decreases rs.len(),
{
    if rs.len() == 0 {
        v
    } else {
        uid_validity_after(tag, uid_validity_over(tag, v, rs.drop_last()), rs.last())
    }
}

/// Whether `d` reports the UID validity of the mailbox.
pub open spec fn reports_uid_validity(tag: Seq<u8>, d: ResponseData) -> bool {
    uid_validity_after(tag, None, d) is Some
}

/// Selecting a mailbox whose responses report its UID validity yields the
/// same UID validity whatever the snapshot held before: the snapshot's
/// value is the last one reported.
pub proof fn lemma_uid_validity_from_responses(tag: Seq<u8>, a: Option<u32>, b: Option<u32>, rs: Seq<ResponseData>, i: int)
    requires
        0 <= i < rs.len(),
        reports_uid_validity(tag, rs[i]),
    ensures
        uid_validity_over(tag, a, rs) == uid_validity_over(tag, b, rs),
    decreases rs.len(),
{
    if i < rs.len() - 1 {
        assert(rs.drop_last()[i] == rs[i]);
        lemma_uid_validity_from_responses(tag, a, b, rs.drop_last(), i);
    }
}

/// One response while `SELECT`, `EXAMINE` or `STATUS` is in flight: the
/// snapshot is assembled from `FLAGS`, `EXISTS`, `RECENT` and the codes of
/// untagged OK; an untagged NO or BAD fails the command.
pub fn mailbox_step(mailbox: &mut Mailbox, tag: &[u8], d: ResponseData) -> (r: Step<()>)
    ensures
        final(mailbox).uid_validity == uid_validity_after(tag@, old(mailbox).uid_validity, d),
        completes(tag@, d) ==> r == completion::<()>(d) && *final(mailbox) == *old(mailbox),
        !completes(tag@, d) ==> match d.spec_parsed() {
            Response::Data { status, code, information } => match status {
                Status::Okay => r is Item && code_applied(*old(mailbox), *final(mailbox), code),
                Status::No => r == Step::<()>::Failed(Error::No(code, information))
                    && *final(mailbox) == *old(mailbox),
                Status::Bad => r == Step::<()>::Failed(Error::Bad(code, information))
                    && *final(mailbox) == *old(mailbox),
                _ => r == Step::<()>::Failed(Error::Io(IoErrorKind::Other))
                    && *final(mailbox) == *old(mailbox),
            },
            Response::Exists(e) => r is Item && *final(mailbox) == Mailbox { exists: e, ..*old(mailbox) },
            Response::Recent(n) => r is Item && *final(mailbox) == Mailbox { recent: n, ..*old(mailbox) },
            Response::Flags(f) => {
                &&& r is Item
                &&& final(mailbox).flags@ == old(mailbox).flags@ + f@
                &&& *final(mailbox) == Mailbox { flags: final(mailbox).flags, ..*old(mailbox) }
            },
            _ => r == routed::<()>(d) && *final(mailbox) == *old(mailbox),
        },
{
    if is_completion(tag, &d) {
        return complete(d);
    }
    let consumed = match d.parsed() {
        Response::Data { .. } => true,
        Response::Exists(_) => true,
        Response::Recent(_) => true,
        Response::Flags(_) => true,
        _ => false,
    };
    if !consumed {
        return Step::Route(handle_unilateral(d));
    }
    let (_, parsed) = d.into_parts();
    match parsed {
        Response::Data { status, code, information } => match status {
            Status::Okay => {
                match code {
                    Some(ResponseCode::UidValidity(u)) => {
                        mailbox.uid_validity = Some(u);
                    },
                    Some(ResponseCode::UidNext(u)) => {
                        mailbox.uid_next = Some(u);
                    },
                    Some(ResponseCode::Unseen(n)) => {
                        mailbox.unseen = Some(n);
                    },
                    Some(ResponseCode::PermanentFlags(f)) => {
                        let mut f = f;
                        mailbox.permanent_flags.append(&mut f);
                    },
                    _ => {},
                }
                Step::Item(())
            },
            Status::No => Step::Failed(Error::No(code, information)),
            Status::Bad => Step::Failed(Error::Bad(code, information)),
            _ => Step::Failed(Error::Io(IoErrorKind::Other)),
        },
        Response::Exists(e) => {
            mailbox.exists = e;
            Step::Item(())
        },
        Response::Recent(n) => {
            mailbox.recent = n;
            Step::Item(())
        },
        Response::Flags(f) => {
            let mut f = f;
            mailbox.flags.append(&mut f);
            Step::Item(())
        },
        _ => Step::Item(()),
    }
}

/// Adds `x` to `ids` unless it is there already.
fn insert_unique(ids: &mut Vec<u32>, x: u32)
    requires
        old(ids)@.no_duplicates(),
    ensures
        final(ids)@.no_duplicates(),
        final(ids)@.to_set() == old(ids)@.to_set().insert(x),
{
    let mut i: usize = 0;
    while i < ids.len()
        invariant
            0 <= i <= ids@.len(),
            ids@ == old(ids)@,
            ids@.no_duplicates(),
            forall|j: int| 0 <= j < i ==> ids@[j] != x,
        decreases ids@.len() - i,
    {
        if ids[i] == x {
            proof {
                assert(ids@.contains(x));
                assert(ids@.to_set().insert(x) =~= ids@.to_set());
            }
            return;
        }
        i = i + 1;
    }
    let ghost before = ids@;
    ids.push(x);
    proof {
        assert(!before.contains(x));
        assert(ids@.to_set() =~= before.to_set().insert(x)) by {
            assert forall|y: u32| ids@.contains(y) <==> before.contains(y) || y == x by {
                if ids@.contains(y) {
                    let k = choose|k: int| 0 <= k < ids@.len() && ids@[k] == y;
                    if k < before.len() {
                        assert(before[k] == y);
                    }
                }
                if before.contains(y) {
                    let k = choose|k: int| 0 <= k < before.len() && before[k] == y;
                    assert(ids@[k] == y);
                }
                if y == x {
                    assert(ids@[before.len() as int] == x);
                }
            }
        }
    }
}

/// One response while `SEARCH` is in flight: the numbers of each `SEARCH`
/// response join the set of results.
pub fn ids_step(ids: &mut Vec<u32>, tag: &[u8], d: ResponseData) -> (r: Step<()>)
    requires
        old(ids)@.no_duplicates(),
    ensures
        final(ids)@.no_duplicates(),
        completes(tag@, d) ==> r == completion::<()>(d) && final(ids)@ == old(ids)@,
        !completes(tag@, d) && d.spec_parsed() is Ids ==> r is Item
            && final(ids)@.to_set() == old(ids)@.to_set().union(d.spec_parsed()->Ids_0@.to_set()),
        !completes(tag@, d) && !(d.spec_parsed() is Ids) ==> r == routed::<()>(d) && final(ids)@ == old(ids)@,
{
    if is_completion(tag, &d) {
        return complete(d);
    }
    match d.parsed() {
        Response::Ids(v) => {
            let mut i: usize = 0;
            while i < v.len()
                invariant
                    0 <= i <= v@.len(),
                    ids@.no_duplicates(),
                    ids@.to_set() == old(ids)@.to_set().union(v@.subrange(0, i as int).to_set()),
                decreases v@.len() - i,
            {
                insert_unique(ids, v[i]);
                proof {
                    let s1 = v@.subrange(0, i + 1);
                    let s0 = v@.subrange(0, i as int);
                    let x = v@[i as int];
                    assert(s1.to_set() =~= s0.to_set().insert(x)) by {
                        assert forall|y: u32| #[trigger] s1.contains(y) <==> s0.contains(y) || y == x by {
                            if s1.contains(y) {
                                let k = choose|k: int| 0 <= k < s1.len() && s1[k] == y;
                                if k < i {
                                    assert(s0[k] == y);
                                }
                            }
                            if s0.contains(y) {
                                let k = choose|k: int| 0 <= k < s0.len() && s0[k] == y;
                                assert(s1[k] == y);
                            }
                            if y == x {
                                assert(s1[i as int] == y);
                            }
                        }
                    }
                }
                i = i + 1;
            }
            assert(v@.subrange(0, v@.len() as int) =~= v@);
            Step::Item(())
        },
        _ => Step::Route(handle_unilateral(d)),
    }
}

/// One response while `CAPABILITY` is in flight: the capabilities of each
/// `CAPABILITY` response join the set.
pub fn capabilities_step(caps: &mut Capabilities, tag: &[u8], d: ResponseData) -> (r: Step<()>)
    requires
        old(caps).wf(),
    ensures
        final(caps).wf(),
        completes(tag@, d) ==> r == completion::<()>(d) && final(caps)@ == old(caps)@,
        !completes(tag@, d) && d.spec_parsed() is Capabilities ==> r is Item
            && final(caps)@.to_set() == old(caps)@.to_set().union(
                d.spec_parsed()->Capabilities_0@.map_values(|c: crate::capabilities::Capability| c@).to_set()),
        !completes(tag@, d) && !(d.spec_parsed() is Capabilities) ==> r == routed::<()>(d) && final(caps)@ == old(caps)@,
{
    if is_completion(tag, &d) {
        return complete(d);
    }
    if !(match d.parsed() { Response::Capabilities(_) => true, _ => false }) {
        return Step::Route(handle_unilateral(d));
    }
    let ghost listed = d.spec_parsed()->Capabilities_0@.map_values(|c: crate::capabilities::Capability| c@);
    let (_, parsed) = d.into_parts();
    match parsed {
        Response::Capabilities(cs) => {
            let mut cs = cs;
            let ghost all = cs@.map_values(|c: crate::capabilities::Capability| c@);
            assert(all == listed);
            while cs.len() > 0
                invariant
                    caps.wf(),
                    cs@.len() <= all.len(),
                    cs@.map_values(|c: crate::capabilities::Capability| c@) == all.subrange(0, cs@.len() as int),
                    caps@.to_set() == old(caps)@.to_set().union(all.subrange(cs@.len() as int, all.len() as int).to_set()),
                decreases cs@.len(),
            {
                let ghost n = cs@.len();
                let ghost cs_before = cs@;
                let c = cs.pop().unwrap();
                assert(cs_before.map_values(|c: crate::capabilities::Capability| c@)[n - 1] == cs_before[n - 1]@);
                let ghost before = caps@;
                let ghost cv = c@;
                caps.insert(c);
                proof {
                    assert(cv == all[n - 1]);
                    assert(caps@.to_set() =~= before.to_set().insert(cv)) by {
                        if before.contains(cv) {
                            assert(before.to_set().insert(cv) =~= before.to_set());
                        } else {
                            assert forall|y: CapabilityView| #[trigger] caps@.contains(y) <==> before.contains(y) || y == cv by {
                                if caps@.contains(y) {
                                    let k = choose|k: int| 0 <= k < caps@.len() && caps@[k] == y;
                                    if k < before.len() {
                                        assert(before[k] == y);
                                    }
                                }
                                if before.contains(y) {
                                    let k = choose|k: int| 0 <= k < before.len() && before[k] == y;
                                    assert(caps@[k] == y);
                                }
                                if y == cv {
                                    assert(caps@[before.len() as int] == y);
                                }
                            }
                        }
                    }
                    assert(all.subrange(n - 1, all.len() as int).to_set() =~= all.subrange(n as int, all.len() as int).to_set().insert(cv)) by {
                        assert forall|y: CapabilityView| #[trigger] all.subrange(n - 1, all.len() as int).contains(y)
                            <==> all.subrange(n as int, all.len() as int).contains(y) || y == cv by {
                            let hi = all.subrange(n - 1, all.len() as int);
                            let lo = all.subrange(n as int, all.len() as int);
                            if hi.contains(y) {
                                let k = choose|k: int| 0 <= k < hi.len() && hi[k] == y;
                                if k > 0 {
                                    assert(lo[k - 1] == y);
                                }
                            }
                            if lo.contains(y) {
                                let k = choose|k: int| 0 <= k < lo.len() && lo[k] == y;
                                assert(hi[k + 1] == y);
                            }
                            if y == cv {
                                assert(hi[0] == y);
                            }
                        }
                    }
                    assert(cs@.map_values(|c: crate::capabilities::Capability| c@) =~= all.subrange(0, cs@.len() as int));
                }
            }
            assert(all.subrange(0, all.len() as int) =~= all);
            Step::Item(())
        },
        _ => Step::Item(()),
    }
}

/// One response while `ID` is in flight: an `ID` response is the result.
pub fn id_step(id: &mut Option<Vec<(String, String)>>, tag: &[u8], d: ResponseData) -> (r: Step<()>)
    ensures
        completes(tag@, d) ==> r == completion::<()>(d) && *final(id) == *old(id),
        !completes(tag@, d) && d.spec_parsed() is Id ==> r is Item && *final(id) == d.spec_parsed()->Id_0,
        !completes(tag@, d) && !(d.spec_parsed() is Id) ==> r == routed::<()>(d) && *final(id) == *old(id),
{
    if is_completion(tag, &d) {
        return complete(d);
    }
    if !(match d.parsed() { Response::Id(_) => true, _ => false }) {
        return Step::Route(handle_unilateral(d));
    }
    let (_, parsed) = d.into_parts();
    match parsed {
        Response::Id(x) => {
            *id = x;
            Step::Item(())
        },
        _ => Step::Item(()),
    }
}

/// Whether `d` is a solicited `METADATA` response for the mailbox `mbox`.
pub open spec fn metadata_for(mbox: Seq<u8>, d: ResponseData) -> bool {
    d.spec_parsed() matches Response::MetadataSolicited { mailbox, .. } && encode_utf8(mailbox@) == mbox
}

/// One response while `GETMETADATA` for mailbox `mbox` is in flight: the
/// values of each solicited `METADATA` response for that mailbox join the
/// result; metadata of other mailboxes is routed like any other response.
pub fn metadata_step(values: &mut Vec<Metadata>, mbox: &str, tag: &[u8], d: ResponseData) -> (r: Step<()>)
    ensures
        completes(tag@, d) ==> r == completion::<()>(d) && final(values)@ == old(values)@,
        !completes(tag@, d) && metadata_for(mbox.spec_bytes(), d) ==> r is Item
            && final(values)@ == old(values)@ + d.spec_parsed()->MetadataSolicited_values@,
        !completes(tag@, d) && !metadata_for(mbox.spec_bytes(), d) ==> r == routed::<()>(d)
            && final(values)@ == old(values)@,
{
    if is_completion(tag, &d) {
        return complete(d);
    }
    let wanted = match d.parsed() {
        Response::MetadataSolicited { mailbox, .. } => bytes_eq(mailbox.as_str().as_bytes(), mbox.as_bytes()),
        _ => false,
    };
    if !wanted {
        return Step::Route(handle_unilateral(d));
    }
    let (_, parsed) = d.into_parts();
    match parsed {
        Response::MetadataSolicited { values: v, .. } => {
            let mut v = v;
            values.append(&mut v);
            Step::Item(())
        },
        _ => Step::Item(()),
    }
}

/// One response while `GETQUOTA` is in flight: a `QUOTA` response is the result.
pub fn quota_step(quota: &mut Option<Quota>, tag: &[u8], d: ResponseData) -> (r: Step<()>)
    ensures
        completes(tag@, d) ==> r == completion::<()>(d) && *final(quota) == *old(quota),
        !completes(tag@, d) && d.spec_parsed() is Quota ==> r is Item && *final(quota) == Some(d.spec_parsed()->Quota_0),
        !completes(tag@, d) && !(d.spec_parsed() is Quota) ==> r == routed::<()>(d) && *final(quota) == *old(quota),
{
    if is_completion(tag, &d) {
        return complete(d);
    }
    if !(match d.parsed() { Response::Quota(_) => true, _ => false }) {
        return Step::Route(handle_unilateral(d));
    }
    let (_, parsed) = d.into_parts();
    match parsed {
        Response::Quota(q) => {
            *quota = Some(q);
            Step::Item(())
        },
        _ => Step::Item(()),
    }
}

/// One response while `GETQUOTAROOT` is in flight: `QUOTAROOT` and `QUOTA`
/// responses join the result.
pub fn quota_root_step(roots: &mut Vec<QuotaRoot>, quotas: &mut Vec<Quota>, tag: &[u8], d: ResponseData) -> (r: Step<()>)
    ensures
        completes(tag@, d) ==> r == completion::<()>(d) && final(roots)@ == old(roots)@ && final(quotas)@ == old(quotas)@,
        !completes(tag@, d) && d.spec_parsed() is QuotaRoot ==> r is Item
            && final(roots)@ == old(roots)@.push(d.spec_parsed()->QuotaRoot_0) && final(quotas)@ == old(quotas)@,
        !completes(tag@, d) && d.spec_parsed() is Quota ==> r is Item
            && final(quotas)@ == old(quotas)@.push(d.spec_parsed()->Quota_0) && final(roots)@ == old(roots)@,
        !completes(tag@, d) && !(d.spec_parsed() is QuotaRoot) && !(d.spec_parsed() is Quota) ==> r == routed::<()>(d)
            && final(roots)@ == old(roots)@ && final(quotas)@ == old(quotas)@,
{
    if is_completion(tag, &d) {
        return complete(d);
    }
    if !(match d.parsed() { Response::Quota(_) => true, Response::QuotaRoot(_) => true, _ => false }) {
        return Step::Route(handle_unilateral(d));
    }
    let (_, parsed) = d.into_parts();
    match parsed {
        Response::Quota(q) => {
            quotas.push(q);
            Step::Item(())
        },
        Response::QuotaRoot(q) => {
            roots.push(q);
            Step::Item(())
        },
        _ => Step::Item(()),
    }
}

/// The result of `GETQUOTA` once it completed: the quota, or an error when
/// the server sent none.
pub fn quota_result(quota: Option<Quota>) -> (r: Result<Quota, Error>)
    ensures
        match quota {
            Some(q) => r == Ok::<Quota, Error>(q),
            None => r matches Err(Error::Parse(ParseError::ExpectedResponseNotFound(_))),
        },
{
    match quota {
        Some(q) => Ok(q),
        None => Err(Error::Parse(ParseError::ExpectedResponseNotFound("Quota, no quota response found".to_owned()))),
    }
}

/// The result of `GETQUOTAROOT` once it completed: the roots and quotas, or
/// an error when the server sent no root.
pub fn quota_root_result(roots: Vec<QuotaRoot>, quotas: Vec<Quota>) -> (r: Result<(Vec<QuotaRoot>, Vec<Quota>), Error>)
    ensures
        roots@.len() > 0 ==> (r matches Ok((a, b)) && a@ == roots@ && b@ == quotas@),
        roots@.len() == 0 ==> r matches Err(Error::Parse(ParseError::ExpectedResponseNotFound(_))),
{
    if roots.len() == 0 {
        Err(Error::Parse(ParseError::ExpectedResponseNotFound("QuotaRoot, no quota root response found".to_owned())))
    } else {
        Ok((roots, quotas))
    }
}

} // verus!
