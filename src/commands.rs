//! The text of each command the client sends, without tag and line end.
use vstd::prelude::*;
use vstd::string::StringSliceAdditionalSpecFns;
use crate::error::{Error, ValidateError};
use crate::text::{decimal, push_bytes, push_decimal, push_text};
use crate::validate::{validate_bytes, validated};

verus! {

/// Whether `r` is the command text `expected`, or the validation error it names.
pub open spec fn built(r: Result<Vec<u8>, Error>, expected: Result<Seq<u8>, char>) -> bool {
    match expected {
        Ok(t) => r matches Ok(v) && v@ == t,
        Err(c) => r matches Err(Error::Validate(ValidateError(d))) && d == c,
    }
}

/// `head` followed by `arg` quoted, then `tail`; or the validation error of `arg`.
pub open spec fn with_quoted(head: Seq<u8>, arg: Seq<u8>, tail: Seq<u8>) -> Result<Seq<u8>, char> {
    match validated(arg) {
        Ok(q) => Ok(head + q + tail),
        Err(c) => Err(c),
    }
}

/// `head` followed by `a` quoted, a space and `b` quoted; or the first
/// validation error, that of `a` before that of `b`.
pub open spec fn with_two_quoted(head: Seq<u8>, a: Seq<u8>, b: Seq<u8>) -> Result<Seq<u8>, char> {
    match validated(a) {
        Err(c) => Err(c),
        Ok(qa) => match validated(b) {
            Err(c) => Err(c),
            Ok(qb) => Ok(head + qa + seq![32u8] + qb),
        },
    }
}

/// The bytes of `verb SP a SP b`.
pub open spec fn three_words(verb: Seq<u8>, a: Seq<u8>, b: Seq<u8>) -> Seq<u8> {
    verb + seq![32u8] + a + seq![32u8] + b
}

fn quoted_command(head: &str, arg: &[u8], tail: &str) -> (r: Result<Vec<u8>, Error>)
    ensures
        built(r, with_quoted(head.spec_bytes(), arg@, tail.spec_bytes())),
{
    match validate_bytes(arg) {
        Ok(q) => {
            let mut out: Vec<u8> = Vec::new();
            push_text(&mut out, head);
            push_bytes(&mut out, q.as_slice());
            push_text(&mut out, tail);
            assert(out@ =~= head.spec_bytes() + q@ + tail.spec_bytes());
            Ok(out)
        },
        Err(e) => Err(e),
    }
}

fn two_quoted_command(head: &str, a: &[u8], b: &[u8]) -> (r: Result<Vec<u8>, Error>)
    ensures
        built(r, with_two_quoted(head.spec_bytes(), a@, b@)),
{
    let qa = match validate_bytes(a) {
        Ok(q) => q,
        Err(e) => return Err(e),
    };
    let qb = match validate_bytes(b) {
        Ok(q) => q,
        Err(e) => return Err(e),
    };
    let mut out: Vec<u8> = Vec::new();
    push_text(&mut out, head);
    push_bytes(&mut out, qa.as_slice());
    out.push(32u8);
    push_bytes(&mut out, qb.as_slice());
    assert(out@ =~= head.spec_bytes() + qa@ + seq![32u8] + qb@);
    Ok(out)
}

fn plain_command(verb: &str, a: &str, b: &str) -> (r: Vec<u8>)
    ensures
        r@ == three_words(verb.spec_bytes(), a.spec_bytes(), b.spec_bytes()),
{
    let mut out: Vec<u8> = Vec::new();
    push_text(&mut out, verb);
    out.push(32u8);
    push_text(&mut out, a);
    out.push(32u8);
    push_text(&mut out, b);
    assert(out@ =~= three_words(verb.spec_bytes(), a.spec_bytes(), b.spec_bytes()));
    out
}

/// `LOGIN user password`, both quoted.
pub fn login_command(username: &str, password: &str) -> (r: Result<Vec<u8>, Error>)
    ensures
        built(r, with_two_quoted("LOGIN ".spec_bytes(), username.spec_bytes(), password.spec_bytes())),
{
    two_quoted_command("LOGIN ", username.as_bytes(), password.as_bytes())
}

/// `AUTHENTICATE mechanism`.
pub fn authenticate_command(auth_type: &str) -> (r: Vec<u8>)
    ensures
        r@ == "AUTHENTICATE ".spec_bytes() + auth_type.spec_bytes(),
{
    let mut out: Vec<u8> = Vec::new();
    push_text(&mut out, "AUTHENTICATE ");
    push_text(&mut out, auth_type);
    out
}

/// `SELECT mailbox`, quoted.
pub fn select_command(mailbox_name: &str) -> (r: Result<Vec<u8>, Error>)
    ensures
        built(r, with_quoted("SELECT ".spec_bytes(), mailbox_name.spec_bytes(), "".spec_bytes())),
{
    quoted_command("SELECT ", mailbox_name.as_bytes(), "")
}

/// `EXAMINE mailbox`, quoted.
pub fn examine_command(mailbox_name: &str) -> (r: Result<Vec<u8>, Error>)
    ensures
        built(r, with_quoted("EXAMINE ".spec_bytes(), mailbox_name.spec_bytes(), "".spec_bytes())),
{
    quoted_command("EXAMINE ", mailbox_name.as_bytes(), "")
}

/// `CREATE mailbox`, quoted.
pub fn create_command(mailbox_name: &str) -> (r: Result<Vec<u8>, Error>)
    ensures
        built(r, with_quoted("CREATE ".spec_bytes(), mailbox_name.spec_bytes(), "".spec_bytes())),
{
    quoted_command("CREATE ", mailbox_name.as_bytes(), "")
}

/// `DELETE mailbox`, quoted.
pub fn delete_command(mailbox_name: &str) -> (r: Result<Vec<u8>, Error>)
    ensures
        built(r, with_quoted("DELETE ".spec_bytes(), mailbox_name.spec_bytes(), "".spec_bytes())),
{
    quoted_command("DELETE ", mailbox_name.as_bytes(), "")
}

/// `RENAME from to`, both quoted.
pub fn rename_command(from: &str, to: &str) -> (r: Result<Vec<u8>, Error>)
    ensures
        built(r, with_two_quoted("RENAME ".spec_bytes(), from.spec_bytes(), to.spec_bytes())),
{
    two_quoted_command("RENAME ", from.as_bytes(), to.as_bytes())
}

/// `SUBSCRIBE mailbox`, quoted.
pub fn subscribe_command(mailbox: &str) -> (r: Result<Vec<u8>, Error>)
    ensures
        built(r, with_quoted("SUBSCRIBE ".spec_bytes(), mailbox.spec_bytes(), "".spec_bytes())),
{
    quoted_command("SUBSCRIBE ", mailbox.as_bytes(), "")
}

/// `UNSUBSCRIBE mailbox`, quoted.
pub fn unsubscribe_command(mailbox: &str) -> (r: Result<Vec<u8>, Error>)
    ensures
        built(r, with_quoted("UNSUBSCRIBE ".spec_bytes(), mailbox.spec_bytes(), "".spec_bytes())),
{
    quoted_command("UNSUBSCRIBE ", mailbox.as_bytes(), "")
}

/// `FETCH set query`.
pub fn fetch_command(sequence_set: &str, query: &str) -> (r: Vec<u8>)
    ensures
        r@ == three_words("FETCH".spec_bytes(), sequence_set.spec_bytes(), query.spec_bytes()),
{
    plain_command("FETCH", sequence_set, query)
}

/// `UID FETCH set query`.
pub fn uid_fetch_command(uid_set: &str, query: &str) -> (r: Vec<u8>)
    ensures
        r@ == three_words("UID FETCH".spec_bytes(), uid_set.spec_bytes(), query.spec_bytes()),
{
    plain_command("UID FETCH", uid_set, query)
}

/// `STORE set query`.
pub fn store_command(sequence_set: &str, query: &str) -> (r: Vec<u8>)
    ensures
        r@ == three_words("STORE".spec_bytes(), sequence_set.spec_bytes(), query.spec_bytes()),
{
    plain_command("STORE", sequence_set, query)
}

/// `UID STORE set query`.
pub fn uid_store_command(uid_set: &str, query: &str) -> (r: Vec<u8>)
    ensures
        r@ == three_words("UID STORE".spec_bytes(), uid_set.spec_bytes(), query.spec_bytes()),
{
    plain_command("UID STORE", uid_set, query)
}

/// `COPY set mailbox`.
pub fn copy_command(sequence_set: &str, mailbox_name: &str) -> (r: Vec<u8>)
    ensures
        r@ == three_words("COPY".spec_bytes(), sequence_set.spec_bytes(), mailbox_name.spec_bytes()),
{
    plain_command("COPY", sequence_set, mailbox_name)
}

/// `UID COPY set mailbox`.
pub fn uid_copy_command(uid_set: &str, mailbox_name: &str) -> (r: Vec<u8>)
    ensures
        r@ == three_words("UID COPY".spec_bytes(), uid_set.spec_bytes(), mailbox_name.spec_bytes()),
{
    plain_command("UID COPY", uid_set, mailbox_name)
}

/// `MOVE set mailbox`, the mailbox quoted.
pub fn mv_command(sequence_set: &str, mailbox_name: &str) -> (r: Result<Vec<u8>, Error>)
    ensures
        built(r, with_quoted("MOVE ".spec_bytes() + sequence_set.spec_bytes() + seq![32u8], mailbox_name.spec_bytes(), Seq::empty())),
{
    let mut head: Vec<u8> = Vec::new();
    push_text(&mut head, "MOVE ");
    push_text(&mut head, sequence_set);
    head.push(32u8);
    assert(head@ =~= "MOVE ".spec_bytes() + sequence_set.spec_bytes() + seq![32u8]);
    prefixed_quoted(head, mailbox_name.as_bytes())
}

/// `UID MOVE set mailbox`, the mailbox quoted.
pub fn uid_mv_command(uid_set: &str, mailbox_name: &str) -> (r: Result<Vec<u8>, Error>)
    ensures
        built(r, with_quoted("UID MOVE ".spec_bytes() + uid_set.spec_bytes() + seq![32u8], mailbox_name.spec_bytes(), Seq::empty())),
{
    let mut head: Vec<u8> = Vec::new();
    push_text(&mut head, "UID MOVE ");
    push_text(&mut head, uid_set);
    head.push(32u8);
    assert(head@ =~= "UID MOVE ".spec_bytes() + uid_set.spec_bytes() + seq![32u8]);
    prefixed_quoted(head, mailbox_name.as_bytes())
}

fn prefixed_quoted(head: Vec<u8>, arg: &[u8]) -> (r: Result<Vec<u8>, Error>)
    ensures
        built(r, with_quoted(head@, arg@, Seq::empty())),
{
    match validate_bytes(arg) {
        Ok(q) => {
            let mut out = head;
            push_bytes(&mut out, q.as_slice());
            assert(out@ =~= head@ + q@ + Seq::<u8>::empty());
            Ok(out)
        },
        Err(e) => Err(e),
    }
}

/// `LIST reference pattern`: the reference quoted (empty when absent), the
/// pattern as given (`""` when absent).
pub fn list_command(reference_name: Option<&str>, mailbox_pattern: Option<&str>) -> (r: Result<Vec<u8>, Error>)
    ensures
        built(r, with_quoted(
            "LIST ".spec_bytes(),
            match reference_name { Some(s) => s.spec_bytes(), None => Seq::empty() },
            seq![32u8] + match mailbox_pattern { Some(p) => p.spec_bytes(), None => "\"\"".spec_bytes() },
        )),
{
    listing_command("LIST ", reference_name, mailbox_pattern, "\"\"")
}

/// `LSUB reference pattern`: the reference quoted (empty when absent), the
/// pattern as given (empty when absent).
pub fn lsub_command(reference_name: Option<&str>, mailbox_pattern: Option<&str>) -> (r: Result<Vec<u8>, Error>)
    ensures
        built(r, with_quoted(
            "LSUB ".spec_bytes(),
            match reference_name { Some(s) => s.spec_bytes(), None => Seq::empty() },
            seq![32u8] + match mailbox_pattern { Some(p) => p.spec_bytes(), None => "".spec_bytes() },
        )),
{
    listing_command("LSUB ", reference_name, mailbox_pattern, "")
}

fn listing_command(verb: &str, reference_name: Option<&str>, mailbox_pattern: Option<&str>, no_pattern: &str) -> (r: Result<Vec<u8>, Error>)
    ensures
        built(r, with_quoted(
            verb.spec_bytes(),
            match reference_name { Some(s) => s.spec_bytes(), None => Seq::empty() },
            seq![32u8] + match mailbox_pattern { Some(p) => p.spec_bytes(), None => no_pattern.spec_bytes() },
        )),
{
    let empty: [u8; 0] = [];
    let reference: &[u8] = match reference_name {
        Some(s) => s.as_bytes(),
        None => empty.as_slice(),
    };
    assert(reference@ == match reference_name { Some(s) => s.spec_bytes(), None => Seq::<u8>::empty() });
    let q = match validate_bytes(reference) {
        Ok(q) => q,
        Err(e) => return Err(e),
    };
    let mut out: Vec<u8> = Vec::new();
    push_text(&mut out, verb);
    push_bytes(&mut out, q.as_slice());
    out.push(32u8);
    match mailbox_pattern {
        Some(p) => push_text(&mut out, p),
        None => push_text(&mut out, no_pattern),
    }
    let ghost pat = match mailbox_pattern { Some(p) => p.spec_bytes(), None => no_pattern.spec_bytes() };
    assert(out@ =~= verb.spec_bytes() + q@ + (seq![32u8] + pat));
    Ok(out)
}

/// `STATUS mailbox items`, the mailbox quoted.
pub fn status_command(mailbox_name: &str, data_items: &str) -> (r: Result<Vec<u8>, Error>)
    ensures
        built(r, with_quoted("STATUS ".spec_bytes(), mailbox_name.spec_bytes(), seq![32u8] + data_items.spec_bytes())),
{
    match validate_bytes(mailbox_name.as_bytes()) {
        Ok(q) => {
            let mut out: Vec<u8> = Vec::new();
            push_text(&mut out, "STATUS ");
            push_bytes(&mut out, q.as_slice());
            out.push(32u8);
            push_text(&mut out, data_items);
            assert(out@ =~= "STATUS ".spec_bytes() + q@ + (seq![32u8] + data_items.spec_bytes()));
            Ok(out)
        },
        Err(e) => Err(e),
    }
}

/// `verb query`.
fn query_command(verb: &str, query: &str) -> (r: Vec<u8>)
    ensures
        r@ == verb.spec_bytes() + seq![32u8] + query.spec_bytes(),
{
    let mut out: Vec<u8> = Vec::new();
    push_text(&mut out, verb);
    out.push(32u8);
    push_text(&mut out, query);
    out
}

/// `SEARCH query`.
pub fn search_command(query: &str) -> (r: Vec<u8>)
    ensures
        r@ == "SEARCH".spec_bytes() + seq![32u8] + query.spec_bytes(),
{
    query_command("SEARCH", query)
}

/// `UID SEARCH query`.
pub fn uid_search_command(query: &str) -> (r: Vec<u8>)
    ensures
        r@ == "UID SEARCH".spec_bytes() + seq![32u8] + query.spec_bytes(),
{
    query_command("UID SEARCH", query)
}

/// `UID EXPUNGE set`.
pub fn uid_expunge_command(uid_set: &str) -> (r: Vec<u8>)
    ensures
        r@ == "UID EXPUNGE".spec_bytes() + seq![32u8] + uid_set.spec_bytes(),
{
    query_command("UID EXPUNGE", uid_set)
}

/// `APPEND mailbox {n}`: the mailbox quoted, `n` the length of the literal.
pub fn append_command(mailbox: &str, content_len: usize) -> (r: Result<Vec<u8>, Error>)
    ensures
        built(r, with_quoted("APPEND ".spec_bytes(), mailbox.spec_bytes(),
            seq![32u8, 123u8] + decimal(content_len as nat) + seq![125u8])),
{
    match validate_bytes(mailbox.as_bytes()) {
        Ok(q) => {
            let mut out: Vec<u8> = Vec::new();
            push_text(&mut out, "APPEND ");
            push_bytes(&mut out, q.as_slice());
            out.push(32u8);
            out.push(123u8);
            push_decimal(&mut out, content_len as u64);
            out.push(125u8);
            assert(out@ =~= "APPEND ".spec_bytes() + q@ + (seq![32u8, 123u8] + decimal(content_len as nat) + seq![125u8]));
            Ok(out)
        },
        Err(e) => Err(e),
    }
}

/// A command that is a single word (`NOOP`, `CHECK`, `IDLE`, ...).
pub fn simple_command(verb: &str) -> (r: Vec<u8>)
    ensures
        r@ == verb.spec_bytes(),
{
    let mut out: Vec<u8> = Vec::new();
    push_text(&mut out, verb);
    out
}

} // verus!
