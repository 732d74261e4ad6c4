//! Validation and quoting of string arguments.
use vstd::prelude::*;
use vstd::string::StringSliceAdditionalSpecFns;
use crate::error::{Error, ValidateError};
use crate::text::{escaped, has_line_break, is_line_break, needs_escape, push_quoted, quoted};

verus! {

/// Whether `s` holds the byte `b`.
pub open spec fn holds_byte(s: Seq<u8>, b: u8) -> bool {
    exists|i: int| 0 <= i < s.len() && s[i] == b
}

/// What `validate_str` returns on the bytes `s`: the quoted string, or the
/// first forbidden character found, a line feed before a carriage return.
pub open spec fn validated(s: Seq<u8>) -> Result<Seq<u8>, char> {
    if holds_byte(s, 10u8) {
        Err('\n')
    } else if holds_byte(s, 13u8) {
        Err('\r')
    } else {
        Ok(quoted(s))
    }
}

/// Whether `r` is the outcome that `validated` describes.
pub open spec fn validate_outcome(r: Result<Vec<u8>, Error>, s: Seq<u8>) -> bool {
    match validated(s) {
        Ok(q) => r matches Ok(v) && v@ == q,
        Err(c) => r matches Err(Error::Validate(ValidateError(d))) && d == c,
    }
}

/// How a server reads the inside of a quoted string, left to right: a
/// backslash takes the next byte, which must be a backslash or a double
/// quote; a bare double quote is not allowed.
pub open spec fn unescaped(q: Seq<u8>) -> Option<Seq<u8>>
    decreases q.len(),
{
    if q.len() == 0 {
        Some(Seq::empty())
    } else if q[0] == 92u8 {
        if q.len() >= 2 && needs_escape(q[1]) {
            match unescaped(q.subrange(2, q.len() as int)) {
                Some(r) => Some(seq![q[1]] + r),
                None => None,
            }
        } else {
            None
        }
    } else if q[0] == 34u8 {
        None
    } else {
        match unescaped(q.subrange(1, q.len() as int)) {
            Some(r) => Some(seq![q[0]] + r),
            None => None,
        }
    }
}

/// How a server reads a quoted string: the bytes between the double quotes, unescaped.
pub open spec fn unquoted(q: Seq<u8>) -> Option<Seq<u8>> {
    if q.len() >= 2 && q[0] == 34u8 && q[q.len() - 1] == 34u8 {
        unescaped(q.subrange(1, q.len() - 1))
    } else {
        None
    }
}

/// Escaping distributes over concatenation.
pub proof fn lemma_escaped_concat(a: Seq<u8>, b: Seq<u8>)
    ensures
        escaped(a + b) == escaped(a) + escaped(b),
    decreases b.len(),
{
    if b.len() == 0 {
        assert(a + b =~= a);
        assert(escaped(b) =~= Seq::<u8>::empty());
        assert(escaped(a) + escaped(b) =~= escaped(a));
    } else {
        assert((a + b).drop_last() =~= a + b.drop_last());
        assert((a + b).last() == b.last());
        lemma_escaped_concat(a, b.drop_last());
        if needs_escape(b.last()) {
            assert(escaped(a + b) =~= escaped(a) + escaped(b.drop_last()) + seq![92u8, b.last()]);
        } else {
            assert(escaped(a + b) =~= (escaped(a) + escaped(b.drop_last())).push(b.last()));
        }
    }
}

/// A server reads back exactly the bytes that were escaped.
pub proof fn lemma_unescaped_escaped(s: Seq<u8>)
    ensures
        unescaped(escaped(s)) == Some(s),
    decreases s.len(),
{
    if s.len() == 0 {
        assert(escaped(s) =~= Seq::<u8>::empty());
    } else {
        let c = s[0];
        let rest = s.subrange(1, s.len() as int);
        assert(s =~= seq![c] + rest);
        lemma_escaped_concat(seq![c], rest);
        lemma_unescaped_escaped(rest);
        assert(seq![c].drop_last() =~= Seq::<u8>::empty());
        assert(escaped(Seq::<u8>::empty()) =~= Seq::<u8>::empty());
        let q = escaped(s);
        if needs_escape(c) {
            assert(escaped(seq![c]) =~= seq![92u8, c]);
            assert(q =~= seq![92u8, c] + escaped(rest));
            assert(q.subrange(2, q.len() as int) =~= escaped(rest));
            assert(seq![c] + rest =~= s);
        } else {
            assert(escaped(seq![c]) =~= seq![c]);
            assert(q =~= seq![c] + escaped(rest));
            assert(q.subrange(1, q.len() as int) =~= escaped(rest));
            assert(c != 34u8 && c != 92u8);
        }
    }
}

/// A server reads back exactly the bytes that were quoted.
pub proof fn lemma_unquoted_quoted(s: Seq<u8>)
    ensures
        unquoted(quoted(s)) == Some(s),
{
    let q = quoted(s);
    assert(q.subrange(1, q.len() - 1) =~= escaped(s));
    lemma_unescaped_escaped(s);
}

/// A string holding a carriage return or a line feed is refused, and a
/// refused string yields no command text at all.
pub proof fn lemma_line_breaks_refused(s: Seq<u8>)
    ensures
        has_line_break(s) <==> validated(s) is Err,
{
    if has_line_break(s) {
        let i = choose|i: int| 0 <= i < s.len() && #[trigger] is_line_break(s[i]);
        if s[i] == 10u8 {
            assert(holds_byte(s, 10u8));
        } else {
            assert(holds_byte(s, 13u8));
        }
    }
    if validated(s) is Err {
        if holds_byte(s, 10u8) {
            let i = choose|i: int| 0 <= i < s.len() && s[i] == 10u8;
            assert(is_line_break(s[i]));
        } else {
            let i = choose|i: int| 0 <= i < s.len() && s[i] == 13u8;
            assert(is_line_break(s[i]));
        }
    }
}

/// Finds the byte `b` in `s`.
pub fn find_byte(s: &[u8], b: u8) -> (r: bool)
    ensures
        r == holds_byte(s@, b),
{
    let mut i: usize = 0;
    while i < s.len()
        invariant
            0 <= i <= s@.len(),
            forall|j: int| 0 <= j < i ==> s@[j] != b,
        decreases s@.len() - i,
    {
        if s[i] == b {
            return true;
        }
        i = i + 1;
    }
    false
}

/// Quotes `value` as an IMAP string, refusing a carriage return or a line feed.
pub fn validate_bytes(value: &[u8]) -> (r: Result<Vec<u8>, Error>)
    ensures
        validate_outcome(r, value@),
        r is Ok <==> !has_line_break(value@),
{
    if find_byte(value, 10u8) {
        proof {
            let i = choose|i: int| 0 <= i < value@.len() && value@[i] == 10u8;
            assert(is_line_break(value@[i]));
        }
        return Err(Error::Validate(ValidateError('\n')));
    }
    if find_byte(value, 13u8) {
        proof {
            let i = choose|i: int| 0 <= i < value@.len() && value@[i] == 13u8;
            assert(is_line_break(value@[i]));
        }
        return Err(Error::Validate(ValidateError('\r')));
    }
    let mut out: Vec<u8> = Vec::new();
    push_quoted(&mut out, value);
    assert(out@ =~= quoted(value@));
    assert(!has_line_break(value@)) by {
        if has_line_break(value@) {
            let i = choose|i: int| 0 <= i < value@.len() && #[trigger] is_line_break(value@[i]);
            assert(value@[i] == 10u8 || value@[i] == 13u8);
        }
    }
    Ok(out)
}

/// Quotes `value` as an IMAP string: between double quotes, with a
/// backslash before each backslash and double quote.
pub fn quote(value: &str) -> (r: Vec<u8>)
    ensures
        r@ == quoted(value.spec_bytes()),
{
    let mut out: Vec<u8> = Vec::new();
    push_quoted(&mut out, value.as_bytes());
    assert(out@ =~= quoted(value.spec_bytes()));
    out
}

/// Quotes `value` as an IMAP string, refusing a carriage return or a line feed.
pub fn validate_str(value: &str) -> (r: Result<Vec<u8>, Error>)
    ensures
        validate_outcome(r, value.spec_bytes()),
        r is Ok <==> !has_line_break(value.spec_bytes()),
{
    validate_bytes(value.as_bytes())
}

} // verus!
