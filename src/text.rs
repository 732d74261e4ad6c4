//! Byte-level text helpers: appending text, decimal numbers, quoted strings.
use vstd::prelude::*;
use vstd::string::StringSliceAdditionalSpecFns;

verus! {

/// Whether `b` is a carriage return or a line feed.
pub open spec fn is_line_break(b: u8) -> bool {
    b == 10u8 || b == 13u8
}

/// Whether some byte of `s` is a carriage return or a line feed.
pub open spec fn has_line_break(s: Seq<u8>) -> bool {
    exists|i: int| 0 <= i < s.len() && #[trigger] is_line_break(s[i])
}

/// Whether `b` must be preceded by a backslash inside a quoted string.
pub open spec fn needs_escape(b: u8) -> bool {
    b == 92u8 || b == 34u8
}

/// `s` with a backslash put before each backslash and each double quote.
pub open spec fn escaped(s: Seq<u8>) -> Seq<u8>
    decreases s.len(),
{
    if s.len() == 0 {
        Seq::empty()
    } else if needs_escape(s.last()) {
        escaped(s.drop_last()) + seq![92u8, s.last()]
    } else {
        escaped(s.drop_last()).push(s.last())
    }
}

/// `s` as an IMAP quoted string: escaped and put between double quotes.
pub open spec fn quoted(s: Seq<u8>) -> Seq<u8> {
    seq![34u8] + escaped(s) + seq![34u8]
}

/// The decimal digits of `n`, most significant first, without leading zeros.
pub open spec fn decimal(n: nat) -> Seq<u8>
    decreases n,
{
    if n < 10 {
        seq![(48 + n) as u8]
    } else {
        decimal(n / 10).push((48 + n % 10) as u8)
    }
}

/// Appends the UTF-8 bytes of `s` to `out`.
pub fn push_text(out: &mut Vec<u8>, s: &str)
    ensures
        final(out)@ == old(out)@ + s.spec_bytes(),
{
    let b = s.as_bytes();
    let mut i: usize = 0;
    while i < b.len()
        invariant
            0 <= i <= b@.len(),
            b@ == s.spec_bytes(),
            out@ == old(out)@ + b@.subrange(0, i as int),
        decreases b@.len() - i,
    {
        out.push(b[i]);
        i = i + 1;
        assert(b@.subrange(0, i as int) =~= b@.subrange(0, i - 1) + seq![b@[i - 1]]);
    }
    assert(b@.subrange(0, b@.len() as int) =~= b@);
}

/// Appends the bytes of `s` to `out`.
pub fn push_bytes(out: &mut Vec<u8>, s: &[u8])
    ensures
        final(out)@ == old(out)@ + s@,
{
    let mut i: usize = 0;
    while i < s.len()
        invariant
            0 <= i <= s@.len(),
            out@ == old(out)@ + s@.subrange(0, i as int),
        decreases s@.len() - i,
    {
        out.push(s[i]);
        i = i + 1;
        assert(s@.subrange(0, i as int) =~= s@.subrange(0, i - 1) + seq![s@[i - 1]]);
    }
    assert(s@.subrange(0, s@.len() as int) =~= s@);
}

/// Appends the decimal digits of `n` to `out`.
pub fn push_decimal(out: &mut Vec<u8>, n: u64)
    ensures
        final(out)@ == old(out)@ + decimal(n as nat),
    decreases n,
{
    if n < 10 {
        out.push((48 + n) as u8);
        assert(decimal(n as nat) =~= seq![(48 + n) as u8]);
    } else {
        push_decimal(out, n / 10);
        out.push((48 + n % 10) as u8);
    }
}

/// Appends `s` to `out` as an IMAP quoted string.
pub fn push_quoted(out: &mut Vec<u8>, s: &[u8])
    ensures
        final(out)@ == old(out)@ + quoted(s@),
{
    let ghost start = out@;
    out.push(34u8);
    let mut i: usize = 0;
    while i < s.len()
        invariant
            0 <= i <= s@.len(),
            out@ == start + seq![34u8] + escaped(s@.subrange(0, i as int)),
        decreases s@.len() - i,
    {
        let c = s[i];
        assert(s@.subrange(0, i + 1).drop_last() =~= s@.subrange(0, i as int));
        if c == 92u8 || c == 34u8 {
            out.push(92u8);
        }
        out.push(c);
        i = i + 1;
    }
    assert(s@.subrange(0, s@.len() as int) =~= s@);
    out.push(34u8);
}

} // verus!
