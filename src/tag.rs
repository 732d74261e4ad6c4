//! Generation of command tags: `A0001`, `A0002`, ..., `A9999`, `A0000`, `A0001`, ...
use vstd::prelude::*;

verus! {

/// The ASCII byte of decimal digit `d`.
pub open spec fn digit_byte(d: int) -> u8 {
    (48 + d) as u8
}

/// The tag handed out for the `n`-th command: `A` followed by `n mod 10000`
/// written as four zero-padded decimal digits.
pub open spec fn tag_text(n: int) -> Seq<u8> {
    let d = n % 10000;
    seq![
        65u8,
        digit_byte(d / 1000),
        digit_byte((d / 100) % 10),
        digit_byte((d / 10) % 10),
        digit_byte(d % 10),
    ]
}

/// Four decimal digits give back the number they were taken from.
proof fn lemma_digits(d: int)
    requires
        0 <= d < 10000,
    ensures
        d == (d / 1000) * 1000 + ((d / 100) % 10) * 100 + ((d / 10) % 10) * 10 + d % 10,
{
    assert(d == (d / 1000) * 1000 + ((d / 100) % 10) * 100 + ((d / 10) % 10) * 10 + d % 10) by (nonlinear_arith)
        requires
            0 <= d < 10000,
    {
        assert(d == (d / 10) * 10 + d % 10);
        assert(d / 10 == (d / 100) * 10 + (d / 10) % 10);
        assert(d / 100 == (d / 1000) * 10 + (d / 100) % 10);
    }
}

/// Tags repeat only after 10000 commands: the tags of two commands fewer
/// than 10000 apart differ.
pub proof fn lemma_tags_distinct(n: int, m: int)
    requires
        0 <= n < m < n + 10000,
    ensures
        tag_text(n) != tag_text(m),
{
    let a = n % 10000;
    let b = m % 10000;
    assert(a != b) by (nonlinear_arith)
        requires
            0 <= n < m < n + 10000,
            a == n % 10000,
            b == m % 10000,
    {
    }
    lemma_digits(a);
    lemma_digits(b);
    if tag_text(n) == tag_text(m) {
        assert(tag_text(n)[1] == tag_text(m)[1]);
        assert(tag_text(n)[2] == tag_text(m)[2]);
        assert(tag_text(n)[3] == tag_text(m)[3]);
        assert(tag_text(n)[4] == tag_text(m)[4]);
        assert(a / 1000 == b / 1000);
        assert((a / 100) % 10 == (b / 100) % 10);
        assert((a / 10) % 10 == (b / 10) % 10);
        assert(a % 10 == b % 10);
    }
}

/// Request tag generator. The `n`-th call of `next` returns `tag_text(n)`.
#[derive(Debug)]
pub struct IdGenerator {
    /// Number of tags handed out so far.
    next: u64,
}

impl IdGenerator {
    /// How many tags were handed out so far.
    pub closed spec fn issued(&self) -> nat {
        self.next as nat
    }

    /// Creates a new request tag generator.
    pub fn new() -> (r: Self)
        ensures
            r.issued() == 0,
    {
        IdGenerator { next: 0 }
    }

    /// Returns the next tag.
    pub fn next(&mut self) -> (r: Vec<u8>)
        requires
            old(self).issued() < u64::MAX,
        ensures
            final(self).issued() == old(self).issued() + 1,
            r@ == tag_text(final(self).issued() as int),
    {
        self.next = self.next + 1;
        let d = self.next % 10000;
        let mut r: Vec<u8> = Vec::new();
        r.push(65u8);
        r.push((48 + d / 1000) as u8);
        r.push((48 + (d / 100) % 10) as u8);
        r.push((48 + (d / 10) % 10) as u8);
        r.push((48 + d % 10) as u8);
        assert(r@ =~= tag_text(self.next as int));
        r
    }
}

impl Default for IdGenerator {
    fn default() -> (r: Self)
        ensures
            r.issued() == 0,
    {
        Self::new()
    }
}

} // verus!
