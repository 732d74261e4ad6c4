//! Command text of the ID (RFC 2971) and METADATA (RFC 5464) extensions.
use vstd::prelude::*;
use vstd::string::StringSliceAdditionalSpecFns;
use vstd::utf8::encode_utf8;
use crate::error::{Error, ValidateError};
use crate::response::Metadata;
use crate::text::{decimal, push_bytes, push_decimal, push_quoted, push_text, quoted};
use crate::validate::{validate_bytes, validated};

verus! {

/// One key-value pair of an ID list: `"key" "value"` or `"key" NIL`.
pub open spec fn id_item(key: Seq<u8>, value: Option<Seq<u8>>) -> Seq<u8> {
    quoted(key) + seq![32u8] + match value {
        Some(v) => quoted(v),
        None => seq![78u8, 73u8, 76u8],
    }
}

/// The pairs of an ID list, separated by spaces.
pub open spec fn id_list(items: Seq<(Seq<u8>, Option<Seq<u8>>)>) -> Seq<u8>
    decreases items.len(),
{
    if items.len() == 0 {
        Seq::empty()
    } else if items.len() == 1 {
        id_item(items[0].0, items[0].1)
    } else {
        id_list(items.drop_last()) + seq![32u8] + id_item(items.last().0, items.last().1)
    }
}

/// The key and value bytes of the pairs in `id`.
pub open spec fn id_pairs(id: Seq<(&str, Option<&str>)>) -> Seq<(Seq<u8>, Option<Seq<u8>>)> {
    id.map_values(|p: (&str, Option<&str>)| (p.0.spec_bytes(), match p.1 {
        Some(v) => Some(v.spec_bytes()),
        None => None,
    }))
}

/// Formats key-value pairs for the ID command, without the parentheses.
pub fn format_identification(id: &[(&str, Option<&str>)]) -> (r: Vec<u8>)
    ensures
        r@ == id_list(id_pairs(id@)),
{
    let mut out: Vec<u8> = Vec::new();
    let mut i: usize = 0;
    while i < id.len()
        invariant
            0 <= i <= id@.len(),
            out@ == id_list(id_pairs(id@.subrange(0, i as int))),
        decreases id@.len() - i,
    {
        let (k, v) = id[i];
        if i > 0 {
            out.push(32u8);
        }
        push_quoted(&mut out, k.as_bytes());
        out.push(32u8);
        match v {
            Some(x) => push_quoted(&mut out, x.as_bytes()),
            None => {
                out.push(78u8);
                out.push(73u8);
                out.push(76u8);
            },
        }
        proof {
            let before = id_pairs(id@.subrange(0, i as int));
            let after = id_pairs(id@.subrange(0, i + 1));
            assert(after.drop_last() =~= before);
            assert(after.last() == (k.spec_bytes(), match v { Some(x) => Some(x.spec_bytes()), None => None }));
            if i == 0 {
                assert(out@ =~= id_item(k.spec_bytes(), after.last().1));
            } else {
                assert(out@ =~= id_list(before) + seq![32u8] + id_item(k.spec_bytes(), after.last().1));
            }
        }
        i = i + 1;
    }
    assert(id@.subrange(0, id@.len() as int) =~= id@);
    out
}

/// The depth of a GETMETADATA request.
#[derive(Debug, Copy, Clone)]
pub enum MetadataDepth {
    /// Only the entry itself.
    Zero,
    /// The entry and its children.
    One,
    /// The entry and all its descendants.
    Inf,
}

/// The text of a depth.
pub open spec fn depth_text(d: MetadataDepth) -> Seq<u8> {
    match d {
        MetadataDepth::Zero => "0".spec_bytes(),
        MetadataDepth::One => "1".spec_bytes(),
        MetadataDepth::Inf => "infinity".spec_bytes(),
    }
}

impl MetadataDepth {
    /// The text of the depth.
    pub fn depth_str(self) -> (r: &'static str)
        ensures
            r.spec_bytes() == depth_text(self),
    {
        match self {
            MetadataDepth::Zero => "0",
            MetadataDepth::One => "1",
            MetadataDepth::Inf => "infinity",
        }
    }
}

/// The strings `items`, each quoted, separated by spaces; or the first
/// validation error.
pub open spec fn quoted_list(items: Seq<Seq<u8>>) -> Result<Seq<u8>, char>
    decreases items.len(),
{
    if items.len() == 0 {
        Ok(Seq::empty())
    } else {
        match quoted_list(items.drop_last()) {
            Err(c) => Err(c),
            Ok(head) => match validated(items.last()) {
                Err(c) => Err(c),
                Ok(q) => Ok(if items.len() == 1 { q } else { head + seq![32u8] + q }),
            },
        }
    }
}

/// Once a prefix of `items` fails validation, the whole list fails the same way.
proof fn lemma_quoted_list_err(items: Seq<Seq<u8>>, k: int)
    requires
        0 <= k <= items.len(),
        quoted_list(items.subrange(0, k)) is Err,
    ensures
        quoted_list(items) == quoted_list(items.subrange(0, k)),
    decreases items.len(),
{
    if k == items.len() {
        assert(items.subrange(0, k) =~= items);
    } else {
        assert(items.drop_last().subrange(0, k) =~= items.subrange(0, k));
        lemma_quoted_list_err(items.drop_last(), k);
    }
}

/// The bytes of the strings in `items`.
pub open spec fn strs_bytes(items: Seq<&str>) -> Seq<Seq<u8>> {
    items.map_values(|s: &str| s.spec_bytes())
}

fn push_quoted_list(out: &mut Vec<u8>, items: &[&str]) -> (r: Result<(), Error>)
    ensures
        match quoted_list(strs_bytes(items@)) {
            Ok(t) => r is Ok && final(out)@ == old(out)@ + t,
            Err(c) => r matches Err(Error::Validate(ValidateError(d))) && d == c,
        },
{
    let ghost start = out@;
    let ghost all = strs_bytes(items@);
    let mut i: usize = 0;
    while i < items.len()
        invariant
            0 <= i <= items@.len(),
            all == strs_bytes(items@),
            quoted_list(all.subrange(0, i as int)) matches Ok(t) && out@ == start + t,
        decreases items@.len() - i,
    {
        let ghost prev = all.subrange(0, i as int);
        let ghost next = all.subrange(0, i + 1);
        assert(next.drop_last() =~= prev);
        assert(next.last() == items@[i as int].spec_bytes());
        match validate_bytes(items[i].as_bytes()) {
            Ok(q) => {
                if i > 0 {
                    out.push(32u8);
                }
                push_bytes(out, q.as_slice());
            },
            Err(e) => {
                proof {
                    lemma_quoted_list_err(all, i + 1);
                }
                return Err(e);
            },
        }
        i = i + 1;
    }
    assert(all.subrange(0, items@.len() as int) =~= all);
    Ok(())
}

/// The text of `GETMETADATA (DEPTH d [MAXSIZE n]) mailbox (entries)`.
pub open spec fn getmetadata_text(mbox: Seq<u8>, entries: Seq<Seq<u8>>, depth: MetadataDepth, maxsize: Option<usize>) -> Result<Seq<u8>, char> {
    match quoted_list(entries) {
        Err(c) => Err(c),
        Ok(list) => match validated(mbox) {
            Err(c) => Err(c),
            Ok(qm) => Ok("GETMETADATA (DEPTH ".spec_bytes() + depth_text(depth)
                + match maxsize {
                    Some(n) => " MAXSIZE ".spec_bytes() + decimal(n as nat),
                    None => Seq::empty(),
                }
                + seq![41u8, 32u8] + qm + seq![32u8, 40u8] + list + seq![41u8]),
        },
    }
}

/// The GETMETADATA command: entries and mailbox quoted; a forbidden
/// character in an entry, then in the mailbox, is an error.
pub fn getmetadata_command(mbox: &str, entries: &[&str], depth: MetadataDepth, maxsize: Option<usize>) -> (r: Result<Vec<u8>, Error>)
    ensures
        crate::commands::built(r, getmetadata_text(mbox.spec_bytes(), strs_bytes(entries@), depth, maxsize)),
{
    let mut list: Vec<u8> = Vec::new();
    match push_quoted_list(&mut list, entries) {
        Ok(()) => {},
        Err(e) => return Err(e),
    }
    let qm = match validate_bytes(mbox.as_bytes()) {
        Ok(q) => q,
        Err(e) => return Err(e),
    };
    let mut out: Vec<u8> = Vec::new();
    push_text(&mut out, "GETMETADATA (DEPTH ");
    push_text(&mut out, depth.depth_str());
    let ghost size_text = match maxsize {
        Some(n) => " MAXSIZE ".spec_bytes() + decimal(n as nat),
        None => Seq::<u8>::empty(),
    };
    let ghost mid = out@;
    match maxsize {
        Some(n) => {
            push_text(&mut out, " MAXSIZE ");
            push_decimal(&mut out, n as u64);
        },
        None => {},
    }
    assert(out@ =~= mid + size_text);
    out.push(41u8);
    out.push(32u8);
    push_bytes(&mut out, qm.as_slice());
    out.push(32u8);
    out.push(40u8);
    push_bytes(&mut out, list.as_slice());
    out.push(41u8);
    assert(out@ =~= "GETMETADATA (DEPTH ".spec_bytes() + depth_text(depth) + size_text
        + seq![41u8, 32u8] + qm@ + seq![32u8, 40u8] + list@ + seq![41u8]);
    Ok(out)
}

/// One entry of SETMETADATA: `entry value`, both quoted, `NIL` for no value.
pub open spec fn metadata_item(entry: Seq<u8>, value: Option<Seq<u8>>) -> Result<Seq<u8>, char> {
    match validated(entry) {
        Err(c) => Err(c),
        Ok(qe) => match value {
            None => Ok(qe + seq![32u8, 78u8, 73u8, 76u8]),
            Some(v) => match validated(v) {
                Err(c) => Err(c),
                Ok(qv) => Ok(qe + seq![32u8] + qv),
            },
        },
    }
}

/// The bytes of an entry's value, if it has one.
pub open spec fn value_bytes(m: Metadata) -> Option<Seq<u8>> {
    match m.value {
        Some(v) => Some(encode_utf8(v@)),
        None => None,
    }
}

/// Formats one metadata entry for SETMETADATA.
pub fn format_as_cmd_list_item(metadata: &Metadata) -> (r: Result<Vec<u8>, Error>)
    ensures
        crate::commands::built(r, metadata_item(encode_utf8(metadata.entry@), value_bytes(*metadata))),
{
    let qe = match validate_bytes(metadata.entry.as_str().as_bytes()) {
        Ok(q) => q,
        Err(e) => return Err(e),
    };
    let mut out: Vec<u8> = Vec::new();
    push_bytes(&mut out, qe.as_slice());
    match &metadata.value {
        None => {
            out.push(32u8);
            out.push(78u8);
            out.push(73u8);
            out.push(76u8);
            assert(out@ =~= qe@ + seq![32u8, 78u8, 73u8, 76u8]);
        },
        Some(v) => {
            let qv = match validate_bytes(v.as_str().as_bytes()) {
                Ok(q) => q,
                Err(e) => return Err(e),
            };
            out.push(32u8);
            push_bytes(&mut out, qv.as_slice());
            assert(out@ =~= qe@ + seq![32u8] + qv@);
        },
    }
    Ok(out)
}

/// The entries of SETMETADATA, separated by spaces; or the first error.
pub open spec fn metadata_list(items: Seq<Metadata>) -> Result<Seq<u8>, char>
    decreases items.len(),
{
    if items.len() == 0 {
        Ok(Seq::empty())
    } else {
        match metadata_list(items.drop_last()) {
            Err(c) => Err(c),
            Ok(head) => match metadata_item(encode_utf8(items.last().entry@), value_bytes(items.last())) {
                Err(c) => Err(c),
                Ok(q) => Ok(if items.len() == 1 { q } else { head + seq![32u8] + q }),
            },
        }
    }
}

/// Once a prefix of `items` fails validation, the whole list fails the same way.
proof fn lemma_metadata_list_err(items: Seq<Metadata>, k: int)
    requires
        0 <= k <= items.len(),
        metadata_list(items.subrange(0, k)) is Err,
    ensures
        metadata_list(items) == metadata_list(items.subrange(0, k)),
    decreases items.len(),
{
    if k == items.len() {
        assert(items.subrange(0, k) =~= items);
    } else {
        assert(items.drop_last().subrange(0, k) =~= items.subrange(0, k));
        lemma_metadata_list_err(items.drop_last(), k);
    }
}

/// The text of `SETMETADATA mailbox (entries)`.
pub open spec fn setmetadata_text(mbox: Seq<u8>, items: Seq<Metadata>) -> Result<Seq<u8>, char> {
    match metadata_list(items) {
        Err(c) => Err(c),
        Ok(list) => match validated(mbox) {
            Err(c) => Err(c),
            Ok(qm) => Ok("SETMETADATA ".spec_bytes() + qm + seq![32u8, 40u8] + list + seq![41u8]),
        },
    }
}

/// The SETMETADATA command; a forbidden character in an entry, then in the
/// mailbox, is an error.
pub fn setmetadata_command(mbox: &str, keyval: &[Metadata]) -> (r: Result<Vec<u8>, Error>)
    ensures
        crate::commands::built(r, setmetadata_text(mbox.spec_bytes(), keyval@)),
{
    let mut list: Vec<u8> = Vec::new();
    let mut i: usize = 0;
    while i < keyval.len()
        invariant
            0 <= i <= keyval@.len(),
            metadata_list(keyval@.subrange(0, i as int)) matches Ok(t) && list@ == t,
        decreases keyval@.len() - i,
    {
        let ghost prev = keyval@.subrange(0, i as int);
        let ghost next = keyval@.subrange(0, i + 1);
        assert(next.drop_last() =~= prev);
        match format_as_cmd_list_item(&keyval[i]) {
            Ok(item) => {
                if i > 0 {
                    list.push(32u8);
                }
                push_bytes(&mut list, item.as_slice());
            },
            Err(e) => {
                proof {
                    lemma_metadata_list_err(keyval@, i + 1);
                }
                return Err(e);
            },
        }
        i = i + 1;
    }
    assert(keyval@.subrange(0, keyval@.len() as int) =~= keyval@);
    let qm = match validate_bytes(mbox.as_bytes()) {
        Ok(q) => q,
        Err(e) => return Err(e),
    };
    let mut out: Vec<u8> = Vec::new();
    push_text(&mut out, "SETMETADATA ");
    push_bytes(&mut out, qm.as_slice());
    out.push(32u8);
    out.push(40u8);
    push_bytes(&mut out, list.as_slice());
    out.push(41u8);
    assert(out@ =~= "SETMETADATA ".spec_bytes() + qm@ + seq![32u8, 40u8] + list@ + seq![41u8]);
    Ok(out)
}

} // verus!
