//! Framing of the byte stream: requests out, parsed responses in.
use vstd::prelude::*;
use crate::buffer::{grown_size, growth_for, Buffer, MAX_CAPACITY};
use crate::capabilities::{bytes_eq_ignore_ascii_case, eq_ignore_ascii_case};
use crate::error::{Error, IoErrorKind};

verus! {

/// A request: an optional tag and the command text.
#[derive(Debug, PartialEq, Eq)]
pub struct Request(pub Option<Vec<u8>>, pub Vec<u8>);

/// The line that carries a request: `tag SP payload CRLF`, or
/// `payload CRLF` without a tag.
pub open spec fn request_line(tag: Option<Seq<u8>>, payload: Seq<u8>) -> Seq<u8> {
    match tag {
        Some(t) => t + seq![32u8] + payload + seq![13u8, 10u8],
        None => payload + seq![13u8, 10u8],
    }
}

/// Sending a command whose text is `head` followed by the quoted argument
/// `arg`, and reading the line back on the server, gives the tag, the text
/// before the argument, and the argument bytes themselves.
pub proof fn lemma_request_round_trip(tag: Seq<u8>, head: Seq<u8>, arg: Seq<u8>)
    ensures
        ({
            let line = request_line(Some(tag), head + crate::text::quoted(arg));
            let start: int = (tag.len() + 1 + head.len()) as int;
            &&& line.subrange(0, tag.len() as int) == tag
            &&& line[tag.len() as int] == 32u8
            &&& line.subrange(tag.len() + 1 as int, start) == head
            &&& line.subrange(line.len() - 2, line.len() as int) == seq![13u8, 10u8]
            &&& crate::validate::unquoted(line.subrange(start, line.len() - 2)) == Some(arg)
        }),
{
    let q = crate::text::quoted(arg);
    let line = request_line(Some(tag), head + q);
    let start: int = (tag.len() + 1 + head.len()) as int;
    assert(line =~= tag + seq![32u8] + head + q + seq![13u8, 10u8]);
    assert(line.subrange(0, tag.len() as int) =~= tag);
    assert(line.subrange(tag.len() + 1 as int, start) =~= head);
    assert(line.subrange(line.len() - 2, line.len() as int) =~= seq![13u8, 10u8]);
    assert(line.subrange(start, line.len() - 2) =~= q);
    crate::validate::lemma_unquoted_quoted(arg);
}

impl Request {
    /// The bytes written to the stream for this request.
    pub fn encode(&self) -> (r: Vec<u8>)
        ensures
            r@ == request_line(
                match self.0 { Some(t) => Some(t@), None => None },
                self.1@,
            ),
    {
        let mut out: Vec<u8> = Vec::new();
        match &self.0 {
            Some(t) => {
                crate::text::push_bytes(&mut out, t.as_slice());
                out.push(32u8);
                crate::text::push_bytes(&mut out, self.1.as_slice());
                out.push(13u8);
                out.push(10u8);
                assert(out@ =~= t@ + seq![32u8] + self.1@ + seq![13u8, 10u8]);
            },
            None => {
                crate::text::push_bytes(&mut out, self.1.as_slice());
                out.push(13u8);
                out.push(10u8);
                assert(out@ =~= self.1@ + seq![13u8, 10u8]);
            },
        }
        out
    }
}

/// What the response parser made of the buffered bytes.
#[derive(Debug, Clone, Copy, PartialEq, Eq, Structural)]
pub enum ParseOutcome {
    /// A response was parsed from the first `consumed` bytes.
    Complete { consumed: usize },
    /// At least this many more bytes are needed.
    Incomplete(usize),
    /// More bytes are needed; how many is unknown.
    IncompleteUnknown,
    /// The bytes are not a response.
    Failed,
}

/// What the response parser answered for a byte string.
#[derive(Debug, Clone, Copy, PartialEq, Eq, Structural)]
pub enum FrameParse {
    /// A response was parsed; this many bytes are left after it.
    Parsed { remaining: usize },
    /// At least this many more bytes are needed.
    Incomplete(usize),
    /// More bytes are needed; how many is unknown.
    IncompleteUnknown,
    /// The bytes are not a response.
    Failed,
}

/// The parser's answer for the bytes `b`.
pub uninterp spec fn frame_parse(b: Seq<u8>) -> FrameParse;

/// The bytes of `INTERNALDATE NIL`.
pub open spec fn internaldate_nil_text() -> Seq<u8> {
    seq![73u8, 78, 84, 69, 82, 78, 65, 76, 68, 65, 84, 69, 32, 78, 73, 76]
}

/// The bytes of `METADATA ` (with its trailing space).
pub open spec fn metadata_text() -> Seq<u8> {
    seq![77u8, 69, 84, 65, 68, 65, 84, 65, 32]
}

/// Whether `INTERNALDATE NIL`, in any letter case, occurs in `b`.
pub open spec fn holds_internaldate_nil(b: Seq<u8>) -> bool {
    exists|i: int| 0 <= i && i + 16 <= b.len()
        && #[trigger] eq_ignore_ascii_case(b.subrange(i, i + 16), internaldate_nil_text())
}

/// Whether `b` starts with an untagged `METADATA` response.
pub open spec fn is_metadata_response(b: Seq<u8>) -> bool {
    &&& b.len() >= 11
    &&& b[0] == 42u8
    &&& b[1] == 32u8
    &&& eq_ignore_ascii_case(b.subrange(2, 11), metadata_text())
}

/// Whether every byte of the first line of `b` (up to its first line feed,
/// or all of `b`) is ASCII and none opens a literal (`{`).
pub open spec fn first_line_plain(b: Seq<u8>) -> bool {
    forall|j: int| 0 <= j < b.len() && (forall|k: int| 0 <= k < j ==> b[k] != 10u8)
        ==> #[trigger] b[j] < 128u8 && b[j] != 123u8
}

/// Inputs on which the response parser panics, over-approximated: it
/// unwraps the string of an `INTERNALDATE` (so `INTERNALDATE NIL` panics),
/// and it converts the mailbox, entry names and values of a `METADATA`
/// response to UTF-8 with an unwrap. Those conversions only see bytes of
/// the response's first line unless a literal is opened on it.
pub open spec fn parser_may_panic(b: Seq<u8>) -> bool {
    holds_internaldate_nil(b) || (is_metadata_response(b) && !first_line_plain(b))
}

/// What decoding the bytes `b` finds: input on which the parser could
/// panic counts as unparsable.
pub open spec fn frame_outcome(b: Seq<u8>) -> ParseOutcome {
    if parser_may_panic(b) {
        ParseOutcome::Failed
    } else {
        outcome_of(b.len(), frame_parse(b))
    }
}

/// Whether the response parser could panic on `b`.
pub fn may_panic(b: &[u8]) -> (r: bool)
    ensures
        r == parser_may_panic(b@),
{
    let nil_text: [u8; 16] = [73u8, 78, 84, 69, 82, 78, 65, 76, 68, 65, 84, 69, 32, 78, 73, 76];
    assert(nil_text@ =~= internaldate_nil_text());
    let mut i: usize = 0;
    while b.len() >= 16 && i <= b.len() - 16
        invariant
            nil_text@ == internaldate_nil_text(),
            b@.len() >= 16 ==> i <= b@.len() - 15,
            forall|k: int| 0 <= k < i && k + 16 <= b@.len()
                ==> !#[trigger] eq_ignore_ascii_case(b@.subrange(k, k + 16), internaldate_nil_text()),
        decreases b@.len() - i,
    {
        if bytes_eq_ignore_ascii_case(&b[i..i + 16], nil_text.as_slice()) {
            return true;
        }
        i = i + 1;
    }
    assert(!holds_internaldate_nil(b@)) by {
        assert forall|k: int| 0 <= k && k + 16 <= b@.len()
            implies !#[trigger] eq_ignore_ascii_case(b@.subrange(k, k + 16), internaldate_nil_text()) by {
            assert(k < i || b@.len() < 16);
        }
    }
    let meta_text: [u8; 9] = [77u8, 69, 84, 65, 68, 65, 84, 65, 32];
    assert(meta_text@ =~= metadata_text());
    if !(b.len() >= 11 && b[0] == 42u8 && b[1] == 32u8 && bytes_eq_ignore_ascii_case(&b[2..11], meta_text.as_slice())) {
        return false;
    }
    assert(is_metadata_response(b@));
    let mut j: usize = 0;
    while j < b.len()
        invariant
            0 <= j <= b@.len(),
            is_metadata_response(b@),
            !holds_internaldate_nil(b@),
            forall|k: int| 0 <= k < j ==> b@[k] != 10u8 && b@[k] < 128u8 && b@[k] != 123u8,
        decreases b@.len() - j,
    {
        let c = b[j];
        if c == 10u8 {
            assert(first_line_plain(b@)) by {
                assert forall|m: int| 0 <= m < b@.len() && (forall|k: int| 0 <= k < m ==> b@[k] != 10u8)
                    implies #[trigger] b@[m] < 128u8 && b@[m] != 123u8 by {
                    if m > j {
                        assert(b@[j as int] == 10u8);
                    }
                }
            }
            return false;
        }
        if c >= 128u8 || c == 123u8 {
            assert(!first_line_plain(b@)) by {
                assert(forall|k: int| 0 <= k < j ==> b@[k] != 10u8);
            }
            return true;
        }
        j = j + 1;
    }
    false
}

/// Relies on `imap_proto::parser::parse_response`, a function of the bytes
/// alone: the rest left after the first response, the number of bytes it
/// still needs (nom's `Needed`), or a parse error. It panics on the inputs
/// that `parser_may_panic` describes, which are left out.
#[verifier::external_body]
fn parse_frame(input: &[u8]) -> (r: FrameParse)
    requires
        !parser_may_panic(input@),
    ensures
        r == frame_parse(input@),
{
    match imap_proto::parser::parse_response(input) {
        Ok((rest, _)) => FrameParse::Parsed { remaining: rest.len() },
        Err(nom::Err::Incomplete(nom::Needed::Size(n))) => FrameParse::Incomplete(n.get()),
        Err(nom::Err::Incomplete(nom::Needed::Unknown)) => FrameParse::IncompleteUnknown,
        Err(_) => FrameParse::Failed,
    }
}

/// What the parser's answer `f` on `len` bytes means for the stream: a
/// parse that consumed nothing, or left more than it was given, is a failure.
pub open spec fn outcome_of(len: nat, f: FrameParse) -> ParseOutcome {
    match f {
        FrameParse::Parsed { remaining } => if remaining < len {
            ParseOutcome::Complete { consumed: (len - remaining) as usize }
        } else {
            ParseOutcome::Failed
        },
        FrameParse::Incomplete(n) => ParseOutcome::Incomplete(n),
        FrameParse::IncompleteUnknown => ParseOutcome::IncompleteUnknown,
        FrameParse::Failed => ParseOutcome::Failed,
    }
}

/// Interprets the parser's answer `f` on `len` bytes.
pub fn parse_outcome(len: usize, f: FrameParse) -> (r: ParseOutcome)
    ensures
        r == outcome_of(len as nat, f),
        r matches ParseOutcome::Complete { consumed } ==> 0 < consumed <= len,
{
    match f {
        FrameParse::Parsed { remaining } => if remaining < len {
            ParseOutcome::Complete { consumed: len - remaining }
        } else {
            ParseOutcome::Failed
        },
        FrameParse::Incomplete(n) => ParseOutcome::Incomplete(n),
        FrameParse::IncompleteUnknown => ParseOutcome::IncompleteUnknown,
        FrameParse::Failed => ParseOutcome::Failed,
    }
}

/// What a read from the underlying stream brought.
#[derive(Debug)]
pub enum ReadEvent {
    /// Bytes arrived and were buffered.
    Progress,
    /// The stream ended cleanly between responses.
    End,
    /// The stream ended, or could not be read.
    Failed(Error),
}

/// A byte stream with the state that frames its incoming data into responses.
#[derive(Debug)]
pub struct ImapStream<R> {
    /// The underlying stream.
    inner: R,
    /// Number of bytes the next decode needs, if known; 0 when unknown.
    decode_needs: usize,
    /// The incoming bytes not yet parsed.
    buffer: Buffer,
    /// Set once the stream ended or could no longer be parsed.
    ended: bool,
}

impl<R> ImapStream<R> {
    pub closed spec fn spec_inner(&self) -> R {
        self.inner
    }

    pub closed spec fn spec_decode_needs(&self) -> nat {
        self.decode_needs as nat
    }

    pub closed spec fn spec_buffer(&self) -> Buffer {
        self.buffer
    }

    pub closed spec fn spec_ended(&self) -> bool {
        self.ended
    }

    /// The buffered bytes not yet parsed.
    pub open spec fn pending(&self) -> Seq<u8> {
        self.spec_buffer().contents()
    }

    pub open spec fn wf(&self) -> bool {
        self.spec_buffer().wf()
    }

    /// Creates a framed stream over `inner`.
    pub fn new(inner: R) -> (r: Self)
        ensures
            r.wf(),
            r.spec_inner() == inner,
            r.pending() == Seq::<u8>::empty(),
            r.spec_decode_needs() == 0,
            !r.spec_ended(),
    {
        let buffer = Buffer::new();
        let r = ImapStream { inner, decode_needs: 0, buffer, ended: false };
        proof {
            r.spec_buffer().lemma_contents();
        }
        r
    }

    /// Gives back the underlying stream.
    pub fn into_inner(self) -> (r: R)
        ensures
            r == self.spec_inner(),
    {
        self.inner
    }

    /// Gives back the underlying stream for a TLS handshake, which is only
    /// sound when no byte of the server is buffered: bytes read before the
    /// handshake would be trusted as if they came over TLS.
    pub fn into_inner_drained(self) -> (r: Result<R, Error>)
        requires
            self.wf(),
        ensures
            self.pending().len() == 0 ==> r == Ok::<R, Error>(self.spec_inner()),
            self.pending().len() > 0 ==> r matches Err(Error::Io(IoErrorKind::Malformed)),
    {
        proof {
            self.spec_buffer().lemma_contents();
        }
        if self.buffer.used() == 0 {
            Ok(self.inner)
        } else {
            Err(Error::Io(IoErrorKind::Malformed))
        }
    }

    /// Access to the underlying stream.
    pub fn as_mut(&mut self) -> (r: &mut R)
        ensures
            *r == old(self).spec_inner(),
            final(self).spec_inner() == *final(r),
            final(self).spec_buffer() == old(self).spec_buffer(),
            final(self).spec_decode_needs() == old(self).spec_decode_needs(),
            final(self).spec_ended() == old(self).spec_ended(),
    {
        &mut self.inner
    }

    /// Whether the stream ended; every later poll yields end of stream.
    pub fn is_ended(&self) -> (r: bool)
        ensures
            r == self.spec_ended(),
    {
        self.ended
    }

    /// The bytes to hand to the parser, or `None` when fewer bytes are
    /// buffered than the last parse said it needs.
    pub fn decode_input(&self) -> (r: Option<&[u8]>)
        requires
            self.wf(),
        ensures
            r is None <==> self.spec_ended() || self.spec_buffer().spec_used() < self.spec_decode_needs(),
            r matches Some(b) ==> b@ == self.pending(),
    {
        if self.ended || self.buffer.used() < self.decode_needs {
            None
        } else {
            Some(self.buffer.data())
        }
    }

    /// What `after_parse(outcome)` does, from `old` to `new`, returning `r`.
    pub open spec fn parsed_post(old: Self, new: Self, outcome: ParseOutcome, r: Result<Option<Vec<u8>>, Error>) -> bool {
        match outcome {
            ParseOutcome::Complete { consumed } => {
                &&& r matches Ok(Some(raw)) && raw@ == old.pending().subrange(0, consumed as int)
                &&& new.pending() == old.pending().subrange(consumed as int, old.pending().len() as int)
                &&& new.spec_decode_needs() == 0
                &&& new.spec_ended() == old.spec_ended()
            },
            ParseOutcome::Incomplete(min) => {
                &&& r matches Ok(None)
                &&& new.pending() == old.pending()
                &&& new.spec_decode_needs() == if old.pending().len() + min > usize::MAX {
                    usize::MAX as int
                } else {
                    old.pending().len() + min
                }
                &&& new.spec_ended() == old.spec_ended()
            },
            ParseOutcome::IncompleteUnknown => {
                &&& r matches Ok(None)
                &&& new.pending() == old.pending()
                &&& new.spec_decode_needs() == 0
                &&& new.spec_ended() == old.spec_ended()
            },
            ParseOutcome::Failed => {
                &&& r matches Err(Error::Io(IoErrorKind::Malformed))
                &&& new.spec_ended()
                &&& new.spec_decode_needs() == 0
            },
        }
    }

    /// Acts on what the parser made of `decode_input`. A complete response
    /// hands out its bytes and leaves the rest buffered; an incomplete one
    /// records how many bytes the next attempt needs; a failure ends the stream.
    pub fn after_parse(&mut self, outcome: ParseOutcome) -> (r: Result<Option<Vec<u8>>, Error>)
        requires
            old(self).wf(),
            outcome matches ParseOutcome::Complete { consumed } ==> 0 < consumed <= old(self).pending().len(),
        ensures
            final(self).wf(),
            final(self).spec_inner() == old(self).spec_inner(),
            Self::parsed_post(*old(self), *final(self), outcome, r),
    {
        match outcome {
            ParseOutcome::Complete { consumed } => {
                proof {
                    self.buffer.lemma_contents();
                }
                let used = self.buffer.used();
                let block = self.buffer.take_block();
                let mut raw: Vec<u8> = Vec::new();
                crate::text::push_bytes(&mut raw, &block.as_slice()[0..consumed]);
                self.buffer.reset_with_data(&block.as_slice()[consumed..used]);
                self.decode_needs = 0;
                assert(raw@ =~= old(self).pending().subrange(0, consumed as int));
                assert(self.pending() =~= old(self).pending().subrange(consumed as int, old(self).pending().len() as int));
                Ok(Some(raw))
            },
            ParseOutcome::Incomplete(min) => {
                proof {
                    self.buffer.lemma_contents();
                }
                let used = self.buffer.used();
                self.decode_needs = if min > usize::MAX - used { usize::MAX } else { used + min };
                Ok(None)
            },
            ParseOutcome::IncompleteUnknown => {
                self.decode_needs = 0;
                Ok(None)
            },
            ParseOutcome::Failed => {
                self.decode_needs = 0;
                self.ended = true;
                Err(Error::Io(IoErrorKind::Malformed))
            },
        }
    }

    /// Attempts to decode one response from the buffered bytes: hands out
    /// its bytes, or `None` when more bytes are needed.
    pub fn decode(&mut self) -> (r: Result<Option<Vec<u8>>, Error>)
        requires
            old(self).wf(),
        ensures
            final(self).wf(),
            final(self).spec_inner() == old(self).spec_inner(),
            old(self).spec_ended() || old(self).spec_buffer().spec_used() < old(self).spec_decode_needs() ==> {
                &&& r matches Ok(None)
                &&& final(self).pending() == old(self).pending()
                &&& final(self).spec_decode_needs() == old(self).spec_decode_needs()
                &&& final(self).spec_ended() == old(self).spec_ended()
            },
            !(old(self).spec_ended() || old(self).spec_buffer().spec_used() < old(self).spec_decode_needs()) ==> Self::parsed_post(
                *old(self),
                *final(self),
                frame_outcome(old(self).pending()),
                r,
            ),
    {
        let outcome = match self.decode_input() {
            None => return Ok(None),
            Some(input) => if may_panic(input) {
                ParseOutcome::Failed
            } else {
                parse_outcome(input.len(), parse_frame(input))
            },
        };
        proof {
            self.spec_buffer().lemma_contents();
        }
        self.after_parse(outcome)
    }

    /// Makes room for the next read: a free tail of at least one byte and
    /// of at least the bytes the next decode still lacks. Returns how many
    /// bytes may be read.
    pub fn prepare_read(&mut self) -> (r: Result<usize, Error>)
        requires
            old(self).wf(),
        ensures
            final(self).wf(),
            final(self).spec_inner() == old(self).spec_inner(),
            final(self).pending() == old(self).pending(),
            final(self).spec_decode_needs() == old(self).spec_decode_needs(),
            final(self).spec_ended() == old(self).spec_ended(),
            final(self).spec_buffer().spec_used() == old(self).spec_buffer().spec_used(),
            ({
                let old_cap = old(self).spec_buffer().spec_capacity() as int;
                let g = growth_for(
                    old(self).spec_buffer().spec_used() as int,
                    old_cap,
                    Self::lacking(*old(self)),
                );
                &&& (r is Ok <==> g == 0 || grown_size(old_cap, g) <= MAX_CAPACITY)
                &&& (r is Ok ==> final(self).spec_buffer().spec_capacity() == if g == 0 {
                    old_cap
                } else {
                    grown_size(old_cap, g)
                })
                &&& (r is Err ==> final(self).spec_buffer().spec_capacity() == old_cap)
            }),
            r matches Ok(n) ==> n >= 1 && n == final(self).spec_buffer().spec_capacity() - final(self).spec_buffer().spec_used(),
            r matches Ok(n) ==> final(self).spec_buffer().spec_capacity() >= old(self).spec_decode_needs(),
            r matches Err(e) ==> e matches Error::Io(IoErrorKind::TooLarge),
    {
        let used = self.buffer.used();
        let lacking: usize = if self.decode_needs > used { self.decode_needs - used } else { 0 };
        match self.buffer.ensure_capacity(lacking) {
            Ok(()) => Ok(self.buffer.free_len()),
            Err(e) => Err(e),
        }
    }

    /// How many more bytes the next decode needs than are buffered.
    pub open spec fn lacking(s: Self) -> int {
        if s.spec_decode_needs() > s.spec_buffer().spec_used() {
            s.spec_decode_needs() - s.spec_buffer().spec_used()
        } else {
            0
        }
    }

    /// Takes the bytes one read brought. No bytes means the stream ended:
    /// cleanly when nothing was buffered, else with an unexpected end.
    pub fn on_read(&mut self, data: &[u8]) -> (r: ReadEvent)
        requires
            old(self).wf(),
            data@.len() <= old(self).spec_buffer().spec_capacity() - old(self).spec_buffer().spec_used(),
        ensures
            final(self).wf(),
            final(self).spec_inner() == old(self).spec_inner(),
            final(self).spec_decode_needs() == old(self).spec_decode_needs(),
            data@.len() == 0 && old(self).pending().len() > 0 ==> r matches ReadEvent::Failed(Error::Io(IoErrorKind::UnexpectedEof)),
            data@.len() == 0 && old(self).pending().len() == 0 ==> r is End,
            data@.len() == 0 ==> final(self).spec_ended() && final(self).pending() == old(self).pending(),
            data@.len() > 0 ==> r is Progress && final(self).pending() == old(self).pending() + data@
                && final(self).spec_ended() == old(self).spec_ended(),
    {
        proof {
            self.buffer.lemma_contents();
        }
        if data.len() == 0 {
            self.ended = true;
            if self.buffer.used() > 0 {
                ReadEvent::Failed(Error::Io(IoErrorKind::UnexpectedEof))
            } else {
                ReadEvent::End
            }
        } else {
            self.buffer.write_free(data);
            ReadEvent::Progress
        }
    }
}

} // verus!
