//! The client's model of a parsed server response.
use vstd::prelude::*;
use crate::capabilities::Capability;
use crate::quota::{Quota, QuotaRoot};

verus! {

/// The status word of a status response.
#[derive(Debug, Clone, Copy, PartialEq, Eq, Structural)]
pub enum Status {
    /// `OK`
    Okay,
    No,
    Bad,
    PreAuth,
    Bye,
}

/// The bracketed response code of a status response, as far as the client reads it.
#[derive(Debug, Clone)]
pub enum ResponseCode {
    /// `UIDVALIDITY n`
    UidValidity(u32),
    /// `UIDNEXT n`
    UidNext(u32),
    /// `UNSEEN n`
    Unseen(u32),
    /// `PERMANENTFLAGS (...)`
    PermanentFlags(Vec<String>),
    /// `READ-ONLY`
    ReadOnly,
    /// `READ-WRITE`
    ReadWrite,
    /// Any other code, by its text.
    Other(String),
}

/// A mailbox status item of a `STATUS` response.
#[derive(Debug, Clone, Copy, PartialEq, Eq, Structural)]
pub enum StatusAttribute {
    HighestModSeq(u64),
    Messages(u32),
    Recent(u32),
    UidNext(u32),
    UidValidity(u32),
    Unseen(u32),
}

/// The data items of an untagged `FETCH` response that the client reads.
#[derive(Debug, Clone)]
pub struct FetchData {
    /// Message sequence number.
    pub message: u32,
    /// `UID`, where present.
    pub uid: Option<u32>,
    /// `RFC822.SIZE`, where present.
    pub size: Option<u32>,
    /// `FLAGS`, as their text.
    pub flags: Vec<String>,
    /// `RFC822.HEADER` or `BODY[HEADER]` bytes.
    pub header: Option<Vec<u8>>,
    /// `RFC822` or `BODY[]` bytes.
    pub body: Option<Vec<u8>>,
    /// `RFC822.TEXT` or `BODY[TEXT]` bytes.
    pub text: Option<Vec<u8>>,
    /// `INTERNALDATE`, as the server wrote it.
    pub internal_date: Option<String>,
}

/// One metadata entry of a `METADATA` response.
#[derive(Debug, Clone)]
pub struct Metadata {
    pub entry: String,
    pub value: Option<String>,
}

/// A parsed server response.
#[derive(Debug, Clone)]
#[allow(inconsistent_fields)]
pub enum Response {
    /// Tagged completion: `tag status [code] text`.
    Done { tag: Vec<u8>, status: Status, code: Option<ResponseCode>, information: Option<String> },
    /// Untagged status response: `* status [code] text`.
    Data { status: Status, code: Option<ResponseCode>, information: Option<String> },
    /// Continuation request: `+ text`.
    Continue { code: Option<ResponseCode>, information: Option<String> },
    /// `* CAPABILITY ...`
    Capabilities(Vec<Capability>),
    /// `* n FETCH (...)`
    Fetch(FetchData),
    /// `* n EXPUNGE`
    Expunge(u32),
    /// `* n EXISTS`
    Exists(u32),
    /// `* n RECENT`
    Recent(u32),
    /// `* FLAGS (...)`
    Flags(Vec<String>),
    /// `* LIST` or `* LSUB` row.
    List { attributes: Vec<String>, delimiter: Option<String>, name: String },
    /// `* STATUS mailbox (...)`
    Status { mailbox: String, attributes: Vec<StatusAttribute> },
    /// `* SEARCH ...`
    Ids(Vec<u32>),
    /// `* QUOTA ...`
    Quota(Quota),
    /// `* QUOTAROOT ...`
    QuotaRoot(QuotaRoot),
    /// `* ID (...)` or `* ID NIL`
    Id(Option<Vec<(String, String)>>),
    /// `* METADATA` carrying values asked for.
    MetadataSolicited { mailbox: String, values: Vec<Metadata> },
    /// `* METADATA` announcing changed entries.
    MetadataUnsolicited { mailbox: String, entries: Vec<String> },
    /// Anything else.
    Other,
}

/// A parsed response together with the bytes it was parsed from. It owns
/// both, so it stays usable after the connection that read it is gone.
#[derive(Debug, Clone)]
pub struct ResponseData {
    raw: Vec<u8>,
    parsed: Response,
}

impl ResponseData {
    pub closed spec fn spec_raw(&self) -> Seq<u8> {
        self.raw@
    }

    pub closed spec fn spec_parsed(&self) -> Response {
        self.parsed
    }

    /// Pairs a parsed response with the bytes it came from.
    pub fn new(raw: Vec<u8>, parsed: Response) -> (r: Self)
        ensures
            r.spec_raw() == raw@,
            r.spec_parsed() == parsed,
    {
        ResponseData { raw, parsed }
    }

    /// Splits into the raw bytes and the parsed response.
    pub fn into_parts(self) -> (r: (Vec<u8>, Response))
        ensures
            r.0@ == self.spec_raw(),
            r.1 == self.spec_parsed(),
    {
        (self.raw, self.parsed)
    }

    /// The parsed response.
    pub fn parsed(&self) -> (r: &Response)
        ensures
            *r == self.spec_parsed(),
    {
        &self.parsed
    }

    /// The bytes the response was parsed from.
    pub fn raw(&self) -> (r: &[u8])
        ensures
            r@ == self.spec_raw(),
    {
        self.raw.as_slice()
    }

    /// The tag of a tagged completion; `None` for any other response.
    pub fn request_id(&self) -> (r: Option<&Vec<u8>>)
        ensures
            r is Some <==> self.spec_parsed() is Done,
            r matches Some(t) ==> self.spec_parsed() matches Response::Done { tag, .. } && *t == tag,
    {
        match &self.parsed {
            Response::Done { tag, .. } => Some(tag),
            _ => None,
        }
    }
}

} // verus!
