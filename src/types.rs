//! The values that commands hand back to callers.
use vstd::prelude::*;
use chrono::{Datelike, Timelike};
use crate::response::{FetchData, Response, ResponseData, StatusAttribute};

verus! {

/// Meta-information about a mailbox, as returned by `SELECT`, `EXAMINE` and `STATUS`.
#[derive(Clone, Debug, PartialEq, Eq, Hash)]
pub struct Mailbox {
    /// Defined flags in the mailbox.
    pub flags: Vec<String>,
    /// The number of messages in the mailbox.
    pub exists: u32,
    /// The number of messages with the \Recent flag set.
    pub recent: u32,
    /// The sequence number of the first unseen message, if the server said.
    pub unseen: Option<u32>,
    /// The flags the client can change permanently.
    pub permanent_flags: Vec<String>,
    /// The next unique identifier value, if the server said.
    pub uid_next: Option<u32>,
    /// The unique identifier validity value, if the server said.
    pub uid_validity: Option<u32>,
}

impl Default for Mailbox {
    fn default() -> (r: Self)
        ensures
            r.flags@.len() == 0,
            r.exists == 0,
            r.recent == 0,
            r.unseen is None,
            r.permanent_flags@.len() == 0,
            r.uid_next is None,
            r.uid_validity is None,
    {
        Mailbox {
            flags: Vec::new(),
            exists: 0,
            recent: 0,
            unseen: None,
            permanent_flags: Vec::new(),
            uid_next: None,
            uid_validity: None,
        }
    }
}

/// A name that matches a `LIST` or `LSUB` command.
#[derive(Debug)]
pub struct Name {
    response: ResponseData,
}

impl Name {
    /// The `LIST` row this name was made from.
    pub closed spec fn spec_response(&self) -> ResponseData {
        self.response
    }

    /// The name holds a `LIST` row.
    pub open spec fn wf(&self) -> bool {
        self.spec_response().spec_parsed() is List
    }

    /// Makes a name from an untagged `LIST` or `LSUB` row.
    pub fn from_mailbox_data(resp: ResponseData) -> (r: Self)
        requires
            resp.spec_parsed() is List,
        ensures
            r.wf(),
            r.spec_response() == resp,
    {
        Name { response: resp }
    }

    /// Attributes of this name.
    pub fn attributes(&self) -> (r: &[String])
        requires
            self.wf(),
        ensures
            self.spec_response().spec_parsed() matches Response::List { attributes, .. } && r@ == attributes@,
    {
        match self.response.parsed() {
            Response::List { attributes, .. } => attributes.as_slice(),
            _ => &[],
        }
    }

    /// The hierarchy delimiter; `None` means the name is flat.
    pub fn delimiter(&self) -> (r: Option<&str>)
        requires
            self.wf(),
        ensures
            self.spec_response().spec_parsed() matches Response::List { delimiter, .. } && match delimiter {
                Some(d) => r matches Some(s) && s@ == d@,
                None => r is None,
            },
    {
        match self.response.parsed() {
            Response::List { delimiter, .. } => match delimiter {
                Some(d) => Some(d.as_str()),
                None => None,
            },
            _ => None,
        }
    }

    /// The mailbox name.
    pub fn name(&self) -> (r: &str)
        requires
            self.wf(),
        ensures
            self.spec_response().spec_parsed() matches Response::List { name, .. } && r@ == name@,
    {
        match self.response.parsed() {
            Response::List { name, .. } => name.as_str(),
            _ => "",
        }
    }

    /// The response the name was read from.
    pub fn response(&self) -> (r: &ResponseData)
        ensures
            *r == self.spec_response(),
    {
        &self.response
    }
}

/// A date and time with a fixed offset from UTC, as its fields.
#[derive(Debug, Clone, Copy, PartialEq, Eq, Hash, Structural)]
pub struct InternalDate {
    pub year: i32,
    /// 1 to 12.
    pub month: u32,
    /// 1 to 31.
    pub day: u32,
    pub hour: u32,
    pub minute: u32,
    pub second: u32,
    /// Local time minus UTC, in seconds.
    pub offset_seconds: i32,
}

/// The date and time that `text` denotes in the `strftime` format `format`,
/// or `None` where it does not match.
pub uninterp spec fn date_time_of(text: Seq<char>, format: Seq<char>) -> Option<InternalDate>;

/// Relies on `chrono::DateTime::parse_from_str`: the date, time and offset
/// that the text denotes in the format, or an error (here `None`).
#[verifier::external_body]
fn parse_date_time(text: &str, format: &str) -> (r: Option<InternalDate>)
    ensures
        r == date_time_of(text@, format@),
{
    chrono::DateTime::parse_from_str(text, format).ok().map(|d| InternalDate {
        year: d.year(),
        month: d.month(),
        day: d.day(),
        hour: d.hour(),
        minute: d.minute(),
        second: d.second(),
        offset_seconds: d.offset().local_minus_utc(),
    })
}

/// The text of the IMAP `date-time` format: `13-Apr-1983 12:09:14 +0200`.
pub open spec fn internal_date_format() -> Seq<char> {
    "%d-%b-%Y %H:%M:%S %z"@
}

/// A row of a `FETCH` or `STORE` result.
#[derive(Debug)]
pub struct Fetch {
    /// The message sequence number.
    pub message: u32,
    /// The unique identifier of the message, if it was fetched.
    pub uid: Option<u32>,
    /// The `RFC822.SIZE` of the message, if it was fetched.
    pub size: Option<u32>,
    /// The `FETCH` response the row was read from.
    pub response: ResponseData,
}

impl Fetch {
    /// The `FETCH` response the row was read from.
    pub open spec fn spec_response(&self) -> ResponseData {
        self.response
    }

    /// The data items of the row.
    pub open spec fn spec_data(&self) -> FetchData {
        self.spec_response().spec_parsed()->Fetch_0
    }

    /// The row holds a `FETCH` response whose number, UID and size it carries.
    pub open spec fn wf(&self) -> bool {
        &&& self.spec_response().spec_parsed() is Fetch
        &&& self.message == self.spec_data().message
        &&& self.uid == self.spec_data().uid
        &&& self.size == self.spec_data().size
    }

    /// Makes a row from an untagged `FETCH` response.
    pub fn new(resp: ResponseData) -> (r: Self)
        requires
            resp.spec_parsed() is Fetch,
        ensures
            r.wf(),
            r.spec_response() == resp,
    {
        let (message, uid, size) = match resp.parsed() {
            Response::Fetch(d) => (d.message, d.uid, d.size),
            _ => (0, None, None),
        };
        Fetch { message, uid, size, response: resp }
    }

    /// The flags of the message, if they were fetched.
    pub fn flags(&self) -> (r: &[String])
        requires
            self.wf(),
        ensures
            r@ == self.spec_data().flags@,
    {
        match self.response.parsed() {
            Response::Fetch(d) => d.flags.as_slice(),
            _ => &[],
        }
    }

    /// The header bytes of the message, if they were fetched.
    pub fn header(&self) -> (r: Option<&[u8]>)
        requires
            self.wf(),
        ensures
            match self.spec_data().header {
                Some(h) => r matches Some(b) && b@ == h@,
                None => r is None,
            },
    {
        match self.response.parsed() {
            Response::Fetch(d) => match &d.header {
                Some(h) => Some(h.as_slice()),
                None => None,
            },
            _ => None,
        }
    }

    /// The whole message, if it was fetched.
    pub fn body(&self) -> (r: Option<&[u8]>)
        requires
            self.wf(),
        ensures
            match self.spec_data().body {
                Some(h) => r matches Some(b) && b@ == h@,
                None => r is None,
            },
    {
        match self.response.parsed() {
            Response::Fetch(d) => match &d.body {
                Some(h) => Some(h.as_slice()),
                None => None,
            },
            _ => None,
        }
    }

    /// The text of the message without its header, if it was fetched.
    pub fn text(&self) -> (r: Option<&[u8]>)
        requires
            self.wf(),
        ensures
            match self.spec_data().text {
                Some(h) => r matches Some(b) && b@ == h@,
                None => r is None,
            },
    {
        match self.response.parsed() {
            Response::Fetch(d) => match &d.text {
                Some(h) => Some(h.as_slice()),
                None => None,
            },
            _ => None,
        }
    }

    /// The internal date of the message, if it was fetched and is a valid
    /// `date-time`.
    pub fn internal_date(&self) -> (r: Option<InternalDate>)
        requires
            self.wf(),
        ensures
            match self.spec_data().internal_date {
                Some(t) => r == date_time_of(t@, internal_date_format()),
                None => r is None,
            },
    {
        match self.response.parsed() {
            Response::Fetch(d) => match &d.internal_date {
                Some(t) => {
                    let format = "%d-%b-%Y %H:%M:%S %z";
                    proof {
                        reveal_strlit("%d-%b-%Y %H:%M:%S %z");
                    }
                    parse_date_time(t.as_str(), format)
                },
                None => None,
            },
            _ => None,
        }
    }

    /// The response the row was read from.
    pub fn response(&self) -> (r: &ResponseData)
        ensures
            *r == self.spec_response(),
    {
        &self.response
    }
}

/// A response the server sent without being asked, passed to the caller
/// through the unsolicited channel.
#[derive(Debug)]
pub enum UnsolicitedResponse {
    /// `* STATUS mailbox (...)`
    Status { mailbox: String, attributes: Vec<StatusAttribute> },
    /// `* n RECENT`
    Recent(u32),
    /// `* n EXISTS`
    Exists(u32),
    /// `* n EXPUNGE`
    Expunge(u32),
    /// `* METADATA mailbox entries`, announcing changes.
    Metadata { mailbox: String, metadata_entries: Vec<String> },
    /// Anything else.
    Other(ResponseData),
}

} // verus!
