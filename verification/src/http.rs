//! Requests as the crate hands them out, and answers as it takes them back.
//! Sending is the caller's part.

use vstd::prelude::*;
use vstd::string::StringExecFns;
use crate::error::CatalogError;
use crate::error::CatalogErrorView;

verus! {

/// One header of a request.
#[derive(Debug, Clone, PartialEq)]
pub struct Header {
    pub name: String,
    pub value: String,
}

/// A `POST` request to be sent as it stands.
#[derive(Debug, Clone, PartialEq)]
pub struct Request {
    pub url: String,
    pub headers: Vec<Header>,
    pub body: String,
}

/// What a [`Request`] holds, as mathematical values.
pub struct RequestView {
    pub url: Seq<char>,
    pub headers: Seq<(Seq<char>, Seq<char>)>,
    pub body: Seq<char>,
}

impl View for Header {
    type V = (Seq<char>, Seq<char>);

    open spec fn view(&self) -> (Seq<char>, Seq<char>) {
        (self.name@, self.value@)
    }
}

impl DeepView for Header {
    type V = (Seq<char>, Seq<char>);

    open spec fn deep_view(&self) -> (Seq<char>, Seq<char>) {
        self@
    }
}

impl View for Request {
    type V = RequestView;

    open spec fn view(&self) -> RequestView {
        RequestView { url: self.url@, headers: self.headers.deep_view(), body: self.body@ }
    }
}

/// What came of sending one request for a list of records.
#[derive(Debug, PartialEq)]
pub enum Reply<T> {
    /// No answer arrived; the text says why.
    Unreachable(String),
    /// An answer arrived.
    Answered {
        /// The HTTP status code.
        status: u16,
        /// The body as text, if it could be read.
        body: Option<String>,
        /// The records that the body decodes to, or why it does not decode.
        records: Result<Vec<T>, String>,
    },
}

/// Whether a status code reports success: 200 to 299.
pub open spec fn is_success(status: u16) -> bool {
    200 <= status < 300
}

/// The text of an error body, with a stand-in for one that could not be
/// read.
pub open spec fn body_or_unknown(body: Option<String>) -> Seq<char> {
    match body {
        Some(text) => text@,
        None => "Unknown error"@,
    }
}

/// The failure that a reply stands for, if it stands for one.
pub open spec fn failure_of<T>(reply: Reply<T>) -> Option<CatalogErrorView> {
    match reply {
        Reply::Unreachable(why) => Some(CatalogErrorView::Transport(why@)),
        Reply::Answered { status, body, records } => if !is_success(status) {
            Some(CatalogErrorView::Provider { status, body: body_or_unknown(body) })
        } else {
            match records {
                Ok(_) => None,
                Err(why) => Some(CatalogErrorView::Decode(why@)),
            }
        },
    }
}

/// The records that a successful reply carries.
pub open spec fn records_in<T>(reply: Reply<T>) -> Vec<T>
    recommends
        failure_of(reply).is_none(),
{
    reply->records->Ok_0
}

/// What a reply amounts to: the records it carries, as mathematical values,
/// or the failure it stands for.
pub open spec fn answer_of<T: DeepView>(reply: Reply<T>) -> Result<Seq<T::V>, CatalogErrorView> {
    match failure_of(reply) {
        Some(e) => Err(e),
        None => Ok(records_in(reply).deep_view()),
    }
}

/// Whether `status` reports success.
pub fn status_is_success(status: u16) -> (r: bool)
    ensures
        r == is_success(status),
{
    200 <= status && status < 300
}

/// Reads a reply: the records of a successful one, else the failure. A
/// status outside 200..=299 is a provider failure whatever the body decodes
/// to; a successful status with an undecodable body is a decode failure.
pub fn records_of<T>(reply: Reply<T>) -> (r: Result<Vec<T>, CatalogError>)
    ensures
        match r {
            Ok(records) => failure_of(reply).is_none() && records == records_in(reply),
            Err(e) => failure_of(reply) == Some(e@),
        },
{
    match reply {
        Reply::Unreachable(why) => Err(CatalogError::Transport(why)),
        Reply::Answered { status, body, records } => {
            if !status_is_success(status) {
                let text = match body {
                    Some(text) => text,
                    None => String::from_str("Unknown error"),
                };
                Err(CatalogError::Provider { status, body: text })
            } else {
                match records {
                    Ok(records) => Ok(records),
                    Err(why) => Err(CatalogError::Decode(why)),
                }
            }
        },
    }
}

} // verus!
