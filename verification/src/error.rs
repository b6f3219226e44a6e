//! The failures a catalog lookup can end in.

use vstd::prelude::*;
use vstd::string::StringExecFns;
use crate::text::decimal;
use crate::text::decimal_string;

verus! {

/// The reason phrase that the HTTP standard attaches to a status code, where
/// it attaches one.
pub uninterp spec fn canonical_reason(status: u16) -> Option<Seq<char>>;

/// `http::StatusCode::canonical_reason`, as `reqwest` re-exports it: the
/// standard reason phrase of a status code, `None` for a code without one.
/// `StatusCode::from_u16` accepts exactly the codes from 100 to 999, which is
/// all this is called with; the phrase depends on the code alone.
#[verifier::external_body]
fn reason_phrase(status: u16) -> (r: Option<&'static str>)
    requires
        100 <= status <= 999,
    ensures
        match r {
            Some(phrase) => canonical_reason(status) == Some(phrase@),
            None => canonical_reason(status).is_none(),
        },
{
    match reqwest::StatusCode::from_u16(status) {
        Ok(code) => code.canonical_reason(),
        Err(_) => None,
    }
}

/// Why a lookup failed.
#[derive(Debug, Clone, PartialEq)]
pub enum CatalogError {
    /// A request was to be made before any credential was issued.
    Unauthenticated,
    /// The identity exchange failed or its answer could not be read.
    AuthenticationFailed(String),
    /// The provider could not be reached.
    Transport(String),
    /// The provider answered with a status outside 200..=299.
    Provider { status: u16, body: String },
    /// The provider's answer did not have the expected shape.
    Decode(String),
    /// A lookup of one game by identifier found nothing.
    NotFound(u64),
}

/// What a [`CatalogError`] holds, as mathematical values.
pub enum CatalogErrorView {
    Unauthenticated,
    AuthenticationFailed(Seq<char>),
    Transport(Seq<char>),
    Provider { status: u16, body: Seq<char> },
    Decode(Seq<char>),
    NotFound(u64),
}

impl View for CatalogError {
    type V = CatalogErrorView;

    open spec fn view(&self) -> CatalogErrorView {
        match *self {
            CatalogError::Unauthenticated => CatalogErrorView::Unauthenticated,
            CatalogError::AuthenticationFailed(m) => CatalogErrorView::AuthenticationFailed(m@),
            CatalogError::Transport(m) => CatalogErrorView::Transport(m@),
            CatalogError::Provider { status, body } => CatalogErrorView::Provider {
                status,
                body: body@,
            },
            CatalogError::Decode(m) => CatalogErrorView::Decode(m@),
            CatalogError::NotFound(id) => CatalogErrorView::NotFound(id),
        }
    }
}

/// The phrase shown after a status code: the one given, or a stand-in where
/// none is given.
pub open spec fn phrase_or_unknown(phrase: Option<Seq<char>>) -> Seq<char> {
    match phrase {
        Some(phrase) => phrase,
        None => "<unknown status code>"@,
    }
}

/// A status as shown to people: the code, a space, and a phrase.
pub open spec fn status_with(status: u16, phrase: Option<Seq<char>>) -> Seq<char> {
    decimal(status as nat) + " "@ + phrase_or_unknown(phrase)
}

/// The phrase that goes with a status code: the standard reason phrase of a
/// code from 100 to 999 that has one.
pub open spec fn phrase_of(status: u16) -> Option<Seq<char>> {
    if 100 <= status <= 999 {
        canonical_reason(status)
    } else {
        None
    }
}

/// A status as shown to people: the code, a space, and its phrase.
pub open spec fn status_line(status: u16) -> Seq<char> {
    status_with(status, phrase_of(status))
}

/// The message of a provider failure: the status as shown to people, and
/// the body of the answer.
pub open spec fn provider_message_of(status_line: Seq<char>, body: Seq<char>) -> Seq<char> {
    "IGDB API error ("@ + status_line + "): "@ + body
}

/// The one-line message of a failure.
pub open spec fn message_of(e: CatalogErrorView) -> Seq<char> {
    match e {
        CatalogErrorView::Unauthenticated => "No credential has been issued"@,
        CatalogErrorView::AuthenticationFailed(m) => "Failed to authenticate with Twitch: "@ + m,
        CatalogErrorView::Transport(m) => m,
        CatalogErrorView::Provider { status, body } => provider_message_of(
            status_line(status),
            body,
        ),
        CatalogErrorView::Decode(m) => m,
        CatalogErrorView::NotFound(id) => "No game found for ID: "@ + decimal(id as nat),
    }
}

/// The text of an optional string slice.
pub open spec fn phrase_text(phrase: Option<&str>) -> Option<Seq<char>> {
    match phrase {
        Some(phrase) => Some(phrase@),
        None => None,
    }
}

/// Writes a status as shown to people, with the phrase given or a stand-in
/// for it.
pub fn status_with_phrase(status: u16, phrase: Option<&str>) -> (r: String)
    ensures
        r@ == status_with(status, phrase_text(phrase)),
{
    let mut out = decimal_string(status as u64);
    out.append(" ");
    match phrase {
        Some(phrase) => out.append(phrase),
        None => out.append("<unknown status code>"),
    }
    out
}

/// Writes a status as shown to people, with its standard reason phrase.
pub fn status_text(status: u16) -> (r: String)
    ensures
        r@ == status_line(status),
{
    let phrase = if 100 <= status && status <= 999 {
        reason_phrase(status)
    } else {
        None
    };
    status_with_phrase(status, phrase)
}

/// Writes the message of a provider failure.
pub fn provider_message(status_line: &str, body: &str) -> (r: String)
    ensures
        r@ == provider_message_of(status_line@, body@),
{
    let mut out = String::from_str("IGDB API error (");
    out.append(status_line);
    out.append("): ");
    out.append(body);
    out
}

impl CatalogError {
    /// The one-line message of this failure.
    pub fn message(&self) -> (r: String)
        ensures
            r@ == message_of(self@),
    {
        match self {
            CatalogError::Unauthenticated => String::from_str("No credential has been issued"),
            CatalogError::AuthenticationFailed(m) => {
                let mut out = String::from_str("Failed to authenticate with Twitch: ");
                out.append(m.as_str());
                out
            },
            CatalogError::Transport(m) => m.clone(),
            CatalogError::Provider { status, body } => {
                let line = status_text(*status);
                provider_message(line.as_str(), body.as_str())
            },
            CatalogError::Decode(m) => m.clone(),
            CatalogError::NotFound(id) => {
                let mut out = String::from_str("No game found for ID: ");
                let number = decimal_string(*id);
                out.append(number.as_str());
                out
            },
        }
    }
}

} // verus!
