//! The catalog service as its clients see it: the addresses to ask, the
//! shape of what comes back, and how a client reads it.

use vstd::prelude::*;
use vstd::string::StringExecFns;
use vstd::string::StringSliceAdditionalSpecFns;
use vstd::utf8::encode_utf8;
use crate::http::is_success;
use crate::http::status_is_success;
pub use crate::igdb::manager::GameData;

verus! {

/// The body of a successful answer: the games and their number.
#[derive(Debug, Clone, PartialEq)]
pub struct GamesResponse {
    pub count: usize,
    pub games: Vec<GameData>,
}

/// The body of a failed answer: one message.
#[derive(Debug, Clone, PartialEq)]
pub struct ErrorResponse {
    pub error: String,
}

/// Whether a byte may stand in a query component as it is: letters, digits
/// and `-`, `.`, `_`, `~`.
pub open spec fn is_unreserved(b: u8) -> bool {
    (0x30 <= b <= 0x39) || (0x41 <= b <= 0x5A) || (0x61 <= b <= 0x7A) || b == 0x2D || b == 0x2E
        || b == 0x5F || b == 0x7E
}

/// The upper-case hexadecimal digit for `d`, where `d < 16`.
pub open spec fn hex_digit(d: u8) -> char {
    "0123456789ABCDEF"@[d as int]
}

/// One byte as it stands in a query component: itself where it is
/// unreserved, else `%` and its two hexadecimal digits.
pub open spec fn escaped_byte(b: u8) -> Seq<char> {
    if is_unreserved(b) {
        seq![b as char]
    } else {
        seq!['%', hex_digit(b / 16), hex_digit(b % 16)]
    }
}

/// A byte string as it stands in a query component.
pub open spec fn percent_encoded(bytes: Seq<u8>) -> Seq<char> {
    bytes.map_values(|b: u8| escaped_byte(b)).flatten()
}

/// `urlencoding::encode`: the UTF-8 bytes of `data`, each kept where it is
/// a letter, a digit or one of `-`, `.`, `_`, `~`, and else written as `%`
/// with two upper-case hexadecimal digits.
#[verifier::external_body]
fn encode(data: &str) -> (r: String)
    ensures
        r@ == percent_encoded(data.spec_bytes()),
{
    urlencoding::encode(data).into_owned()
}

/// The address that lists every game.
pub open spec fn games_address() -> Seq<char> {
    "http://localhost:8081"@ + "/games"@
}

/// The address that searches for `query`: the UTF-8 bytes of the query
/// travel percent-encoded.
pub open spec fn search_address(query: Seq<char>) -> Seq<char> {
    "http://localhost:8081"@ + "/games/search?query="@ + percent_encoded(encode_utf8(query))
}

/// The address to `GET` for the list of every game.
pub fn games_url() -> (r: String)
    ensures
        r@ == games_address(),
{
    let mut url = String::from_str("http://localhost:8081");
    url.append("/games");
    url
}

/// The address to `GET` for a search: the query travels percent-encoded.
pub fn search_url(query: &str) -> (r: String)
    ensures
        r@ == search_address(query@),
{
    let mut url = String::from_str("http://localhost:8081");
    url.append("/games/search?query=");
    let component = encode(query);
    url.append(component.as_str());
    url
}

/// What came of asking the service.
#[derive(Debug, PartialEq)]
pub enum ServerReply {
    /// No answer arrived; the text says why.
    Unreachable(String),
    /// An answer arrived.
    Answered {
        /// The HTTP status code.
        status: u16,
        /// The body read as a list of games, or why it cannot be read so.
        games: Result<GamesResponse, String>,
        /// The body read as a failure, if it can be read so.
        error: Option<ErrorResponse>,
    },
}

/// The message of a failed answer, with a stand-in for a body that is no
/// failure message.
pub open spec fn error_or_unknown(error: Option<ErrorResponse>) -> Seq<char> {
    match error {
        Some(e) => e.error@,
        None => "Unknown error"@,
    }
}

/// The message with which reading `reply` fails, if it fails; `unreachable`
/// introduces the reason of a reply that never arrived.
pub open spec fn failure_text(reply: ServerReply, unreachable: Seq<char>) -> Option<Seq<char>> {
    match reply {
        ServerReply::Unreachable(why) => Some(unreachable + why@),
        ServerReply::Answered { status, games, error } => if is_success(status) {
            match games {
                Ok(_) => None,
                Err(why) => Some("Failed to parse response: "@ + why@),
            }
        } else {
            Some(error_or_unknown(error))
        },
    }
}

/// The games of a reply that reading does not fail on.
pub open spec fn games_in(reply: ServerReply) -> Vec<GameData>
    recommends
        failure_text(reply, Seq::empty()).is_none(),
{
    reply->games->Ok_0.games
}

fn read_reply(reply: ServerReply, unreachable: &str) -> (r: Result<Vec<GameData>, String>)
    ensures
        match r {
            Ok(games) => failure_text(reply, unreachable@).is_none() && games == games_in(reply),
            Err(message) => failure_text(reply, unreachable@) == Some(message@),
        },
{
    match reply {
        ServerReply::Unreachable(why) => {
            let mut message = String::from_str(unreachable);
            message.append(why.as_str());
            Err(message)
        },
        ServerReply::Answered { status, games, error } => {
            if status_is_success(status) {
                match games {
                    Ok(response) => Ok(response.games),
                    Err(why) => {
                        let mut message = String::from_str("Failed to parse response: ");
                        message.append(why.as_str());
                        Err(message)
                    },
                }
            } else {
                match error {
                    Some(e) => Err(e.error),
                    None => Err(String::from_str("Unknown error")),
                }
            }
        },
    }
}

/// Reads the answer to a request for every game: the games of a successful
/// answer, else one message.
pub fn fetch_games(reply: ServerReply) -> (r: Result<Vec<GameData>, String>)
    ensures
        match r {
            Ok(games) => failure_text(reply, "Failed to fetch games: "@).is_none() && games
                == games_in(reply),
            Err(message) => failure_text(reply, "Failed to fetch games: "@) == Some(message@),
        },
{
    read_reply(reply, "Failed to fetch games: ")
}

/// Reads the answer to a search: the games of a successful answer, else one
/// message.
pub fn search_games(reply: ServerReply) -> (r: Result<Vec<GameData>, String>)
    ensures
        match r {
            Ok(games) => failure_text(reply, "Failed to search games: "@).is_none() && games
                == games_in(reply),
            Err(message) => failure_text(reply, "Failed to search games: "@) == Some(message@),
        },
{
    read_reply(reply, "Failed to search games: ")
}

/// What a client asks for.
#[derive(Debug, Clone, PartialEq)]
pub enum Query {
    /// Every game.
    Everything,
    /// The games that a search for the text finds.
    Matching(String),
}

/// What the text of a search box asks for: every game where the box is
/// empty, else a search for the text.
pub open spec fn asked_by(text: Seq<char>) -> Option<Seq<char>> {
    if text.len() == 0 {
        None
    } else {
        Some(text)
    }
}

impl Query {
    /// The text searched for, if this is a search.
    pub open spec fn text(self) -> Option<Seq<char>> {
        match self {
            Query::Everything => None,
            Query::Matching(text) => Some(text@),
        }
    }

    /// What the text of a search box asks for.
    pub fn from_text(text: String) -> (r: Query)
        ensures
            r.text() == asked_by(text@),
            r matches Query::Matching(kept) ==> kept == text,
    {
        if text.as_str().is_empty() {
            Query::Everything
        } else {
            Query::Matching(text)
        }
    }

    /// The address to `GET` for this query.
    pub fn url(&self) -> (r: String)
        ensures
            r@ == match self.text() {
                None => games_address(),
                Some(text) => search_address(text),
            },
    {
        match self {
            Query::Everything => games_url(),
            Query::Matching(text) => search_url(text.as_str()),
        }
    }

    /// The words that introduce the reason of a reply that never arrived.
    pub open spec fn unreachable_prefix(self) -> Seq<char> {
        match self {
            Query::Everything => "Failed to fetch games: "@,
            Query::Matching(_) => "Failed to search games: "@,
        }
    }

    /// Reads the answer to this query: the games of a successful answer,
    /// else one message.
    pub fn read(&self, reply: ServerReply) -> (r: Result<Vec<GameData>, String>)
        ensures
            match r {
                Ok(games) => failure_text(reply, self.unreachable_prefix()).is_none() && games
                    == games_in(reply),
                Err(message) => failure_text(reply, self.unreachable_prefix()) == Some(message@),
            },
    {
        match self {
            Query::Everything => fetch_games(reply),
            Query::Matching(_) => search_games(reply),
        }
    }
}

} // verus!
