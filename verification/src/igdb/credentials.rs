//! The credential that the provider asks for, and the identity exchange that
//! issues it.

use vstd::prelude::*;
use vstd::string::StringExecFns;
use crate::error::CatalogError;
use crate::error::CatalogErrorView;

verus! {

/// An instant: seconds since the Unix epoch, and the nanoseconds past that
/// second.
#[derive(Debug, Clone, Copy, PartialEq, Eq, Structural)]
pub struct Timestamp {
    pub secs: u64,
    pub nanos: u32,
}

impl Timestamp {
    /// Whether `self` is `other` or later.
    pub open spec fn at_or_after(self, other: Timestamp) -> bool {
        self.secs > other.secs || (self.secs == other.secs && self.nanos >= other.nanos)
    }

    /// The instant `secs` seconds after `self`.
    pub open spec fn later_by(self, secs: u64) -> Timestamp
        recommends
            self.secs + secs <= u64::MAX,
    {
        Timestamp { secs: (self.secs + secs) as u64, nanos: self.nanos }
    }

    /// Whether `self` is `other` or later.
    pub fn is_at_or_after(&self, other: &Timestamp) -> (r: bool)
        ensures
            r == self.at_or_after(*other),
    {
        self.secs > other.secs || (self.secs == other.secs && self.nanos >= other.nanos)
    }

    /// The instant `secs` seconds after `self`.
    pub fn plus_seconds(&self, secs: u64) -> (r: Timestamp)
        requires
            self.secs + secs <= u64::MAX,
        ensures
            r == self.later_by(secs),
    {
        Timestamp { secs: self.secs + secs, nanos: self.nanos }
    }
}

/// A credential for the provider: who asks, the bearer token, and the
/// instant at which the token lapses. It is never changed after it is
/// issued, only replaced.
#[derive(Debug, Clone)]
pub struct TwitchCredentials {
    client_id: String,
    access_token: String,
    expires_at: Timestamp,
}

/// What a [`TwitchCredentials`] holds, as mathematical values.
pub struct CredentialsView {
    pub client_id: Seq<char>,
    pub access_token: Seq<char>,
    pub expires_at: Timestamp,
}

impl View for TwitchCredentials {
    type V = CredentialsView;

    closed spec fn view(&self) -> CredentialsView {
        CredentialsView {
            client_id: self.client_id@,
            access_token: self.access_token@,
            expires_at: self.expires_at,
        }
    }
}

impl TwitchCredentials {
    /// The client identifier and the bearer token.
    pub fn get_client_id_and_access_token(&self) -> (r: (String, String))
        ensures
            r.0@ == self@.client_id,
            r.1@ == self@.access_token,
    {
        (self.client_id.clone(), self.access_token.clone())
    }

    /// The instant at which the token lapses.
    pub fn get_expires_at(&self) -> (r: Timestamp)
        ensures
            r == self@.expires_at,
    {
        self.expires_at
    }

    /// Whether the token has lapsed at `now`: it has from the instant of its
    /// expiry on.
    pub fn is_expired(&self, now: Timestamp) -> (r: bool)
        ensures
            r == now.at_or_after(self@.expires_at),
    {
        now.is_at_or_after(&self.expires_at)
    }
}

/// The identity provider's answer to a successful exchange.
#[derive(Debug, Clone, PartialEq)]
pub struct TwitchTokenResponse {
    pub access_token: String,
    pub expires_in: u64,
    pub token_type: String,
}

/// What came of the identity exchange.
#[derive(Debug, PartialEq)]
pub enum TokenReply {
    /// No answer arrived; the text says why.
    Unreachable(String),
    /// An answer arrived: what it decodes to, or why it does not decode.
    Answered(Result<TwitchTokenResponse, String>),
}

/// The address of the identity exchange for one application.
pub open spec fn token_url_of(client_id: Seq<char>, client_secret: Seq<char>) -> Seq<char> {
    "https://id.twitch.tv/oauth2/token?client_id="@ + client_id + "&client_secret="@
        + client_secret + "&grant_type=client_credentials"@
}

/// The address to `POST` to, with an empty body, to exchange the
/// application's identifier and secret for a token.
pub fn token_url(client_id: &str, client_secret: &str) -> (r: String)
    ensures
        r@ == token_url_of(client_id@, client_secret@),
{
    let mut url = String::from_str("https://id.twitch.tv/oauth2/token?client_id=");
    url.append(client_id);
    url.append("&client_secret=");
    url.append(client_secret);
    url.append("&grant_type=client_credentials");
    url
}

/// What an identity exchange made at `now` yields for `client_id`.
pub open spec fn exchange_outcome(
    client_id: Seq<char>,
    reply: TokenReply,
    now: Timestamp,
) -> Result<CredentialsView, CatalogErrorView> {
    match reply {
        TokenReply::Unreachable(why) => Err(CatalogErrorView::AuthenticationFailed(why@)),
        TokenReply::Answered(Err(why)) => Err(CatalogErrorView::AuthenticationFailed(why@)),
        TokenReply::Answered(Ok(token)) => Ok(
            CredentialsView {
                client_id,
                access_token: token.access_token@,
                expires_at: now.later_by(token.expires_in),
            },
        ),
    }
}

/// Whether the expiry of the token in `reply`, counted from `now`, can be
/// written down.
pub open spec fn expiry_fits(reply: TokenReply, now: Timestamp) -> bool {
    reply matches TokenReply::Answered(Ok(token)) ==> now.secs + token.expires_in <= u64::MAX
}

/// Turns the answer of the identity exchange, received at `now`, into a
/// credential that lapses `expires_in` seconds after `now`. An exchange that
/// got no answer, or one that does not decode, is an authentication failure.
pub fn authenticate_twitch(client_id: String, reply: TokenReply, now: Timestamp) -> (r: Result<
    TwitchCredentials,
    CatalogError,
>)
    requires
        expiry_fits(reply, now),
    ensures
        match r {
            Ok(c) => exchange_outcome(client_id@, reply, now) == Ok::<
                CredentialsView,
                CatalogErrorView,
            >(c@),
            Err(e) => exchange_outcome(client_id@, reply, now) == Err::<
                CredentialsView,
                CatalogErrorView,
            >(e@),
        },
{
    match reply {
        TokenReply::Unreachable(why) => Err(CatalogError::AuthenticationFailed(why)),
        TokenReply::Answered(Err(why)) => Err(CatalogError::AuthenticationFailed(why)),
        TokenReply::Answered(Ok(token)) => Ok(
            TwitchCredentials {
                client_id,
                access_token: token.access_token,
                expires_at: now.plus_seconds(token.expires_in),
            },
        ),
    }
}

/// Whether [`authenticate_twitch`] can be called on `reply` at `now`.
pub fn expiry_is_representable(reply: &TokenReply, now: Timestamp) -> (r: bool)
    ensures
        r == expiry_fits(*reply, now),
{
    match reply {
        TokenReply::Answered(Ok(token)) => token.expires_in <= u64::MAX - now.secs,
        _ => true,
    }
}

} // verus!
