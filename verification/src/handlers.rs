//! The two routes of the catalog service: what each asks of the provider,
//! and the answer it gives for what came back.

use vstd::prelude::*;
use crate::api::ErrorResponse;
use crate::api::GamesResponse;
use crate::error::message_of;
use crate::error::CatalogError;
use crate::http::Request;
use crate::igdb::manager::authorized;
use crate::igdb::manager::request_view;
use crate::igdb::manager::GameData;
use crate::igdb::manager::IGDBManager;
use crate::igdb::query::search_query;

verus! {

/// The parameters of the search route.
#[derive(Debug, Clone, PartialEq)]
pub struct SearchQuery {
    pub query: String,
}

/// The body of an answer.
#[derive(Debug, Clone, PartialEq)]
pub enum Body {
    Games(GamesResponse),
    Error(ErrorResponse),
}

/// An answer of the service: a status code and a body.
#[derive(Debug, Clone, PartialEq)]
pub struct Response {
    pub status: u16,
    pub body: Body,
}

/// Whether `response` is the answer owed for `outcome`: status 200 with the
/// games and their number, or status 500 with the failure's message, as it
/// stands and with nothing added.
pub open spec fn answers(response: Response, outcome: Result<Vec<GameData>, CatalogError>) -> bool {
    match outcome {
        Ok(games) => response.status == 200 && response.body == Body::Games(
            GamesResponse { count: games.len(), games },
        ),
        Err(e) => response.status == 500 && (response.body matches Body::Error(body)
            && body.error@ == message_of(e@)),
    }
}

fn respond(outcome: Result<Vec<GameData>, CatalogError>) -> (r: Response)
    ensures
        answers(r, outcome),
{
    match outcome {
        Ok(games) => Response {
            status: 200,
            body: Body::Games(GamesResponse { count: games.len(), games }),
        },
        Err(e) => Response {
            status: 500,
            body: Body::Error(ErrorResponse { error: e.message() }),
        },
    }
}

/// The answer of the route that lists every game, for what the lookup came
/// to.
pub fn get_games_handler(outcome: Result<Vec<GameData>, CatalogError>) -> (r: Response)
    ensures
        answers(r, outcome),
{
    respond(outcome)
}

/// The answer of the search route, for what the lookup came to.
pub fn search_games_handler(outcome: Result<Vec<GameData>, CatalogError>) -> (r: Response)
    ensures
        answers(r, outcome),
{
    respond(outcome)
}

/// The request with which the search route starts its lookup: the query
/// string goes into the search as it came.
pub fn search_request(manager: &IGDBManager, params: SearchQuery) -> (r: Result<
    Request,
    CatalogError,
>)
    ensures
        request_view(r) == authorized(
            manager.credentials(),
            "v4/games"@,
            search_query(params.query@),
        ),
{
    manager.search_games(params.query)
}

} // verus!
