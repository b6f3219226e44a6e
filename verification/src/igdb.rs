//! Records of the metadata provider, as its endpoints return them, and a
//! manager that speaks to the provider under a credential given once.

use vstd::prelude::*;
use vstd::string::StringExecFns;
use crate::error::CatalogError;
use crate::error::CatalogErrorView;
use crate::http::answer_of;
use crate::http::records_in;
use crate::http::records_of;
use crate::http::Reply;
use crate::http::Request;
use crate::igdb::query::build_request;
use crate::igdb::query::game_query;
use crate::igdb::query::games_query;
use crate::igdb::query::hits_query;
use crate::igdb::query::id_list;
use crate::igdb::query::names_query;
use crate::igdb::query::names_query_text;
use crate::igdb::query::request_of;
use crate::text::decimal_string;

pub mod assembler;
pub mod credentials;
pub mod manager;
pub mod query;
pub mod refs;

verus! {

/// A game as the provider stores it: platforms and genres are references by
/// identifier, and every field but the identifier may be missing.
#[derive(Debug, Clone, PartialEq)]
pub struct Game {
    pub id: u64,
    pub name: Option<String>,
    pub platforms: Option<Vec<u64>>,
    pub first_release_date: Option<u64>,
    pub genres: Option<Vec<u64>>,
}

/// What a [`Game`] holds, as mathematical values.
pub struct GameView {
    pub id: u64,
    pub name: Option<Seq<char>>,
    pub platforms: Option<Seq<u64>>,
    pub first_release_date: Option<u64>,
    pub genres: Option<Seq<u64>>,
}

/// The text of an optional string.
pub open spec fn text_of(s: Option<String>) -> Option<Seq<char>> {
    match s {
        Some(s) => Some(s@),
        None => None,
    }
}

/// The items of an optional list of identifiers.
pub open spec fn ids_of(v: Option<Vec<u64>>) -> Option<Seq<u64>> {
    match v {
        Some(v) => Some(v@),
        None => None,
    }
}

impl View for Game {
    type V = GameView;

    open spec fn view(&self) -> GameView {
        GameView {
            id: self.id,
            name: text_of(self.name),
            platforms: ids_of(self.platforms),
            first_release_date: self.first_release_date,
            genres: ids_of(self.genres),
        }
    }
}

impl DeepView for Game {
    type V = GameView;

    open spec fn deep_view(&self) -> GameView {
        self@
    }
}

/// An identifier with the name the provider gives it, if it gives one.
pub struct NameRef {
    pub id: u64,
    pub name: Option<Seq<char>>,
}

/// A platform as the provider stores it.
#[derive(Debug, Clone, PartialEq)]
pub struct Platform {
    pub id: u64,
    pub name: Option<String>,
}

impl View for Platform {
    type V = NameRef;

    open spec fn view(&self) -> NameRef {
        NameRef { id: self.id, name: text_of(self.name) }
    }
}

impl DeepView for Platform {
    type V = NameRef;

    open spec fn deep_view(&self) -> NameRef {
        self@
    }
}

/// A genre as the provider stores it.
#[derive(Debug, Clone, PartialEq)]
pub struct Genre {
    pub id: u64,
    pub name: Option<String>,
}

impl View for Genre {
    type V = NameRef;

    open spec fn view(&self) -> NameRef {
        NameRef { id: self.id, name: text_of(self.name) }
    }
}

impl DeepView for Genre {
    type V = NameRef;

    open spec fn deep_view(&self) -> NameRef {
        self@
    }
}

/// One hit of a full-text search: it may point at a game.
#[derive(Debug, Clone, PartialEq)]
pub struct SearchItem {
    pub id: u64,
    pub game: Option<u64>,
    pub name: Option<String>,
}

/// What a [`SearchItem`] holds, as mathematical values.
pub struct SearchItemView {
    pub id: u64,
    pub game: Option<u64>,
    pub name: Option<Seq<char>>,
}

impl View for SearchItem {
    type V = SearchItemView;

    open spec fn view(&self) -> SearchItemView {
        SearchItemView { id: self.id, game: self.game, name: text_of(self.name) }
    }
}

impl DeepView for SearchItem {
    type V = SearchItemView;

    open spec fn deep_view(&self) -> SearchItemView {
        self@
    }
}

/// The games that the hits of a search point at, in the order of the hits.
/// A hit that points at no game is passed over.
pub open spec fn hit_games(hits: Seq<SearchItemView>) -> Seq<u64> {
    hits.filter(|h: SearchItemView| h.game.is_some()).map_values(
        |h: SearchItemView| h.game.unwrap(),
    )
}

/// The games that the hits of a search point at, in the order of the hits.
pub fn referenced_games(hits: &Vec<SearchItem>) -> (r: Vec<u64>)
    ensures
        r@ == hit_games(hits.deep_view()),
{
    let ghost points = |h: SearchItemView| h.game.is_some();
    let ghost target = |h: SearchItemView| h.game.unwrap();
    let mut out: Vec<u64> = Vec::new();
    let mut i: usize = 0;
    assert(hits.deep_view().take(0) =~= Seq::<SearchItemView>::empty());
    while i < hits.len()
        invariant
            i <= hits.len(),
            points == (|h: SearchItemView| h.game.is_some()),
            target == (|h: SearchItemView| h.game.unwrap()),
            out@ == hits.deep_view().take(i as int).filter(points).map_values(target),
        decreases hits.len() - i,
    {
        let ghost before = hits.deep_view().take(i as int);
        let ghost hit = hits[i as int]@;
        proof {
            assert(hits.deep_view().take(i + 1) =~= before.push(hit));
            before.lemma_filter_push(hit, points);
        }
        match hits[i].game {
            Some(id) => {
                out.push(id);
                assert(out@ =~= before.push(hit).filter(points).map_values(target));
            },
            None => {},
        }
        i = i + 1;
    }
    assert(hits.deep_view().take(hits.len() as int) =~= hits.deep_view());
    out
}

/// What the lookup of the game `id` came to: the last record of the reply,
/// `NotFound` where the reply holds none, else the reply's own failure.
pub open spec fn game_outcome(id: u64, reply: Reply<Game>) -> Result<GameView, CatalogErrorView> {
    match answer_of(reply) {
        Err(e) => Err(e),
        Ok(records) => if records.len() == 0 {
            Err(CatalogErrorView::NotFound(id))
        } else {
            Ok(records.last())
        },
    }
}

/// Reads the reply to the lookup of the game `id`.
pub fn game_from_reply(id: u64, reply: Reply<Game>) -> (r: Result<Game, CatalogError>)
    ensures
        match r {
            Ok(game) => game_outcome(id, reply) == Ok::<GameView, CatalogErrorView>(game@),
            Err(e) => game_outcome(id, reply) == Err::<GameView, CatalogErrorView>(e@),
        },
{
    let mut records = match records_of(reply) {
        Ok(records) => records,
        Err(e) => {
            return Err(e);
        },
    };
    match records.pop() {
        Some(game) => Ok(game),
        None => Err(CatalogError::NotFound(id)),
    }
}

/// A manager that speaks to the provider under a credential given once, at
/// its making.
pub struct IGDBManager {
    client_id: String,
    access_token: String,
}

impl IGDBManager {
    /// The client identifier that every request carries.
    pub closed spec fn client_id(&self) -> Seq<char> {
        self.client_id@
    }

    /// The bearer token that every request carries.
    pub closed spec fn access_token(&self) -> Seq<char> {
        self.access_token@
    }

    /// A manager for the given credential.
    pub fn new(client_id: String, access_token: String) -> (r: Self)
        ensures
            r.client_id() == client_id@,
            r.access_token() == access_token@,
    {
        IGDBManager { client_id, access_token }
    }

    /// Writes the request that carries `body` to `endpoint`.
    pub fn make_request(&self, endpoint: &str, body: String) -> (r: Request)
        ensures
            r@ == request_of(self.client_id(), self.access_token(), endpoint@, body@),
    {
        build_request(self.client_id.as_str(), self.access_token.as_str(), endpoint, body)
    }

    /// Writes a list of identifiers as a filter takes it.
    pub fn format_ids(&self, ids: &[u64]) -> (r: String)
        ensures
            r@ == id_list(ids@),
    {
        crate::igdb::query::format_ids(ids)
    }

    /// Writes the request for the names of the platforms `ids`; none where
    /// `ids` is empty.
    pub fn get_platforms_by_ids(&self, ids: &Vec<u64>) -> (r: Option<Request>)
        ensures
            ids@.len() == 0 <==> r.is_none(),
            r matches Some(request) ==> request@ == request_of(
                self.client_id(),
                self.access_token(),
                "v4/platforms"@,
                names_query(ids@),
            ),
    {
        if ids.len() == 0 {
            None
        } else {
            Some(self.make_request("v4/platforms", names_query_text(ids.as_slice())))
        }
    }

    /// Writes the request for the names of the genres `ids`; none where
    /// `ids` is empty.
    pub fn get_genres_by_ids(&self, ids: &Vec<u64>) -> (r: Option<Request>)
        ensures
            ids@.len() == 0 <==> r.is_none(),
            r matches Some(request) ==> request@ == request_of(
                self.client_id(),
                self.access_token(),
                "v4/genres"@,
                names_query(ids@),
            ),
    {
        if ids.len() == 0 {
            None
        } else {
            Some(self.make_request("v4/genres", names_query_text(ids.as_slice())))
        }
    }

    /// Writes the request for the game `id` with all its fields.
    pub fn get_game_by_id(&self, id: u64) -> (r: Request)
        ensures
            r@ == request_of(self.client_id(), self.access_token(), "v4/games"@, game_query(id)),
    {
        let mut body = String::from_str("fields *; where id = ");
        let numeral = decimal_string(id);
        body.append(numeral.as_str());
        body.append(";");
        self.make_request("v4/games", body)
    }

    /// Writes the request for every game.
    pub fn get_games(&self) -> (r: Request)
        ensures
            r@ == request_of(self.client_id(), self.access_token(), "v4/games"@, games_query()),
    {
        self.make_request(
            "v4/games",
            String::from_str("fields name,platforms,first_release_date,genres;"),
        )
    }

    /// Writes the request for the first ten hits of a full-text search for
    /// `query`.
    pub fn search_games(&self, query: String) -> (r: Request)
        ensures
            r@ == request_of(
                self.client_id(),
                self.access_token(),
                "v4/search"@,
                hits_query(query@),
            ),
    {
        let mut body = String::from_str("search \"");
        body.append(query.as_str());
        body.append("\"; fields game,name; limit 10;");
        self.make_request("v4/search", body)
    }
}

/// A search that looks up, one after another, the games that its hits
/// point at. It holds the games wanted and those found so far; the next
/// game to ask for is the first one not found yet.
pub struct GameSearch {
    wanted: Vec<u64>,
    found: Vec<Game>,
}

impl GameSearch {
    /// The games that the hits point at, in the order of the hits.
    pub closed spec fn wanted(&self) -> Seq<u64> {
        self.wanted@
    }

    /// The games found so far, in the order in which they were asked for.
    pub closed spec fn found(&self) -> Seq<GameView> {
        self.found.deep_view()
    }

    /// The game to ask for next, if one is left.
    pub open spec fn pending(&self) -> Option<u64> {
        if self.found().len() < self.wanted().len() {
            Some(self.wanted()[self.found().len() as int])
        } else {
            None
        }
    }

    /// Starts from the reply to the search: the hits' games are wanted and
    /// none is found yet. A failed search starts nothing.
    pub fn begin(hits: Reply<SearchItem>) -> (r: Result<GameSearch, CatalogError>)
        ensures
            match r {
                Ok(search) => answer_of(hits) == Ok::<Seq<SearchItemView>, CatalogErrorView>(
                    records_in(hits).deep_view(),
                ) && search.wanted() == hit_games(records_in(hits).deep_view())
                    && search.found() == Seq::<GameView>::empty(),
                Err(e) => answer_of(hits) == Err::<Seq<SearchItemView>, CatalogErrorView>(e@),
            },
    {
        match records_of(hits) {
            Ok(items) => {
                let wanted = referenced_games(&items);
                let found: Vec<Game> = Vec::new();
                assert(found.deep_view() =~= Seq::<GameView>::empty());
                Ok(GameSearch { wanted, found })
            },
            Err(e) => Err(e),
        }
    }

    /// Writes the request for the next game; none when every game wanted
    /// is found.
    pub fn next_request(&self, manager: &IGDBManager) -> (r: Option<Request>)
        ensures
            match r {
                Some(request) => self.pending().is_some() && request@ == request_of(
                    manager.client_id(),
                    manager.access_token(),
                    "v4/games"@,
                    game_query(self.pending().unwrap()),
                ),
                None => self.pending().is_none(),
            },
    {
        if self.found.len() < self.wanted.len() {
            Some(manager.get_game_by_id(self.wanted[self.found.len()]))
        } else {
            None
        }
    }

    /// Takes the reply to the request for the next game. A game found joins
    /// those found; a failure, or a reply without a game, is returned and
    /// leaves the search as it was. With no game left to ask for, the reply
    /// is passed over.
    pub fn accept(&mut self, reply: Reply<Game>) -> (r: Result<(), CatalogError>)
        ensures
            final(self).wanted() == old(self).wanted(),
            match old(self).pending() {
                None => r.is_ok() && final(self).found() == old(self).found(),
                Some(id) => match game_outcome(id, reply) {
                    Ok(game) => r.is_ok() && final(self).found() == old(self).found().push(game),
                    Err(e) => final(self).found() == old(self).found() && (r matches Err(got)
                        && got@ == e),
                },
            },
    {
        if self.found.len() < self.wanted.len() {
            let id = self.wanted[self.found.len()];
            match game_from_reply(id, reply) {
                Ok(game) => {
                    let ghost before = self.found.deep_view();
                    self.found.push(game);
                    assert(self.found.deep_view() =~= before.push(game@));
                    Ok(())
                },
                Err(e) => Err(e),
            }
        } else {
            Ok(())
        }
    }

    /// Ends the search and hands out the games found.
    pub fn finish(self) -> (r: Vec<Game>)
        ensures
            r.deep_view() == self.found(),
    {
        self.found
    }
}

} // verus!
