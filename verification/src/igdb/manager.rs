//! The catalog entries shown to callers, and the manager that looks them
//! up: it holds the credential, writes the requests and reads the replies.

use vstd::prelude::*;
use vstd::string::StringExecFns;
use crate::error::CatalogError;
use crate::error::CatalogErrorView;
use crate::http::answer_of;
use crate::http::records_of;
use crate::http::Reply;
use crate::http::Request;
use crate::http::RequestView;
use crate::igdb::assembler::assemble;
use crate::igdb::assembler::assembled;
use crate::igdb::assembler::genre_table;
use crate::igdb::assembler::name_table;
use crate::igdb::assembler::platform_table;
use crate::igdb::credentials::CredentialsView;
use crate::igdb::credentials::Timestamp;
use crate::igdb::credentials::TwitchCredentials;
use crate::igdb::query::build_request;
use crate::igdb::query::games_query;
use crate::igdb::query::lemma_each_id_written_once;
use crate::igdb::query::numerals;
use crate::igdb::query::names_query;
use crate::igdb::query::names_query_text;
use crate::igdb::query::request_of;
use crate::igdb::query::search_query;
use crate::igdb::refs::distinct;
use crate::igdb::refs::genre_refs;
use crate::igdb::refs::lemma_distinct;
use crate::igdb::refs::platform_refs;
use crate::igdb::refs::referenced_ids;
use crate::igdb::Game;
use crate::igdb::GameView;
use crate::igdb::Genre;
use crate::igdb::NameRef;
use crate::igdb::Platform;

verus! {

/// A game ready for display: identifiers are replaced by names, and missing
/// fields by empty text.
#[derive(Debug, Clone, PartialEq)]
pub struct GameData {
    pub id: u64,
    pub name: String,
    pub platforms: Vec<String>,
    pub first_release_date: String,
    pub genres: Vec<String>,
}

/// What a [`GameData`] holds, as mathematical values.
pub struct GameDataView {
    pub id: u64,
    pub name: Seq<char>,
    pub platforms: Seq<Seq<char>>,
    pub first_release_date: Seq<char>,
    pub genres: Seq<Seq<char>>,
}

impl View for GameData {
    type V = GameDataView;

    open spec fn view(&self) -> GameDataView {
        GameDataView {
            id: self.id,
            name: self.name@,
            platforms: self.platforms.deep_view(),
            first_release_date: self.first_release_date@,
            genres: self.genres.deep_view(),
        }
    }
}

impl DeepView for GameData {
    type V = GameDataView;

    open spec fn deep_view(&self) -> GameDataView {
        self@
    }
}

/// The name records that an optional reply stands for: none where no
/// request was made.
pub open spec fn names_answer<T: DeepView>(reply: Option<Reply<T>>) -> Result<
    Seq<T::V>,
    CatalogErrorView,
> {
    match reply {
        None => Ok(Seq::empty()),
        Some(reply) => answer_of(reply),
    }
}

/// The catalog of a batch of games, given what the two name lookups came
/// to. A failed lookup fails the whole catalog, the platforms' failure
/// before the genres'.
pub open spec fn catalog_of(
    games: Seq<GameView>,
    platforms: Result<Seq<NameRef>, CatalogErrorView>,
    genres: Result<Seq<NameRef>, CatalogErrorView>,
) -> Result<Seq<GameDataView>, CatalogErrorView> {
    match platforms {
        Err(e) => Err(e),
        Ok(platforms) => match genres {
            Err(e) => Err(e),
            Ok(genres) => Ok(assembled(games, name_table(platforms), name_table(genres))),
        },
    }
}

/// A catalog or a failure, as mathematical values.
pub open spec fn outcome_view(r: Result<Vec<GameData>, CatalogError>) -> Result<
    Seq<GameDataView>,
    CatalogErrorView,
> {
    match r {
        Ok(entries) => Ok(entries.deep_view()),
        Err(e) => Err(e@),
    }
}

/// Builds the catalog of a batch of games from the name records of the
/// whole batch: the two lookup tables are made once, and every game is
/// assembled from them.
pub fn games_data_from_games(
    games: &Vec<Game>,
    platforms: &Vec<Platform>,
    genres: &Vec<Genre>,
) -> (r: Vec<GameData>)
    ensures
        r.deep_view() == assembled(
            games.deep_view(),
            name_table(platforms.deep_view()),
            name_table(genres.deep_view()),
        ),
{
    let platform_map = platform_table(platforms);
    let genre_map = genre_table(genres);
    assemble(games, &platform_map, &genre_map)
}

/// The request that carries `body` to `endpoint` under the credential held,
/// or the failure to make one without a credential.
pub open spec fn authorized(
    credentials: Option<CredentialsView>,
    endpoint: Seq<char>,
    body: Seq<char>,
) -> Result<RequestView, CatalogErrorView> {
    match credentials {
        Some(c) => Ok(request_of(c.client_id, c.access_token, endpoint, body)),
        None => Err(CatalogErrorView::Unauthenticated),
    }
}

/// What it takes to learn the names of `ids` at `endpoint`: nothing for an
/// empty list, else one request that names every identifier of the list.
pub open spec fn names_lookup(
    credentials: Option<CredentialsView>,
    endpoint: Seq<char>,
    ids: Seq<u64>,
) -> Result<Option<RequestView>, CatalogErrorView> {
    if ids.len() == 0 {
        Ok(None)
    } else {
        match authorized(credentials, endpoint, names_query(ids)) {
            Ok(request) => Ok(Some(request)),
            Err(e) => Err(e),
        }
    }
}

/// A request or a failure, as mathematical values.
pub open spec fn request_view(r: Result<Request, CatalogError>) -> Result<
    RequestView,
    CatalogErrorView,
> {
    match r {
        Ok(request) => Ok(request@),
        Err(e) => Err(e@),
    }
}

/// An optional request or a failure, as mathematical values.
pub open spec fn lookup_view(r: Result<Option<Request>, CatalogError>) -> Result<
    Option<RequestView>,
    CatalogErrorView,
> {
    match r {
        Ok(Some(request)) => Ok(Some(request@)),
        Ok(None) => Ok(None),
        Err(e) => Err(e@),
    }
}

/// The two name queries of a batch: each is missing where the batch names
/// no identifier of its kind. The two do not depend on each other and may
/// be sent at the same time.
#[derive(Debug, PartialEq)]
pub struct NameQueries {
    pub platforms: Option<Request>,
    pub genres: Option<Request>,
}

/// The name queries of a batch or a failure, as mathematical values.
pub open spec fn queries_view(r: Result<NameQueries, CatalogError>) -> Result<
    (Option<RequestView>, Option<RequestView>),
    CatalogErrorView,
> {
    match r {
        Ok(q) => Ok(
            (
                match q.platforms {
                    Some(request) => Some(request@),
                    None => None,
                },
                match q.genres {
                    Some(request) => Some(request@),
                    None => None,
                },
            ),
        ),
        Err(e) => Err(e@),
    }
}

/// The name queries that a batch of games calls for: one per kind, over the
/// identifiers of the whole batch, each identifier once. A failure to make
/// the platforms' query comes before one to make the genres'.
pub open spec fn name_queries_of(
    credentials: Option<CredentialsView>,
    games: Seq<GameView>,
) -> Result<(Option<RequestView>, Option<RequestView>), CatalogErrorView> {
    match names_lookup(credentials, "v4/platforms"@, distinct(platform_refs(games))) {
        Err(e) => Err(e),
        Ok(platforms) => match names_lookup(
            credentials,
            "v4/genres"@,
            distinct(genre_refs(games)),
        ) {
            Err(e) => Err(e),
            Ok(genres) => Ok((platforms, genres)),
        },
    }
}

/// The catalog's side of the conversation with the provider. It holds the
/// current credential, writes the requests, and reads the replies; sending
/// is the caller's part.
pub struct IGDBManager {
    credentials: Option<TwitchCredentials>,
}

impl IGDBManager {
    /// The credential held, if one was issued.
    pub closed spec fn credentials(&self) -> Option<CredentialsView> {
        match self.credentials {
            Some(c) => Some(c@),
            None => None,
        }
    }

    /// A manager that holds no credential yet.
    pub fn new() -> (r: Self)
        ensures
            r.credentials().is_none(),
    {
        IGDBManager { credentials: None }
    }

    /// Takes a freshly issued credential in place of the one held, whole,
    /// and says when it lapses.
    pub fn authenticate(&mut self, credentials: TwitchCredentials) -> (expires_at: Timestamp)
        ensures
            final(self).credentials() == Some(credentials@),
            expires_at == credentials@.expires_at,
    {
        let expires_at = credentials.get_expires_at();
        self.credentials = Some(credentials);
        expires_at
    }

    /// The credential held; `Unauthenticated` where none was issued.
    pub fn current_credential(&self) -> (r: Result<&TwitchCredentials, CatalogError>)
        ensures
            match r {
                Ok(c) => self.credentials() == Some(c@),
                Err(e) => self.credentials().is_none() && e@ == CatalogErrorView::Unauthenticated,
            },
    {
        match &self.credentials {
            Some(c) => Ok(c),
            None => Err(CatalogError::Unauthenticated),
        }
    }

    /// Whether the credential held has lapsed at `now`; `None` where none
    /// was issued. Nothing in the manager acts on the answer.
    pub fn is_expired(&self, now: Timestamp) -> (r: Option<bool>)
        ensures
            r == match self.credentials() {
                Some(c) => Some(now.at_or_after(c.expires_at)),
                None => None,
            },
    {
        match &self.credentials {
            Some(c) => Some(c.is_expired(now)),
            None => None,
        }
    }

    /// Writes the request that carries `body` to `endpoint`, with the
    /// credential held attached. The body is passed on as it is.
    pub fn make_request(&self, endpoint: &str, body: String) -> (r: Result<Request, CatalogError>)
        ensures
            request_view(r) == authorized(self.credentials(), endpoint@, body@),
    {
        match &self.credentials {
            Some(c) => {
                let (client_id, access_token) = c.get_client_id_and_access_token();
                Ok(build_request(client_id.as_str(), access_token.as_str(), endpoint, body))
            },
            None => Err(CatalogError::Unauthenticated),
        }
    }

    /// Writes a list of identifiers as a filter takes it.
    pub fn format_ids(&self, ids: &[u64]) -> (r: String)
        ensures
            r@ == crate::igdb::query::id_list(ids@),
    {
        crate::igdb::query::format_ids(ids)
    }

    /// Writes the one request that asks for the names of the platforms
    /// `ids`; none where `ids` is empty.
    pub fn get_platforms_by_ids(&self, ids: &Vec<u64>) -> (r: Result<Option<Request>, CatalogError>)
        ensures
            lookup_view(r) == names_lookup(self.credentials(), "v4/platforms"@, ids@),
    {
        if ids.len() == 0 {
            return Ok(None);
        }
        match self.make_request("v4/platforms", names_query_text(ids.as_slice())) {
            Ok(request) => Ok(Some(request)),
            Err(e) => Err(e),
        }
    }

    /// Writes the one request that asks for the names of the genres `ids`;
    /// none where `ids` is empty.
    pub fn get_genres_by_ids(&self, ids: &Vec<u64>) -> (r: Result<Option<Request>, CatalogError>)
        ensures
            lookup_view(r) == names_lookup(self.credentials(), "v4/genres"@, ids@),
    {
        if ids.len() == 0 {
            return Ok(None);
        }
        match self.make_request("v4/genres", names_query_text(ids.as_slice())) {
            Ok(request) => Ok(Some(request)),
            Err(e) => Err(e),
        }
    }

    /// Writes the request for every game.
    pub fn get_games(&self) -> (r: Result<Request, CatalogError>)
        ensures
            request_view(r) == authorized(self.credentials(), "v4/games"@, games_query()),
    {
        self.make_request(
            "v4/games",
            String::from_str("fields name,platforms,first_release_date,genres;"),
        )
    }

    /// Writes the request for the games that a full-text search for `query`
    /// finds. The games are asked for directly, with the fields that a
    /// catalog entry needs.
    pub fn search_games(&self, query: String) -> (r: Result<Request, CatalogError>)
        ensures
            request_view(r) == authorized(self.credentials(), "v4/games"@, search_query(query@)),
    {
        let mut body = String::from_str("search \"");
        body.append(query.as_str());
        body.append("\"; fields name,platforms,first_release_date,genres;");
        self.make_request("v4/games", body)
    }

    /// Writes the name queries for a batch of games: at most one per kind,
    /// whatever the size of the batch.
    pub fn name_queries(&self, games: &Vec<Game>) -> (r: Result<NameQueries, CatalogError>)
        ensures
            queries_view(r) == name_queries_of(self.credentials(), games.deep_view()),
    {
        let (platform_ids, genre_ids) = referenced_ids(games);
        let platforms = match self.get_platforms_by_ids(&platform_ids) {
            Ok(request) => request,
            Err(e) => {
                return Err(e);
            },
        };
        let genres = match self.get_genres_by_ids(&genre_ids) {
            Ok(request) => request,
            Err(e) => {
                return Err(e);
            },
        };
        Ok(NameQueries { platforms, genres })
    }
}

/// The optional request, as mathematical values.
pub open spec fn asked(request: Option<Request>) -> Option<RequestView> {
    match request {
        Some(request) => Some(request@),
        None => None,
    }
}

/// How a lookup starts, from the reply to the games query: with the games
/// of the reply and the name queries they call for, or with the failure of
/// the reply or of writing the queries.
pub open spec fn lookup_begun(credentials: Option<CredentialsView>, reply: Reply<Game>) -> Result<
    (Seq<GameView>, (Option<RequestView>, Option<RequestView>)),
    CatalogErrorView,
> {
    match answer_of(reply) {
        Err(e) => Err(e),
        Ok(games) => match name_queries_of(credentials, games) {
            Err(e) => Err(e),
            Ok(queries) => Ok((games, queries)),
        },
    }
}

/// What a whole lookup comes to, from the reply to the games query and the
/// replies to the name queries: the failure with which it could not start,
/// else the catalog of the games it started with.
pub open spec fn lookup_outcome(
    credentials: Option<CredentialsView>,
    reply: Reply<Game>,
    platforms: Option<Reply<Platform>>,
    genres: Option<Reply<Genre>>,
) -> Result<Seq<GameDataView>, CatalogErrorView> {
    match lookup_begun(credentials, reply) {
        Err(e) => Err(e),
        Ok((games, _)) => catalog_of(games, names_answer(platforms), names_answer(genres)),
    }
}

/// A lookup under way: the games are in, and the name queries that they
/// call for are written. No entry is made before the replies to those
/// queries are handed to [`Lookup::finish`].
pub struct Lookup {
    games: Vec<Game>,
    queries: NameQueries,
    credentials: Ghost<Option<CredentialsView>>,
    reply: Ghost<Reply<Game>>,
}

impl Lookup {
    #[verifier::type_invariant]
    spec fn started_as_told(self) -> bool {
        lookup_begun(self.credentials@, self.reply@) == Ok::<
            (Seq<GameView>, (Option<RequestView>, Option<RequestView>)),
            CatalogErrorView,
        >((self.games.deep_view(), (asked(self.queries.platforms), asked(self.queries.genres))))
    }

    /// The games that the lookup is about.
    pub closed spec fn games(self) -> Seq<GameView> {
        self.games.deep_view()
    }

    /// The name queries written: the platforms' and the genres'.
    pub closed spec fn queries(self) -> (Option<RequestView>, Option<RequestView>) {
        (asked(self.queries.platforms), asked(self.queries.genres))
    }

    /// The credential under which the lookup started.
    pub closed spec fn credentials(self) -> Option<CredentialsView> {
        self.credentials@
    }

    /// The reply to the games query that the lookup started from.
    pub closed spec fn reply(self) -> Reply<Game> {
        self.reply@
    }

    /// Whether replies are there for exactly the queries written.
    pub open spec fn fits(
        self,
        platforms: Option<Reply<Platform>>,
        genres: Option<Reply<Genre>>,
    ) -> bool {
        platforms.is_some() == self.queries().0.is_some() && genres.is_some()
            == self.queries().1.is_some()
    }

    /// Starts a lookup from the reply to the games query: reads the games
    /// and writes the name queries for the whole batch. A failed reply, or
    /// a query that cannot be written for want of a credential, starts
    /// nothing.
    pub fn begin(manager: &IGDBManager, reply: Reply<Game>) -> (r: Result<Lookup, CatalogError>)
        ensures
            match r {
                Ok(lookup) => lookup_begun(manager.credentials(), reply) == Ok::<
                    (Seq<GameView>, (Option<RequestView>, Option<RequestView>)),
                    CatalogErrorView,
                >((lookup.games(), lookup.queries())) && lookup.credentials()
                    == manager.credentials() && lookup.reply() == reply,
                Err(e) => lookup_begun(manager.credentials(), reply) == Err::<
                    (Seq<GameView>, (Option<RequestView>, Option<RequestView>)),
                    CatalogErrorView,
                >(e@),
            },
    {
        let ghost started = reply;
        let games = match records_of(reply) {
            Ok(games) => games,
            Err(e) => {
                return Err(e);
            },
        };
        let queries = match manager.name_queries(&games) {
            Ok(queries) => queries,
            Err(e) => {
                return Err(e);
            },
        };
        Ok(
            Lookup {
                games,
                queries,
                credentials: Ghost(manager.credentials()),
                reply: Ghost(started),
            },
        )
    }

    /// The query for the platforms' names, where one was written.
    pub fn platforms_query(&self) -> (r: &Option<Request>)
        ensures
            asked(*r) == self.queries().0,
    {
        &self.queries.platforms
    }

    /// The query for the genres' names, where one was written.
    pub fn genres_query(&self) -> (r: &Option<Request>)
        ensures
            asked(*r) == self.queries().1,
    {
        &self.queries.genres
    }

    /// Whether replies are there for exactly the queries written.
    pub fn answers_fit(
        &self,
        platforms: &Option<Reply<Platform>>,
        genres: &Option<Reply<Genre>>,
    ) -> (r: bool)
        ensures
            r == self.fits(*platforms, *genres),
    {
        platforms.is_some() == self.queries.platforms.is_some() && genres.is_some()
            == self.queries.genres.is_some()
    }

    /// Finishes the lookup with the replies to the name queries: builds the
    /// lookup tables and assembles the catalog. A reply must be there for
    /// each query written, and for no other. A failed reply fails the whole
    /// lookup, the platforms' before the genres'.
    pub fn finish(self, platforms: Option<Reply<Platform>>, genres: Option<Reply<Genre>>) -> (r:
        Result<Vec<GameData>, CatalogError>)
        requires
            self.fits(platforms, genres),
        ensures
            outcome_view(r) == catalog_of(
                self.games(),
                names_answer(platforms),
                names_answer(genres),
            ),
            outcome_view(r) == lookup_outcome(
                self.credentials(),
                self.reply(),
                platforms,
                genres,
            ),
    {
        proof {
            use_type_invariant(&self);
        }
        let platform_records = match platforms {
            None => Vec::new(),
            Some(reply) => match records_of(reply) {
                Ok(records) => records,
                Err(e) => {
                    return Err(e);
                },
            },
        };
        let genre_records = match genres {
            None => Vec::new(),
            Some(reply) => match records_of(reply) {
                Ok(records) => records,
                Err(e) => {
                    return Err(e);
                },
            },
        };
        assert(names_answer(platforms) == Ok::<Seq<NameRef>, CatalogErrorView>(
            platform_records.deep_view(),
        )) by {
            if platforms.is_none() {
                assert(platform_records.deep_view() =~= Seq::<NameRef>::empty());
            }
        }
        assert(names_answer(genres) == Ok::<Seq<NameRef>, CatalogErrorView>(
            genre_records.deep_view(),
        )) by {
            if genres.is_none() {
                assert(genre_records.deep_view() =~= Seq::<NameRef>::empty());
            }
        }
        Ok(games_data_from_games(&self.games, &platform_records, &genre_records))
    }
}

/// Learning the names of no identifiers takes no request, whatever the
/// credential, and yields a table that knows no name.
pub proof fn lemma_empty_lookup_sends_nothing(
    credentials: Option<CredentialsView>,
    endpoint: Seq<char>,
)
    ensures
        names_lookup(credentials, endpoint, Seq::empty()) == Ok::<
            Option<RequestView>,
            CatalogErrorView,
        >(None),
        names_answer::<Platform>(None) == Ok::<Seq<NameRef>, CatalogErrorView>(Seq::empty()),
        names_answer::<Genre>(None) == Ok::<Seq<NameRef>, CatalogErrorView>(Seq::empty()),
        name_table(Seq::empty()) == Map::<u64, Seq<char>>::empty(),
{
}

/// With a credential, learning the names of the identifiers that a batch
/// refers to, where it refers to any, takes exactly one request. Its filter
/// lists the identifiers in the order of their first occurrence, each
/// exactly once: the list holds what `refs` holds, nothing twice, and is
/// written with one numeral per identifier, no two of them alike.
pub proof fn lemma_one_request_names_each_id_once(
    credentials: CredentialsView,
    endpoint: Seq<char>,
    refs: Seq<u64>,
)
    requires
        refs.len() > 0,
    ensures
        names_lookup(Some(credentials), endpoint, distinct(refs)) == Ok::<
            Option<RequestView>,
            CatalogErrorView,
        >(
            Some(
                request_of(
                    credentials.client_id,
                    credentials.access_token,
                    endpoint,
                    names_query(distinct(refs)),
                ),
            ),
        ),
        distinct(refs).no_duplicates(),
        forall|id: u64| distinct(refs).contains(id) <==> refs.contains(id),
        numerals(distinct(refs)).len() == distinct(refs).len(),
        numerals(distinct(refs)).no_duplicates(),
{
    lemma_distinct(refs);
    assert(refs.contains(refs[0]));
    assert(distinct(refs).contains(refs[0]));
    lemma_each_id_written_once(distinct(refs));
}

/// What a finished lookup returns depends on nothing but what the provider
/// answered: two lookups whose replies hold the same records, or stand for
/// the same failure, end alike.
pub proof fn lemma_lookup_is_repeatable(
    credentials: Option<CredentialsView>,
    first_games: Reply<Game>,
    first_platforms: Option<Reply<Platform>>,
    first_genres: Option<Reply<Genre>>,
    second_games: Reply<Game>,
    second_platforms: Option<Reply<Platform>>,
    second_genres: Option<Reply<Genre>>,
)
    requires
        answer_of(first_games) == answer_of(second_games),
        names_answer(first_platforms) == names_answer(second_platforms),
        names_answer(first_genres) == names_answer(second_genres),
    ensures
        lookup_begun(credentials, first_games) == lookup_begun(credentials, second_games),
        lookup_outcome(credentials, first_games, first_platforms, first_genres)
            == lookup_outcome(credentials, second_games, second_platforms, second_genres),
{
}

/// A batch of no games asks for no names and has an empty catalog, with or
/// without a credential; so does a lookup whose games query is answered
/// with no record.
pub proof fn lemma_empty_batch_asks_nothing(
    credentials: Option<CredentialsView>,
    games: Reply<Game>,
)
    requires
        answer_of(games) == Ok::<Seq<GameView>, CatalogErrorView>(Seq::empty()),
    ensures
        name_queries_of(credentials, Seq::empty()) == Ok::<
            (Option<RequestView>, Option<RequestView>),
            CatalogErrorView,
        >((None, None)),
        assembled(Seq::empty(), Map::empty(), Map::empty()) == Seq::<GameDataView>::empty(),
        lookup_outcome(credentials, games, None, None) == Ok::<
            Seq<GameDataView>,
            CatalogErrorView,
        >(Seq::empty()),
{
    let none = Seq::<GameView>::empty();
    assert(none.map_values(|g: GameView| crate::igdb::refs::listed(g.platforms)) =~= Seq::<
        Seq<u64>,
    >::empty());
    assert(none.map_values(|g: GameView| crate::igdb::refs::listed(g.genres)) =~= Seq::<
        Seq<u64>,
    >::empty());
    assert(platform_refs(none) =~= Seq::<u64>::empty());
    assert(genre_refs(none) =~= Seq::<u64>::empty());
    assert(assembled(none, Map::empty(), Map::empty()) =~= Seq::<GameDataView>::empty());
    assert(assembled(
        none,
        name_table(Seq::<NameRef>::empty()),
        name_table(Seq::<NameRef>::empty()),
    ) =~= Seq::<GameDataView>::empty());
}

/// A games query answered with a status outside 200..=299 fails the lookup
/// with that status and the body of the answer, whatever the body decodes
/// to and whatever the name queries would have come to: no entry is made.
pub proof fn lemma_refused_query_fails_lookup(
    credentials: Option<CredentialsView>,
    status: u16,
    body: Option<String>,
    records: Result<Vec<Game>, String>,
    platforms: Option<Reply<Platform>>,
    genres: Option<Reply<Genre>>,
)
    requires
        !crate::http::is_success(status),
    ensures
        lookup_outcome(credentials, Reply::Answered { status, body, records }, platforms, genres)
            == Err::<Seq<GameDataView>, CatalogErrorView>(
            CatalogErrorView::Provider { status, body: crate::http::body_or_unknown(body) },
        ),
{
}

} // verus!
