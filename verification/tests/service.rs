use playshelf::api::{ErrorResponse, GamesResponse};
use playshelf::error::{status_text, CatalogError};
use playshelf::handlers::{
    get_games_handler, search_games_handler, search_request, Body, Response, SearchQuery,
};
use playshelf::http::Reply;
use playshelf::igdb::credentials::{authenticate_twitch, Timestamp, TokenReply, TwitchTokenResponse};
use playshelf::igdb::manager::GameData;
use playshelf::igdb::{
    game_from_reply, referenced_games, Game, GameSearch, IGDBManager, SearchItem,
};

fn entry(id: u64) -> GameData {
    GameData {
        id,
        name: "Zelda".to_string(),
        platforms: Vec::new(),
        first_release_date: String::new(),
        genres: Vec::new(),
    }
}

fn record(id: u64) -> Game {
    Game { id, name: None, platforms: None, first_release_date: None, genres: None }
}

fn hit(id: u64, game: Option<u64>) -> SearchItem {
    SearchItem { id, game, name: None }
}

fn ok<T>(records: Vec<T>) -> Reply<T> {
    Reply::Answered { status: 200, body: None, records: Ok(records) }
}

#[test]
fn a_catalog_is_answered_with_200_and_its_count() {
    assert_eq!(
        get_games_handler(Ok(vec![entry(1), entry(2)])),
        Response {
            status: 200,
            body: Body::Games(GamesResponse { count: 2, games: vec![entry(1), entry(2)] }),
        }
    );
    assert_eq!(
        search_games_handler(Ok(Vec::new())),
        Response { status: 200, body: Body::Games(GamesResponse { count: 0, games: Vec::new() }) }
    );
}

#[test]
fn a_failure_is_answered_with_500_and_its_message_verbatim() {
    let failure = || CatalogError::Provider { status: 401, body: "denied".to_string() };
    let expected = || Response {
        status: 500,
        body: Body::Error(ErrorResponse {
            error: "IGDB API error (401 Unauthorized): denied".to_string(),
        }),
    };
    assert_eq!(get_games_handler(Err(failure())), expected());
    assert_eq!(search_games_handler(Err(failure())), expected());
    assert_eq!(
        get_games_handler(Err(CatalogError::Transport("refused".to_string()))),
        Response {
            status: 500,
            body: Body::Error(ErrorResponse { error: "refused".to_string() }),
        }
    );
    for failure in [
        CatalogError::Unauthenticated,
        CatalogError::AuthenticationFailed("a".to_string()),
        CatalogError::Decode("d".to_string()),
        CatalogError::NotFound(3),
    ] {
        let message = failure.message();
        assert_eq!(
            search_games_handler(Err(failure)),
            Response { status: 500, body: Body::Error(ErrorResponse { error: message }) }
        );
    }
}

#[test]
fn every_failure_has_its_message() {
    assert_eq!(CatalogError::Unauthenticated.message(), "No credential has been issued");
    assert_eq!(
        CatalogError::AuthenticationFailed("why".to_string()).message(),
        "Failed to authenticate with Twitch: why"
    );
    assert_eq!(CatalogError::Transport("why".to_string()).message(), "why");
    assert_eq!(CatalogError::Decode("why".to_string()).message(), "why");
    assert_eq!(CatalogError::NotFound(42).message(), "No game found for ID: 42");
    assert_eq!(
        CatalogError::Provider { status: 404, body: String::new() }.message(),
        "IGDB API error (404 Not Found): "
    );
}

#[test]
fn a_status_is_shown_with_its_phrase() {
    assert_eq!(status_text(200), "200 OK");
    assert_eq!(status_text(401), "401 Unauthorized");
    assert_eq!(status_text(429), "429 Too Many Requests");
    assert_eq!(status_text(500), "500 Internal Server Error");
    assert_eq!(status_text(299), "299 <unknown status code>");
    assert_eq!(status_text(999), "999 <unknown status code>");
    assert_eq!(status_text(99), "99 <unknown status code>");
    assert_eq!(status_text(1000), "1000 <unknown status code>");
    assert_eq!(status_text(0), "0 <unknown status code>");
}

#[test]
fn the_search_route_passes_its_query_on() {
    let reply = TokenReply::Answered(Ok(TwitchTokenResponse {
        access_token: "token".to_string(),
        expires_in: 1,
        token_type: "bearer".to_string(),
    }));
    let credentials =
        authenticate_twitch("client".to_string(), reply, Timestamp { secs: 0, nanos: 0 }).unwrap();
    let mut manager = playshelf::igdb::manager::IGDBManager::new();
    manager.authenticate(credentials);
    let request =
        search_request(&manager, SearchQuery { query: "a \"b\"; limit 1".to_string() }).unwrap();
    assert_eq!(
        request.body,
        "search \"a \"b\"; limit 1\"; fields name,platforms,first_release_date,genres;"
    );
    let signed_out = playshelf::igdb::manager::IGDBManager::new();
    assert_eq!(
        search_request(&signed_out, SearchQuery { query: "x".to_string() }),
        Err(CatalogError::Unauthenticated)
    );
}

#[test]
fn requests_under_a_fixed_credential() {
    let manager = IGDBManager::new("client".to_string(), "token".to_string());
    let request = manager.get_game_by_id(42);
    assert_eq!(request.url, "https://api.igdb.com/v4/games");
    assert_eq!(request.body, "fields *; where id = 42;");
    assert_eq!(request.headers[0].name, "Client-ID");
    assert_eq!(request.headers[0].value, "client");
    assert_eq!(request.headers[1].name, "Authorization");
    assert_eq!(request.headers[1].value, "Bearer token");
    let request = manager.search_games("Zelda".to_string());
    assert_eq!(request.url, "https://api.igdb.com/v4/search");
    assert_eq!(request.body, "search \"Zelda\"; fields game,name; limit 10;");
    assert_eq!(manager.get_games().body, "fields name,platforms,first_release_date,genres;");
    assert_eq!(manager.get_platforms_by_ids(&Vec::new()), None);
    assert_eq!(manager.get_genres_by_ids(&Vec::new()), None);
    assert_eq!(
        manager.get_platforms_by_ids(&vec![6, 48]).unwrap().body,
        "fields name; where id = (6,48);"
    );
    let genres = manager.get_genres_by_ids(&vec![12]).unwrap();
    assert_eq!(genres.url, "https://api.igdb.com/v4/genres");
    assert_eq!(genres.body, "fields name; where id = (12);");
}

#[test]
fn a_lookup_by_id_takes_the_last_record_or_finds_nothing() {
    assert_eq!(game_from_reply(7, ok(vec![record(1), record(7)])), Ok(record(7)));
    assert_eq!(game_from_reply(7, ok(vec![record(3)])), Ok(record(3)));
    assert_eq!(game_from_reply(7, ok(Vec::new())), Err(CatalogError::NotFound(7)));
    assert_eq!(
        game_from_reply(7, Reply::Unreachable("x".to_string())),
        Err(CatalogError::Transport("x".to_string()))
    );
    assert_eq!(
        game_from_reply(
            7,
            Reply::Answered {
                status: 404,
                body: Some("gone".to_string()),
                records: Ok(vec![record(7)])
            }
        ),
        Err(CatalogError::Provider { status: 404, body: "gone".to_string() })
    );
}

#[test]
fn hits_point_at_games_in_their_order() {
    let hits = vec![hit(1, Some(30)), hit(2, None), hit(3, Some(10)), hit(4, Some(30))];
    assert_eq!(referenced_games(&hits), vec![30, 10, 30]);
    assert!(referenced_games(&vec![hit(1, None)]).is_empty());
    assert!(referenced_games(&Vec::new()).is_empty());
}

#[test]
fn a_search_by_hits_asks_for_one_game_after_another() {
    let manager = IGDBManager::new("client".to_string(), "token".to_string());
    let mut search = GameSearch::begin(ok(vec![hit(1, Some(30)), hit(2, None), hit(3, Some(10))]))
        .ok()
        .unwrap();
    assert_eq!(search.next_request(&manager).unwrap().body, "fields *; where id = 30;");
    assert_eq!(search.accept(ok(vec![record(30)])), Ok(()));
    assert_eq!(search.next_request(&manager).unwrap().body, "fields *; where id = 10;");
    assert_eq!(search.accept(ok(vec![record(10)])), Ok(()));
    assert_eq!(search.next_request(&manager), None);
    assert_eq!(search.accept(ok(vec![record(99)])), Ok(()));
    assert_eq!(search.finish(), vec![record(30), record(10)]);
}

#[test]
fn a_search_by_hits_stops_at_the_first_failure() {
    let manager = IGDBManager::new("client".to_string(), "token".to_string());
    let mut search =
        GameSearch::begin(ok(vec![hit(1, Some(30)), hit(3, Some(10))])).ok().unwrap();
    assert_eq!(search.accept(ok(vec![record(30)])), Ok(()));
    assert_eq!(search.accept(ok(Vec::new())), Err(CatalogError::NotFound(10)));
    assert_eq!(search.next_request(&manager).unwrap().body, "fields *; where id = 10;");
    assert_eq!(search.finish(), vec![record(30)]);

    let failed = GameSearch::begin(Reply::Unreachable("down".to_string()));
    assert_eq!(failed.err(), Some(CatalogError::Transport("down".to_string())));
    let empty = GameSearch::begin(ok(Vec::new())).ok().unwrap();
    assert_eq!(empty.next_request(&manager), None);
    assert!(empty.finish().is_empty());
}

#[test]
fn the_banner_names_the_mode() {
    assert_eq!(playshelf::args::Args { dev: true }.banner(), "Running in development mode\n");
    assert_eq!(playshelf::args::Args { dev: false }.banner(), "Running in production mode\n");
}
