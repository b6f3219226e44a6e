use playshelf::error::CatalogError;
use playshelf::http::{records_of, status_is_success, Reply, Request};
use playshelf::igdb::credentials::{authenticate_twitch, Timestamp, TokenReply, TwitchTokenResponse};
use playshelf::igdb::assembler::{
    assemble, game_data_from_game_with_maps, genre_table, platform_table, resolve_names,
};
use playshelf::igdb::manager::{games_data_from_games, GameData, IGDBManager, Lookup};
use playshelf::igdb::refs::referenced_ids;
use playshelf::igdb::{Game, Genre, Platform};
use std::collections::HashMap;

fn signed_in() -> IGDBManager {
    let reply = TokenReply::Answered(Ok(TwitchTokenResponse {
        access_token: "token".to_string(),
        expires_in: 3600,
        token_type: "bearer".to_string(),
    }));
    let now = Timestamp { secs: 1_700_000_000, nanos: 0 };
    let credentials = authenticate_twitch("client".to_string(), reply, now).unwrap();
    let mut manager = IGDBManager::new();
    manager.authenticate(credentials);
    manager
}

fn zelda() -> Game {
    Game {
        id: 1,
        name: Some("Zelda".to_string()),
        platforms: Some(vec![10, 20]),
        first_release_date: Some(1488499200),
        genres: Some(vec![5]),
    }
}

fn bare(id: u64) -> Game {
    Game { id, name: None, platforms: None, first_release_date: None, genres: None }
}

fn names(pairs: &[(u64, &str)]) -> HashMap<u64, String> {
    pairs.iter().map(|(id, name)| (*id, name.to_string())).collect()
}

fn ok<T>(records: Vec<T>) -> Reply<T> {
    Reply::Answered { status: 200, body: Some("[]".to_string()), records: Ok(records) }
}

fn header<'a>(request: &'a Request, name: &str) -> &'a str {
    let found: Vec<&str> = request
        .headers
        .iter()
        .filter(|h| h.name == name)
        .map(|h| h.value.as_str())
        .collect();
    assert_eq!(found.len(), 1);
    found[0]
}

#[test]
fn scenario_a_unresolved_platform_is_dropped() {
    let platform_names = names(&[(10, "Switch")]);
    let genre_names = names(&[(5, "Action")]);
    let entries = assemble(&vec![zelda()], &platform_names, &genre_names);
    assert_eq!(
        entries,
        vec![GameData {
            id: 1,
            name: "Zelda".to_string(),
            platforms: vec!["Switch".to_string()],
            first_release_date: "1488499200".to_string(),
            genres: vec!["Action".to_string()],
        }]
    );
}

#[test]
fn scenario_b_no_games_no_entries_no_queries() {
    let manager = signed_in();
    let games: Vec<Game> = Vec::new();
    let queries = manager.name_queries(&games).unwrap();
    assert_eq!(queries.platforms, None);
    assert_eq!(queries.genres, None);
    let entries = assemble(&games, &HashMap::new(), &HashMap::new());
    assert!(entries.is_empty());
    assert!(games_data_from_games(&games, &Vec::new(), &Vec::new()).is_empty());
    let lookup = Lookup::begin(&manager, ok(Vec::new())).ok().unwrap();
    assert_eq!(lookup.platforms_query(), &None);
    assert_eq!(lookup.genres_query(), &None);
    assert_eq!(lookup.finish(None, None), Ok(Vec::new()));
}

#[test]
fn scenario_c_search_without_matches_is_an_empty_catalog() {
    let manager = signed_in();
    let request = manager.search_games("Zelda".to_string()).unwrap();
    assert_eq!(request.url, "https://api.igdb.com/v4/games");
    assert_eq!(
        request.body,
        "search \"Zelda\"; fields name,platforms,first_release_date,genres;"
    );
    let lookup = Lookup::begin(&manager, ok::<Game>(Vec::new())).ok().unwrap();
    assert_eq!(lookup.platforms_query(), &None);
    assert_eq!(lookup.genres_query(), &None);
    assert!(lookup.answers_fit(&None, &None));
    assert_eq!(lookup.finish(None, None), Ok(Vec::new()));
}

#[test]
fn status_401_is_a_provider_error_and_yields_no_entry() {
    let reply: Reply<Game> = Reply::Answered {
        status: 401,
        body: Some("{\"message\":\"invalid token\"}".to_string()),
        records: Ok(vec![zelda()]),
    };
    let outcome = records_of(reply);
    assert_eq!(
        outcome,
        Err(CatalogError::Provider {
            status: 401,
            body: "{\"message\":\"invalid token\"}".to_string()
        })
    );
    assert_eq!(
        outcome.unwrap_err().message(),
        "IGDB API error (401 Unauthorized): {\"message\":\"invalid token\"}"
    );
}

#[test]
fn a_failed_name_lookup_fails_the_whole_catalog() {
    let manager = signed_in();
    let lookup = Lookup::begin(&manager, ok(vec![zelda()])).ok().unwrap();
    let denied: Reply<Platform> =
        Reply::Answered { status: 401, body: Some("no".to_string()), records: Ok(Vec::new()) };
    let genres = ok(vec![Genre { id: 5, name: Some("Action".to_string()) }]);
    assert_eq!(
        lookup.finish(Some(denied), Some(genres)),
        Err(CatalogError::Provider { status: 401, body: "no".to_string() })
    );
    let lookup = Lookup::begin(&manager, ok(vec![zelda()])).ok().unwrap();
    let platforms = ok(vec![Platform { id: 10, name: Some("Switch".to_string()) }]);
    let lost: Reply<Genre> = Reply::Unreachable("connection refused".to_string());
    assert_eq!(
        lookup.finish(Some(platforms), Some(lost)),
        Err(CatalogError::Transport("connection refused".to_string()))
    );
}

#[test]
fn the_platforms_failure_comes_before_the_genres() {
    let lookup = Lookup::begin(&signed_in(), ok(vec![zelda()])).ok().unwrap();
    let platforms: Reply<Platform> = Reply::Unreachable("first".to_string());
    let genres: Reply<Genre> = Reply::Unreachable("second".to_string());
    assert_eq!(
        lookup.finish(Some(platforms), Some(genres)),
        Err(CatalogError::Transport("first".to_string()))
    );
}

#[test]
fn reading_a_reply_covers_every_case() {
    let lost: Reply<Game> = Reply::Unreachable("timed out".to_string());
    assert_eq!(records_of(lost), Err(CatalogError::Transport("timed out".to_string())));

    let unreadable: Reply<Game> = Reply::Answered { status: 500, body: None, records: Ok(vec![]) };
    assert_eq!(
        records_of(unreadable),
        Err(CatalogError::Provider { status: 500, body: "Unknown error".to_string() })
    );

    let malformed: Reply<Game> = Reply::Answered {
        status: 200,
        body: Some("{}".to_string()),
        records: Err("invalid type: map, expected a sequence".to_string()),
    };
    assert_eq!(
        records_of(malformed),
        Err(CatalogError::Decode("invalid type: map, expected a sequence".to_string()))
    );

    let redirect: Reply<Game> =
        Reply::Answered { status: 302, body: Some("moved".to_string()), records: Ok(vec![]) };
    assert_eq!(
        records_of(redirect),
        Err(CatalogError::Provider { status: 302, body: "moved".to_string() })
    );

    assert_eq!(records_of(ok(vec![zelda(), bare(2)])), Ok(vec![zelda(), bare(2)]));
}

#[test]
fn success_is_200_to_299() {
    assert!(!status_is_success(199));
    assert!(status_is_success(200));
    assert!(status_is_success(204));
    assert!(status_is_success(299));
    assert!(!status_is_success(300));
    assert!(!status_is_success(401));
    assert!(!status_is_success(0));
    assert!(!status_is_success(u16::MAX));
}

#[test]
fn assemble_keeps_the_order_of_the_games() {
    let games = vec![bare(7), zelda(), bare(3), bare(7)];
    let entries = assemble(&games, &names(&[(10, "Switch"), (20, "Wii U")]), &HashMap::new());
    let ids: Vec<u64> = entries.iter().map(|e| e.id).collect();
    assert_eq!(ids, vec![7, 1, 3, 7]);
    assert_eq!(entries[1].platforms, vec!["Switch".to_string(), "Wii U".to_string()]);
    assert!(entries[1].genres.is_empty());
}

#[test]
fn missing_fields_become_empty_text() {
    let entry = game_data_from_game_with_maps(&bare(9), &names(&[(1, "x")]), &names(&[(1, "y")]));
    assert_eq!(
        entry,
        GameData {
            id: 9,
            name: String::new(),
            platforms: Vec::new(),
            first_release_date: String::new(),
            genres: Vec::new(),
        }
    );
}

#[test]
fn a_release_at_the_epoch_is_written_as_zero() {
    let mut game = bare(4);
    game.first_release_date = Some(0);
    let entry = game_data_from_game_with_maps(&game, &HashMap::new(), &HashMap::new());
    assert_eq!(entry.first_release_date, "0");
    game.first_release_date = Some(u64::MAX);
    let entry = game_data_from_game_with_maps(&game, &HashMap::new(), &HashMap::new());
    assert_eq!(entry.first_release_date, "18446744073709551615");
}

#[test]
fn resolve_names_keeps_order_and_repetitions_and_drops_the_unknown() {
    let table = names(&[(1, "one"), (2, "two"), (3, "")]);
    assert_eq!(
        resolve_names(&vec![2, 9, 1, 2, 3, 8], &table),
        vec!["two".to_string(), "one".to_string(), "two".to_string(), String::new()]
    );
    assert!(resolve_names(&vec![9, 8], &table).is_empty());
    assert!(resolve_names(&Vec::new(), &table).is_empty());
    assert!(resolve_names(&vec![1, 2], &HashMap::new()).is_empty());
}

#[test]
fn a_record_without_a_name_is_left_out_of_the_table() {
    let table = platform_table(&vec![
        Platform { id: 1, name: Some("one".to_string()) },
        Platform { id: 2, name: None },
        Platform { id: 3, name: Some(String::new()) },
    ]);
    assert_eq!(table, names(&[(1, "one"), (3, "")]));
    let table = genre_table(&vec![Genre { id: 2, name: None }]);
    assert!(table.is_empty());
}

#[test]
fn a_later_record_replaces_an_earlier_one() {
    let table = genre_table(&vec![
        Genre { id: 5, name: Some("Action".to_string()) },
        Genre { id: 5, name: None },
        Genre { id: 5, name: Some("Adventure".to_string()) },
        Genre { id: 5, name: None },
    ]);
    assert_eq!(table, names(&[(5, "Adventure")]));
}

#[test]
fn referenced_ids_are_distinct_in_order_of_first_mention() {
    let games = vec![
        Game { platforms: Some(vec![30, 10, 30]), genres: Some(vec![5]), ..bare(1) },
        bare(2),
        Game { platforms: Some(vec![20, 10]), genres: None, ..bare(3) },
        Game { platforms: Some(vec![]), genres: Some(vec![7, 5, 6]), ..bare(4) },
    ];
    let (platforms, genres) = referenced_ids(&games);
    assert_eq!(platforms, vec![30, 10, 20]);
    assert_eq!(genres, vec![5, 7, 6]);
    let (platforms, genres) = referenced_ids(&vec![bare(1), bare(2)]);
    assert!(platforms.is_empty());
    assert!(genres.is_empty());
}

#[test]
fn no_ids_no_request() {
    let manager = signed_in();
    assert_eq!(manager.get_platforms_by_ids(&Vec::new()), Ok(None));
    assert_eq!(manager.get_genres_by_ids(&Vec::new()), Ok(None));
    let signed_out = IGDBManager::new();
    assert_eq!(signed_out.get_platforms_by_ids(&Vec::new()), Ok(None));
    assert_eq!(signed_out.get_genres_by_ids(&Vec::new()), Ok(None));
    let lookup = Lookup::begin(&signed_out, ok(vec![bare(1)])).ok().unwrap();
    assert_eq!(lookup.platforms_query(), &None);
    assert_eq!(lookup.genres_query(), &None);
    assert_eq!(lookup.finish(None, None).unwrap().len(), 1);
}

#[test]
fn one_request_per_kind_names_each_id_once() {
    let manager = signed_in();
    let games = vec![
        Game { platforms: Some(vec![30, 10, 30]), genres: Some(vec![5]), ..bare(1) },
        Game { platforms: Some(vec![10, 20]), genres: Some(vec![5, 5]), ..bare(2) },
    ];
    let queries = manager.name_queries(&games).unwrap();
    let platforms = queries.platforms.unwrap();
    assert_eq!(platforms.url, "https://api.igdb.com/v4/platforms");
    assert_eq!(platforms.body, "fields name; where id = (30,10,20);");
    let genres = queries.genres.unwrap();
    assert_eq!(genres.url, "https://api.igdb.com/v4/genres");
    assert_eq!(genres.body, "fields name; where id = (5);");
}

#[test]
fn every_request_carries_the_credential_in_two_headers() {
    let manager = signed_in();
    let request = manager.get_games().unwrap();
    assert_eq!(request.url, "https://api.igdb.com/v4/games");
    assert_eq!(request.body, "fields name,platforms,first_release_date,genres;");
    assert_eq!(request.headers.len(), 2);
    assert_eq!(header(&request, "Client-ID"), "client");
    assert_eq!(header(&request, "Authorization"), "Bearer token");
    let request = manager.make_request("v4/anything", "not checked at all".to_string()).unwrap();
    assert_eq!(request.url, "https://api.igdb.com/v4/anything");
    assert_eq!(request.body, "not checked at all");
    assert_eq!(header(&request, "Authorization"), "Bearer token");
}

#[test]
fn without_a_credential_no_request_is_written() {
    let manager = IGDBManager::new();
    assert_eq!(manager.current_credential().err(), Some(CatalogError::Unauthenticated));
    assert_eq!(manager.is_expired(Timestamp { secs: 0, nanos: 0 }), None);
    assert_eq!(manager.get_games(), Err(CatalogError::Unauthenticated));
    assert_eq!(manager.search_games("Zelda".to_string()), Err(CatalogError::Unauthenticated));
    assert_eq!(manager.get_platforms_by_ids(&vec![1]), Err(CatalogError::Unauthenticated));
    assert_eq!(manager.get_genres_by_ids(&vec![1]), Err(CatalogError::Unauthenticated));
    assert_eq!(manager.name_queries(&vec![zelda()]).err(), Some(CatalogError::Unauthenticated));
    assert_eq!(CatalogError::Unauthenticated.message(), "No credential has been issued");
}

#[test]
fn the_same_answers_give_the_same_catalog() {
    let manager = signed_in();
    let run = || {
        let lookup = Lookup::begin(&manager, ok(vec![zelda(), bare(2)])).ok().unwrap();
        let platforms = ok(vec![
            Platform { id: 20, name: Some("Wii U".to_string()) },
            Platform { id: 10, name: Some("Switch".to_string()) },
        ]);
        let genres = ok(vec![Genre { id: 5, name: None }]);
        lookup.finish(Some(platforms), Some(genres))
    };
    let first = run();
    let second = run();
    assert_eq!(first, second);
    let entries = first.unwrap();
    assert_eq!(entries[0].platforms, vec!["Switch".to_string(), "Wii U".to_string()]);
    assert!(entries[0].genres.is_empty());
}

#[test]
fn the_whole_list_lookup_end_to_end() {
    let manager = signed_in();
    let first = manager.get_games().unwrap();
    assert_eq!(first.url, "https://api.igdb.com/v4/games");
    let lookup = Lookup::begin(&manager, ok(vec![zelda()])).ok().unwrap();
    assert_eq!(
        lookup.platforms_query().as_ref().unwrap().body,
        "fields name; where id = (10,20);"
    );
    assert_eq!(lookup.genres_query().as_ref().unwrap().body, "fields name; where id = (5);");
    let platforms = ok(vec![Platform { id: 10, name: Some("Switch".to_string()) }]);
    let genres = ok(vec![Genre { id: 5, name: Some("Action".to_string()) }]);
    assert!(lookup.answers_fit(&Some(ok(Vec::new())), &Some(ok(Vec::new()))));
    assert_eq!(
        lookup.finish(Some(platforms), Some(genres)),
        Ok(vec![GameData {
            id: 1,
            name: "Zelda".to_string(),
            platforms: vec!["Switch".to_string()],
            first_release_date: "1488499200".to_string(),
            genres: vec!["Action".to_string()],
        }])
    );
}

#[test]
fn a_lookup_that_cannot_start_says_why() {
    let manager = signed_in();
    let denied: Reply<Game> =
        Reply::Answered { status: 401, body: Some("no".to_string()), records: Ok(vec![zelda()]) };
    assert_eq!(
        Lookup::begin(&manager, denied).err(),
        Some(CatalogError::Provider { status: 401, body: "no".to_string() })
    );
    assert_eq!(
        Lookup::begin(&manager, Reply::Unreachable("down".to_string())).err(),
        Some(CatalogError::Transport("down".to_string()))
    );
    let signed_out = IGDBManager::new();
    assert_eq!(
        Lookup::begin(&signed_out, ok(vec![zelda()])).err(),
        Some(CatalogError::Unauthenticated)
    );
}

#[test]
fn replies_fit_exactly_the_queries_written() {
    let manager = signed_in();
    let only_platforms = Game { genres: None, ..zelda() };
    let lookup = Lookup::begin(&manager, ok(vec![only_platforms, bare(2)])).ok().unwrap();
    assert!(lookup.platforms_query().is_some());
    assert_eq!(lookup.genres_query(), &None);
    assert!(lookup.answers_fit(&Some(ok(Vec::new())), &None));
    assert!(!lookup.answers_fit(&None, &None));
    assert!(!lookup.answers_fit(&Some(ok(Vec::new())), &Some(ok(Vec::new()))));
    assert!(!lookup.answers_fit(&None, &Some(ok(Vec::new()))));
    let platforms = ok(vec![Platform { id: 20, name: Some("Wii U".to_string()) }]);
    let entries = lookup.finish(Some(platforms), None).unwrap();
    assert_eq!(entries[0].platforms, vec!["Wii U".to_string()]);
    assert!(entries[0].genres.is_empty());
    assert_eq!(entries[1].id, 2);
}

#[test]
fn a_catalog_from_the_records_of_the_batch() {
    let platforms = vec![
        Platform { id: 10, name: Some("Switch".to_string()) },
        Platform { id: 20, name: None },
    ];
    let genres = vec![Genre { id: 5, name: Some("Action".to_string()) }];
    let entries = games_data_from_games(&vec![zelda(), bare(2)], &platforms, &genres);
    assert_eq!(entries.len(), 2);
    assert_eq!(entries[0].platforms, vec!["Switch".to_string()]);
    assert_eq!(entries[0].genres, vec!["Action".to_string()]);
    assert_eq!(entries[1].id, 2);
    assert!(entries[1].platforms.is_empty());
}
