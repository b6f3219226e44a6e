use playshelf::api::{
    fetch_games, games_url, search_games, search_url, ErrorResponse, GamesResponse, Query,
    ServerReply,
};
use playshelf::igdb::manager::GameData;
use playshelf::ui::{game_card, release_label, Card, Screen};

fn game(id: u64, date: &str) -> GameData {
    GameData {
        id,
        name: "Zelda".to_string(),
        platforms: vec!["Switch".to_string()],
        first_release_date: date.to_string(),
        genres: Vec::new(),
    }
}

fn answered(status: u16, games: Vec<GameData>, error: Option<&str>) -> ServerReply {
    ServerReply::Answered {
        status,
        games: Ok(GamesResponse { count: games.len(), games }),
        error: error.map(|e| ErrorResponse { error: e.to_string() }),
    }
}

#[test]
fn the_addresses_of_the_service() {
    assert_eq!(games_url(), "http://localhost:8081/games");
    assert_eq!(search_url("Zelda"), "http://localhost:8081/games/search?query=Zelda");
    assert_eq!(search_url(""), "http://localhost:8081/games/search?query=");
}

#[test]
fn the_query_travels_percent_encoded() {
    assert_eq!(
        search_url("Zelda & Link"),
        "http://localhost:8081/games/search?query=Zelda%20%26%20Link"
    );
    assert_eq!(search_url("a-b_c.d~e"), "http://localhost:8081/games/search?query=a-b_c.d~e");
    assert_eq!(
        search_url("Pok\u{e9}mon"),
        "http://localhost:8081/games/search?query=Pok%C3%A9mon"
    );
    assert_eq!(
        search_url("100%/?=+"),
        "http://localhost:8081/games/search?query=100%25%2F%3F%3D%2B"
    );
    assert_eq!(search_url("\u{7f}\n"), "http://localhost:8081/games/search?query=%7F%0A");
}

#[test]
fn a_successful_answer_gives_its_games() {
    let games = vec![game(1, "1488499200"), game(2, "")];
    assert_eq!(fetch_games(answered(200, games.clone(), None)), Ok(games.clone()));
    assert_eq!(search_games(answered(299, games.clone(), Some("ignored"))), Ok(games));
    assert_eq!(fetch_games(answered(200, Vec::new(), None)), Ok(Vec::new()));
}

#[test]
fn an_answer_that_never_arrived_says_what_was_tried() {
    let lost = || ServerReply::Unreachable("connection refused".to_string());
    assert_eq!(fetch_games(lost()), Err("Failed to fetch games: connection refused".to_string()));
    assert_eq!(
        search_games(lost()),
        Err("Failed to search games: connection refused".to_string())
    );
}

#[test]
fn a_successful_answer_that_does_not_decode_is_a_parse_failure() {
    let reply = || ServerReply::Answered {
        status: 200,
        games: Err("missing field `games`".to_string()),
        error: Some(ErrorResponse { error: "not used".to_string() }),
    };
    assert_eq!(
        fetch_games(reply()),
        Err("Failed to parse response: missing field `games`".to_string())
    );
    assert_eq!(
        search_games(reply()),
        Err("Failed to parse response: missing field `games`".to_string())
    );
}

#[test]
fn a_failed_answer_gives_its_message_or_a_stand_in() {
    assert_eq!(
        fetch_games(answered(500, vec![game(1, "")], Some("IGDB API error (401 Unauthorized): x"))),
        Err("IGDB API error (401 Unauthorized): x".to_string())
    );
    assert_eq!(search_games(answered(500, Vec::new(), None)), Err("Unknown error".to_string()));
    assert_eq!(fetch_games(answered(199, Vec::new(), None)), Err("Unknown error".to_string()));
    assert_eq!(fetch_games(answered(300, Vec::new(), None)), Err("Unknown error".to_string()));
}

#[test]
fn an_empty_search_box_asks_for_everything() {
    assert_eq!(Query::from_text(String::new()), Query::Everything);
    assert_eq!(Query::from_text(" ".to_string()), Query::Matching(" ".to_string()));
    assert_eq!(Query::from_text("Zelda".to_string()), Query::Matching("Zelda".to_string()));
    assert_eq!(Query::Everything.url(), "http://localhost:8081/games");
    assert_eq!(
        Query::Matching("a b".to_string()).url(),
        "http://localhost:8081/games/search?query=a%20b"
    );
    let lost = || ServerReply::Unreachable("x".to_string());
    assert_eq!(Query::Everything.read(lost()), Err("Failed to fetch games: x".to_string()));
    assert_eq!(
        Query::Matching("a".to_string()).read(lost()),
        Err("Failed to search games: x".to_string())
    );
    assert_eq!(
        Query::Everything.read(answered(200, vec![game(3, "")], None)),
        Ok(vec![game(3, "")])
    );
}

#[test]
fn the_screen_follows_a_load() {
    let mut screen = Screen::new();
    assert!(screen.games.is_empty());
    assert!(screen.shows_games());
    assert!(screen.shelf_is_empty());

    screen.start_loading();
    assert!(screen.loading);
    assert!(!screen.shows_games());

    screen.finish_loading(Ok(vec![game(1, "")]));
    assert!(!screen.loading);
    assert_eq!(screen.error, None);
    assert!(screen.shows_games());
    assert!(!screen.shelf_is_empty());

    screen.start_loading();
    screen.finish_loading(Err("Unknown error".to_string()));
    assert!(!screen.loading);
    assert_eq!(screen.error, Some("Unknown error".to_string()));
    assert_eq!(screen.games, vec![game(1, "")]);
    assert!(!screen.shows_games());

    screen.start_loading();
    assert_eq!(screen.error, None);
    assert_eq!(screen.games, vec![game(1, "")]);
    screen.finish_loading(Ok(Vec::new()));
    assert!(screen.shows_games());
    assert!(screen.shelf_is_empty());
}

#[test]
fn a_card_shows_the_month_of_release() {
    assert_eq!(release_label(&"1488499200".to_string()), Some("March 2017".to_string()));
    assert_eq!(release_label(&"1473897600".to_string()), Some("September 2016".to_string()));
    assert_eq!(release_label(&"-1".to_string()), Some("December 1969".to_string()));
    assert_eq!(release_label(&"+86400".to_string()), Some("January 1970".to_string()));
    assert_eq!(release_label(&"1".to_string()), Some("January 1970".to_string()));
}

#[test]
fn a_card_shows_no_month_without_a_readable_date() {
    assert_eq!(release_label(&String::new()), None);
    assert_eq!(release_label(&"0".to_string()), None);
    assert_eq!(release_label(&"soon".to_string()), None);
    assert_eq!(release_label(&"1488499200 ".to_string()), None);
    assert_eq!(release_label(&"9223372036854775808".to_string()), None);
    assert_eq!(release_label(&"9223372036854775807".to_string()), None);
    assert_eq!(release_label(&"-9223372036854775808".to_string()), None);
}

#[test]
fn a_card_lists_platforms_and_genres_where_there_are_any() {
    assert_eq!(
        game_card(&game(1, "1488499200")),
        Card { release: Some("March 2017".to_string()), platforms: true, genres: false }
    );
    let mut other = game(2, "0");
    other.platforms.clear();
    other.genres.push("Action".to_string());
    assert_eq!(game_card(&other), Card { release: None, platforms: false, genres: true });
}
