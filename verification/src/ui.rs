//! What the shelf's screen shows: the state behind it, and the layout of a
//! game's card. Drawing is the caller's part.

use vstd::prelude::*;
use crate::dates::release_month;
use crate::dates::release_of;
use crate::dates::Release;
use crate::dates::ReleaseView;
use crate::igdb::manager::GameData;

verus! {

/// The state behind the screen: the games last loaded, whether a load is
/// under way, and the message of the last load if it failed.
#[derive(Debug, Clone, PartialEq)]
pub struct Screen {
    pub games: Vec<GameData>,
    pub loading: bool,
    pub error: Option<String>,
}

impl Screen {
    /// Whether the list of games is on show: no load is under way and the
    /// last one did not fail.
    pub open spec fn lists_games(self) -> bool {
        !self.loading && self.error.is_none()
    }

    /// The screen before anything was loaded: no games, no load under way,
    /// no failure.
    pub fn new() -> (r: Self)
        ensures
            r.games@ == Seq::<GameData>::empty(),
            !r.loading,
            r.error.is_none(),
    {
        Screen { games: Vec::new(), loading: false, error: None }
    }

    /// A load starts: the spinner comes on and the old failure goes. The
    /// games stay until the load ends.
    pub fn start_loading(&mut self)
        ensures
            final(self).loading,
            final(self).error.is_none(),
            final(self).games == old(self).games,
    {
        self.loading = true;
        self.error = None;
    }

    /// A load ends: the spinner goes; a success replaces the games, a
    /// failure leaves them and sets its message.
    pub fn finish_loading(&mut self, outcome: Result<Vec<GameData>, String>)
        ensures
            !final(self).loading,
            match outcome {
                Ok(games) => final(self).games == games && final(self).error == old(self).error,
                Err(message) => final(self).games == old(self).games && final(self).error
                    == Some(message),
            },
    {
        match outcome {
            Ok(games) => {
                self.games = games;
            },
            Err(message) => {
                self.error = Some(message);
            },
        }
        self.loading = false;
    }

    /// Whether the list of games is on show.
    pub fn shows_games(&self) -> (r: bool)
        ensures
            r == self.lists_games(),
    {
        !self.loading && self.error.is_none()
    }

    /// Whether the list on show is empty, so that a notice stands in its
    /// place.
    pub fn shelf_is_empty(&self) -> (r: bool)
        ensures
            r == (self.games@.len() == 0),
    {
        self.games.len() == 0
    }
}

/// The parts of a game's card that are drawn besides its name.
#[derive(Debug, Clone, PartialEq)]
pub struct Card {
    /// The month of release, if one is shown.
    pub release: Option<String>,
    /// Whether the platforms are listed.
    pub platforms: bool,
    /// Whether the genres are listed.
    pub genres: bool,
}

/// The month shown for what became of a release date: that of a date that
/// is there, could be read and lies within the calendar.
pub open spec fn label_of(release: ReleaseView) -> Option<Seq<char>> {
    match release {
        ReleaseView::On(_, month) => Some(month),
        _ => None,
    }
}

/// The month shown for a release date.
pub open spec fn release_label_of(date: Seq<char>) -> Option<Seq<char>> {
    label_of(release_of(date, "%B %Y"@))
}

/// The text of an optional string.
pub open spec fn label_view(label: Option<String>) -> Option<Seq<char>> {
    match label {
        Some(label) => Some(label@),
        None => None,
    }
}

/// Lays out the card of `game`, given what became of its release date:
/// the month is shown for a date placed in the calendar, and platforms and
/// genres are listed where there are any.
pub fn card_for(game: &GameData, release: Release) -> (r: Card)
    ensures
        label_view(r.release) == label_of(release@),
        r.platforms == (game.platforms@.len() > 0),
        r.genres == (game.genres@.len() > 0),
{
    let label = match release {
        Release::On(_, month) => Some(month),
        _ => None,
    };
    Card { release: label, platforms: game.platforms.len() > 0, genres: game.genres.len() > 0 }
}

/// The month shown for a release date, if one is shown.
pub fn release_label(date: &String) -> (r: Option<String>)
    ensures
        label_view(r) == release_label_of(date@),
{
    match release_month(date) {
        Release::On(_, month) => Some(month),
        _ => None,
    }
}

/// Lays out the card of `game`, with the month of its release written as
/// the month's name and the year.
pub fn game_card(game: &GameData) -> (r: Card)
    ensures
        label_view(r.release) == release_label_of(game.first_release_date@),
        r.platforms == (game.platforms@.len() > 0),
        r.genres == (game.genres@.len() > 0),
{
    card_for(game, release_month(&game.first_release_date))
}

} // verus!
