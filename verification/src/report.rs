//! The console report of a list of games, line by line. Printing is the
//! caller's part.

use vstd::prelude::*;
use vstd::string::StringExecFns;
use crate::dates::release_day;
use crate::dates::release_of;
use crate::dates::signed_decimal;
use crate::dates::signed_decimal_string;
use crate::dates::utc_formatted;
use crate::dates::utc_second;
use crate::dates::Release;
use crate::dates::ReleaseView;
use crate::igdb::credentials::Timestamp;
use crate::igdb::manager::GameData;
use crate::igdb::manager::GameDataView;
use crate::text::decimal;
use crate::text::decimal_string;
use crate::text::join;
use crate::text::joined;

verus! {

/// One line of a report: its text, without the line end that printing
/// adds, and whether it belongs on the error stream.
#[derive(Debug, Clone, PartialEq)]
pub struct Line {
    pub text: String,
    pub is_error: bool,
}

impl View for Line {
    type V = (Seq<char>, bool);

    open spec fn view(&self) -> (Seq<char>, bool) {
        (self.text@, self.is_error)
    }
}

impl DeepView for Line {
    type V = (Seq<char>, bool);

    open spec fn deep_view(&self) -> (Seq<char>, bool) {
        self@
    }
}

/// The heading of a report: the title and the number of games. It ends in
/// a line end of its own, so that an empty line follows it.
pub open spec fn heading(title: Seq<char>, games: nat) -> Seq<char> {
    title + " ("@ + decimal(games) + " games):\n"@
}

/// The line that tells of a release date, if one is told of. A date that
/// cannot be read is reported on the error stream.
pub open spec fn release_line(release: ReleaseView) -> Seq<(Seq<char>, bool)> {
    match release {
        ReleaseView::Undated => Seq::empty(),
        ReleaseView::On(secs, day) => seq![
            (
                "   Release Date: "@ + day + " (timestamp: "@ + signed_decimal(secs) + ")"@,
                false,
            ),
        ],
        ReleaseView::OutOfRange(secs) => seq![
            ("   Release Date: Invalid timestamp ("@ + signed_decimal(secs) + ")"@, false),
        ],
        ReleaseView::Unreadable(text, why) => seq![
            ("   Release Date: Failed to parse '"@ + text + "' as timestamp: "@ + why, true),
        ],
    }
}

/// The line that lists names under a label, if there are any.
pub open spec fn list_line(label: Seq<char>, names: Seq<Seq<char>>) -> Seq<(Seq<char>, bool)> {
    if names.len() == 0 {
        Seq::empty()
    } else {
        seq![(label + joined(names, ", "@), false)]
    }
}

/// The lines of the game with the given number, given what becomes of its
/// release date: its number and name, its platforms, its release date, its
/// genres, and an empty line.
pub open spec fn entry_lines_with(number: nat, game: GameDataView, release: ReleaseView) -> Seq<
    (Seq<char>, bool),
> {
    seq![(decimal(number) + ". "@ + game.name, false)] + list_line(
        "   Platforms: "@,
        game.platforms,
    ) + release_line(release) + list_line("   Genres: "@, game.genres) + seq![
        (Seq::<char>::empty(), false),
    ]
}

/// The lines of the game with the given number, with the day of its
/// release written as year, month and day.
pub open spec fn entry_lines(number: nat, game: GameDataView) -> Seq<(Seq<char>, bool)> {
    entry_lines_with(number, game, release_of(game.first_release_date, "%Y-%m-%d"@))
}

/// The lines of all games, in their order and numbered from one.
pub open spec fn body_lines(games: Seq<GameDataView>) -> Seq<(Seq<char>, bool)>
    decreases games.len(),
{
    if games.len() == 0 {
        Seq::empty()
    } else {
        body_lines(games.drop_last()) + entry_lines(games.len(), games.last())
    }
}

/// The whole report: the heading, then the lines of each game.
pub open spec fn report_lines(games: Seq<GameDataView>, title: Seq<char>) -> Seq<
    (Seq<char>, bool),
> {
    seq![(heading(title, games.len()), false)] + body_lines(games)
}

fn plain(text: String) -> (r: Line)
    ensures
        r@ == (text@, false),
{
    Line { text, is_error: false }
}

fn push_list_line(lines: &mut Vec<Line>, label: &str, names: &Vec<String>)
    ensures
        final(lines).deep_view() == old(lines).deep_view() + list_line(
            label@,
            names.deep_view(),
        ),
{
    let ghost before = lines.deep_view();
    if names.len() > 0 {
        let mut text = String::from_str(label);
        let list = join(names, ", ");
        text.append(list.as_str());
        lines.push(plain(text));
        assert(lines.deep_view() =~= before + list_line(label@, names.deep_view()));
    } else {
        assert(lines.deep_view() =~= before + list_line(label@, names.deep_view()));
    }
}

fn push_release_line(lines: &mut Vec<Line>, release: Release)
    ensures
        final(lines).deep_view() == old(lines).deep_view() + release_line(release@),
{
    let ghost before = lines.deep_view();
    match release {
        Release::Undated => {},
        Release::On(secs, day) => {
            let mut text = String::from_str("   Release Date: ");
            text.append(day.as_str());
            text.append(" (timestamp: ");
            let numeral = signed_decimal_string(secs);
            text.append(numeral.as_str());
            text.append(")");
            lines.push(plain(text));
        },
        Release::OutOfRange(secs) => {
            let mut text = String::from_str("   Release Date: Invalid timestamp (");
            let numeral = signed_decimal_string(secs);
            text.append(numeral.as_str());
            text.append(")");
            lines.push(plain(text));
        },
        Release::Unreadable(date, why) => {
            let mut text = String::from_str("   Release Date: Failed to parse '");
            text.append(date.as_str());
            text.append("' as timestamp: ");
            text.append(why.as_str());
            lines.push(Line { text, is_error: true });
        },
    }
    assert(lines.deep_view() =~= before + release_line(release@));
}

/// Adds to `lines` the lines of the game with the given number, given what
/// becomes of its release date.
pub fn push_entry_lines(lines: &mut Vec<Line>, number: usize, game: &GameData, release: Release)
    ensures
        final(lines).deep_view() == old(lines).deep_view() + entry_lines_with(
            number as nat,
            game@,
            release@,
        ),
{
    let ghost before = lines.deep_view();
    let mut first = decimal_string(number as u64);
    first.append(". ");
    first.append(game.name.as_str());
    lines.push(plain(first));
    let ghost one = lines.deep_view();
    assert(one =~= before + seq![(decimal(number as nat) + ". "@ + game@.name, false)]);
    push_list_line(lines, "   Platforms: ", &game.platforms);
    push_release_line(lines, release);
    push_list_line(lines, "   Genres: ", &game.genres);
    let ghost four = lines.deep_view();
    lines.push(plain(String::new()));
    assert(lines.deep_view() =~= four + seq![(Seq::<char>::empty(), false)]);
    assert(lines.deep_view() =~= before + entry_lines_with(number as nat, game@, release@));
}

/// Writes the report of `games` under `title`, one [`Line`] for each line
/// to print.
pub fn game_data_lines(games: &Vec<GameData>, title: &str) -> (r: Vec<Line>)
    ensures
        r.deep_view() == report_lines(games.deep_view(), title@),
{
    let mut first = String::from_str(title);
    first.append(" (");
    let count = decimal_string(games.len() as u64);
    first.append(count.as_str());
    first.append(" games):\n");
    let mut lines: Vec<Line> = Vec::new();
    lines.push(plain(first));
    let ghost top = lines.deep_view();
    assert(top =~= seq![(heading(title@, games.len() as nat), false)]);
    assert(games.deep_view().take(0) =~= Seq::<GameDataView>::empty());
    let mut i: usize = 0;
    while i < games.len()
        invariant
            i <= games.len(),
            lines.deep_view() == top + body_lines(games.deep_view().take(i as int)),
        decreases games.len() - i,
    {
        proof {
            assert(games.deep_view().take(i + 1).drop_last() =~= games.deep_view().take(i as int));
            assert(games.deep_view().take(i + 1).last() == games[i as int]@);
        }
        let release = release_day(&games[i].first_release_date);
        push_entry_lines(&mut lines, i + 1, &games[i], release);
        i = i + 1;
    }
    assert(games.deep_view().take(games.len() as int) =~= games.deep_view());
    lines
}

/// The notice of when the token lapses, given the expiry written out to the
/// second: the text after its introduction, and a line end, so that an empty
/// line follows. No notice where no text is given.
pub open spec fn expiry_notice_from(text: Option<Seq<char>>) -> Option<Seq<char>> {
    match text {
        Some(text) => Some("Token expires at: "@ + text + "\n"@),
        None => None,
    }
}

/// The expiry written out to the second, in UTC; `None` for an expiry
/// beyond the calendar.
pub open spec fn expiry_text_of(expires_at: Timestamp) -> Option<Seq<char>> {
    if expires_at.secs > i64::MAX {
        None
    } else {
        utc_formatted(expires_at.secs as int, "%Y-%m-%d %H:%M:%S UTC"@)
    }
}

/// The notice of when the token lapses; `None` for an expiry beyond the
/// calendar.
pub open spec fn expiry_notice_of(expires_at: Timestamp) -> Option<Seq<char>> {
    expiry_notice_from(expiry_text_of(expires_at))
}

/// The text of an optional string.
pub open spec fn notice_view(text: Option<String>) -> Option<Seq<char>> {
    match text {
        Some(text) => Some(text@),
        None => None,
    }
}

/// Writes the notice of when the token lapses around the expiry written
/// out; no notice where no text is given.
pub fn expiry_notice_with(text: Option<String>) -> (r: Option<String>)
    ensures
        notice_view(r) == expiry_notice_from(notice_view(text)),
{
    match text {
        Some(text) => {
            let mut notice = String::from_str("Token expires at: ");
            notice.append(text.as_str());
            notice.append("\n");
            Some(notice)
        },
        None => None,
    }
}

/// Writes the notice of when the token lapses.
pub fn expiry_notice(expires_at: Timestamp) -> (r: Option<String>)
    ensures
        notice_view(r) == expiry_notice_of(expires_at),
{
    let text = if expires_at.secs > i64::MAX as u64 {
        None
    } else {
        utc_second(expires_at.secs as i64)
    };
    expiry_notice_with(text)
}

} // verus!
