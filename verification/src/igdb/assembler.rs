//! The assembly of catalog entries: identifiers are looked up in tables of
//! names, and each game of a batch becomes one entry.

use std::collections::HashMap;
use vstd::prelude::*;
use crate::igdb::manager::GameData;
use crate::igdb::manager::GameDataView;
use crate::igdb::Game;
use crate::igdb::GameView;
use crate::igdb::Genre;
use crate::igdb::NameRef;
use crate::igdb::Platform;
use crate::text::decimal;
use crate::text::decimal_string;

verus! {

/// The names that a lookup table holds, as text.
pub open spec fn names_of(table: Map<u64, String>) -> Map<u64, Seq<char>> {
    table.map_values(|s: String| s@)
}

/// The names of those identifiers of `ids` that `names` knows, in the order
/// of `ids`. An identifier that `names` does not know leaves no trace.
pub open spec fn resolved_names(ids: Seq<u64>, names: Map<u64, Seq<char>>) -> Seq<Seq<char>> {
    ids.filter(|id: u64| names.contains_key(id)).map_values(|id: u64| names[id])
}

/// The names of an optional list of identifiers: none where the list is
/// missing.
pub open spec fn resolved_or_empty(ids: Option<Seq<u64>>, names: Map<u64, Seq<char>>) -> Seq<
    Seq<char>,
> {
    match ids {
        Some(ids) => resolved_names(ids, names),
        None => Seq::empty(),
    }
}

/// The catalog entry of one game under the given name tables.
pub open spec fn entry_of(
    game: GameView,
    platform_names: Map<u64, Seq<char>>,
    genre_names: Map<u64, Seq<char>>,
) -> GameDataView {
    GameDataView {
        id: game.id,
        name: match game.name {
            Some(name) => name,
            None => Seq::empty(),
        },
        platforms: resolved_or_empty(game.platforms, platform_names),
        first_release_date: match game.first_release_date {
            Some(t) => decimal(t as nat),
            None => Seq::empty(),
        },
        genres: resolved_or_empty(game.genres, genre_names),
    }
}

/// The catalog entries of a batch of games, one per game and in the same
/// order.
pub open spec fn assembled(
    games: Seq<GameView>,
    platform_names: Map<u64, Seq<char>>,
    genre_names: Map<u64, Seq<char>>,
) -> Seq<GameDataView> {
    games.map_values(|g: GameView| entry_of(g, platform_names, genre_names))
}

/// Looks up each identifier of `ids` in `table` and keeps the names found.
pub fn resolve_names(ids: &Vec<u64>, table: &HashMap<u64, String>) -> (r: Vec<String>)
    ensures
        r.deep_view() == resolved_names(ids@, names_of(table@)),
{
    broadcast use vstd::std_specs::hash::group_hash_axioms;

    let ghost names = names_of(table@);
    let ghost known = |id: u64| names.contains_key(id);
    let ghost name = |id: u64| names[id];
    let mut out: Vec<String> = Vec::new();
    let mut i: usize = 0;
    while i < ids.len()
        invariant
            i <= ids.len(),
            names == names_of(table@),
            known == (|id: u64| names.contains_key(id)),
            name == (|id: u64| names[id]),
            out.deep_view() == ids@.take(i as int).filter(known).map_values(name),
        decreases ids.len() - i,
    {
        let ghost before = ids@.take(i as int);
        let id = ids[i];
        proof {
            assert(ids@.take(i + 1) =~= before.push(id));
            before.lemma_filter_push(id, known);
        }
        match table.get(&id) {
            Some(found) => {
                let ghost prev = out.deep_view();
                out.push(found.clone());
                assert(out.deep_view() =~= prev.push(found@));
                assert(before.push(id).filter(known).map_values(name) =~= before.filter(
                    known,
                ).map_values(name).push(name(id)));
            },
            None => {},
        }
        i = i + 1;
    }
    assert(ids@.take(ids.len() as int) =~= ids@);
    out
}

/// The lookup table `table` after one more record.
pub open spec fn noted(table: Map<u64, Seq<char>>, record: NameRef) -> Map<u64, Seq<char>> {
    match record.name {
        Some(name) => table.insert(record.id, name),
        None => table,
    }
}

/// The lookup table that a list of name records makes: a record with a name
/// maps its identifier to that name, a later record replacing an earlier one
/// with the same identifier; a record without a name adds nothing.
pub open spec fn name_table(records: Seq<NameRef>) -> Map<u64, Seq<char>>
    decreases records.len(),
{
    if records.len() == 0 {
        Map::empty()
    } else {
        noted(name_table(records.drop_last()), records.last())
    }
}

/// Whether one of `records` gives the identifier `id` a name.
pub open spec fn is_named(records: Seq<NameRef>, id: u64) -> bool {
    exists|i: int|
        0 <= i < records.len() && (#[trigger] records[i]).id == id && records[i].name.is_some()
}

/// The lookup table knows exactly the identifiers that a record gives a
/// name, and what it holds for one is a name that a record gives it. A
/// record without a name puts nothing in the table, not even an empty
/// name.
pub proof fn lemma_name_table(records: Seq<NameRef>)
    ensures
        forall|id: u64|
            (#[trigger] name_table(records).contains_key(id)) <==> is_named(records, id),
        forall|id: u64|
            (#[trigger] name_table(records).contains_key(id)) ==> exists|i: int|
                0 <= i < records.len() && (#[trigger] records[i]).id == id
                    && records[i].name == Some(name_table(records)[id]),
    decreases records.len(),
{
    if records.len() > 0 {
        let rest = records.drop_last();
        let last = records.last();
        lemma_name_table(rest);
        assert forall|id: u64|
            (#[trigger] name_table(records).contains_key(id)) <==> is_named(records, id) by {
            if is_named(records, id) {
                let i = choose|i: int|
                    0 <= i < records.len() && (#[trigger] records[i]).id == id
                        && records[i].name.is_some();
                if i < rest.len() {
                    assert(rest[i].id == id);
                    assert(is_named(rest, id));
                    assert(name_table(rest).contains_key(id));
                }
            }
            if name_table(records).contains_key(id) {
                if name_table(rest).contains_key(id) {
                    let i = choose|i: int|
                        0 <= i < rest.len() && (#[trigger] rest[i]).id == id
                            && rest[i].name.is_some();
                    assert(records[i].id == id);
                } else {
                    assert(records[records.len() - 1].id == id);
                }
            }
        }
        assert forall|id: u64|
            (#[trigger] name_table(records).contains_key(id)) implies exists|i: int|
            0 <= i < records.len() && (#[trigger] records[i]).id == id && records[i].name == Some(
                name_table(records)[id],
            ) by {
            if last.name.is_some() && last.id == id {
                assert(records[records.len() - 1].id == id);
            } else {
                let i = choose|i: int|
                    0 <= i < rest.len() && (#[trigger] rest[i]).id == id && rest[i].name == Some(
                        name_table(rest)[id],
                    );
                assert(records[i].id == id);
            }
        }
    }
}

fn note_name(table: &mut HashMap<u64, String>, id: u64, name: &Option<String>)
    ensures
        names_of(final(table)@) == noted(
            names_of(old(table)@),
            NameRef { id, name: crate::igdb::text_of(*name) },
        ),
{
    broadcast use vstd::std_specs::hash::group_hash_axioms;

    let ghost before = table@;
    match name {
        Some(name) => {
            table.insert(id, name.clone());
            assert(names_of(table@) =~= names_of(before).insert(id, name@));
        },
        None => {},
    }
}

/// Builds the lookup table of a list of platforms.
pub fn platform_table(platforms: &Vec<Platform>) -> (r: HashMap<u64, String>)
    ensures
        names_of(r@) == name_table(platforms.deep_view()),
{
    let mut table: HashMap<u64, String> = HashMap::new();
    assert(names_of(table@) =~= Map::<u64, Seq<char>>::empty());
    let mut i: usize = 0;
    while i < platforms.len()
        invariant
            i <= platforms.len(),
            names_of(table@) == name_table(platforms.deep_view().take(i as int)),
        decreases platforms.len() - i,
    {
        proof {
            assert(platforms.deep_view().take(i + 1).drop_last() =~= platforms.deep_view().take(
                i as int,
            ));
            assert(platforms.deep_view().take(i + 1).last() == platforms[i as int]@);
        }
        note_name(&mut table, platforms[i].id, &platforms[i].name);
        i = i + 1;
    }
    assert(platforms.deep_view().take(platforms.len() as int) =~= platforms.deep_view());
    table
}

/// Builds the lookup table of a list of genres.
pub fn genre_table(genres: &Vec<Genre>) -> (r: HashMap<u64, String>)
    ensures
        names_of(r@) == name_table(genres.deep_view()),
{
    let mut table: HashMap<u64, String> = HashMap::new();
    assert(names_of(table@) =~= Map::<u64, Seq<char>>::empty());
    let mut i: usize = 0;
    while i < genres.len()
        invariant
            i <= genres.len(),
            names_of(table@) == name_table(genres.deep_view().take(i as int)),
        decreases genres.len() - i,
    {
        proof {
            assert(genres.deep_view().take(i + 1).drop_last() =~= genres.deep_view().take(
                i as int,
            ));
            assert(genres.deep_view().take(i + 1).last() == genres[i as int]@);
        }
        note_name(&mut table, genres[i].id, &genres[i].name);
        i = i + 1;
    }
    assert(genres.deep_view().take(genres.len() as int) =~= genres.deep_view());
    table
}

/// Builds the catalog entry of one game from the two lookup tables.
pub fn game_data_from_game_with_maps(
    game: &Game,
    platform_map: &HashMap<u64, String>,
    genre_map: &HashMap<u64, String>,
) -> (r: GameData)
    ensures
        r@ == entry_of(game@, names_of(platform_map@), names_of(genre_map@)),
{
    let platforms = match &game.platforms {
        Some(ids) => resolve_names(ids, platform_map),
        None => Vec::new(),
    };
    let genres = match &game.genres {
        Some(ids) => resolve_names(ids, genre_map),
        None => Vec::new(),
    };
    let name = match &game.name {
        Some(name) => name.clone(),
        None => String::new(),
    };
    let first_release_date = match game.first_release_date {
        Some(t) => decimal_string(t),
        None => String::new(),
    };
    assert(platforms.deep_view() =~= resolved_or_empty(game@.platforms, names_of(platform_map@)));
    assert(genres.deep_view() =~= resolved_or_empty(game@.genres, names_of(genre_map@)));
    GameData { id: game.id, name, platforms, first_release_date, genres }
}

/// Builds the catalog entries of a batch of games from the two lookup
/// tables: one entry per game, in the order of the games.
pub fn assemble(
    games: &Vec<Game>,
    platform_map: &HashMap<u64, String>,
    genre_map: &HashMap<u64, String>,
) -> (r: Vec<GameData>)
    ensures
        r.deep_view() == assembled(
            games.deep_view(),
            names_of(platform_map@),
            names_of(genre_map@),
        ),
{
    let mut out: Vec<GameData> = Vec::new();
    let mut i: usize = 0;
    while i < games.len()
        invariant
            i <= games.len(),
            out.len() == i,
            forall|k: int|
                0 <= k < i ==> (#[trigger] out[k])@ == entry_of(
                    games[k]@,
                    names_of(platform_map@),
                    names_of(genre_map@),
                ),
        decreases games.len() - i,
    {
        let entry = game_data_from_game_with_maps(&games[i], platform_map, genre_map);
        out.push(entry);
        i = i + 1;
    }
    assert(out.deep_view() =~= assembled(
        games.deep_view(),
        names_of(platform_map@),
        names_of(genre_map@),
    ));
    out
}

/// The catalog keeps the order of the games: it has one entry per game, and
/// the entry at each place is that of the game at the same place.
pub proof fn lemma_assembled_keeps_order(
    games: Seq<GameView>,
    platform_names: Map<u64, Seq<char>>,
    genre_names: Map<u64, Seq<char>>,
)
    ensures
        assembled(games, platform_names, genre_names).len() == games.len(),
        forall|i: int|
            0 <= i < games.len() ==> #[trigger] assembled(games, platform_names, genre_names)[i]
                == entry_of(games[i], platform_names, genre_names),
        forall|i: int|
            0 <= i < games.len() ==> (#[trigger] assembled(
                games,
                platform_names,
                genre_names,
            )[i]).id == games[i].id,
{
}

/// An identifier without a name leaves no trace in the resolved names: the
/// names are as many as the known identifiers, each is the name of one of
/// them, and adding an unknown identifier to the list changes nothing.
pub proof fn lemma_unknown_ids_are_dropped(ids: Seq<u64>, names: Map<u64, Seq<char>>)
    ensures
        resolved_names(ids, names).len() == ids.filter(|id: u64| names.contains_key(id)).len(),
        resolved_names(ids, names).len() <= ids.len(),
        forall|i: int|
            0 <= i < resolved_names(ids, names).len() ==> exists|j: int|
                0 <= j < ids.len() && names.contains_key(ids[j]) && #[trigger] resolved_names(
                    ids,
                    names,
                )[i] == names[ids[j]],
        forall|id: u64|
            !names.contains_key(id) ==> #[trigger] resolved_names(ids.push(id), names)
                == resolved_names(ids, names),
        forall|id: u64|
            names.contains_key(id) ==> #[trigger] resolved_names(ids.push(id), names)
                == resolved_names(ids, names).push(names[id]),
        (forall|j: int| 0 <= j < ids.len() ==> !names.contains_key(ids[j])) ==> resolved_names(
            ids,
            names,
        ) == Seq::<Seq<char>>::empty(),
{
    let known = |id: u64| names.contains_key(id);
    let kept = ids.filter(known);
    ids.lemma_filter_len(known);
    assert forall|i: int| 0 <= i < resolved_names(ids, names).len() implies exists|j: int|
        0 <= j < ids.len() && names.contains_key(ids[j]) && #[trigger] resolved_names(ids, names)[i]
            == names[ids[j]] by {
        assert(kept.contains(kept[i]));
        ids.lemma_filter_contains_rev(known, kept[i]);
        let j = choose|j: int| 0 <= j < ids.len() && ids[j] == kept[i];
        assert(names.contains_key(ids[j]));
    }
    assert forall|id: u64| !names.contains_key(id) implies #[trigger] resolved_names(
        ids.push(id),
        names,
    ) == resolved_names(ids, names) by {
        ids.lemma_filter_push(id, known);
    }
    assert forall|id: u64| names.contains_key(id) implies #[trigger] resolved_names(
        ids.push(id),
        names,
    ) == resolved_names(ids, names).push(names[id]) by {
        ids.lemma_filter_push(id, known);
        assert(resolved_names(ids.push(id), names) =~= resolved_names(ids, names).push(names[id]));
    }
    if forall|j: int| 0 <= j < ids.len() ==> !names.contains_key(ids[j]) {
        if kept.len() > 0 {
            assert(kept.contains(kept[0]));
            ids.lemma_filter_contains_rev(known, kept[0]);
        }
        assert(resolved_names(ids, names) =~= Seq::<Seq<char>>::empty());
    }
}

} // verus!
