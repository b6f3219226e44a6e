//! The identifiers that a batch of games refers to: each once, in the order
//! in which the batch first names it.

use std::collections::HashSet;
use vstd::prelude::*;
use crate::igdb::Game;
use crate::igdb::GameView;

verus! {

/// `acc` followed by the items of `s` that are new, each at its first
/// occurrence.
pub open spec fn distinct_onto(acc: Seq<u64>, s: Seq<u64>) -> Seq<u64>
    decreases s.len(),
{
    if s.len() == 0 {
        acc
    } else {
        let sofar = distinct_onto(acc, s.drop_last());
        if sofar.contains(s.last()) {
            sofar
        } else {
            sofar.push(s.last())
        }
    }
}

/// The items of `s`, each once, in the order of their first occurrence.
pub open spec fn distinct(s: Seq<u64>) -> Seq<u64> {
    distinct_onto(Seq::empty(), s)
}

/// The items of an optional list: none where the list is missing.
pub open spec fn listed(ids: Option<Seq<u64>>) -> Seq<u64> {
    match ids {
        Some(ids) => ids,
        None => Seq::empty(),
    }
}

/// Every platform identifier that the games name, game after game,
/// repetitions included.
pub open spec fn platform_refs(games: Seq<GameView>) -> Seq<u64> {
    games.map_values(|g: GameView| listed(g.platforms)).flatten()
}

/// Every genre identifier that the games name, game after game, repetitions
/// included.
pub open spec fn genre_refs(games: Seq<GameView>) -> Seq<u64> {
    games.map_values(|g: GameView| listed(g.genres)).flatten()
}

/// Taking the new items of `a + b` is taking those of `a`, then those of
/// `b`.
pub proof fn lemma_distinct_onto_concat(acc: Seq<u64>, a: Seq<u64>, b: Seq<u64>)
    ensures
        distinct_onto(acc, a + b) == distinct_onto(distinct_onto(acc, a), b),
    decreases b.len(),
{
    if b.len() == 0 {
        assert(a + b =~= a);
    } else {
        assert((a + b).drop_last() =~= a + b.drop_last());
        assert((a + b).last() == b.last());
        lemma_distinct_onto_concat(acc, a, b.drop_last());
    }
}

/// Taking the new items of `s` onto a list without repetitions gives a list
/// without repetitions that holds what `acc` and `s` hold, and starts with
/// `acc`.
pub proof fn lemma_distinct_onto(acc: Seq<u64>, s: Seq<u64>)
    requires
        acc.no_duplicates(),
    ensures
        distinct_onto(acc, s).no_duplicates(),
        distinct_onto(acc, s).to_set() == acc.to_set().union(s.to_set()),
        acc.is_prefix_of(distinct_onto(acc, s)),
    decreases s.len(),
{
    let out = distinct_onto(acc, s);
    if s.len() == 0 {
        assert(s.to_set() =~= Set::<u64>::empty());
        assert(out.to_set() =~= acc.to_set().union(s.to_set()));
    } else {
        let sofar = distinct_onto(acc, s.drop_last());
        lemma_distinct_onto(acc, s.drop_last());
        assert(s =~= s.drop_last().push(s.last()));
        s.drop_last().lemma_push_to_set_commute(s.last());
        if sofar.contains(s.last()) {
            assert(out.to_set() =~= acc.to_set().union(s.to_set()));
        } else {
            sofar.lemma_push_to_set_commute(s.last());
            assert(out.to_set() =~= acc.to_set().union(s.to_set()));
            assert(out.no_duplicates()) by {
                assert forall|i: int, j: int| 0 <= i < out.len() && 0 <= j < out.len() && i
                    != j implies out[i] != out[j] by {
                    if i < sofar.len() && j < sofar.len() {
                    } else if i < sofar.len() {
                        assert(sofar.contains(out[i]));
                    } else {
                        assert(sofar.contains(out[j]));
                    }
                }
            }
        }
    }
}

/// The distinct items of a list hold exactly what the list holds, each
/// once.
pub proof fn lemma_distinct(s: Seq<u64>)
    ensures
        distinct(s).no_duplicates(),
        distinct(s).to_set() == s.to_set(),
        forall|id: u64| distinct(s).contains(id) <==> s.contains(id),
{
    lemma_distinct_onto(Seq::empty(), s);
    assert(Seq::<u64>::empty().to_set() =~= Set::<u64>::empty());
    assert(distinct(s).to_set() =~= s.to_set());
    assert forall|id: u64| distinct(s).contains(id) <==> s.contains(id) by {
        assert(distinct(s).to_set().contains(id) <==> s.to_set().contains(id));
    }
}

/// Adds to `order` the items of `ids` that `seen` does not hold yet, and to
/// `seen` all of them.
fn note_ids(seen: &mut HashSet<u64>, order: &mut Vec<u64>, ids: &Vec<u64>)
    requires
        old(seen)@ == old(order)@.to_set(),
    ensures
        final(seen)@ == final(order)@.to_set(),
        final(order)@ == distinct_onto(old(order)@, ids@),
{
    broadcast use vstd::std_specs::hash::group_hash_axioms;

    let ghost start = order@;
    let mut i: usize = 0;
    while i < ids.len()
        invariant
            i <= ids.len(),
            seen@ == order@.to_set(),
            order@ == distinct_onto(start, ids@.take(i as int)),
        decreases ids.len() - i,
    {
        let id = ids[i];
        proof {
            assert(ids@.take(i + 1).drop_last() =~= ids@.take(i as int));
            assert(ids@.take(i + 1).last() == id);
            assert(order@.contains(id) <==> order@.to_set().contains(id));
        }
        if !seen.contains(&id) {
            proof {
                order@.lemma_push_to_set_commute(id);
            }
            seen.insert(id);
            order.push(id);
        }
        i = i + 1;
    }
    assert(ids@.take(ids.len() as int) =~= ids@);
}

/// The platform identifiers and the genre identifiers that `games` refer to:
/// each list holds every identifier once, in the order in which the batch
/// first names it.
pub fn referenced_ids(games: &Vec<Game>) -> (r: (Vec<u64>, Vec<u64>))
    ensures
        r.0@ == distinct(platform_refs(games.deep_view())),
        r.1@ == distinct(genre_refs(games.deep_view())),
{
    let mut seen_platforms: HashSet<u64> = HashSet::new();
    let mut seen_genres: HashSet<u64> = HashSet::new();
    let mut platform_ids: Vec<u64> = Vec::new();
    let mut genre_ids: Vec<u64> = Vec::new();
    let ghost platform_lists = games.deep_view().map_values(|g: GameView| listed(g.platforms));
    let ghost genre_lists = games.deep_view().map_values(|g: GameView| listed(g.genres));
    proof {
        assert(platform_ids@.to_set() =~= Set::<u64>::empty());
        assert(genre_ids@.to_set() =~= Set::<u64>::empty());
        assert(platform_lists.take(0) =~= Seq::<Seq<u64>>::empty());
        assert(genre_lists.take(0) =~= Seq::<Seq<u64>>::empty());
    }
    let mut i: usize = 0;
    while i < games.len()
        invariant
            i <= games.len(),
            platform_lists == games.deep_view().map_values(|g: GameView| listed(g.platforms)),
            genre_lists == games.deep_view().map_values(|g: GameView| listed(g.genres)),
            seen_platforms@ == platform_ids@.to_set(),
            seen_genres@ == genre_ids@.to_set(),
            platform_ids@ == distinct(platform_lists.take(i as int).flatten()),
            genre_ids@ == distinct(genre_lists.take(i as int).flatten()),
        decreases games.len() - i,
    {
        let game = &games[i];
        let ghost p = listed(game@.platforms);
        let ghost g = listed(game@.genres);
        proof {
            assert(platform_lists.take(i + 1) =~= platform_lists.take(i as int).push(p));
            assert(genre_lists.take(i + 1) =~= genre_lists.take(i as int).push(g));
            platform_lists.take(i as int).lemma_flatten_push(p);
            genre_lists.take(i as int).lemma_flatten_push(g);
            lemma_distinct_onto_concat(
                Seq::empty(),
                platform_lists.take(i as int).flatten(),
                p,
            );
            lemma_distinct_onto_concat(Seq::empty(), genre_lists.take(i as int).flatten(), g);
            assert(distinct_onto(platform_ids@, Seq::<u64>::empty()) == platform_ids@);
            assert(distinct_onto(genre_ids@, Seq::<u64>::empty()) == genre_ids@);
        }
        match &game.platforms {
            Some(ids) => note_ids(&mut seen_platforms, &mut platform_ids, ids),
            None => {},
        }
        match &game.genres {
            Some(ids) => note_ids(&mut seen_genres, &mut genre_ids, ids),
            None => {},
        }
        i = i + 1;
    }
    proof {
        assert(platform_lists.take(games.len() as int) =~= platform_lists);
        assert(genre_lists.take(games.len() as int) =~= genre_lists);
    }
    (platform_ids, genre_ids)
}

} // verus!
