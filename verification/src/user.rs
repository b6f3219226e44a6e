//! A user and the games on their shelf.

use vstd::prelude::*;
use crate::igdb::manager::GameData;

verus! {

/// Whether `id` has the fixed bits of a random (version 4) UUID: version 4
/// and the standard variant.
pub open spec fn is_random_uuid(id: u128) -> bool {
    id & 0xF000_C000_0000_0000_0000u128 == 0x4000_8000_0000_0000_0000u128
}

/// `uuid::Uuid::new_v4`, read as a number by `Uuid::as_u128`: 122 random
/// bits around the fixed version and variant bits. Which number comes is
/// left open; a second call gives another.
#[verifier::external_body]
fn fresh_id() -> (r: u128)
    ensures
        is_random_uuid(r),
{
    uuid::Uuid::new_v4().as_u128()
}

/// A user of the shelf.
#[derive(Debug, Clone, PartialEq)]
pub struct User {
    pub id: u128,
    pub username: String,
    pub name: String,
    pub description: String,
    pub games: Vec<GameData>,
}

impl User {
    /// A new user with a fresh random identifier and an empty shelf.
    pub fn new(username: String, name: String, description: String) -> (r: Self)
        ensures
            is_random_uuid(r.id),
            r.username == username,
            r.name == name,
            r.description == description,
            r.games@ == Seq::<GameData>::empty(),
    {
        User { id: fresh_id(), username, name, description, games: Vec::new() }
    }

    /// Puts `game` at the end of the shelf, whether or not it is there
    /// already.
    pub fn add_game(&mut self, game: GameData)
        ensures
            final(self).games@ == old(self).games@.push(game),
            final(self).id == old(self).id,
            final(self).username == old(self).username,
            final(self).name == old(self).name,
            final(self).description == old(self).description,
    {
        self.games.push(game);
    }

    /// Takes every game with the identifier of `game` off the shelf; the
    /// others keep their order.
    pub fn remove_game(&mut self, game: GameData)
        ensures
            final(self).games@ == old(self).games@.filter(|g: GameData| g.id != game.id),
            final(self).id == old(self).id,
            final(self).username == old(self).username,
            final(self).name == old(self).name,
            final(self).description == old(self).description,
    {
        let ghost shelf = self.games@;
        let ghost keep = |g: GameData| g.id != game.id;
        let ghost mut seen: int = 0;
        let mut i: usize = 0;
        assert(shelf.take(0) =~= Seq::<GameData>::empty());
        assert(shelf.skip(0) =~= shelf);
        while i < self.games.len()
            invariant
                0 <= seen <= shelf.len(),
                keep == (|g: GameData| g.id != game.id),
                i == shelf.take(seen).filter(keep).len(),
                self.games@ == shelf.take(seen).filter(keep) + shelf.skip(seen),
                self.id == old(self).id,
                self.username == old(self).username,
                self.name == old(self).name,
                self.description == old(self).description,
            decreases shelf.len() - seen,
        {
            proof {
                assert(self.games@[i as int] == shelf.skip(seen)[0]);
                assert(shelf.take(seen + 1) =~= shelf.take(seen).push(shelf[seen]));
                shelf.take(seen).lemma_filter_push(shelf[seen], keep);
            }
            if self.games[i].id == game.id {
                self.games.remove(i);
                assert(self.games@ =~= shelf.take(seen + 1).filter(keep) + shelf.skip(seen + 1));
            } else {
                assert(self.games@ =~= shelf.take(seen + 1).filter(keep) + shelf.skip(seen + 1));
                i = i + 1;
            }
            proof {
                seen = seen + 1;
            }
        }
        assert(shelf.take(seen) =~= shelf);
        assert(self.games@ =~= shelf.filter(keep));
    }

    /// The shelf.
    pub fn get_games(&self) -> (r: &Vec<GameData>)
        ensures
            r == self.games,
    {
        &self.games
    }
}

} // verus!
