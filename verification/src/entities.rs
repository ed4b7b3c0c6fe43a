//! Actor and item identities shared between the game's client and
//! server halves.

use vstd::prelude::*;

verus! {

/// A player actor's identity.
#[derive(Clone, Debug)]
pub struct Player {
    pub id: u64,
    pub username: String,
}

/// A non-player character's identity.
#[derive(Clone, Debug)]
pub struct NPC {
    pub id: u64,
    pub name: String,
    pub level: u32,
}

/// A world item's identity and base attributes.
#[derive(Clone, Debug)]
pub struct Item {
    pub id: u64,
    pub name: String,
    pub description: String,
    pub stackable: bool,
    pub value: u32,
}

/// Draws a fresh entity identifier.
///
/// Relies on rand's `random`: it returns a value of the requested
/// type from the thread-local generator.  Nothing can be promised of
/// which value comes back.
#[verifier::external_body]
fn random_entity_id() -> u64 {
    rand::random::<u64>()
}

/// Creates a player with the given name under a freshly drawn
/// identifier.
pub fn create_player(username: String) -> (player: Player)
    ensures
        player.username == username,
{
    Player { id: random_entity_id(), username }
}

} // verus!
