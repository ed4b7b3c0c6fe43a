//! Message definitions exchanged between the game's client and server
//! halves.  The core defines no wire protocol: these are the plain
//! values a transport outside this crate would carry.

use crate::entities::Player;
use crate::inventory::Inventory;
use crate::skills::Skills;
use crate::world::Position;
use vstd::prelude::*;

verus! {

/// A compass direction a movement signal names.
#[derive(Clone, Copy, Debug, PartialEq, Eq, Structural)]
pub enum MovementDirection {
    North,
    South,
    East,
    West,
    NorthEast,
    NorthWest,
    SouthEast,
    SouthWest,
}

/// The audience of a chat message.
#[derive(Clone, Copy, Debug, PartialEq, Eq, Structural)]
pub enum ChatChannel {
    Global,
    Local,
    Private,
    Clan,
    Trade,
}

/// What a client tells the server.
#[derive(Clone, Debug)]
pub enum ClientMessage {
    PlayerMovement { direction: MovementDirection },
    ChatMessage { content: String, channel: ChatChannel },
    InteractWithEntity { entity_id: u64 },
    UseItem { item_id: u64, target_item_id: Option<u64> },
}

/// What the server tells a client.
pub enum ServerMessage {
    PlayerJoined { player: Player, position: Position },
    PlayerLeft { player_id: u64 },
    EntityMoved { entity_id: u64, position: Position },
    ChatReceived { sender_id: u64, sender_name: String, content: String, channel: ChatChannel },
    InventoryUpdate { inventory: Inventory },
    SkillsUpdate { skills: Skills },
}

} // verus!
