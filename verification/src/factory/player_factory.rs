//! The makers of players and of items.

use crate::models::player::{Item, Player, PlayerView};
use vstd::prelude::*;
use vstd::string::to_string_from_display_ensures_for_str;

verus! {

/// Makes players.
pub struct PlayerFactory;

impl PlayerFactory {
    /// A player called `name`, in full health, with nothing in hand.
    pub fn create_player(name: &str) -> (player: Player)
        ensures
            player@ == PlayerView::fresh(name@),
    {
        broadcast use to_string_from_display_ensures_for_str;

        Player::new(name.to_string())
    }
}

/// Makes items.
pub struct ItemFactory;

impl ItemFactory {
    /// The item called `name`.
    pub fn create_item(name: &str) -> (item: Item)
        ensures
            item@ == name@,
    {
        broadcast use to_string_from_display_ensures_for_str;

        Item::new(name.to_string())
    }
}

} // verus!
