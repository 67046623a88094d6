//! Players, and the items they collect.

use crate::names::{copy_texts, texts};
use crate::record::{Record, RecordView};
use vstd::prelude::*;

verus! {

/// Somebody who takes part in a session. A player begins with full health
/// and carries nothing.
#[derive(Debug, PartialEq, Eq)]
pub struct Player {
    pub name: String,
    pub health: i32,
    pub inventory: Vec<String>,
}

/// The mathematical value of a [`Player`].
pub struct PlayerView {
    pub name: Seq<char>,
    pub health: int,
    pub inventory: Seq<Seq<char>>,
}

impl PlayerView {
    /// A player of this name as it enters a session.
    pub open spec fn fresh(name: Seq<char>) -> PlayerView {
        PlayerView { name, health: 100, inventory: Seq::empty() }
    }

    /// This player after it picked up `item`.
    pub open spec fn with_item(self, item: Seq<char>) -> PlayerView {
        PlayerView { inventory: self.inventory.push(item), ..self }
    }
}

impl View for Player {
    type V = PlayerView;

    open spec fn view(&self) -> PlayerView {
        PlayerView {
            name: self.name@,
            health: self.health as int,
            inventory: texts(self.inventory@),
        }
    }
}

impl Clone for Player {
    fn clone(&self) -> (copy: Self)
        ensures
            copy@ == self@,
    {
        Player {
            name: self.name.clone(),
            health: self.health,
            inventory: copy_texts(&self.inventory),
        }
    }
}

impl Player {
    /// A player called `name`, in full health, with nothing in hand.
    pub fn new(name: String) -> (player: Player)
        ensures
            player@ == PlayerView::fresh(name@),
    {
        let player = Player { name, health: 100, inventory: Vec::new() };
        assert(player@.inventory =~= Seq::empty());
        player
    }

    /// Puts `item` last in the inventory.
    pub fn collect_item(&mut self, item: &String) -> (record: Record)
        ensures
            final(self)@ == old(self)@.with_item(item@),
            record@ == (RecordView::Collected { player: old(self)@.name, item: item@ }),
    {
        self.inventory.push(item.clone());
        assert(self@.inventory =~= old(self)@.inventory.push(item@));
        Record::Collected { player: self.name.clone(), item: item.clone() }
    }

    /// The record of what the player carries.
    pub fn show_inventory(&self) -> (record: Record)
        ensures
            record@ == (RecordView::Inventory { player: self@.name, items: self@.inventory }),
    {
        Record::Inventory { player: self.name.clone(), items: copy_texts(&self.inventory) }
    }
}

/// Something a player can pick up.
#[derive(Debug, PartialEq, Eq)]
pub struct Item {
    pub name: String,
}

impl View for Item {
    type V = Seq<char>;

    open spec fn view(&self) -> Seq<char> {
        self.name@
    }
}

impl Item {
    /// The item called `name`.
    pub fn new(name: String) -> (item: Item)
        ensures
            item@ == name@,
    {
        Item { name }
    }
}

} // verus!
