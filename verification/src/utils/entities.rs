//! Groups of entities whose status is shown together.

use crate::models::enemy::Enemy;
use crate::models::player::Player;
use crate::record::{append_records, record_views, Record, RecordView};
use vstd::prelude::*;

verus! {

/// Something whose status can be shown and that is alive or not.
pub trait EntityComponent {
    /// The records that show how the entity stands.
    spec fn status(&self) -> Seq<RecordView>;

    /// Whether the entity is alive.
    spec fn alive(&self) -> bool;

    /// The records that show how the entity stands.
    fn display_status(&self) -> (records: Vec<Record>)
        ensures
            record_views(records@) == self.status(),
    ;

    /// Whether the entity is alive.
    fn is_alive(&self) -> (alive: bool)
        ensures
            alive == self.alive(),
    ;
}

impl EntityComponent for Player {
    /// A player shows its health and then what it carries.
    open spec fn status(&self) -> Seq<RecordView> {
        seq![
            RecordView::PlayerStatus { player: self@.name, health: self@.health },
            RecordView::Inventory { player: self@.name, items: self@.inventory },
        ]
    }

    open spec fn alive(&self) -> bool {
        self@.health > 0
    }

    fn display_status(&self) -> (records: Vec<Record>) {
        let mut records: Vec<Record> = Vec::new();
        records.push(Record::PlayerStatus { player: self.name.clone(), health: self.health });
        records.push(self.show_inventory());
        records
    }

    fn is_alive(&self) -> (alive: bool) {
        self.health > 0
    }
}

impl EntityComponent for Enemy {
    /// An enemy shows its health.
    open spec fn status(&self) -> Seq<RecordView> {
        seq![RecordView::EnemyStatus { enemy: self@.name, health: self@.health }]
    }

    open spec fn alive(&self) -> bool {
        self@.health > 0
    }

    fn display_status(&self) -> (records: Vec<Record>) {
        let mut records: Vec<Record> = Vec::new();
        records.push(Record::EnemyStatus { enemy: self.name.clone(), health: self.health });
        records
    }

    fn is_alive(&self) -> (alive: bool) {
        self.health > 0
    }
}

/// A player or an enemy, for groups that hold both.
pub enum Entity {
    Player(Player),
    Enemy(Enemy),
}

impl EntityComponent for Entity {
    open spec fn status(&self) -> Seq<RecordView> {
        match *self {
            Entity::Player(player) => player.status(),
            Entity::Enemy(enemy) => enemy.status(),
        }
    }

    open spec fn alive(&self) -> bool {
        match *self {
            Entity::Player(player) => player.alive(),
            Entity::Enemy(enemy) => enemy.alive(),
        }
    }

    fn display_status(&self) -> (records: Vec<Record>) {
        match self {
            Entity::Player(player) => player.display_status(),
            Entity::Enemy(enemy) => enemy.display_status(),
        }
    }

    fn is_alive(&self) -> (alive: bool) {
        match self {
            Entity::Player(player) => player.is_alive(),
            Entity::Enemy(enemy) => enemy.is_alive(),
        }
    }
}

/// The status of the first `upto` of `entities`, one entity after another.
pub open spec fn statuses<E: EntityComponent>(entities: Seq<E>, upto: int) -> Seq<RecordView>
    decreases upto,
{
    if upto <= 0 {
        Seq::empty()
    } else {
        statuses(entities, upto - 1) + entities[upto - 1].status()
    }
}

/// The mathematical value of an [`EntityGroup`].
pub struct GroupView<E> {
    pub name: Seq<char>,
    /// The members, in the order in which they were added.
    pub entities: Seq<E>,
}

/// A named group of entities.
pub struct EntityGroup<E: EntityComponent> {
    name: String,
    entities: Vec<E>,
}

impl<E: EntityComponent> View for EntityGroup<E> {
    type V = GroupView<E>;

    closed spec fn view(&self) -> GroupView<E> {
        GroupView { name: self.name@, entities: self.entities@ }
    }
}

impl<E: EntityComponent> EntityGroup<E> {
    /// A group called `name` with no members.
    pub fn new(name: String) -> (group: Self)
        ensures
            group@ == (GroupView::<E> { name: name@, entities: Seq::empty() }),
    {
        EntityGroup { name, entities: Vec::new() }
    }

    /// Adds `entity` as the last member.
    pub fn add_entity(&mut self, entity: E)
        ensures
            final(self)@ == (GroupView {
                entities: old(self)@.entities.push(entity),
                ..old(self)@
            }),
    {
        self.entities.push(entity);
    }

    /// The group's heading and then the status of every member, in the order
    /// in which the members were added.
    pub fn display_group_status(&self) -> (records: Vec<Record>)
        ensures
            record_views(records@) == seq![RecordView::Group { name: self@.name }] + statuses(
                self@.entities,
                self@.entities.len() as int,
            ),
    {
        let mut records: Vec<Record> = Vec::new();
        records.push(Record::Group { name: self.name.clone() });
        let ghost heading = record_views(records@);
        let mut i: usize = 0;
        while i < self.entities.len()
            invariant
                i <= self.entities.len(),
                heading == seq![RecordView::Group { name: self@.name }],
                record_views(records@) == heading + statuses(self@.entities, i as int),
            decreases self.entities.len() - i,
        {
            let shown = self.entities[i].display_status();
            append_records(&mut records, shown);
            i += 1;
        }
        records
    }

    /// The members, in the order in which they were added.
    pub fn entities(&self) -> (entities: &Vec<E>)
        ensures
            entities@ == self@.entities,
    {
        &self.entities
    }
}

} // verus!
