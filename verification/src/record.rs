//! The records that the operations of this crate return: one for each thing
//! that happened, in the order in which it happened.

use crate::game_event::{Delivery, DeliveryView, EventView, GameEvent};
use vstd::prelude::*;

verus! {

/// One thing that happened.
#[derive(Debug, PartialEq, Eq)]
pub enum Record {
    /// A round of combat began.
    RoundStarted,
    /// What a player carries.
    Inventory { player: String, items: Vec<String> },
    /// A player picked up an item.
    Collected { player: String, item: String },
    /// An enemy stepped forward.
    Appeared { enemy: String },
    /// A player struck at an enemy.
    Attacked { player: String, enemy: String },
    /// An enemy lost `damage` health and has `remaining` left.
    Hit { enemy: String, damage: i32, remaining: i32 },
    /// An enemy's armor kept `amount` of a blow away from it.
    Absorbed { enemy: String, amount: i32 },
    /// An enemy was defeated.
    Fell { enemy: String },
    /// An event was put on the bus.
    Broadcast(GameEvent),
    /// An observer was handed the event last put on the bus.
    Delivered(Delivery),
    /// The heading of a group's status.
    Group { name: String },
    /// How a player stands.
    PlayerStatus { player: String, health: i32 },
    /// How an enemy stands.
    EnemyStatus { enemy: String, health: i32 },
}

/// The mathematical value of a [`Record`].
pub enum RecordView {
    RoundStarted,
    Inventory { player: Seq<char>, items: Seq<Seq<char>> },
    Collected { player: Seq<char>, item: Seq<char> },
    Appeared { enemy: Seq<char> },
    Attacked { player: Seq<char>, enemy: Seq<char> },
    Hit { enemy: Seq<char>, damage: int, remaining: int },
    Absorbed { enemy: Seq<char>, amount: int },
    Fell { enemy: Seq<char> },
    Broadcast(EventView),
    Delivered(DeliveryView),
    Group { name: Seq<char> },
    PlayerStatus { player: Seq<char>, health: int },
    EnemyStatus { enemy: Seq<char>, health: int },
}

impl View for Record {
    type V = RecordView;

    open spec fn view(&self) -> RecordView {
        match *self {
            Record::RoundStarted => RecordView::RoundStarted,
            Record::Inventory { player, items } => RecordView::Inventory {
                player: player@,
                items: crate::names::texts(items@),
            },
            Record::Collected { player, item } => RecordView::Collected {
                player: player@,
                item: item@,
            },
            Record::Appeared { enemy } => RecordView::Appeared { enemy: enemy@ },
            Record::Attacked { player, enemy } => RecordView::Attacked {
                player: player@,
                enemy: enemy@,
            },
            Record::Hit { enemy, damage, remaining } => RecordView::Hit {
                enemy: enemy@,
                damage: damage as int,
                remaining: remaining as int,
            },
            Record::Absorbed { enemy, amount } => RecordView::Absorbed {
                enemy: enemy@,
                amount: amount as int,
            },
            Record::Fell { enemy } => RecordView::Fell { enemy: enemy@ },
            Record::Broadcast(event) => RecordView::Broadcast(event@),
            Record::Delivered(delivery) => RecordView::Delivered(delivery@),
            Record::Group { name } => RecordView::Group { name: name@ },
            Record::PlayerStatus { player, health } => RecordView::PlayerStatus {
                player: player@,
                health: health as int,
            },
            Record::EnemyStatus { enemy, health } => RecordView::EnemyStatus {
                enemy: enemy@,
                health: health as int,
            },
        }
    }
}

/// The value of each record of `items`, in order.
pub open spec fn record_views(items: Seq<Record>) -> Seq<RecordView> {
    Seq::new(items.len(), |i: int| items[i]@)
}

/// Each delivery of `deliveries` as a record, in order.
pub open spec fn as_delivered(deliveries: Seq<DeliveryView>) -> Seq<RecordView> {
    Seq::new(deliveries.len(), |i: int| RecordView::Delivered(deliveries[i]))
}

/// The events that `records` show to have been put on the bus, in order.
pub open spec fn events_of(records: Seq<RecordView>) -> Seq<EventView>
    decreases records.len(),
{
    if records.len() == 0 {
        Seq::empty()
    } else {
        match records.last() {
            RecordView::Broadcast(event) => events_of(records.drop_last()).push(event),
            _ => events_of(records.drop_last()),
        }
    }
}

/// A single record shows the event that it put on the bus, if it put one.
pub proof fn lemma_events_of_one(record: RecordView)
    ensures
        events_of(seq![record]) == match record {
            RecordView::Broadcast(event) => seq![event],
            _ => Seq::<EventView>::empty(),
        },
{
    reveal_with_fuel(events_of, 2);
    match record {
        RecordView::Broadcast(event) => {
        },
        _ => {},
    }
}

/// The events of two runs of records are those of the first and then those
/// of the second.
pub proof fn lemma_events_of_both(first: Seq<RecordView>, second: Seq<RecordView>)
    ensures
        events_of(first + second) == events_of(first) + events_of(second),
    decreases second.len(),
{
    if second.len() == 0 {
    } else {
        assert((first + second).drop_last() =~= first + second.drop_last());
        lemma_events_of_both(first, second.drop_last());
    }
}

/// The value of each event of `items`, in order.
pub open spec fn event_views(items: Seq<GameEvent>) -> Seq<EventView> {
    Seq::new(items.len(), |i: int| items[i]@)
}

/// The events that `records` show to have been put on the bus, in order.
pub fn broadcast_events(records: &Vec<Record>) -> (events: Vec<GameEvent>)
    ensures
        event_views(events@) == events_of(record_views(records@)),
{
    let mut events: Vec<GameEvent> = Vec::new();
    let mut i: usize = 0;
    while i < records.len()
        invariant
            i <= records.len(),
            event_views(events@) == events_of(record_views(records@).take(i as int)),
        decreases records.len() - i,
    {
        let ghost seen = record_views(records@).take(i as int);
        let ghost next = record_views(records@).take(i + 1);
        assert(next.drop_last() =~= seen);
        match &records[i] {
            Record::Broadcast(event) => {
                events.push(event.clone());
            },
            _ => {},
        }
        i += 1;
    }
    assert(record_views(records@).take(i as int) =~= record_views(records@));
    events
}

/// Moves the records of `more` to the end of `records`.
pub fn append_records(records: &mut Vec<Record>, more: Vec<Record>)
    ensures
        record_views(final(records)@) == record_views(old(records)@) + record_views(more@),
{
    let mut more = more;
    records.append(&mut more);
}

} // verus!
