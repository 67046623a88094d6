//! Lifecycle events, the observers that react to them, and the bus that
//! delivers each event to every registered observer.

use crate::names::{distinct, find_name, same_text};
use std::sync::Arc;
use vstd::prelude::*;

verus! {

/// Something that happened in a session.
#[derive(Debug, PartialEq, Eq)]
pub enum GameEvent {
    PlayerJoined(String),
    EnemySpawned(String),
    PlayerDamaged(String, i32),
    EnemyDefeated(String),
    GameStarted,
    GameEnded,
}

/// The mathematical value of a [`GameEvent`].
pub enum EventView {
    PlayerJoined(Seq<char>),
    EnemySpawned(Seq<char>),
    PlayerDamaged(Seq<char>, int),
    EnemyDefeated(Seq<char>),
    GameStarted,
    GameEnded,
}

impl View for GameEvent {
    type V = EventView;

    open spec fn view(&self) -> EventView {
        match *self {
            GameEvent::PlayerJoined(name) => EventView::PlayerJoined(name@),
            GameEvent::EnemySpawned(name) => EventView::EnemySpawned(name@),
            GameEvent::PlayerDamaged(name, amount) => EventView::PlayerDamaged(
                name@,
                amount as int,
            ),
            GameEvent::EnemyDefeated(name) => EventView::EnemyDefeated(name@),
            GameEvent::GameStarted => EventView::GameStarted,
            GameEvent::GameEnded => EventView::GameEnded,
        }
    }
}

impl Clone for GameEvent {
    fn clone(&self) -> (copy: Self)
        ensures
            copy@ == self@,
    {
        match self {
            GameEvent::PlayerJoined(name) => GameEvent::PlayerJoined(name.clone()),
            GameEvent::EnemySpawned(name) => GameEvent::EnemySpawned(name.clone()),
            GameEvent::PlayerDamaged(name, amount) => GameEvent::PlayerDamaged(
                name.clone(),
                *amount,
            ),
            GameEvent::EnemyDefeated(name) => GameEvent::EnemyDefeated(name.clone()),
            GameEvent::GameStarted => GameEvent::GameStarted,
            GameEvent::GameEnded => GameEvent::GameEnded,
        }
    }
}

/// What an observer makes of an event it cares about.
#[derive(Debug, PartialEq, Eq)]
pub enum Notice {
    /// Somebody else joined the session.
    Joined(String),
    /// An enemy entered the field.
    Spawned(String),
    /// The observer itself was hurt, by this much.
    Damaged(i32),
    /// An enemy fell.
    Defeated(String),
    /// The session opened.
    Ready,
    /// The session closed.
    Farewell,
}

/// The mathematical value of a [`Notice`].
pub enum NoticeView {
    Joined(Seq<char>),
    Spawned(Seq<char>),
    Damaged(int),
    Defeated(Seq<char>),
    Ready,
    Farewell,
}

impl View for Notice {
    type V = NoticeView;

    open spec fn view(&self) -> NoticeView {
        match *self {
            Notice::Joined(name) => NoticeView::Joined(name@),
            Notice::Spawned(name) => NoticeView::Spawned(name@),
            Notice::Damaged(amount) => NoticeView::Damaged(amount as int),
            Notice::Defeated(name) => NoticeView::Defeated(name@),
            Notice::Ready => NoticeView::Ready,
            Notice::Farewell => NoticeView::Farewell,
        }
    }
}

impl Clone for Notice {
    fn clone(&self) -> (copy: Self)
        ensures
            copy@ == self@,
    {
        match self {
            Notice::Joined(name) => Notice::Joined(name.clone()),
            Notice::Spawned(name) => Notice::Spawned(name.clone()),
            Notice::Damaged(amount) => Notice::Damaged(*amount),
            Notice::Defeated(name) => Notice::Defeated(name.clone()),
            Notice::Ready => Notice::Ready,
            Notice::Farewell => Notice::Farewell,
        }
    }
}

/// The value of a notice that may be missing.
pub open spec fn notice_view(notice: Option<Notice>) -> Option<NoticeView> {
    match notice {
        Some(n) => Some(n@),
        None => None,
    }
}

/// One event handed to one observer: who received it, and what it made of it.
#[derive(Debug, PartialEq, Eq)]
pub struct Delivery {
    pub observer: String,
    pub notice: Option<Notice>,
}

/// The mathematical value of a [`Delivery`].
pub struct DeliveryView {
    pub observer: Seq<char>,
    pub notice: Option<NoticeView>,
}

impl View for Delivery {
    type V = DeliveryView;

    open spec fn view(&self) -> DeliveryView {
        DeliveryView { observer: self.observer@, notice: notice_view(self.notice) }
    }
}

impl Clone for Delivery {
    fn clone(&self) -> (copy: Self)
        ensures
            copy@ == self@,
    {
        let notice = match &self.notice {
            Some(notice) => Some(notice.clone()),
            None => None,
        };
        Delivery { observer: self.observer.clone(), notice }
    }
}

/// The value of each delivery of `items`, in order.
pub open spec fn delivery_views(items: Seq<Delivery>) -> Seq<DeliveryView> {
    Seq::new(items.len(), |i: int| items[i]@)
}

/// Something that can be told about events. What it makes of an event is a
/// function of the observer and the event alone.
pub trait Observer {
    /// What this observer makes of `event`; `None` where it lets the event pass.
    spec fn reaction(&self, event: EventView) -> Option<NoticeView>;

    /// Hands `event` to the observer and returns what it makes of it.
    fn update(&self, event: &GameEvent) -> (notice: Option<Notice>)
        ensures
            notice_view(notice) == self.reaction(event@),
    ;
}

/// What the observer kept for the player `me` makes of `event`: it notes
/// everybody else who joins, every enemy that appears or falls, the opening
/// and the closing, and the damage that `me` takes, and nothing else.
pub open spec fn player_reaction(me: Seq<char>, event: EventView) -> Option<NoticeView> {
    match event {
        EventView::PlayerJoined(who) => if who != me {
            Some(NoticeView::Joined(who))
        } else {
            None
        },
        EventView::EnemySpawned(who) => Some(NoticeView::Spawned(who)),
        EventView::PlayerDamaged(who, amount) => if who == me {
            Some(NoticeView::Damaged(amount))
        } else {
            None
        },
        EventView::EnemyDefeated(who) => Some(NoticeView::Defeated(who)),
        EventView::GameStarted => Some(NoticeView::Ready),
        EventView::GameEnded => Some(NoticeView::Farewell),
    }
}

/// The observer that a session keeps for each of its players.
pub struct PlayerObserver {
    name: String,
}

impl View for PlayerObserver {
    type V = Seq<char>;

    /// The name of the player it stands for.
    closed spec fn view(&self) -> Seq<char> {
        self.name@
    }
}

impl PlayerObserver {
    /// The observer for the player called `name`.
    pub fn new(name: String) -> (observer: Self)
        ensures
            observer@ == name@,
    {
        PlayerObserver { name }
    }
}

impl Observer for PlayerObserver {
    open spec fn reaction(&self, event: EventView) -> Option<NoticeView> {
        player_reaction(self@, event)
    }

    fn update(&self, event: &GameEvent) -> (notice: Option<Notice>) {
        match event {
            GameEvent::PlayerJoined(player_name) => {
                if !same_text(player_name.as_str(), self.name.as_str()) {
                    Some(Notice::Joined(player_name.clone()))
                } else {
                    None
                }
            },
            GameEvent::EnemySpawned(enemy_name) => Some(Notice::Spawned(enemy_name.clone())),
            GameEvent::PlayerDamaged(player_name, damage) => {
                if same_text(player_name.as_str(), self.name.as_str()) {
                    Some(Notice::Damaged(*damage))
                } else {
                    None
                }
            },
            GameEvent::EnemyDefeated(enemy_name) => Some(Notice::Defeated(enemy_name.clone())),
            GameEvent::GameStarted => Some(Notice::Ready),
            GameEvent::GameEnded => Some(Notice::Farewell),
        }
    }
}

/// What `observer` makes of each event: the observer as a function.
pub open spec fn reaction_of<O: Observer>(observer: O) -> spec_fn(EventView) -> Option<NoticeView> {
    |event: EventView| observer.reaction(event)
}

/// What the observer kept for the player `me` makes of each event.
pub open spec fn player_watch(me: Seq<char>) -> spec_fn(EventView) -> Option<NoticeView> {
    |event: EventView| player_reaction(me, event)
}

/// The mathematical value of an [`EventManager`]: the registered names in
/// the order in which they were first registered, and beside each name what
/// the observer now registered under it makes of each event.
pub struct Registry {
    pub names: Seq<Seq<char>>,
    pub reactions: Seq<spec_fn(EventView) -> Option<NoticeView>>,
}

impl Registry {
    /// Every name has its observer, and no name is registered twice.
    pub open spec fn valid(self) -> bool {
        &&& self.names.len() == self.reactions.len()
        &&& distinct(self.names)
    }

    /// The registry that holds nothing.
    pub open spec fn empty() -> Self {
        Registry { names: Seq::empty(), reactions: Seq::empty() }
    }

    /// The registry after an observer that reacts as `reaction` says was
    /// registered under `name`: it takes the place of the observer that had
    /// the name, or, where the name is new, the last place.
    pub open spec fn register(
        self,
        name: Seq<char>,
        reaction: spec_fn(EventView) -> Option<NoticeView>,
    ) -> Self {
        if self.names.contains(name) {
            Registry {
                names: self.names,
                reactions: self.reactions.update(self.names.index_of(name), reaction),
            }
        } else {
            Registry { names: self.names.push(name), reactions: self.reactions.push(reaction) }
        }
    }

    /// The registry after `name` was struck from it.
    pub open spec fn unregister(self, name: Seq<char>) -> Self {
        if self.names.contains(name) {
            Registry {
                names: self.names.remove(self.names.index_of(name)),
                reactions: self.reactions.remove(self.names.index_of(name)),
            }
        } else {
            self
        }
    }

    /// The deliveries of one broadcast of `event`: one to each registered
    /// observer, in the order of the registry.
    pub open spec fn deliver(self, event: EventView) -> Seq<DeliveryView> {
        Seq::new(
            self.names.len(),
            |i: int| DeliveryView { observer: self.names[i], notice: (self.reactions[i])(event) },
        )
    }
}

/// The bus: a registry of named observers, and the broadcast of an event to
/// all of them. Observers are kept in the order in which their names were
/// first registered; an observer registered under a name already taken
/// replaces the earlier one in its place.
pub struct EventManager<O: Observer> {
    names: Vec<String>,
    observers: Vec<Arc<O>>,
}

impl<O: Observer> View for EventManager<O> {
    type V = Registry;

    closed spec fn view(&self) -> Registry {
        Registry {
            names: crate::names::texts(self.names@),
            reactions: Seq::new(self.observers@.len(), |i: int| reaction_of(*self.observers@[i])),
        }
    }
}

impl<O: Observer> EventManager<O> {
    /// A bus with nobody registered.
    pub fn new() -> (bus: Self)
        ensures
            bus@ == Registry::empty(),
            bus@.valid(),
    {
        let bus = EventManager { names: Vec::new(), observers: Vec::new() };
        assert(bus@.names =~= Seq::empty());
        assert(bus@.reactions =~= Seq::empty());
        bus
    }

    /// Registers `observer` under `name`, in place of whoever had that name.
    pub fn add_observer(&mut self, name: String, observer: Arc<O>)
        requires
            old(self)@.valid(),
        ensures
            final(self)@ == old(self)@.register(name@, reaction_of(*observer)),
            final(self)@.valid(),
    {
        match find_name(&self.names, name.as_str()) {
            Some(i) => {
                self.observers[i] = observer;
                assert(self@.reactions =~= old(self)@.reactions.update(
                    i as int,
                    reaction_of(*observer),
                ));
            },
            None => {
                self.names.push(name);
                self.observers.push(observer);
                assert(self@.names =~= old(self)@.names.push(name@));
                assert(self@.reactions =~= old(self)@.reactions.push(reaction_of(*observer)));
            },
        }
    }

    /// Strikes `observer_name` from the registry. Where nobody is registered
    /// under that name, nothing changes.
    pub fn remove_observer(&mut self, observer_name: &str)
        requires
            old(self)@.valid(),
        ensures
            final(self)@ == old(self)@.unregister(observer_name@),
            !old(self)@.names.contains(observer_name@) ==> final(self)@ == old(self)@,
            final(self)@.valid(),
    {
        match find_name(&self.names, observer_name) {
            Some(i) => {
                self.names.remove(i);
                self.observers.remove(i);
                assert(self@.names =~= old(self)@.names.remove(i as int));
                assert(self@.reactions =~= old(self)@.reactions.remove(i as int));
            },
            None => {},
        }
    }

    /// The registered names, in the order of the registry.
    pub fn names(&self) -> (names: &Vec<String>)
        ensures
            crate::names::texts(names@) == self@.names,
    {
        &self.names
    }

    /// Hands `event` to every registered observer, in the order of the
    /// registry, and returns what each made of it.
    pub fn broadcast_event(&self, event: &GameEvent) -> (deliveries: Vec<Delivery>)
        requires
            self@.valid(),
        ensures
            deliveries@.len() == self@.names.len(),
            delivery_views(deliveries@) == self@.deliver(event@),
    {
        let mut deliveries: Vec<Delivery> = Vec::new();
        let mut i: usize = 0;
        while i < self.names.len()
            invariant
                i <= self.names.len(),
                self@.valid(),
                self@.names.len() == self.names.len(),
                deliveries.len() == i,
                forall|j: int| 0 <= j < i ==> deliveries@[j]@ == self@.deliver(event@)[j],
            decreases self.names.len() - i,
        {
            let notice = self.observers[i].update(event);
            deliveries.push(Delivery { observer: self.names[i].clone(), notice });
            i += 1;
        }
        deliveries
    }
}

/// Something that observers can be registered with and that tells them of
/// events.
pub trait Subject<O: Observer> {
    /// Who is registered.
    spec fn registry(&self) -> Registry;

    /// Registers `observer` under `name`, in place of whoever had that name.
    fn add_observer(&mut self, name: String, observer: Arc<O>)
        requires
            old(self).registry().valid(),
        ensures
            final(self).registry() == old(self).registry().register(name@, reaction_of(*observer)),
            final(self).registry().valid(),
    ;

    /// Strikes `observer_name` from the registry, if it is there.
    fn remove_observer(&mut self, observer_name: &str)
        requires
            old(self).registry().valid(),
        ensures
            final(self).registry() == old(self).registry().unregister(observer_name@),
            final(self).registry().valid(),
    ;

    /// Hands `event` to every registered observer, in the order of the
    /// registry, and returns what each made of it.
    fn notify_observers(&self, event: &GameEvent) -> (deliveries: Vec<Delivery>)
        requires
            self.registry().valid(),
        ensures
            delivery_views(deliveries@) == self.registry().deliver(event@),
    ;
}

impl<O: Observer> Subject<O> for EventManager<O> {
    open spec fn registry(&self) -> Registry {
        self@
    }

    fn add_observer(&mut self, name: String, observer: Arc<O>) {
        EventManager::add_observer(self, name, observer)
    }

    fn remove_observer(&mut self, observer_name: &str) {
        EventManager::remove_observer(self, observer_name)
    }

    fn notify_observers(&self, event: &GameEvent) -> (deliveries: Vec<Delivery>) {
        self.broadcast_event(event)
    }
}

} // verus!
