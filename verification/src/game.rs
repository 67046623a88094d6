//! The session: the players and enemies of one run, the bus that tells of
//! what happens to them, and the round of combat.
//!
//! Players cannot be hurt: a round takes health from enemies only.

use crate::game_event::{
    delivery_views, player_watch, reaction_of, EventManager, EventView, GameEvent, Observer,
    PlayerObserver, Registry,
};
use crate::models::enemy::{AnyEnemy, EnemyBehavior, EnemyView};
use crate::models::player::{Item, Player, PlayerView};
use crate::names::{first_at, first_index, same_text};
use crate::record::{append_records, as_delivered, record_views, Record, RecordView};
use std::sync::Arc;
use vstd::prelude::*;

verus! {

/// The damage of every blow that a player strikes in a round.
pub const HIT_DAMAGE: i32 = 10;

/// The value of each player of `players`, in order.
pub open spec fn player_views(players: Seq<Player>) -> Seq<PlayerView> {
    Seq::new(players.len(), |i: int| players[i]@)
}

/// The value of each enemy of `enemies`, in order.
pub open spec fn enemy_views(enemies: Seq<AnyEnemy>) -> Seq<EnemyView> {
    Seq::new(enemies.len(), |i: int| enemies[i]@)
}

/// The name of each player of `players`, in order.
pub open spec fn player_names(players: Seq<PlayerView>) -> Seq<Seq<char>> {
    Seq::new(players.len(), |i: int| players[i].name)
}

/// The records of putting `event` on the bus: the event, then one delivery
/// to each registered observer, in the order of the registry.
pub open spec fn broadcast(observers: Registry, event: EventView) -> Seq<
    RecordView,
> {
    seq![RecordView::Broadcast(event)] + as_delivered(observers.deliver(event))
}

/// The records of the blow that `player` strikes at `enemy`: the attack, the
/// news of it on the bus, and what it does to the enemy.
pub open spec fn blow_records(
    observers: Registry,
    player: Seq<char>,
    enemy: EnemyView,
) -> Seq<RecordView> {
    seq![RecordView::Attacked { player, enemy: enemy.name }] + broadcast(
        observers,
        EventView::PlayerDamaged(player, HIT_DAMAGE as int),
    ) + enemy.hit_records(HIT_DAMAGE as int)
}

/// The records of the fall of `enemy`.
pub open spec fn fall_records(observers: Registry, enemy: EnemyView) -> Seq<
    RecordView,
> {
    seq![RecordView::Fell { enemy: enemy.name }] + broadcast(
        observers,
        EventView::EnemyDefeated(enemy.name),
    )
}

/// The fight of `enemy` against the players from place `from` on: one after
/// another strikes a blow, until a blow leaves the enemy defeated or no
/// player is left. It gives the enemy as the fight leaves it, and the
/// records of the fight.
pub open spec fn duel(
    players: Seq<Seq<char>>,
    observers: Registry,
    enemy: EnemyView,
    from: int,
) -> (EnemyView, Seq<RecordView>)
    decreases players.len() - from,
{
    if 0 <= from < players.len() {
        let struck = enemy.hit(HIT_DAMAGE as int);
        let blow = blow_records(observers, players[from], enemy);
        if struck.defeated() {
            (struck, blow + fall_records(observers, struck))
        } else {
            let rest = duel(players, observers, struck, from + 1);
            (rest.0, blow + rest.1)
        }
    } else {
        (enemy, Seq::empty())
    }
}

/// The mathematical value of a [`Game`].
pub struct GameView {
    /// The players, in the order in which they were added.
    pub players: Seq<PlayerView>,
    /// The enemies, in the order in which they were added.
    pub enemies: Seq<EnemyView>,
    /// Who is registered on the session's bus.
    pub observers: Registry,
}

impl GameView {
    /// The session that `observers` were registered for before it began.
    pub open spec fn opened(observers: Registry) -> GameView {
        GameView { players: Seq::empty(), enemies: Seq::empty(), observers }
    }

    /// The session after `player` was added, with an observer of its own
    /// on the bus.
    pub open spec fn with_player(self, player: PlayerView) -> GameView {
        GameView {
            players: self.players.push(player),
            observers: self.observers.register(player.name, player_watch(player.name)),
            ..self
        }
    }

    /// The session after `enemy` was added.
    pub open spec fn with_enemy(self, enemy: EnemyView) -> GameView {
        GameView { enemies: self.enemies.push(enemy), ..self }
    }

    /// The session after `item` was handed to the first player called
    /// `player_name`. Where nobody has that name, it is the session itself.
    pub open spec fn equipped(self, player_name: Seq<char>, item: Seq<char>) -> GameView {
        let names = player_names(self.players);
        if names.contains(player_name) {
            let i = first_index(names, player_name);
            GameView { players: self.players.update(i, self.players[i].with_item(item)), ..self }
        } else {
            self
        }
    }

    /// The session after the first `upto` of `players` were added, one
    /// after another.
    pub open spec fn joined(self, players: Seq<PlayerView>, upto: int) -> GameView
        decreases upto,
    {
        if upto <= 0 {
            self
        } else {
            self.joined(players, upto - 1).with_player(players[upto - 1])
        }
    }

    /// The records of adding the first `upto` of `players`, one after
    /// another: each is told to everybody registered by then.
    pub open spec fn joined_records(self, players: Seq<PlayerView>, upto: int) -> Seq<RecordView>
        decreases upto,
    {
        if upto <= 0 {
            Seq::empty()
        } else {
            self.joined_records(players, upto - 1) + broadcast(
                self.joined(players, upto).observers,
                EventView::PlayerJoined(players[upto - 1].name),
            )
        }
    }

    /// The session after `enemies` were added.
    pub open spec fn spawned(self, enemies: Seq<EnemyView>) -> GameView {
        GameView { enemies: self.enemies + enemies, ..self }
    }

    /// The records of adding the first `upto` of `enemies`, one after
    /// another.
    pub open spec fn spawned_records(self, enemies: Seq<EnemyView>, upto: int) -> Seq<RecordView>
        decreases upto,
    {
        if upto <= 0 {
            Seq::empty()
        } else {
            self.spawned_records(enemies, upto - 1) + broadcast(
                self.observers,
                EventView::EnemySpawned(enemies[upto - 1].name),
            )
        }
    }

    /// The session after the first `upto` pairs of `equipment`, each a
    /// player's name and an item, were handed out one after another.
    pub open spec fn equipped_all(
        self,
        equipment: Seq<(Seq<char>, Seq<char>)>,
        upto: int,
    ) -> GameView
        decreases upto,
    {
        if upto <= 0 {
            self
        } else {
            self.equipped_all(equipment, upto - 1).equipped(
                equipment[upto - 1].0,
                equipment[upto - 1].1,
            )
        }
    }

    /// The records of handing out the first `upto` pairs of `equipment`: one
    /// for each item whose player is in the session.
    pub open spec fn equipped_records(
        self,
        equipment: Seq<(Seq<char>, Seq<char>)>,
        upto: int,
    ) -> Seq<RecordView>
        decreases upto,
    {
        if upto <= 0 {
            Seq::empty()
        } else {
            let name = equipment[upto - 1].0;
            self.equipped_records(equipment, upto - 1) + if player_names(self.players).contains(
                name,
            ) {
                seq![RecordView::Collected { player: name, item: equipment[upto - 1].1 }]
            } else {
                Seq::empty()
            }
        }
    }

    /// Whether a round can be fought without a number leaving 32 bits: where
    /// there is a player to strike, every enemy can take the first blow.
    pub open spec fn ready(self) -> bool {
        self.players.len() > 0 ==> forall|i: int|
            0 <= i < self.enemies.len() ==> (#[trigger] self.enemies[i]).can_take(
                HIT_DAMAGE as int,
            )
    }

    /// The enemy at place `i` as a round leaves it.
    pub open spec fn enemy_after_round(self, i: int) -> EnemyView {
        duel(player_names(self.players), self.observers, self.enemies[i], 0).0
    }

    /// The records of the fight of the enemy at place `i`: it appears, and
    /// the players meet it.
    pub open spec fn fight_records(self, i: int) -> Seq<RecordView> {
        seq![RecordView::Appeared { enemy: self.enemies[i].name }] + duel(
            player_names(self.players),
            self.observers,
            self.enemies[i],
            0,
        ).1
    }

    /// The records of the fights of the first `upto` enemies, one enemy
    /// after another.
    pub open spec fn battle_records(self, upto: int) -> Seq<RecordView>
        decreases upto,
    {
        if upto <= 0 {
            Seq::empty()
        } else {
            self.battle_records(upto - 1) + self.fight_records(upto - 1)
        }
    }

    /// What every player carries, player by player.
    pub open spec fn inventories(self) -> Seq<RecordView> {
        Seq::new(
            self.players.len(),
            |i: int|
                RecordView::Inventory {
                    player: self.players[i].name,
                    items: self.players[i].inventory,
                },
        )
    }

    /// The records of a round: its opening, what every player carries, the
    /// fight of every enemy, and the news that the game has ended.
    pub open spec fn round_records(self) -> Seq<RecordView> {
        seq![RecordView::RoundStarted] + self.inventories() + self.battle_records(
            self.enemies.len() as int,
        ) + broadcast(self.observers, EventView::GameEnded)
    }

    /// The session after a round: every enemy is as its fight left it, and
    /// nothing else has changed.
    pub open spec fn after_round(self) -> GameView {
        GameView {
            enemies: Seq::new(self.enemies.len(), |i: int| self.enemy_after_round(i)),
            ..self
        }
    }
}

/// The aggregate of one run.
pub struct Game {
    players: Vec<Player>,
    enemies: Vec<AnyEnemy>,
    events: EventManager<PlayerObserver>,
}

impl View for Game {
    type V = GameView;

    closed spec fn view(&self) -> GameView {
        GameView {
            players: player_views(self.players@),
            enemies: enemy_views(self.enemies@),
            observers: self.events@,
        }
    }
}

/// Puts `event` on `bus` and adds what came of it to `records`.
fn announce(bus: &EventManager<PlayerObserver>, event: GameEvent, records: &mut Vec<Record>)
    requires
        bus@.valid(),
    ensures
        record_views(final(records)@) == record_views(old(records)@) + broadcast(bus@, event@),
{
    let deliveries = bus.broadcast_event(&event);
    records.push(Record::Broadcast(event));
    let mut i: usize = 0;
    while i < deliveries.len()
        invariant
            i <= deliveries.len(),
            delivery_views(deliveries@) == bus@.deliver(event@),
            record_views(records@) == record_views(old(records)@) + broadcast(bus@, event@).take(
                i + 1,
            ),
        decreases deliveries.len() - i,
    {
        let ghost before = records@;
        records.push(Record::Delivered(deliveries[i].clone()));
        assert(record_views(records@) =~= record_views(before).push(
            records@[before.len() as int]@,
        ));
        i += 1;
    }
}

impl Game {
    /// Opens a session on `events`: whoever is registered there is told that
    /// the game has started.
    pub fn new(events: EventManager<PlayerObserver>) -> (opened: (Game, Vec<Record>))
        requires
            events@.valid(),
        ensures
            opened.0@ == GameView::opened(events@),
            record_views(opened.1@) == broadcast(events@, EventView::GameStarted),
    {
        let mut records: Vec<Record> = Vec::new();
        announce(&events, GameEvent::GameStarted, &mut records);
        let game = Game { players: Vec::new(), enemies: Vec::new(), events };
        assert(game@.players =~= Seq::empty());
        assert(game@.enemies =~= Seq::empty());
        (game, records)
    }

    /// Whether everything that the session rests on is in order.
    pub open spec fn well_formed(&self) -> bool {
        self@.observers.valid()
    }

    /// Adds `player`: an observer for it is registered under its name, in
    /// place of whoever was registered under that name; everybody registered
    /// is told that the player joined; the player comes last in the session.
    pub fn add_player(&mut self, player: Player) -> (records: Vec<Record>)
        requires
            old(self).well_formed(),
        ensures
            final(self).well_formed(),
            final(self)@ == old(self)@.with_player(player@),
            record_views(records@) == broadcast(
                final(self)@.observers,
                EventView::PlayerJoined(player@.name),
            ),
    {
        let observer = PlayerObserver::new(player.name.clone());
        assert(reaction_of(observer) =~= player_watch(player@.name));
        self.events.add_observer(player.name.clone(), Arc::new(observer));
        let mut records: Vec<Record> = Vec::new();
        announce(&self.events, GameEvent::PlayerJoined(player.name.clone()), &mut records);
        self.players.push(player);
        assert(self@.players =~= old(self)@.players.push(player@));
        records
    }

    /// Adds `enemy`: everybody registered is told that it appeared, and it
    /// comes last among the enemies.
    pub fn add_enemy(&mut self, enemy: AnyEnemy) -> (records: Vec<Record>)
        requires
            old(self).well_formed(),
        ensures
            final(self).well_formed(),
            final(self)@ == old(self)@.with_enemy(enemy@),
            record_views(records@) == broadcast(
                old(self)@.observers,
                EventView::EnemySpawned(enemy@.name),
            ),
    {
        broadcast use vstd::string::to_string_from_display_ensures_for_str;

        let mut records: Vec<Record> = Vec::new();
        announce(&self.events, GameEvent::EnemySpawned(enemy.get_name().to_string()), &mut records);
        self.enemies.push(enemy);
        assert(self@.enemies =~= old(self)@.enemies.push(enemy@));
        records
    }

    /// Where the first player called `player_name` stands among the players.
    pub fn find_player(&self, player_name: &str) -> (found: Option<usize>)
        ensures
            match found {
                Some(i) => first_at(player_names(self@.players), player_name@, i as int),
                None => !player_names(self@.players).contains(player_name@),
            },
    {
        let mut i: usize = 0;
        while i < self.players.len()
            invariant
                i <= self.players.len(),
                forall|j: int| 0 <= j < i ==> player_names(self@.players)[j] != player_name@,
            decreases self.players.len() - i,
        {
            if same_text(self.players[i].name.as_str(), player_name) {
                return Some(i);
            }
            i += 1;
        }
        None
    }

    /// Hands `item` to the first player called `player_name`, who puts it
    /// last in its inventory. Where nobody has that name, nothing changes
    /// and nothing is recorded.
    pub fn add_item_to_player(&mut self, player_name: &str, item: Item) -> (records: Vec<Record>)
        ensures
            final(self)@ == old(self)@.equipped(player_name@, item@),
            !player_names(old(self)@.players).contains(player_name@) ==> final(self)@ == old(
                self,
            )@ && records@.len() == 0,
            player_names(old(self)@.players).contains(player_name@) ==> record_views(records@)
                == seq![RecordView::Collected { player: player_name@, item: item@ }],
    {
        let mut records: Vec<Record> = Vec::new();
        match self.find_player(player_name) {
            Some(i) => {
                proof {
                    crate::names::lemma_first_index(player_names(self@.players), player_name@);
                }
                let record = self.players[i].collect_item(&item.name);
                records.push(record);
                proof {
                    assert(self@.players =~= old(self)@.players.update(
                        i as int,
                        old(self)@.players[i as int].with_item(item@),
                    ));
                }
            },
            None => {},
        }
        records
    }

    /// Lets the players fight the enemy at place `i` and adds the records
    /// of the fight to `records`.
    fn fight(&mut self, i: usize, records: &mut Vec<Record>)
        requires
            old(self).well_formed(),
            i < old(self)@.enemies.len(),
            old(self)@.players.len() > 0 ==> old(self)@.enemies[i as int].can_take(
                HIT_DAMAGE as int,
            ),
        ensures
            final(self)@.players == old(self)@.players,
            final(self)@.observers == old(self)@.observers,
            final(self)@.enemies == old(self)@.enemies.update(
                i as int,
                old(self)@.enemy_after_round(i as int),
            ),
            record_views(final(records)@) == record_views(old(records)@) + duel(
                player_names(old(self)@.players),
                old(self)@.observers,
                old(self)@.enemies[i as int],
                0,
            ).1,
    {
        broadcast use vstd::string::to_string_from_display_ensures_for_str;

        let ghost names = player_names(self@.players);
        let ghost bus = self@.observers;
        let ghost start = self@.enemies[i as int];
        let ghost base = record_views(records@);
        let ghost whole = duel(names, bus, start, 0);
        let mut j: usize = 0;
        let mut fallen = false;
        while j < self.players.len() && !fallen
            invariant
                self.well_formed(),
                i < self.enemies.len(),
                j <= self.players.len(),
                self@.players == old(self)@.players,
                self@.observers == bus,
                names == player_names(self@.players),
                whole == duel(names, bus, start, 0),
                self@.enemies.len() == old(self)@.enemies.len(),
                self@.enemies == old(self)@.enemies.update(i as int, self@.enemies[i as int]),
                !fallen ==> duel(names, bus, self@.enemies[i as int], j as int).0 == whole.0,
                !fallen ==> record_views(records@) + duel(
                    names,
                    bus,
                    self@.enemies[i as int],
                    j as int,
                ).1 == base + whole.1,
                !fallen && j < self.players.len() ==> self@.enemies[i as int].can_take(
                    HIT_DAMAGE as int,
                ),
                fallen ==> self@.enemies[i as int] == whole.0,
                fallen ==> record_views(records@) == base + whole.1,
            decreases self.players.len() - j,
        {
            let ghost enemy = self@.enemies[i as int];
            let ghost struck = enemy.hit(HIT_DAMAGE as int);
            let ghost enemies_before = self@.enemies;
            records.push(
                Record::Attacked {
                    player: self.players[j].name.clone(),
                    enemy: self.enemies[i].get_name().to_string(),
                },
            );
            announce(
                &self.events,
                GameEvent::PlayerDamaged(self.players[j].name.clone(), HIT_DAMAGE),
                records,
            );
            let blow = self.enemies[i].attack(HIT_DAMAGE);
            append_records(records, blow);
            assert(self@.enemies =~= enemies_before.update(i as int, struck));
            if self.enemies[i].get_health() <= 0 {
                let ghost struck_records = record_views(records@);
                records.push(Record::Fell { enemy: self.enemies[i].get_name().to_string() });
                assert(record_views(records@) =~= struck_records + seq![
                    RecordView::Fell { enemy: struck.name },
                ]);
                announce(
                    &self.events,
                    GameEvent::EnemyDefeated(self.enemies[i].get_name().to_string()),
                    records,
                );
                fallen = true;
            }
            j += 1;
        }
    }

    /// Whether a round can be fought without a number leaving 32 bits.
    pub fn can_start(&self) -> (ready: bool)
        ensures
            ready == self@.ready(),
    {
        if self.players.len() == 0 {
            return true;
        }
        let mut i: usize = 0;
        while i < self.enemies.len()
            invariant
                i <= self.enemies.len(),
                self@.players.len() > 0,
                forall|k: int|
                    0 <= k < i ==> (#[trigger] self@.enemies[k]).can_take(HIT_DAMAGE as int),
            decreases self.enemies.len() - i,
        {
            if !self.enemies[i].can_take(HIT_DAMAGE) {
                assert(!self@.enemies[i as int].can_take(HIT_DAMAGE as int));
                return false;
            }
            i += 1;
        }
        true
    }

    /// Fights a round. Every player tells what it carries. Then the enemies
    /// come forward one after another, in their order: the players strike at
    /// the enemy, in their order, each with a blow of the same damage that is
    /// told on the bus as damage to the striker, until a blow leaves the enemy
    /// with no health, which is told on the bus, or no player is left. At the
    /// end the bus tells that the game has ended. No player loses health.
    pub fn start_game(&mut self) -> (records: Vec<Record>)
        requires
            old(self).well_formed(),
            old(self)@.ready(),
        ensures
            final(self).well_formed(),
            final(self)@ == old(self)@.after_round(),
            record_views(records@) == old(self)@.round_records(),
    {
        broadcast use vstd::string::to_string_from_display_ensures_for_str;

        let ghost session = self@;
        let mut records: Vec<Record> = Vec::new();
        records.push(Record::RoundStarted);
        let mut p: usize = 0;
        while p < self.players.len()
            invariant
                p <= self.players.len(),
                self@ == session,
                record_views(records@) == seq![RecordView::RoundStarted]
                    + session.inventories().take(p as int),
            decreases self.players.len() - p,
        {
            let ghost before = record_views(records@);
            records.push(self.players[p].show_inventory());
            assert(record_views(records@) =~= before.push(session.inventories()[p as int]));
            p += 1;
        }
        let mut i: usize = 0;
        while i < self.enemies.len()
            invariant
                i <= self.enemies.len(),
                self.well_formed(),
                session.ready(),
                self@.players == session.players,
                self@.observers == session.observers,
                self@.enemies.len() == session.enemies.len(),
                forall|k: int| 0 <= k < i ==> self@.enemies[k] == session.enemy_after_round(k),
                forall|k: int|
                    i <= k < self@.enemies.len() ==> self@.enemies[k] == session.enemies[k],
                record_views(records@) == seq![RecordView::RoundStarted] + session.inventories()
                    + session.battle_records(i as int),
            decreases self.enemies.len() - i,
        {
            let ghost before = record_views(records@);
            records.push(Record::Appeared { enemy: self.enemies[i].get_name().to_string() });
            assert(session.players.len() > 0 ==> session.enemies[i as int].can_take(
                HIT_DAMAGE as int,
            ));
            self.fight(i, &mut records);
            assert(self@.enemies.len() == self.enemies.len());
            assert(record_views(records@) =~= before + session.fight_records(i as int));
            i += 1;
        }
        announce(&self.events, GameEvent::GameEnded, &mut records);
        assert(self@.enemies =~= session.after_round().enemies);
        records
    }

    /// The players, in the order in which they were added.
    pub fn players(&self) -> (players: &Vec<Player>)
        ensures
            player_views(players@) == self@.players,
    {
        &self.players
    }

    /// The enemies, in the order in which they were added.
    pub fn enemies(&self) -> (enemies: &Vec<AnyEnemy>)
        ensures
            enemy_views(enemies@) == self@.enemies,
    {
        &self.enemies
    }

    /// The session's bus.
    pub fn events(&self) -> (events: &EventManager<PlayerObserver>)
        ensures
            events@ == self@.observers,
    {
        &self.events
    }
}

} // verus!
