//! One front for everything a caller does with a session: fill it, hand out
//! equipment, fight a round. The session is opened when it is first needed.

use crate::game::{broadcast, enemy_views, player_names, player_views, Game, GameView};
use crate::game_event::{EventManager, EventView, Registry};
use crate::models::enemy::AnyEnemy;
use crate::models::player::{Item, Player};
use crate::record::{append_records, record_views, Record, RecordView};
use vstd::prelude::*;

verus! {

/// The session that `state` stands for: the one it holds, or a session newly
/// opened with nobody registered.
pub open spec fn session(state: Option<GameView>) -> GameView {
    match state {
        Some(game) => game,
        None => GameView::opened(Registry::empty()),
    }
}

/// The records of opening the session where `state` holds none yet.
pub open spec fn opening(state: Option<GameView>) -> Seq<RecordView> {
    match state {
        Some(_) => Seq::empty(),
        None => broadcast(Registry::empty(), EventView::GameStarted),
    }
}

/// The text of each pair of `equipment`: the player's name, and the item.
pub open spec fn equipment_views(equipment: Seq<(&str, Item)>) -> Seq<(Seq<char>, Seq<char>)> {
    Seq::new(equipment.len(), |i: int| (equipment[i].0@, equipment[i].1@))
}

/// The front of a session. It holds no session until one is needed.
pub struct GameSystem {
    game: Option<Game>,
}

impl View for GameSystem {
    type V = Option<GameView>;

    /// The session, once it was opened.
    closed spec fn view(&self) -> Option<GameView> {
        match self.game {
            Some(game) => Some(game@),
            None => None,
        }
    }
}

impl GameSystem {
    /// Whether everything that the session rests on is in order.
    pub open spec fn well_formed(&self) -> bool {
        self@ matches Some(game) ==> game.observers.valid()
    }

    /// A front with no session opened yet.
    pub fn new() -> (system: Self)
        ensures
            system@ is None,
            system.well_formed(),
    {
        GameSystem { game: None }
    }

    /// Opens the session unless it is open.
    fn open(&mut self, records: &mut Vec<Record>)
        requires
            old(self).well_formed(),
        ensures
            final(self).well_formed(),
            final(self)@ == Some(session(old(self)@)),
            record_views(final(records)@) == record_views(old(records)@) + opening(old(self)@),
    {
        if self.game.is_none() {
            let (game, opened) = Game::new(EventManager::new());
            self.game = Some(game);
            append_records(records, opened);
        }
    }

    /// Adds `players` to the session, one after another, and then `enemies`.
    pub fn initialize_game(&mut self, players: Vec<Player>, enemies: Vec<AnyEnemy>) -> (records:
        Vec<Record>)
        requires
            old(self).well_formed(),
        ensures
            final(self).well_formed(),
            final(self)@ == Some(
                session(old(self)@).joined(player_views(players@), players@.len() as int).spawned(
                    enemy_views(enemies@),
                ),
            ),
            record_views(records@) == opening(old(self)@) + session(old(self)@).joined_records(
                player_views(players@),
                players@.len() as int,
            ) + session(old(self)@).joined(
                player_views(players@),
                players@.len() as int,
            ).spawned_records(enemy_views(enemies@), enemies@.len() as int),
    {
        let mut records: Vec<Record> = Vec::new();
        self.open(&mut records);
        let ghost start = session(old(self)@);
        let ghost joining = player_views(players@);
        let ghost spawning = enemy_views(enemies@);
        let mut game = self.game.take().unwrap();
        for player in it: players
            invariant
                game.well_formed(),
                joining == player_views(players@),
                it.seq() == players@,
                game@ == start.joined(joining, it.index() as int),
                record_views(records@) == opening(old(self)@) + start.joined_records(
                    joining,
                    it.index() as int,
                ),
        {
            let told = game.add_player(player);
            append_records(&mut records, told);
        }
        let ghost filled = start.joined(joining, players@.len() as int);
        for enemy in it: enemies
            invariant
                game.well_formed(),
                spawning == enemy_views(enemies@),
                it.seq() == enemies@,
                game@ == filled.spawned(spawning.take(it.index() as int)),
                record_views(records@) == opening(old(self)@) + start.joined_records(
                    joining,
                    players@.len() as int,
                ) + filled.spawned_records(spawning, it.index() as int),
        {
            let ghost seen = it.index() as int;
            let told = game.add_enemy(enemy);
            append_records(&mut records, told);
            assert(spawning.take(seen + 1) =~= spawning.take(seen).push(spawning[seen]));
        }
        assert(spawning.take(enemies@.len() as int) =~= spawning);
        self.game = Some(game);
        records
    }

    /// Hands out `equipment_map`, pair by pair: each item goes to the first
    /// player of that name; an item for a name that nobody has is dropped.
    pub fn equip_players(&mut self, equipment_map: Vec<(&str, Item)>) -> (records: Vec<Record>)
        requires
            old(self).well_formed(),
        ensures
            final(self).well_formed(),
            final(self)@ == Some(
                session(old(self)@).equipped_all(
                    equipment_views(equipment_map@),
                    equipment_map@.len() as int,
                ),
            ),
            record_views(records@) == opening(old(self)@) + session(old(self)@).equipped_records(
                equipment_views(equipment_map@),
                equipment_map@.len() as int,
            ),
            player_names(session(final(self)@).players) == player_names(
                session(old(self)@).players,
            ),
            session(final(self)@).enemies == session(old(self)@).enemies,
            session(final(self)@).observers == session(old(self)@).observers,
    {
        let mut records: Vec<Record> = Vec::new();
        self.open(&mut records);
        let ghost start = session(old(self)@);
        let ghost equipment = equipment_views(equipment_map@);
        let mut game = self.game.take().unwrap();
        for pair in it: equipment_map
            invariant
                game.well_formed(),
                equipment == equipment_views(equipment_map@),
                it.seq() == equipment_map@,
                game@ == start.equipped_all(equipment, it.index() as int),
                record_views(records@) == opening(old(self)@) + start.equipped_records(
                    equipment,
                    it.index() as int,
                ),
        {
            let ghost seen = it.index() as int;
            let (player_name, item) = pair;
            proof {
                lemma_equipping_keeps_names(start, equipment, seen);
            }
            let told = game.add_item_to_player(player_name, item);
            append_records(&mut records, told);
        }
        proof {
            lemma_equipping_keeps_names(start, equipment, equipment_map@.len() as int);
        }
        self.game = Some(game);
        records
    }

    /// Makes `enemies` ready for a session: they are ready as they are.
    pub fn prepare_enemies(&self, enemies: Vec<AnyEnemy>) -> (prepared: Vec<AnyEnemy>)
        ensures
            prepared == enemies,
    {
        enemies
    }

    /// Whether a round can be fought without a number leaving 32 bits.
    pub fn can_run(&self) -> (ready: bool)
        ensures
            ready == session(self@).ready(),
    {
        match &self.game {
            Some(game) => game.can_start(),
            None => true,
        }
    }

    /// Fights a round in the session.
    pub fn run_game(&mut self) -> (records: Vec<Record>)
        requires
            old(self).well_formed(),
            session(old(self)@).ready(),
        ensures
            final(self).well_formed(),
            final(self)@ == Some(session(old(self)@).after_round()),
            record_views(records@) == opening(old(self)@) + session(old(self)@).round_records(),
    {
        let mut records: Vec<Record> = Vec::new();
        self.open(&mut records);
        let mut game = self.game.take().unwrap();
        let fought = game.start_game();
        append_records(&mut records, fought);
        self.game = Some(game);
        records
    }

    /// The session, once it was opened.
    pub fn game(&self) -> (game: Option<&Game>)
        ensures
            match game {
                Some(game) => self@ == Some(game@),
                None => self@ is None,
            },
    {
        self.game.as_ref()
    }
}

/// Handing out equipment changes no player's name.
pub proof fn lemma_equipping_keeps_names(
    game: GameView,
    equipment: Seq<(Seq<char>, Seq<char>)>,
    upto: int,
)
    ensures
        player_names(game.equipped_all(equipment, upto).players) == player_names(game.players),
        game.equipped_all(equipment, upto).enemies == game.enemies,
        game.equipped_all(equipment, upto).observers == game.observers,
    decreases upto,
{
    if upto > 0 {
        lemma_equipping_keeps_names(game, equipment, upto - 1);
        let before = game.equipped_all(equipment, upto - 1);
        let name = equipment[upto - 1].0;
        let names = player_names(before.players);
        if names.contains(name) {
            crate::names::lemma_first_index(names, name);
        }
    }
}

} // verus!
