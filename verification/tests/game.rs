use skirmish::factory::enemy_factory::EnemyFactory;
use skirmish::factory::player_factory::{ItemFactory, PlayerFactory};
use skirmish::game::{Game, HIT_DAMAGE};
use skirmish::game_event::{Delivery, EventManager, GameEvent, Notice, PlayerObserver};
use skirmish::game_system::GameSystem;
use skirmish::models::enemy::{AnyEnemy, ArmoredEnemy, Enemy, EnemyBehavior};
use skirmish::record::{broadcast_events, Record};
use std::sync::Arc;

fn open() -> Game {
    let (game, records) = Game::new(EventManager::new());
    assert_eq!(records, vec![Record::Broadcast(GameEvent::GameStarted)]);
    game
}

fn told(observer: &str, notice: Option<Notice>) -> Record {
    Record::Delivered(Delivery { observer: observer.to_string(), notice })
}

fn damaged(player: &str) -> GameEvent {
    GameEvent::PlayerDamaged(player.to_string(), 10)
}

fn healths(game: &Game) -> Vec<i32> {
    game.enemies().iter().map(|e| e.get_health()).collect()
}

#[test]
fn every_blow_is_worth_10() {
    assert_eq!(HIT_DAMAGE, 10);
}

#[test]
fn a_new_session_is_empty() {
    let game = open();
    assert_eq!(game.players().len(), 0);
    assert_eq!(game.enemies().len(), 0);
    assert_eq!(game.events().names().len(), 0);
}

#[test]
fn whoever_is_registered_is_told_that_the_game_started() {
    let mut bus: EventManager<PlayerObserver> = EventManager::new();
    bus.add_observer("Early".to_string(), Arc::new(PlayerObserver::new("Early".to_string())));
    let (game, records) = Game::new(bus);
    assert_eq!(
        records,
        vec![Record::Broadcast(GameEvent::GameStarted), told("Early", Some(Notice::Ready))]
    );
    assert_eq!(game.events().names(), &vec!["Early".to_string()]);
}

#[test]
fn every_added_player_is_in_the_session_and_carries_nothing() {
    let names = ["Hero", "Sidekick", "Bard", "Hero", ""];
    let mut game = open();
    for (count, name) in names.iter().enumerate() {
        assert_eq!(game.players().len(), count);
        game.add_player(PlayerFactory::create_player(name));
    }
    assert_eq!(game.players().len(), 5);
    for name in names {
        let found = game.find_player(name);
        assert!(found.is_some());
        let player = &game.players()[found.unwrap_or(0)];
        assert_eq!(player.name, name);
        assert_eq!(player.inventory.len(), 0);
        assert_eq!(player.health, 100);
    }
    assert_eq!(game.find_player("Hero"), Some(0));
    assert_eq!(game.find_player("Sidekick"), Some(1));
    assert_eq!(game.find_player(""), Some(4));
    assert_eq!(game.find_player("Nobody"), None);
}

#[test]
fn a_player_who_joins_is_told_to_everybody_registered() {
    let mut game = open();
    let first = game.add_player(PlayerFactory::create_player("Hero"));
    assert_eq!(
        first,
        vec![Record::Broadcast(GameEvent::PlayerJoined("Hero".to_string())), told("Hero", None)]
    );
    let second = game.add_player(PlayerFactory::create_player("Sidekick"));
    assert_eq!(
        second,
        vec![
            Record::Broadcast(GameEvent::PlayerJoined("Sidekick".to_string())),
            told("Hero", Some(Notice::Joined("Sidekick".to_string()))),
            told("Sidekick", None),
        ]
    );
    assert_eq!(game.events().names(), &vec!["Hero".to_string(), "Sidekick".to_string()]);
}

#[test]
fn two_players_of_one_name_share_one_observer() {
    let mut game = open();
    game.add_player(PlayerFactory::create_player("Hero"));
    let again = game.add_player(PlayerFactory::create_player("Hero"));
    assert_eq!(game.players().len(), 2);
    assert_eq!(game.events().names(), &vec!["Hero".to_string()]);
    assert_eq!(
        again,
        vec![Record::Broadcast(GameEvent::PlayerJoined("Hero".to_string())), told("Hero", None)]
    );
}

#[test]
fn an_enemy_that_appears_is_told_to_everybody_registered() {
    let mut game = open();
    let nobody = game.add_enemy(EnemyFactory::create_enemy("Rat"));
    assert_eq!(nobody, vec![Record::Broadcast(GameEvent::EnemySpawned("Rat".to_string()))]);
    game.add_player(PlayerFactory::create_player("Hero"));
    let records = game.add_enemy(EnemyFactory::create_armored_enemy("Troll", 5));
    assert_eq!(
        records,
        vec![
            Record::Broadcast(GameEvent::EnemySpawned("Troll".to_string())),
            told("Hero", Some(Notice::Spawned("Troll".to_string()))),
        ]
    );
    assert_eq!(game.enemies().len(), 2);
    assert_eq!(game.enemies()[0].get_name(), "Rat");
    assert_eq!(game.enemies()[1].get_name(), "Troll");
    assert_eq!(game.events().names(), &vec!["Hero".to_string()]);
}

#[test]
fn an_item_for_nobody_changes_nothing() {
    let mut game = open();
    game.add_player(PlayerFactory::create_player("Hero"));
    game.add_player(PlayerFactory::create_player("Sidekick"));
    game.add_item_to_player("Hero", ItemFactory::create_item("Sword"));
    let before = game.players().clone();
    let records = game.add_item_to_player("Nobody", ItemFactory::create_item("Shield"));
    assert_eq!(records, vec![]);
    assert_eq!(game.players(), &before);
    assert_eq!(game.players()[0].inventory, vec!["Sword"]);
    assert_eq!(game.players()[1].inventory.len(), 0);
    let mut empty = open();
    assert_eq!(empty.add_item_to_player("Hero", ItemFactory::create_item("Sword")), vec![]);
    assert_eq!(empty.players().len(), 0);
}

#[test]
fn an_item_goes_to_the_first_player_of_the_name() {
    let mut game = open();
    game.add_player(PlayerFactory::create_player("Sidekick"));
    game.add_player(PlayerFactory::create_player("Hero"));
    game.add_player(PlayerFactory::create_player("Hero"));
    let first = game.add_item_to_player("Hero", ItemFactory::create_item("Sword"));
    let second = game.add_item_to_player("Hero", ItemFactory::create_item("Shield"));
    assert_eq!(
        first,
        vec![Record::Collected { player: "Hero".to_string(), item: "Sword".to_string() }]
    );
    assert_eq!(
        second,
        vec![Record::Collected { player: "Hero".to_string(), item: "Shield".to_string() }]
    );
    assert_eq!(game.players()[0].inventory.len(), 0);
    assert_eq!(game.players()[1].inventory, vec!["Sword", "Shield"]);
    assert_eq!(game.players()[2].inventory.len(), 0);
    assert_eq!(game.players()[1].health, 100);
}

#[test]
fn hero_beats_the_goblin_with_the_second_blow() {
    let mut game = open();
    game.add_player(PlayerFactory::create_player("Hero"));
    game.add_enemy(EnemyFactory::create_enemy("Goblin"));
    assert_eq!(game.players()[0].health, 100);
    assert_eq!(healths(&game), vec![20]);

    let first = broadcast_events(&game.start_game());
    assert_eq!(first, vec![damaged("Hero"), GameEvent::GameEnded]);
    assert_eq!(healths(&game), vec![10]);

    let second = broadcast_events(&game.start_game());
    assert_eq!(
        second,
        vec![
            damaged("Hero"),
            GameEvent::EnemyDefeated("Goblin".to_string()),
            GameEvent::GameEnded,
        ]
    );
    assert_eq!(healths(&game), vec![0]);

    let mut all = first;
    all.extend(second);
    assert_eq!(all.iter().filter(|e| **e == damaged("Hero")).count(), 2);
    let defeat = GameEvent::EnemyDefeated("Goblin".to_string());
    assert_eq!(all.iter().filter(|e| **e == defeat).count(), 1);
    let second_blow = all.iter().rposition(|e| *e == damaged("Hero"));
    let fall = all.iter().position(|e| *e == defeat);
    assert_eq!(second_blow, Some(2));
    assert_eq!(fall, Some(3));
    assert_eq!(game.players()[0].health, 100);
}

#[test]
fn two_players_beat_the_goblin_in_one_round_and_nobody_strikes_a_third_blow() {
    let mut game = open();
    game.add_player(PlayerFactory::create_player("Hero"));
    game.add_player(PlayerFactory::create_player("Sidekick"));
    game.add_player(PlayerFactory::create_player("Bard"));
    game.add_enemy(EnemyFactory::create_enemy("Goblin"));
    let events = broadcast_events(&game.start_game());
    assert_eq!(
        events,
        vec![
            damaged("Hero"),
            damaged("Sidekick"),
            GameEvent::EnemyDefeated("Goblin".to_string()),
            GameEvent::GameEnded,
        ]
    );
    assert_eq!(healths(&game), vec![0]);
}

#[test]
fn a_round_by_the_book() {
    let mut game = open();
    game.add_player(PlayerFactory::create_player("Hero"));
    game.add_player(PlayerFactory::create_player("Sidekick"));
    game.add_enemy(EnemyFactory::create_enemy("Goblin"));
    game.add_enemy(EnemyFactory::create_armored_enemy("Armored Troll", 5));
    game.add_item_to_player("Hero", ItemFactory::create_item("Sword"));
    game.add_item_to_player("Sidekick", ItemFactory::create_item("Shield"));
    assert!(game.can_start());
    let records = game.start_game();
    let goblin = "Goblin".to_string();
    let troll = "Armored Troll".to_string();
    let hero = "Hero".to_string();
    let sidekick = "Sidekick".to_string();
    let expected = vec![
        Record::RoundStarted,
        Record::Inventory { player: hero.clone(), items: vec!["Sword".to_string()] },
        Record::Inventory { player: sidekick.clone(), items: vec!["Shield".to_string()] },
        Record::Appeared { enemy: goblin.clone() },
        Record::Attacked { player: hero.clone(), enemy: goblin.clone() },
        Record::Broadcast(damaged("Hero")),
        told("Hero", Some(Notice::Damaged(10))),
        told("Sidekick", None),
        Record::Hit { enemy: goblin.clone(), damage: 10, remaining: 10 },
        Record::Attacked { player: sidekick.clone(), enemy: goblin.clone() },
        Record::Broadcast(damaged("Sidekick")),
        told("Hero", None),
        told("Sidekick", Some(Notice::Damaged(10))),
        Record::Hit { enemy: goblin.clone(), damage: 10, remaining: 0 },
        Record::Fell { enemy: goblin.clone() },
        Record::Broadcast(GameEvent::EnemyDefeated(goblin.clone())),
        told("Hero", Some(Notice::Defeated(goblin.clone()))),
        told("Sidekick", Some(Notice::Defeated(goblin.clone()))),
        Record::Appeared { enemy: troll.clone() },
        Record::Attacked { player: hero.clone(), enemy: troll.clone() },
        Record::Broadcast(damaged("Hero")),
        told("Hero", Some(Notice::Damaged(10))),
        told("Sidekick", None),
        Record::Hit { enemy: troll.clone(), damage: 5, remaining: 15 },
        Record::Absorbed { enemy: troll.clone(), amount: 5 },
        Record::Attacked { player: sidekick.clone(), enemy: troll.clone() },
        Record::Broadcast(damaged("Sidekick")),
        told("Hero", None),
        told("Sidekick", Some(Notice::Damaged(10))),
        Record::Hit { enemy: troll.clone(), damage: 5, remaining: 10 },
        Record::Absorbed { enemy: troll.clone(), amount: 5 },
        Record::Broadcast(GameEvent::GameEnded),
        told("Hero", Some(Notice::Farewell)),
        told("Sidekick", Some(Notice::Farewell)),
    ];
    assert_eq!(records, expected);
    assert_eq!(healths(&game), vec![0, 10]);
    assert_eq!(game.players()[0].health, 100);
    assert_eq!(game.players()[1].health, 100);
    assert_eq!(game.players()[0].inventory, vec!["Sword"]);
}

#[test]
fn a_beaten_enemy_is_struck_once_in_every_later_round() {
    let mut game = open();
    game.add_player(PlayerFactory::create_player("Hero"));
    game.add_player(PlayerFactory::create_player("Sidekick"));
    game.add_enemy(EnemyFactory::create_enemy("Goblin"));
    game.start_game();
    let events = broadcast_events(&game.start_game());
    assert_eq!(
        events,
        vec![
            damaged("Hero"),
            GameEvent::EnemyDefeated("Goblin".to_string()),
            GameEvent::GameEnded,
        ]
    );
    assert_eq!(healths(&game), vec![-10]);
}

#[test]
fn a_round_without_players_hurts_nobody() {
    let mut game = open();
    game.add_enemy(EnemyFactory::create_enemy("Goblin"));
    game.add_enemy(EnemyFactory::create_armored_enemy("Troll", 5));
    let records = game.start_game();
    assert_eq!(
        records,
        vec![
            Record::RoundStarted,
            Record::Appeared { enemy: "Goblin".to_string() },
            Record::Appeared { enemy: "Troll".to_string() },
            Record::Broadcast(GameEvent::GameEnded),
        ]
    );
    assert_eq!(healths(&game), vec![20, 20]);
}

#[test]
fn a_round_without_enemies_only_ends() {
    let mut game = open();
    game.add_player(PlayerFactory::create_player("Hero"));
    let records = game.start_game();
    assert_eq!(
        records,
        vec![
            Record::RoundStarted,
            Record::Inventory { player: "Hero".to_string(), items: vec![] },
            Record::Broadcast(GameEvent::GameEnded),
            told("Hero", Some(Notice::Farewell)),
        ]
    );
}

#[test]
fn strong_armor_outlasts_the_players() {
    let mut game = open();
    for name in ["A", "B", "C"] {
        game.add_player(PlayerFactory::create_player(name));
    }
    game.add_enemy(EnemyFactory::create_armored_enemy("Wall", 1000));
    let events = broadcast_events(&game.start_game());
    assert_eq!(events, vec![damaged("A"), damaged("B"), damaged("C"), GameEvent::GameEnded]);
    assert_eq!(healths(&game), vec![17]);
}

#[test]
fn a_round_is_refused_where_a_number_would_not_fit() {
    let mut game = open();
    game.add_player(PlayerFactory::create_player("Hero"));
    game.add_enemy(EnemyFactory::create_enemy("Goblin"));
    assert!(game.can_start());
    game.add_enemy(AnyEnemy::Plain(Enemy { name: "Abyss".to_string(), health: i32::MIN + 9 }));
    assert!(!game.can_start());

    let mut edge = open();
    edge.add_player(PlayerFactory::create_player("Hero"));
    edge.add_enemy(AnyEnemy::Plain(Enemy { name: "Brink".to_string(), health: i32::MIN + 10 }));
    assert!(edge.can_start());
    edge.start_game();
    assert_eq!(healths(&edge), vec![i32::MIN]);
    assert!(!edge.can_start());

    let mut thin = open();
    thin.add_player(PlayerFactory::create_player("Hero"));
    thin.add_enemy(EnemyFactory::create_armored_enemy("Cursed", i32::MIN));
    assert!(!thin.can_start());
    let mut heavy = open();
    heavy.add_player(PlayerFactory::create_player("Hero"));
    heavy.add_enemy(AnyEnemy::Armored(ArmoredEnemy::new(
        Enemy { name: "Glass".to_string(), health: i32::MIN },
        10 - i32::MAX,
    )));
    assert!(!heavy.can_start());

    let mut idle = open();
    idle.add_enemy(AnyEnemy::Plain(Enemy { name: "Abyss".to_string(), health: i32::MIN }));
    assert!(idle.can_start());
}

#[test]
fn armor_that_adds_to_a_blow() {
    let mut game = open();
    game.add_player(PlayerFactory::create_player("Hero"));
    game.add_enemy(EnemyFactory::create_armored_enemy("Cursed", -15));
    assert!(game.can_start());
    let events = broadcast_events(&game.start_game());
    assert_eq!(
        events,
        vec![
            damaged("Hero"),
            GameEvent::EnemyDefeated("Cursed".to_string()),
            GameEvent::GameEnded,
        ]
    );
    assert_eq!(healths(&game), vec![-5]);
}

#[test]
fn the_front_opens_the_session_when_it_is_first_needed() {
    let mut system = GameSystem::new();
    assert!(system.game().is_none());
    assert!(system.can_run());
    let records = system.initialize_game(
        vec![PlayerFactory::create_player("Hero"), PlayerFactory::create_player("Sidekick")],
        system.prepare_enemies(vec![
            EnemyFactory::create_enemy("Goblin"),
            EnemyFactory::create_armored_enemy("Armored Troll", 5),
        ]),
    );
    assert_eq!(
        records,
        vec![
            Record::Broadcast(GameEvent::GameStarted),
            Record::Broadcast(GameEvent::PlayerJoined("Hero".to_string())),
            told("Hero", None),
            Record::Broadcast(GameEvent::PlayerJoined("Sidekick".to_string())),
            told("Hero", Some(Notice::Joined("Sidekick".to_string()))),
            told("Sidekick", None),
            Record::Broadcast(GameEvent::EnemySpawned("Goblin".to_string())),
            told("Hero", Some(Notice::Spawned("Goblin".to_string()))),
            told("Sidekick", Some(Notice::Spawned("Goblin".to_string()))),
            Record::Broadcast(GameEvent::EnemySpawned("Armored Troll".to_string())),
            told("Hero", Some(Notice::Spawned("Armored Troll".to_string()))),
            told("Sidekick", Some(Notice::Spawned("Armored Troll".to_string()))),
        ]
    );
    let equipped = system.equip_players(vec![
        ("Hero", ItemFactory::create_item("Sword")),
        ("Nobody", ItemFactory::create_item("Ring")),
        ("Sidekick", ItemFactory::create_item("Shield")),
    ]);
    assert_eq!(
        equipped,
        vec![
            Record::Collected { player: "Hero".to_string(), item: "Sword".to_string() },
            Record::Collected { player: "Sidekick".to_string(), item: "Shield".to_string() },
        ]
    );
    assert!(system.can_run());
    let events = broadcast_events(&system.run_game());
    assert_eq!(
        events,
        vec![
            damaged("Hero"),
            damaged("Sidekick"),
            GameEvent::EnemyDefeated("Goblin".to_string()),
            damaged("Hero"),
            damaged("Sidekick"),
            GameEvent::GameEnded,
        ]
    );
    match system.game() {
        Some(game) => {
            assert_eq!(healths(game), vec![0, 10]);
            assert_eq!(game.players()[0].inventory, vec!["Sword"]);
            assert_eq!(game.players()[1].inventory, vec!["Shield"]);
        },
        None => panic!("the session was not opened"),
    }
}

#[test]
fn the_front_opens_the_session_for_any_first_call() {
    let mut first = GameSystem::new();
    assert_eq!(
        first.run_game(),
        vec![
            Record::Broadcast(GameEvent::GameStarted),
            Record::RoundStarted,
            Record::Broadcast(GameEvent::GameEnded),
        ]
    );
    assert!(first.game().is_some());
    assert_eq!(
        first.run_game(),
        vec![Record::RoundStarted, Record::Broadcast(GameEvent::GameEnded)]
    );
    let mut second = GameSystem::new();
    assert_eq!(
        second.equip_players(vec![("Hero", ItemFactory::create_item("Sword"))]),
        vec![Record::Broadcast(GameEvent::GameStarted)]
    );
    assert_eq!(second.equip_players(vec![]), vec![]);
    assert_eq!(second.initialize_game(vec![], vec![]), vec![]);
}

#[test]
fn the_events_of_a_list_of_records() {
    let records = vec![
        Record::RoundStarted,
        Record::Broadcast(GameEvent::GameStarted),
        told("Hero", Some(Notice::Ready)),
        Record::Fell { enemy: "Goblin".to_string() },
        Record::Broadcast(GameEvent::EnemyDefeated("Goblin".to_string())),
    ];
    assert_eq!(
        broadcast_events(&records),
        vec![GameEvent::GameStarted, GameEvent::EnemyDefeated("Goblin".to_string())]
    );
    assert_eq!(broadcast_events(&vec![]), vec![]);
}
