use skirmish::game_event::{
    Delivery, EventManager, GameEvent, Notice, Observer, PlayerObserver, Subject,
};
use std::sync::Arc;

fn watcher(name: &str) -> Arc<PlayerObserver> {
    Arc::new(PlayerObserver::new(name.to_string()))
}

fn bus_of(names: &[&str]) -> EventManager<PlayerObserver> {
    let mut bus = EventManager::new();
    for name in names {
        bus.add_observer(name.to_string(), watcher(name));
    }
    bus
}

fn names_of(bus: &EventManager<PlayerObserver>) -> Vec<String> {
    bus.names().clone()
}

fn received(log: &[Delivery], observer: &str) -> usize {
    log.iter().filter(|d| d.observer == observer).count()
}

#[test]
fn new_bus_is_empty() {
    let bus: EventManager<PlayerObserver> = EventManager::new();
    assert_eq!(bus.names().len(), 0);
    assert_eq!(bus.broadcast_event(&GameEvent::GameStarted).len(), 0);
}

#[test]
fn observers_are_kept_in_order_of_registration() {
    let bus = bus_of(&["Zed", "Amy", "Moe"]);
    assert_eq!(names_of(&bus), vec!["Zed", "Amy", "Moe"]);
}

#[test]
fn broadcast_reaches_each_observer_once_in_order() {
    let bus = bus_of(&["Zed", "Amy", "Moe"]);
    let out = bus.broadcast_event(&GameEvent::GameEnded);
    assert_eq!(
        out,
        vec![
            Delivery { observer: "Zed".to_string(), notice: Some(Notice::Farewell) },
            Delivery { observer: "Amy".to_string(), notice: Some(Notice::Farewell) },
            Delivery { observer: "Moe".to_string(), notice: Some(Notice::Farewell) },
        ]
    );
}

#[test]
fn every_observer_hears_every_event() {
    let events = vec![
        GameEvent::GameStarted,
        GameEvent::PlayerJoined("Amy".to_string()),
        GameEvent::PlayerDamaged("Moe".to_string(), 10),
        GameEvent::GameEnded,
    ];
    for order in [["Zed", "Amy", "Moe"], ["Moe", "Zed", "Amy"], ["Amy", "Moe", "Zed"]] {
        let bus = bus_of(&order);
        let mut log: Vec<Delivery> = Vec::new();
        for event in &events {
            log.extend(bus.broadcast_event(event));
        }
        assert_eq!(log.len(), 12);
        for name in order {
            assert_eq!(received(&log, name), 4);
        }
        assert_eq!(received(&log, "Nobody"), 0);
    }
}

#[test]
fn a_silent_observer_is_still_handed_the_event() {
    let bus = bus_of(&["Amy", "Moe"]);
    let out = bus.broadcast_event(&GameEvent::PlayerDamaged("Amy".to_string(), 7));
    assert_eq!(
        out,
        vec![
            Delivery { observer: "Amy".to_string(), notice: Some(Notice::Damaged(7)) },
            Delivery { observer: "Moe".to_string(), notice: None },
        ]
    );
}

#[test]
fn registering_a_taken_name_replaces_in_place() {
    let mut bus = bus_of(&["Zed", "Amy", "Moe"]);
    bus.add_observer("Amy".to_string(), watcher("Zed"));
    assert_eq!(names_of(&bus), vec!["Zed", "Amy", "Moe"]);
    let out = bus.broadcast_event(&GameEvent::PlayerDamaged("Zed".to_string(), 3));
    assert_eq!(
        out,
        vec![
            Delivery { observer: "Zed".to_string(), notice: Some(Notice::Damaged(3)) },
            Delivery { observer: "Amy".to_string(), notice: Some(Notice::Damaged(3)) },
            Delivery { observer: "Moe".to_string(), notice: None },
        ]
    );
}

#[test]
fn removing_an_unregistered_name_changes_nothing() {
    let mut bus = bus_of(&["Zed", "Amy"]);
    let before = bus.broadcast_event(&GameEvent::GameStarted);
    bus.remove_observer("Nobody");
    assert_eq!(names_of(&bus), vec!["Zed", "Amy"]);
    assert_eq!(bus.broadcast_event(&GameEvent::GameStarted), before);
    let mut empty: EventManager<PlayerObserver> = EventManager::new();
    empty.remove_observer("Nobody");
    assert_eq!(empty.names().len(), 0);
}

#[test]
fn removing_a_name_removes_only_it() {
    let mut bus = bus_of(&["Zed", "Amy", "Moe"]);
    bus.remove_observer("Amy");
    assert_eq!(names_of(&bus), vec!["Zed", "Moe"]);
    let out = bus.broadcast_event(&GameEvent::GameStarted);
    assert_eq!(out.len(), 2);
    assert_eq!(out[0].observer, "Zed");
    assert_eq!(out[1].observer, "Moe");
}

#[test]
fn removing_twice_is_removing_once() {
    let mut bus = bus_of(&["Zed", "Amy", "Moe"]);
    bus.remove_observer("Zed");
    let once = names_of(&bus);
    bus.remove_observer("Zed");
    assert_eq!(names_of(&bus), once);
    assert_eq!(once, vec!["Amy", "Moe"]);
}

#[test]
fn a_removed_name_can_be_registered_again_at_the_end() {
    let mut bus = bus_of(&["Zed", "Amy", "Moe"]);
    bus.remove_observer("Zed");
    bus.add_observer("Zed".to_string(), watcher("Zed"));
    assert_eq!(names_of(&bus), vec!["Amy", "Moe", "Zed"]);
}

#[test]
fn names_differ_by_every_byte() {
    let mut bus = bus_of(&["Amy", "Amy ", "amy", "Ämy", ""]);
    assert_eq!(bus.names().len(), 5);
    bus.remove_observer("");
    bus.remove_observer("Ämy");
    assert_eq!(names_of(&bus), vec!["Amy", "Amy ", "amy"]);
}

#[test]
fn player_observer_notes_others_who_join() {
    let amy = PlayerObserver::new("Amy".to_string());
    assert_eq!(
        amy.update(&GameEvent::PlayerJoined("Moe".to_string())),
        Some(Notice::Joined("Moe".to_string()))
    );
    assert_eq!(amy.update(&GameEvent::PlayerJoined("Amy".to_string())), None);
}

#[test]
fn player_observer_notes_its_own_damage_only() {
    let amy = PlayerObserver::new("Amy".to_string());
    assert_eq!(
        amy.update(&GameEvent::PlayerDamaged("Amy".to_string(), 10)),
        Some(Notice::Damaged(10))
    );
    assert_eq!(amy.update(&GameEvent::PlayerDamaged("Moe".to_string(), 10)), None);
    assert_eq!(
        amy.update(&GameEvent::PlayerDamaged("Amy".to_string(), -4)),
        Some(Notice::Damaged(-4))
    );
}

#[test]
fn player_observer_notes_every_enemy_and_the_session() {
    let amy = PlayerObserver::new("Amy".to_string());
    assert_eq!(
        amy.update(&GameEvent::EnemySpawned("Goblin".to_string())),
        Some(Notice::Spawned("Goblin".to_string()))
    );
    assert_eq!(
        amy.update(&GameEvent::EnemyDefeated("Goblin".to_string())),
        Some(Notice::Defeated("Goblin".to_string()))
    );
    assert_eq!(
        amy.update(&GameEvent::EnemySpawned("Amy".to_string())),
        Some(Notice::Spawned("Amy".to_string()))
    );
    assert_eq!(amy.update(&GameEvent::GameStarted), Some(Notice::Ready));
    assert_eq!(amy.update(&GameEvent::GameEnded), Some(Notice::Farewell));
}

#[test]
fn events_and_notices_can_be_copied() {
    let event = GameEvent::PlayerDamaged("Amy".to_string(), 10);
    assert_eq!(event.clone(), event);
    let delivery = Delivery { observer: "Amy".to_string(), notice: Some(Notice::Damaged(10)) };
    assert_eq!(delivery.clone(), delivery);
    let silent = Delivery { observer: "Amy".to_string(), notice: None };
    assert_eq!(silent.clone(), silent);
}

#[test]
fn the_bus_is_a_subject() {
    let mut bus: EventManager<PlayerObserver> = EventManager::new();
    Subject::add_observer(&mut bus, "Amy".to_string(), watcher("Amy"));
    Subject::add_observer(&mut bus, "Moe".to_string(), watcher("Moe"));
    Subject::remove_observer(&mut bus, "Amy");
    let out = bus.notify_observers(&GameEvent::GameStarted);
    assert_eq!(out, vec![Delivery { observer: "Moe".to_string(), notice: Some(Notice::Ready) }]);
}
