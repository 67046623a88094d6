//! What holds of every session, whoever is in it.

use crate::event_laws::lemma_register_keeps_valid;
use crate::game::{
    blow_records, broadcast, duel, fall_records, player_names, GameView, HIT_DAMAGE,
};
use crate::game_event::{player_watch, DeliveryView, EventView, Registry};
use crate::models::enemy::{effective_damage, EnemyView};
use crate::models::player::PlayerView;
use crate::names::{first_at, first_index, lemma_first_index};
use crate::record::{
    as_delivered, events_of, lemma_events_of_both, lemma_events_of_one, RecordView,
};
use vstd::prelude::*;

verus! {

/// Players as they enter a session, one for each of `names`.
pub open spec fn fresh_players(names: Seq<Seq<char>>) -> Seq<PlayerView> {
    Seq::new(names.len(), |i: int| PlayerView::fresh(names[i]))
}

/// Adding players puts them behind those who are there, in the order in
/// which they were added, and touches no enemy.
pub proof fn lemma_joined_players(game: GameView, players: Seq<PlayerView>, upto: int)
    requires
        0 <= upto <= players.len(),
    ensures
        game.joined(players, upto).players == game.players + players.take(upto),
        game.joined(players, upto).players.len() == game.players.len() + upto,
        game.joined(players, upto).enemies == game.enemies,
    decreases upto,
{
    if upto > 0 {
        lemma_joined_players(game, players, upto - 1);
        assert(players.take(upto) =~= players.take(upto - 1).push(players[upto - 1]));
        assert(game.joined(players, upto).players =~= game.players + players.take(upto));
    } else {
        assert(game.players + players.take(0) =~= game.players);
    }
}

/// After any number of players were added to a newly opened session, one
/// after another, the session holds as many players as were added, and the
/// first player found under the name of any of them carries nothing and is in
/// full health.
pub proof fn lemma_added_players_are_found(
    observers: Registry,
    names: Seq<Seq<char>>,
    k: int,
)
    requires
        0 <= k < names.len(),
    ensures
        ({
            let game = GameView::opened(observers).joined(
                fresh_players(names),
                names.len() as int,
            );
            let found = first_index(player_names(game.players), names[k]);
            &&& game.players.len() == names.len()
            &&& player_names(game.players).contains(names[k])
            &&& first_at(player_names(game.players), names[k], found)
            &&& game.players[found] == PlayerView::fresh(names[k])
        }),
{
    let start = GameView::opened(observers);
    let players = fresh_players(names);
    let game = start.joined(players, names.len() as int);
    lemma_joined_players(start, players, names.len() as int);
    assert(players.take(names.len() as int) =~= players);
    assert(game.players =~= players);
    assert(player_names(game.players) =~= names);
    lemma_first_index(names, names[k]);
}

/// Adding a player registers an observer under the player's name and leaves
/// the registry valid.
pub proof fn lemma_joining_registers(game: GameView, player: PlayerView)
    requires
        game.observers.valid(),
    ensures
        game.with_player(player).observers.valid(),
        game.with_player(player).observers.names.contains(player.name),
{
    lemma_register_keeps_valid(
        game.observers,
        player.name,
        player_watch(player.name),
    );
}

/// After players were added, one after another, the registry is valid and
/// holds an observer under the name of each of them, and whoever was
/// registered before is registered still.
pub proof fn lemma_joined_registers_all(game: GameView, players: Seq<PlayerView>, upto: int)
    requires
        game.observers.valid(),
        0 <= upto <= players.len(),
    ensures
        game.joined(players, upto).observers.valid(),
        forall|k: int|
            0 <= k < upto ==> game.joined(players, upto).observers.names.contains(
                #[trigger] players[k].name,
            ),
        forall|name: Seq<char>|
            game.observers.names.contains(name) ==> game.joined(
                players,
                upto,
            ).observers.names.contains(name),
    decreases upto,
{
    if upto > 0 {
        let before = game.joined(players, upto - 1);
        let player = players[upto - 1];
        lemma_joined_registers_all(game, players, upto - 1);
        lemma_register_keeps_valid(
            before.observers,
            player.name,
            player_watch(player.name),
        );
    }
}

/// An item for a name that no player has changes nothing: every player
/// carries what it carried.
pub proof fn lemma_equipping_nobody(game: GameView, player_name: Seq<char>, item: Seq<char>)
    requires
        !player_names(game.players).contains(player_name),
    ensures
        game.equipped(player_name, item) == game,
        forall|i: int|
            0 <= i < game.players.len() ==> game.equipped(player_name, item).players[i].inventory
                == game.players[i].inventory,
{
}

/// An item for a name that a player has goes to the first player of that
/// name, behind what it carries; nobody else's inventory changes, and nobody's
/// name or health.
pub proof fn lemma_equipping_somebody(game: GameView, player_name: Seq<char>, item: Seq<char>)
    requires
        player_names(game.players).contains(player_name),
    ensures
        ({
            let found = first_index(player_names(game.players), player_name);
            let after = game.equipped(player_name, item);
            &&& first_at(player_names(game.players), player_name, found)
            &&& after.players.len() == game.players.len()
            &&& after.players[found] == game.players[found].with_item(item)
            &&& forall|i: int|
                0 <= i < game.players.len() && i != found ==> after.players[i] == game.players[i]
            &&& after.enemies == game.enemies
            &&& after.observers == game.observers
        }),
{
    lemma_first_index(player_names(game.players), player_name);
}

/// Armor never takes all of a blow: what is left of the damage is the damage
/// less the armor where that is 1 or more, and 1 otherwise.
pub proof fn lemma_effective_damage_floor(damage: int, armor: int)
    ensures
        effective_damage(damage, armor) == vstd::math::max(1, damage - armor),
        effective_damage(damage, armor) >= 1,
        armor >= 0 && damage >= 1 ==> effective_damage(damage, armor) <= damage,
{
}

/// Every blow takes at least 1 from the health of an enemy in armor, however
/// strong the armor.
pub proof fn lemma_armor_cannot_stop_a_blow(enemy: EnemyView, damage: int)
    requires
        enemy.armor is Some,
    ensures
        enemy.hit(damage).health <= enemy.health - 1,
        enemy.hit(damage).name == enemy.name,
        enemy.hit(damage).armor == enemy.armor,
{
}

/// The number of blows of `per_blow` each that it takes to use up `health`.
/// The first blow is struck whatever the health.
pub open spec fn blows_needed(health: int, per_blow: int) -> int {
    if health <= per_blow {
        1
    } else {
        (health + per_blow - 1) / per_blow
    }
}

/// One blow fewer is needed after a blow that was not the last.
proof fn lemma_blows_needed_step(health: int, per_blow: int)
    requires
        per_blow >= 1,
        health > per_blow,
    ensures
        blows_needed(health, per_blow) == blows_needed(health - per_blow, per_blow) + 1,
        blows_needed(health, per_blow) >= 2,
{
    assert((health + per_blow - 1) / per_blow == (health - 1) / per_blow + 1) by (nonlinear_arith)
        requires
            per_blow >= 1,
    ;
    if health - per_blow <= per_blow {
        assert((health - 1) / per_blow == 1) by (nonlinear_arith)
            requires
                per_blow >= 1,
                per_blow < health <= 2 * per_blow,
        ;
    } else {
        assert((health - 1) / per_blow >= 1) by (nonlinear_arith)
            requires
                per_blow >= 1,
                health > per_blow,
        ;
    }
}

/// The number of blows struck in a fight against `standing` players: as many
/// as it takes to beat the enemy, or as many as there are players where they
/// are too few.
pub open spec fn blows_struck(enemy: EnemyView, standing: int) -> int {
    let needed = blows_needed(enemy.health, enemy.damage_taken(HIT_DAMAGE as int));
    if standing <= 0 {
        0
    } else if standing < needed {
        standing
    } else {
        needed
    }
}

/// How a fight ends. Every blow takes the same from the enemy's health. The
/// enemy is struck until its health is used up or every player has struck
/// once, so it is left with its health less the blows struck, and it is
/// beaten where the players are at least as many as the blows it takes.
pub proof fn lemma_duel_outcome(
    players: Seq<Seq<char>>,
    observers: Registry,
    enemy: EnemyView,
    from: int,
)
    requires
        0 <= from <= players.len(),
    ensures
        ({
            let per_blow = enemy.damage_taken(HIT_DAMAGE as int);
            let struck = blows_struck(enemy, players.len() - from);
            let after = duel(players, observers, enemy, from).0;
            &&& per_blow >= 1
            &&& after.name == enemy.name
            &&& after.armor == enemy.armor
            &&& after.health == enemy.health - struck * per_blow
            &&& from < players.len() ==> (after.defeated() <==> players.len() - from
                >= blows_needed(enemy.health, per_blow))
        }),
    decreases players.len() - from,
{
    let per_blow = enemy.damage_taken(HIT_DAMAGE as int);
    if from < players.len() {
        let next = enemy.hit(HIT_DAMAGE as int);
        if next.defeated() {
            assert(1 * per_blow == per_blow);
        } else {
            lemma_duel_outcome(players, observers, next, from + 1);
            lemma_blows_needed_step(enemy.health, per_blow);
            let later = blows_struck(next, players.len() - from - 1);
            assert((later + 1) * per_blow == later * per_blow + per_blow) by (nonlinear_arith);
            if from + 1 == players.len() {
                assert(later == 0);
            }
        }
    } else {
        assert(0 * per_blow == 0);
    }
}

/// Deliveries put no event on the bus.
proof fn lemma_deliveries_hold_no_event(deliveries: Seq<DeliveryView>, upto: int)
    requires
        0 <= upto <= deliveries.len(),
    ensures
        events_of(as_delivered(deliveries).take(upto)) == Seq::<EventView>::empty(),
    decreases upto,
{
    if upto > 0 {
        lemma_deliveries_hold_no_event(deliveries, upto - 1);
        assert(as_delivered(deliveries).take(upto).drop_last() =~= as_delivered(deliveries).take(
            upto - 1,
        ));
    }
}

/// Putting an event on the bus shows as that one event, however many
/// observers are told.
pub proof fn lemma_broadcast_is_one_event(observers: Registry, event: EventView)
    ensures
        events_of(broadcast(observers, event)) == seq![event],
{
    let told = as_delivered(observers.deliver(event));
    lemma_deliveries_hold_no_event(observers.deliver(event), told.len() as int);
    assert(told.take(told.len() as int) =~= told);
    lemma_events_of_both(seq![RecordView::Broadcast(event)], told);
    lemma_events_of_one(RecordView::Broadcast(event));
    assert(seq![event] + Seq::<EventView>::empty() =~= seq![event]);
}

/// What a blow does to the enemy puts no event on the bus.
proof fn lemma_hit_holds_no_event(enemy: EnemyView, damage: int)
    ensures
        events_of(enemy.hit_records(damage)) == Seq::<EventView>::empty(),
{
    let records = enemy.hit_records(damage);
    let blow = RecordView::Hit {
        enemy: enemy.name,
        damage: enemy.damage_taken(damage),
        remaining: enemy.hit(damage).health,
    };
    lemma_events_of_one(blow);
    if enemy.armor is Some {
        let kept = RecordView::Absorbed {
            enemy: enemy.name,
            amount: damage - enemy.damage_taken(damage),
        };
        lemma_events_of_one(kept);
        lemma_events_of_both(seq![blow], seq![kept]);
        assert(records =~= seq![blow] + seq![kept]);
    }
}

/// A blow shows on the bus as damage to the player who struck it.
pub proof fn lemma_blow_is_one_event(observers: Registry, player: Seq<char>, enemy: EnemyView)
    ensures
        events_of(blow_records(observers, player, enemy)) == seq![
            EventView::PlayerDamaged(player, HIT_DAMAGE as int),
        ],
{
    let event = EventView::PlayerDamaged(player, HIT_DAMAGE as int);
    let attacked = seq![RecordView::Attacked { player, enemy: enemy.name }];
    lemma_events_of_one(RecordView::Attacked { player, enemy: enemy.name });
    lemma_broadcast_is_one_event(observers, event);
    lemma_hit_holds_no_event(enemy, HIT_DAMAGE as int);
    lemma_events_of_both(attacked, broadcast(observers, event));
    lemma_events_of_both(
        attacked + broadcast(observers, event),
        enemy.hit_records(HIT_DAMAGE as int),
    );
    assert(events_of(blow_records(observers, player, enemy)) =~= seq![event]);
}

/// A fall shows on the bus as the defeat of the enemy.
pub proof fn lemma_fall_is_one_event(observers: Registry, enemy: EnemyView)
    ensures
        events_of(fall_records(observers, enemy)) == seq![EventView::EnemyDefeated(enemy.name)],
{
    let fell = seq![RecordView::Fell { enemy: enemy.name }];
    lemma_events_of_one(RecordView::Fell { enemy: enemy.name });
    lemma_broadcast_is_one_event(observers, EventView::EnemyDefeated(enemy.name));
    lemma_events_of_both(fell, broadcast(observers, EventView::EnemyDefeated(enemy.name)));
    assert(events_of(fall_records(observers, enemy)) =~= seq![
        EventView::EnemyDefeated(enemy.name),
    ]);
}

/// The events of a fight, as the bus shows them: damage to each player who
/// strikes, in the players' order, as many as blows are struck; then the
/// enemy's defeat, once, where the last blow beat it. No blow follows a
/// defeat.
pub open spec fn duel_events(players: Seq<Seq<char>>, enemy: EnemyView, from: int) -> Seq<
    EventView,
> {
    let struck = blows_struck(enemy, players.len() - from);
    let blows = Seq::new(
        struck as nat,
        |j: int| EventView::PlayerDamaged(players[from + j], HIT_DAMAGE as int),
    );
    if from < players.len() && players.len() - from >= blows_needed(
        enemy.health,
        enemy.damage_taken(HIT_DAMAGE as int),
    ) {
        blows.push(EventView::EnemyDefeated(enemy.name))
    } else {
        blows
    }
}

/// The bus shows of a fight exactly the events of [`duel_events`].
pub proof fn lemma_duel_events(
    players: Seq<Seq<char>>,
    observers: Registry,
    enemy: EnemyView,
    from: int,
)
    requires
        0 <= from <= players.len(),
    ensures
        events_of(duel(players, observers, enemy, from).1) == duel_events(players, enemy, from),
    decreases players.len() - from,
{
    let per_blow = enemy.damage_taken(HIT_DAMAGE as int);
    if from < players.len() {
        let next = enemy.hit(HIT_DAMAGE as int);
        let blow = blow_records(observers, players[from], enemy);
        lemma_blow_is_one_event(observers, players[from], enemy);
        if next.defeated() {
            lemma_fall_is_one_event(observers, next);
            lemma_events_of_both(blow, fall_records(observers, next));
            assert(events_of(duel(players, observers, enemy, from).1) =~= duel_events(
                players,
                enemy,
                from,
            ));
        } else {
            let rest = duel(players, observers, next, from + 1);
            lemma_duel_events(players, observers, next, from + 1);
            lemma_blows_needed_step(enemy.health, per_blow);
            lemma_events_of_both(blow, rest.1);
            assert(events_of(duel(players, observers, enemy, from).1) =~= duel_events(
                players,
                enemy,
                from,
            ));
        }
    } else {
        assert(events_of(duel(players, observers, enemy, from).1) =~= duel_events(
            players,
            enemy,
            from,
        ));
    }
}

/// The events of the fights of the first `upto` enemies of `game`, fight
/// after fight.
pub open spec fn battle_events(game: GameView, upto: int) -> Seq<EventView>
    decreases upto,
{
    if upto <= 0 {
        Seq::empty()
    } else {
        battle_events(game, upto - 1) + duel_events(
            player_names(game.players),
            game.enemies[upto - 1],
            0,
        )
    }
}

/// The bus shows of the fights of the first `upto` enemies the events of
/// each fight, fight after fight.
proof fn lemma_battle_events(game: GameView, upto: int)
    requires
        0 <= upto <= game.enemies.len(),
    ensures
        events_of(game.battle_records(upto)) == battle_events(game, upto),
    decreases upto,
{
    if upto > 0 {
        let names = player_names(game.players);
        let enemy = game.enemies[upto - 1];
        let appeared = seq![RecordView::Appeared { enemy: enemy.name }];
        lemma_battle_events(game, upto - 1);
        lemma_events_of_one(RecordView::Appeared { enemy: enemy.name });
        lemma_duel_events(names, game.observers, enemy, 0);
        lemma_events_of_both(appeared, duel(names, game.observers, enemy, 0).1);
        lemma_events_of_both(game.battle_records(upto - 1), game.fight_records(upto - 1));
        assert(Seq::<EventView>::empty() + duel_events(names, enemy, 0) =~= duel_events(
            names,
            enemy,
            0,
        ));
    }
}

/// Telling what the players carry puts no event on the bus.
proof fn lemma_inventories_hold_no_event(game: GameView, upto: int)
    requires
        0 <= upto <= game.players.len(),
    ensures
        events_of(game.inventories().take(upto)) == Seq::<EventView>::empty(),
    decreases upto,
{
    if upto > 0 {
        lemma_inventories_hold_no_event(game, upto - 1);
        assert(game.inventories().take(upto).drop_last() =~= game.inventories().take(upto - 1));
    }
}

/// The events of a round, as the bus shows them: the events of each fight,
/// enemy after enemy, and at the end, once, that the game has ended.
pub proof fn lemma_round_events(game: GameView)
    ensures
        events_of(game.round_records()) == battle_events(game, game.enemies.len() as int).push(
            EventView::GameEnded,
        ),
{
    let opened = seq![RecordView::RoundStarted];
    let carried = game.inventories();
    let fought = game.battle_records(game.enemies.len() as int);
    let ended = broadcast(game.observers, EventView::GameEnded);
    lemma_events_of_one(RecordView::RoundStarted);
    lemma_inventories_hold_no_event(game, game.players.len() as int);
    assert(carried.take(game.players.len() as int) =~= carried);
    lemma_battle_events(game, game.enemies.len() as int);
    lemma_broadcast_is_one_event(game.observers, EventView::GameEnded);
    lemma_events_of_both(opened, carried);
    lemma_events_of_both(opened + carried, fought);
    lemma_events_of_both(opened + carried + fought, ended);
    assert(events_of(game.round_records()) =~= battle_events(
        game,
        game.enemies.len() as int,
    ).push(EventView::GameEnded));
}

/// A round takes health from enemies only: it leaves every player, and the
/// registry, as they were, and every enemy with its name and its armor.
pub proof fn lemma_round_spares_players(game: GameView, i: int)
    requires
        0 <= i < game.enemies.len(),
    ensures
        game.after_round().players == game.players,
        game.after_round().observers == game.observers,
        game.after_round().enemies.len() == game.enemies.len(),
        game.after_round().enemies[i].name == game.enemies[i].name,
        game.after_round().enemies[i].armor == game.enemies[i].armor,
        game.after_round().enemies[i].health == game.enemies[i].health - blows_struck(
            game.enemies[i],
            game.players.len() as int,
        ) * game.enemies[i].damage_taken(HIT_DAMAGE as int),
{
    lemma_duel_outcome(player_names(game.players), game.observers, game.enemies[i], 0);
}

} // verus!
