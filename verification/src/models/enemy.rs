//! Enemies, plain and armored, and what an attack does to them.

use crate::record::{record_views, Record, RecordView};
use vstd::prelude::*;

verus! {

/// The health that an attack of `damage` takes from an enemy that wears
/// `armor`: the armor takes its share, but every blow takes at least 1.
pub open spec fn effective_damage(damage: int, armor: int) -> int {
    if damage - armor >= 1 {
        damage - armor
    } else {
        1
    }
}

/// The mathematical value of an enemy: its name, its health, which may be
/// negative, and its armor if it wears any.
pub struct EnemyView {
    pub name: Seq<char>,
    pub health: int,
    pub armor: Option<int>,
}

impl EnemyView {
    /// A plain enemy of this name as it enters a session.
    pub open spec fn fresh(name: Seq<char>) -> EnemyView {
        EnemyView { name, health: 20, armor: None }
    }

    /// The health that an attack of `damage` takes from this enemy.
    pub open spec fn damage_taken(self, damage: int) -> int {
        match self.armor {
            Some(armor) => effective_damage(damage, armor),
            None => damage,
        }
    }

    /// This enemy after an attack of `damage`.
    pub open spec fn hit(self, damage: int) -> EnemyView {
        EnemyView { health: self.health - self.damage_taken(damage), ..self }
    }

    /// Whether the numbers of an attack of `damage` on this enemy all fit
    /// into 32 bits.
    pub open spec fn can_take(self, damage: int) -> bool {
        &&& i32::MIN <= self.health - self.damage_taken(damage) <= i32::MAX
        &&& self.armor matches Some(armor) ==> {
            &&& i32::MIN <= damage - armor <= i32::MAX
            &&& i32::MIN <= damage - effective_damage(damage, armor) <= i32::MAX
        }
    }

    /// The records of an attack of `damage` on this enemy: the blow, and what
    /// the armor kept away where there is armor.
    pub open spec fn hit_records(self, damage: int) -> Seq<RecordView> {
        let blow = RecordView::Hit {
            enemy: self.name,
            damage: self.damage_taken(damage),
            remaining: self.hit(damage).health,
        };
        match self.armor {
            Some(_) => seq![
                blow,
                RecordView::Absorbed {
                    enemy: self.name,
                    amount: damage - self.damage_taken(damage),
                },
            ],
            None => seq![blow],
        }
    }

    /// Whether this enemy is beaten: its health is used up.
    pub open spec fn defeated(self) -> bool {
        self.health <= 0
    }
}

/// What every kind of enemy can do.
pub trait EnemyBehavior {
    /// The enemy as a value.
    spec fn state(&self) -> EnemyView;

    /// Whether the numbers of an attack of `damage` all fit into 32 bits, so
    /// that the enemy can be struck with it.
    fn can_take(&self, damage: i32) -> (fits: bool)
        ensures
            fits == self.state().can_take(damage as int),
    ;

    /// Strikes the enemy with `damage`.
    fn attack(&mut self, damage: i32) -> (records: Vec<Record>)
        requires
            old(self).state().can_take(damage as int),
        ensures
            final(self).state() == old(self).state().hit(damage as int),
            record_views(records@) == old(self).state().hit_records(damage as int),
    ;

    /// The enemy's name.
    fn get_name(&self) -> (name: &str)
        ensures
            name@ == self.state().name,
    ;

    /// The health that the enemy has left.
    fn get_health(&self) -> (health: i32)
        ensures
            health == self.state().health,
    ;

    /// A copy of the enemy without its armor.
    fn get_base_enemy(&self) -> (base: Enemy)
        ensures
            base@ == (EnemyView { armor: None, ..self.state() }),
    ;
}

/// A plain enemy. It begins with 20 health; nothing keeps its health from
/// falling below zero.
#[derive(Debug, PartialEq, Eq)]
pub struct Enemy {
    pub name: String,
    pub health: i32,
}

impl View for Enemy {
    type V = EnemyView;

    open spec fn view(&self) -> EnemyView {
        EnemyView { name: self.name@, health: self.health as int, armor: None }
    }
}

impl Clone for Enemy {
    fn clone(&self) -> (copy: Self)
        ensures
            copy@ == self@,
    {
        Enemy { name: self.name.clone(), health: self.health }
    }
}

impl Enemy {
    /// A plain enemy called `name`, with its starting health.
    pub fn new(name: String) -> (enemy: Enemy)
        ensures
            enemy@ == EnemyView::fresh(name@),
    {
        Enemy { name, health: 20 }
    }

    /// Takes `damage` from the enemy's health.
    pub fn attack(&mut self, damage: i32) -> (record: Record)
        requires
            i32::MIN <= old(self).health - damage <= i32::MAX,
        ensures
            final(self)@ == old(self)@.hit(damage as int),
            record@ == (RecordView::Hit {
                enemy: old(self)@.name,
                damage: damage as int,
                remaining: old(self).health - damage,
            }),
    {
        self.health -= damage;
        Record::Hit { enemy: self.name.clone(), damage, remaining: self.health }
    }
}

impl EnemyBehavior for Enemy {
    open spec fn state(&self) -> EnemyView {
        self@
    }

    fn can_take(&self, damage: i32) -> (fits: bool) {
        let left: i64 = self.health as i64 - damage as i64;
        i32::MIN as i64 <= left && left <= i32::MAX as i64
    }

    fn attack(&mut self, damage: i32) -> (records: Vec<Record>) {
        let record = Enemy::attack(self, damage);
        let mut records: Vec<Record> = Vec::new();
        records.push(record);
        records
    }

    fn get_name(&self) -> (name: &str) {
        self.name.as_str()
    }

    fn get_health(&self) -> (health: i32) {
        self.health
    }

    fn get_base_enemy(&self) -> (base: Enemy) {
        self.clone()
    }
}

/// An enemy in armor. The armor takes its share of every blow, but never all
/// of it.
#[derive(Debug, PartialEq, Eq)]
pub struct ArmoredEnemy {
    enemy: Enemy,
    armor: i32,
}

impl View for ArmoredEnemy {
    type V = EnemyView;

    closed spec fn view(&self) -> EnemyView {
        EnemyView { armor: Some(self.armor as int), ..self.enemy@ }
    }
}

impl ArmoredEnemy {
    /// The enemy under the armor.
    pub closed spec fn base(self) -> Enemy {
        self.enemy
    }

    /// The enemy under the armor is the armored enemy without the armor.
    pub proof fn lemma_base(self)
        ensures
            self.base()@ == (EnemyView { armor: None, ..self@ }),
    {
    }

    /// Puts `enemy` in `armor`.
    pub fn new(enemy: Enemy, armor: i32) -> (armored: Self)
        ensures
            armored@ == (EnemyView { armor: Some(armor as int), ..enemy@ }),
    {
        ArmoredEnemy { enemy, armor }
    }

    /// Takes the armor off.
    pub fn into_enemy(self) -> (enemy: Enemy)
        ensures
            enemy == self.base(),
            enemy@ == (EnemyView { armor: None, ..self@ }),
    {
        self.enemy
    }

    /// The enemy under the armor.
    pub fn get_base_enemy(&self) -> (enemy: &Enemy)
        ensures
            enemy@ == (EnemyView { armor: None, ..self@ }),
    {
        &self.enemy
    }

    /// The armor.
    pub fn armor(&self) -> (armor: i32)
        ensures
            self@.armor == Some(armor as int),
    {
        self.armor
    }
}

impl From<ArmoredEnemy> for Enemy {
    /// Takes the armor off.
    fn from(armored: ArmoredEnemy) -> (enemy: Enemy) {
        armored.into_enemy()
    }
}

impl vstd::std_specs::convert::FromSpecImpl<ArmoredEnemy> for Enemy {
    open spec fn obeys_from_spec() -> bool {
        true
    }

    open spec fn from_spec(armored: ArmoredEnemy) -> Enemy {
        armored.base()
    }
}

impl EnemyBehavior for ArmoredEnemy {
    open spec fn state(&self) -> EnemyView {
        self@
    }

    fn can_take(&self, damage: i32) -> (fits: bool) {
        let past_armor: i64 = damage as i64 - self.armor as i64;
        let taken: i64 = if past_armor >= 1 {
            past_armor
        } else {
            1
        };
        let kept: i64 = damage as i64 - taken;
        let left: i64 = self.enemy.health as i64 - taken;
        i32::MIN as i64 <= past_armor && past_armor <= i32::MAX as i64 && i32::MIN as i64 <= kept
            && kept <= i32::MAX as i64 && i32::MIN as i64 <= left && left <= i32::MAX as i64
    }

    fn attack(&mut self, damage: i32) -> (records: Vec<Record>) {
        let reduced_damage: i32 = if damage - self.armor >= 1 {
            damage - self.armor
        } else {
            1
        };
        let blow = self.enemy.attack(reduced_damage);
        let mut records: Vec<Record> = Vec::new();
        records.push(blow);
        records.push(
            Record::Absorbed { enemy: self.enemy.name.clone(), amount: damage - reduced_damage },
        );
        records
    }

    fn get_name(&self) -> (name: &str) {
        self.enemy.name.as_str()
    }

    fn get_health(&self) -> (health: i32) {
        self.enemy.health
    }

    fn get_base_enemy(&self) -> (base: Enemy) {
        self.enemy.clone()
    }
}

/// An enemy of either kind.
#[derive(Debug, PartialEq, Eq)]
pub enum AnyEnemy {
    Plain(Enemy),
    Armored(ArmoredEnemy),
}

impl View for AnyEnemy {
    type V = EnemyView;

    open spec fn view(&self) -> EnemyView {
        match *self {
            AnyEnemy::Plain(enemy) => enemy@,
            AnyEnemy::Armored(armored) => armored@,
        }
    }
}

impl EnemyBehavior for AnyEnemy {
    open spec fn state(&self) -> EnemyView {
        self@
    }

    fn can_take(&self, damage: i32) -> (fits: bool) {
        match self {
            AnyEnemy::Plain(enemy) => enemy.can_take(damage),
            AnyEnemy::Armored(armored) => armored.can_take(damage),
        }
    }

    fn attack(&mut self, damage: i32) -> (records: Vec<Record>) {
        match self {
            AnyEnemy::Plain(enemy) => EnemyBehavior::attack(enemy, damage),
            AnyEnemy::Armored(armored) => armored.attack(damage),
        }
    }

    fn get_name(&self) -> (name: &str) {
        match self {
            AnyEnemy::Plain(enemy) => enemy.get_name(),
            AnyEnemy::Armored(armored) => armored.get_name(),
        }
    }

    fn get_health(&self) -> (health: i32) {
        match self {
            AnyEnemy::Plain(enemy) => enemy.get_health(),
            AnyEnemy::Armored(armored) => armored.get_health(),
        }
    }

    fn get_base_enemy(&self) -> (base: Enemy) {
        match self {
            AnyEnemy::Plain(enemy) => enemy.clone(),
            AnyEnemy::Armored(armored) => EnemyBehavior::get_base_enemy(armored),
        }
    }
}

} // verus!
