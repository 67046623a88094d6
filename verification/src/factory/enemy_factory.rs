//! The maker of enemies.

use crate::models::enemy::{AnyEnemy, ArmoredEnemy, Enemy, EnemyView};
use vstd::prelude::*;
use vstd::string::to_string_from_display_ensures_for_str;

verus! {

/// Makes enemies.
pub struct EnemyFactory;

impl EnemyFactory {
    /// A plain enemy called `name`, with its starting health.
    pub fn create_enemy(name: &str) -> (enemy: AnyEnemy)
        ensures
            enemy@ == EnemyView::fresh(name@),
    {
        broadcast use to_string_from_display_ensures_for_str;

        AnyEnemy::Plain(Enemy::new(name.to_string()))
    }

    /// An enemy called `name`, with its starting health, in `armor`.
    pub fn create_armored_enemy(name: &str, armor: i32) -> (enemy: AnyEnemy)
        ensures
            enemy@ == (EnemyView { armor: Some(armor as int), ..EnemyView::fresh(name@) }),
    {
        broadcast use to_string_from_display_ensures_for_str;

        AnyEnemy::Armored(ArmoredEnemy::new(Enemy::new(name.to_string()), armor))
    }
}

} // verus!
