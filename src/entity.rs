use vstd::prelude::*;
use crate::archetype::{baseline, baseline_of, ArchetypeTable, EnemyVariant};
use crate::skills::{Entity, SkillSet};

verus! {

/// The character that the person at the keyboard moves around.
pub struct Player {
    skillset: SkillSet,
}

impl Player {
    /// A player with no experience yet and the given damage, health and
    /// speed.
    pub fn new(damage: i64, health: i64, speed: i64) -> (r: Player)
        ensures
            r.skills() == (SkillSet { xp: 0, damage, health, speed }),
    {
        Player { skillset: SkillSet::new(0, damage, health, speed) }
    }
}

impl Entity for Player {
    closed spec fn skills(&self) -> SkillSet {
        self.skillset
    }

    fn take_damage(&mut self, damage: i64) {
        self.skillset.take_hit(damage);
    }

    fn get_skillset(&self) -> (r: SkillSet) {
        self.skillset
    }
}

/// An enemy: its variant and its own copy of the variant's attributes.
pub struct Enemy {
    variant: EnemyVariant,
    skillset: SkillSet,
}

impl Enemy {
    pub closed spec fn variant_spec(&self) -> EnemyVariant {
        self.variant
    }

    /// A fresh enemy of `variant` with the variant's baseline attributes.
    pub fn new(variant: EnemyVariant) -> (r: Enemy)
        ensures
            r.variant_spec() == variant,
            r.skills() == baseline(variant),
    {
        Enemy { variant, skillset: baseline_of(variant) }
    }

    /// A fresh enemy of `variant` with the attributes that `table` gives it.
    pub fn from_table(variant: EnemyVariant, table: &ArchetypeTable) -> (r: Enemy)
        requires
            table.wf(),
        ensures
            r.variant_spec() == variant,
            r.skills() == baseline(variant),
    {
        Enemy { variant, skillset: table.lookup(variant) }
    }

    pub fn get_variant(&self) -> (r: EnemyVariant)
        ensures
            r == self.variant_spec(),
    {
        self.variant
    }
}

impl Entity for Enemy {
    closed spec fn skills(&self) -> SkillSet {
        self.skillset
    }

    fn take_damage(&mut self, damage: i64) {
        self.skillset.take_hit(damage);
    }

    fn get_skillset(&self) -> (r: SkillSet) {
        self.skillset
    }
}

} // verus!
