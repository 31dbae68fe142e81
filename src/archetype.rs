use vstd::prelude::*;
use crate::skills::SkillSet;

verus! {

/// The kinds of enemy. A variant is only a key into the archetype table.
#[derive(Clone, Copy, PartialEq, Eq, Structural, Hash, Debug)]
pub enum EnemyVariant {
    Zombie,
    Skeleton,
    Slime,
    Bird,
    Pirate,
}

/// The number of enemy variants, which is the number of rows of the table.
pub const VARIANT_COUNT: usize = 5;

/// The row of the archetype table that holds `v`.
pub open spec fn row_of(v: EnemyVariant) -> int {
    match v {
        EnemyVariant::Zombie => 0,
        EnemyVariant::Skeleton => 1,
        EnemyVariant::Slime => 2,
        EnemyVariant::Bird => 3,
        EnemyVariant::Pirate => 4,
    }
}

/// The baseline attributes of each variant (xp, damage, health, speed).
pub open spec fn baseline(v: EnemyVariant) -> SkillSet {
    match v {
        EnemyVariant::Zombie => SkillSet { xp: 10, damage: 50, health: 100, speed: 10 },
        EnemyVariant::Skeleton => SkillSet { xp: 15, damage: 25, health: 75, speed: 30 },
        EnemyVariant::Slime => SkillSet { xp: 20, damage: 45, health: 75, speed: 20 },
        EnemyVariant::Bird => SkillSet { xp: 35, damage: 10, health: 25, speed: 50 },
        EnemyVariant::Pirate => SkillSet { xp: 50, damage: 75, health: 250, speed: 8 },
    }
}

impl EnemyVariant {
    /// The row of the archetype table that holds this variant.
    pub fn row(&self) -> (r: usize)
        ensures
            r as int == row_of(*self),
            r < VARIANT_COUNT,
    {
        match self {
            EnemyVariant::Zombie => 0,
            EnemyVariant::Skeleton => 1,
            EnemyVariant::Slime => 2,
            EnemyVariant::Bird => 3,
            EnemyVariant::Pirate => 4,
        }
    }
}

/// The baseline attributes of `v`, written out.
pub fn baseline_of(v: EnemyVariant) -> (r: SkillSet)
    ensures
        r == baseline(v),
{
    match v {
        EnemyVariant::Zombie => SkillSet::new(10, 50, 100, 10),
        EnemyVariant::Skeleton => SkillSet::new(15, 25, 75, 30),
        EnemyVariant::Slime => SkillSet::new(20, 45, 75, 20),
        EnemyVariant::Bird => SkillSet::new(35, 10, 25, 50),
        EnemyVariant::Pirate => SkillSet::new(50, 75, 250, 8),
    }
}

/// The table from enemy variant to baseline attributes: one row per
/// variant, filled once by `new` and read-only afterwards.
pub struct ArchetypeTable {
    rows: Vec<SkillSet>,
}

impl ArchetypeTable {
    /// The table holds exactly one row per variant, each the variant's
    /// baseline.
    pub closed spec fn wf(&self) -> bool {
        &&& self.rows@.len() == VARIANT_COUNT
        &&& forall|v: EnemyVariant| #[trigger] self.rows@[row_of(v)] == baseline(v)
    }

    pub fn new() -> (r: ArchetypeTable)
        ensures
            r.wf(),
    {
        let variants = [
            EnemyVariant::Zombie,
            EnemyVariant::Skeleton,
            EnemyVariant::Slime,
            EnemyVariant::Bird,
            EnemyVariant::Pirate,
        ];
        let mut rows: Vec<SkillSet> = Vec::new();
        let mut i: usize = 0;
        while i < VARIANT_COUNT
            invariant
                i <= VARIANT_COUNT,
                variants@ == seq![
                    EnemyVariant::Zombie,
                    EnemyVariant::Skeleton,
                    EnemyVariant::Slime,
                    EnemyVariant::Bird,
                    EnemyVariant::Pirate,
                ],
                rows@.len() == i,
                forall|j: int| 0 <= j < i ==> #[trigger] rows@[j] == baseline(variants@[j]),
            decreases VARIANT_COUNT - i,
        {
            rows.push(baseline_of(variants[i]));
            i = i + 1;
        }
        let r = ArchetypeTable { rows };
        assert forall|v: EnemyVariant| #[trigger] r.rows@[row_of(v)] == baseline(v) by {
            assert(variants@[row_of(v)] == v);
        }
        r
    }

    /// A fresh copy of the baseline attributes of `v`.
    pub fn lookup(&self, v: EnemyVariant) -> (r: SkillSet)
        requires
            self.wf(),
        ensures
            r == baseline(v),
    {
        self.rows[v.row()]
    }
}

} // verus!
