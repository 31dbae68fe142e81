use vstd::prelude::*;

verus! {

/// The value of `v` clamped into the range of `i64`.
pub open spec fn clamp_i64(v: int) -> int {
    if v < i64::MIN {
        i64::MIN as int
    } else if v > i64::MAX {
        i64::MAX as int
    } else {
        v
    }
}

/// Narrows `v` to `i64`, saturating at its bounds.
pub fn saturate_i64(v: i128) -> (r: i64)
    ensures
        r == clamp_i64(v as int),
{
    if v < i64::MIN as i128 {
        i64::MIN
    } else if v > i64::MAX as i128 {
        i64::MAX
    } else {
        v as i64
    }
}

/// The attributes of an entity: experience, attack damage, health and speed
/// (world units per second). Every field may take any value.
#[derive(Clone, Copy, PartialEq, Eq, Structural, Debug)]
pub struct SkillSet {
    pub xp: i64,
    pub damage: i64,
    pub health: i64,
    pub speed: i64,
}

impl SkillSet {
    pub fn new(xp: i64, damage: i64, health: i64, speed: i64) -> (r: SkillSet)
        ensures
            r == (SkillSet { xp, damage, health, speed }),
    {
        SkillSet { xp, damage, health, speed }
    }

    /// The attributes left after taking `amount` damage: health drops by
    /// `amount` (saturating at the bounds of `i64`), the rest is unchanged.
    pub open spec fn damaged(self, amount: i64) -> SkillSet {
        SkillSet { health: clamp_i64(self.health - amount) as i64, ..self }
    }

    pub fn get_xp(&self) -> (r: i64)
        ensures
            r == self.xp,
    {
        self.xp
    }

    pub fn set_xp(&mut self, value: i64)
        ensures
            *final(self) == (SkillSet { xp: value, ..*old(self) }),
    {
        self.xp = value;
    }

    pub fn get_damage(&self) -> (r: i64)
        ensures
            r == self.damage,
    {
        self.damage
    }

    pub fn set_damage(&mut self, value: i64)
        ensures
            *final(self) == (SkillSet { damage: value, ..*old(self) }),
    {
        self.damage = value;
    }

    pub fn get_health(&self) -> (r: i64)
        ensures
            r == self.health,
    {
        self.health
    }

    pub fn set_health(&mut self, value: i64)
        ensures
            *final(self) == (SkillSet { health: value, ..*old(self) }),
    {
        self.health = value;
    }

    pub fn get_speed(&self) -> (r: i64)
        ensures
            r == self.speed,
    {
        self.speed
    }

    pub fn set_speed(&mut self, value: i64)
        ensures
            *final(self) == (SkillSet { speed: value, ..*old(self) }),
    {
        self.speed = value;
    }

    /// Takes `amount` damage: health drops by `amount`, saturating at the
    /// bounds of `i64`; experience, damage and speed are kept.
    pub fn take_hit(&mut self, amount: i64)
        ensures
            *final(self) == old(self).damaged(amount),
    {
        self.health = saturate_i64(self.health as i128 - amount as i128);
    }
}

/// What players and enemies share: they take damage and report a copy of
/// their attributes.
pub trait Entity {
    /// The entity's current attributes.
    spec fn skills(&self) -> SkillSet;

    /// Reduces the entity's health by `damage`; nothing else changes.
    fn take_damage(&mut self, damage: i64)
        ensures
            final(self).skills() == old(self).skills().damaged(damage),
    ;

    /// A copy of the entity's current attributes.
    fn get_skillset(&self) -> (r: SkillSet)
        ensures
            r == self.skills(),
    ;
}

} // verus!
