use vstd::prelude::*;
use crate::archetype::{baseline, EnemyVariant};
use crate::entity::Enemy;
use crate::geometry::{Collider, Vec2};
use crate::skills::Entity;

verus! {

/// The spawn period: five seconds, in microseconds.
pub const SPAWN_PERIOD_MICROS: u64 = 5_000_000;

/// The side of a spawned enemy's box: twenty world units, in micro-units.
pub const ENEMY_SIZE: i64 = 20_000_000;

/// Whether a repeating timer at `elapsed` of `period` finishes when it is
/// advanced by `delta`.
pub open spec fn fires(elapsed: int, period: int, delta: int) -> bool {
    elapsed + delta >= period
}

/// Where a repeating timer at `elapsed` of `period` stands after it is
/// advanced by `delta`: every whole period passed is dropped.
pub open spec fn elapsed_after(elapsed: int, period: int, delta: int) -> int {
    if period == 0 {
        0
    } else {
        (elapsed + delta) % period
    }
}

/// The sum of a sequence of frame times.
pub open spec fn total(deltas: Seq<u64>) -> int
    decreases deltas.len(),
{
    if deltas.len() == 0 {
        0
    } else {
        deltas[0] + total(deltas.drop_first())
    }
}

/// How many of the ticks by `deltas` fire, from a timer at `elapsed` of
/// `period`.
pub open spec fn fire_count(elapsed: int, period: int, deltas: Seq<u64>) -> nat
    decreases deltas.len(),
{
    if deltas.len() == 0 {
        0
    } else {
        (if fires(elapsed, period, deltas[0] as int) {
            1nat
        } else {
            0nat
        }) + fire_count(elapsed_after(elapsed, period, deltas[0] as int), period, deltas.drop_first())
    }
}

/// A repeating countdown that gates enemy creation. Each tick reports at
/// most one firing, however many periods the tick spans.
pub struct EnemySpawnTimer {
    period: u64,
    elapsed: u64,
}

impl EnemySpawnTimer {
    pub closed spec fn period_spec(&self) -> nat {
        self.period as nat
    }

    pub closed spec fn elapsed_spec(&self) -> nat {
        self.elapsed as nat
    }

    /// The time since the last firing stays below the period.
    pub open spec fn wf(&self) -> bool {
        if self.period_spec() == 0 {
            self.elapsed_spec() == 0
        } else {
            self.elapsed_spec() < self.period_spec()
        }
    }

    /// A timer of `period` microseconds that has just started.
    pub fn new(period: u64) -> (r: EnemySpawnTimer)
        ensures
            r.wf(),
            r.period_spec() == period,
            r.elapsed_spec() == 0,
    {
        EnemySpawnTimer { period, elapsed: 0 }
    }

    /// A timer of the standard spawn period.
    pub fn standard() -> (r: EnemySpawnTimer)
        ensures
            r.wf(),
            r.period_spec() == SPAWN_PERIOD_MICROS,
            r.elapsed_spec() == 0,
    {
        EnemySpawnTimer::new(SPAWN_PERIOD_MICROS)
    }

    pub fn period(&self) -> (r: u64)
        ensures
            r == self.period_spec(),
    {
        self.period
    }

    pub fn elapsed(&self) -> (r: u64)
        ensures
            r == self.elapsed_spec(),
    {
        self.elapsed
    }

    /// Advances the timer by `delta` microseconds and tells whether it
    /// finished during this tick; it then restarts with what is left over.
    pub fn tick(&mut self, delta: u64) -> (fired: bool)
        requires
            old(self).wf(),
        ensures
            final(self).wf(),
            final(self).period_spec() == old(self).period_spec(),
            fired == fires(old(self).elapsed_spec() as int, old(self).period_spec() as int, delta as int),
            final(self).elapsed_spec() == elapsed_after(
                old(self).elapsed_spec() as int,
                old(self).period_spec() as int,
                delta as int,
            ),
    {
        let total: u128 = self.elapsed as u128 + delta as u128;
        let fired = total >= self.period as u128;
        if self.period == 0 {
            self.elapsed = 0;
        } else {
            let rest: u128 = total % (self.period as u128);
            assert(rest < self.period);
            self.elapsed = rest as u64;
        }
        fired
    }

    /// Advances the timer by each of `deltas` in turn and counts the ticks
    /// that fired.
    pub fn tick_all(&mut self, deltas: &Vec<u64>) -> (count: u64)
        requires
            old(self).wf(),
        ensures
            final(self).wf(),
            final(self).period_spec() == old(self).period_spec(),
            count == fire_count(old(self).elapsed_spec() as int, old(self).period_spec() as int, deltas@),
    {
        let mut count: u64 = 0;
        let mut i: usize = 0;
        assert(deltas@.skip(0) == deltas@);
        while i < deltas.len()
            invariant
                self.wf(),
                self.period_spec() == old(self).period_spec(),
                i <= deltas@.len(),
                count <= i,
                count + fire_count(self.elapsed_spec() as int, self.period_spec() as int, deltas@.skip(i as int))
                    == fire_count(old(self).elapsed_spec() as int, old(self).period_spec() as int, deltas@),
            decreases deltas@.len() - i,
        {
            proof {
                assert(deltas@.skip(i as int).drop_first() == deltas@.skip(i + 1));
            }
            if self.tick(deltas[i]) {
                count = count + 1;
            }
            i = i + 1;
        }
        proof {
            assert(deltas@.skip(i as int).len() == 0);
        }
        count
    }
}

/// Frame times that together fall short of what is left of the period do
/// not fire; frame times that together make up exactly what is left of it
/// fire exactly once. In particular, from a fresh timer, frames that add up
/// to one period fire once.
pub proof fn lemma_one_period_fires_once(elapsed: int, period: int, deltas: Seq<u64>)
    requires
        0 <= elapsed < period,
        elapsed + total(deltas) <= period,
    ensures
        elapsed + total(deltas) < period ==> fire_count(elapsed, period, deltas) == 0,
        elapsed + total(deltas) == period ==> fire_count(elapsed, period, deltas) == 1,
    decreases deltas.len(),
{
    if deltas.len() > 0 {
        let d = deltas[0] as int;
        let rest = deltas.drop_first();
        assert(total(rest) >= 0) by {
            lemma_total_nonneg(rest);
        }
        if elapsed + d >= period {
            assert(elapsed + d == period);
            assert(elapsed_after(elapsed, period, d) == 0) by {
                vstd::arithmetic::div_mod::lemma_mod_self_0(period);
            }
            lemma_one_period_fires_once(0, period, rest);
        } else {
            assert(elapsed_after(elapsed, period, d) == elapsed + d) by {
                vstd::arithmetic::div_mod::lemma_small_mod((elapsed + d) as nat, period as nat);
            }
            lemma_one_period_fires_once(elapsed + d, period, rest);
        }
    }
}

/// A sum of frame times is never negative.
pub proof fn lemma_total_nonneg(deltas: Seq<u64>)
    ensures
        total(deltas) >= 0,
    decreases deltas.len(),
{
    if deltas.len() > 0 {
        lemma_total_nonneg(deltas.drop_first());
    }
}

/// Advances the spawn timer by `delta` microseconds; when it fires, a fresh
/// zombie and its box, at the origin, come out.
pub fn spawn_enemy(timer: &mut EnemySpawnTimer, delta: u64) -> (r: Option<(Enemy, Collider)>)
    requires
        old(timer).wf(),
    ensures
        final(timer).wf(),
        final(timer).period_spec() == old(timer).period_spec(),
        final(timer).elapsed_spec() == elapsed_after(
            old(timer).elapsed_spec() as int,
            old(timer).period_spec() as int,
            delta as int,
        ),
        r is Some <==> fires(old(timer).elapsed_spec() as int, old(timer).period_spec() as int, delta as int),
        r matches Some((e, c)) ==> {
            &&& e.variant_spec() == EnemyVariant::Zombie
            &&& e.skills() == baseline(EnemyVariant::Zombie)
            &&& c.pos() == (Vec2 { x: 0, y: 0 })
            &&& c.dims() == (Vec2 { x: ENEMY_SIZE, y: ENEMY_SIZE })
        },
{
    if timer.tick(delta) {
        Some((Enemy::new(EnemyVariant::Zombie), Collider::new(Vec2::zero(), Vec2::new(ENEMY_SIZE, ENEMY_SIZE))))
    } else {
        None
    }
}

} // verus!
