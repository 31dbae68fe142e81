use vstd::prelude::*;
use crate::aim::{aim_offset, fire, Projectile};
use crate::archetype::{baseline, EnemyVariant};
use crate::entity::{Enemy, Player};
use crate::geometry::{contact, overlaps, sat_diff, Collider, Collision, Vec2};
use crate::movement::{move_player, moved, MoveInput};
use crate::skills::Entity;
use crate::spawn::{elapsed_after, fires, spawn_enemy, EnemySpawnTimer, ENEMY_SIZE};

verus! {

/// The player's starting damage, health and speed.
pub const PLAYER_DAMAGE: i64 = 50;
pub const PLAYER_HEALTH: i64 = 100;
pub const PLAYER_SPEED: i64 = 100;

/// The side of the player's box: twenty world units, in micro-units.
pub const PLAYER_SIZE: i64 = 20_000_000;

/// Whether `r` is what an overlap test of `a` against `b` reports.
pub open spec fn is_report_of(r: (bool, Option<Collision>), a: Collider, b: Collider) -> bool {
    &&& r.0 == overlaps(a, b)
    &&& r.0 ==> (r.1 is Some && r.1->Some_0.point_spec() == contact(a, b))
    &&& !r.0 ==> (r.1 is None)
}

/// Tests the player's box against each of `others`, in order.
pub fn check_player_collisions(player: &Collider, others: &Vec<Collider>) -> (r: Vec<
    (bool, Option<Collision>),
>)
    ensures
        r@.len() == others@.len(),
        forall|k: int| 0 <= k < others@.len() ==> is_report_of(#[trigger] r@[k], *player, others@[k]),
{
    let mut r: Vec<(bool, Option<Collision>)> = Vec::new();
    let mut k: usize = 0;
    while k < others.len()
        invariant
            k <= others@.len(),
            r@.len() == k,
            forall|j: int| 0 <= j < k ==> is_report_of(#[trigger] r@[j], *player, others@[j]),
        decreases others@.len() - k,
    {
        r.push(player.collide(&others[k]));
        k = k + 1;
    }
    r
}

/// What one frame's input carries: the directional keys, the cursor's world
/// position if it has one, whether the trigger is held, and the frame time
/// in microseconds.
pub struct FrameInput {
    pub movement: MoveInput,
    pub cursor: Option<Vec2>,
    pub trigger_held: bool,
    pub dt: u64,
}

/// What one frame produced: whether an enemy spawned, the player's
/// collision report against each enemy, the aim vector if the cursor had a
/// position, and the projectile fired if any.
pub struct FrameEvents {
    pub spawned: bool,
    pub collisions: Vec<(bool, Option<Collision>)>,
    pub aim: Option<Vec2>,
    pub projectile: Option<Projectile>,
}

/// The state of a game session: the player, where the player and the
/// weapon stand, the player's box, the spawn timer, and the live enemies
/// with their boxes (the enemy at index `k` owns the box at index `k`).
pub struct Simulation {
    pub player: Player,
    pub player_position: Vec2,
    pub player_collider: Collider,
    pub weapon_position: Vec2,
    pub spawn_timer: EnemySpawnTimer,
    pub enemies: Vec<Enemy>,
    pub enemy_colliders: Vec<Collider>,
}

impl Simulation {
    /// The timer is well formed, each enemy has one box, and the player's
    /// box stands at the player's position.
    pub open spec fn wf(&self) -> bool {
        &&& self.spawn_timer.wf()
        &&& self.enemies@.len() == self.enemy_colliders@.len()
        &&& self.player_collider.pos() == self.player_position
    }

    /// A session as it starts: the player, with the standard attributes and
    /// box, and the weapon at the origin; the spawn timer of the standard
    /// period just started; no enemy.
    pub fn new() -> (r: Simulation)
        ensures
            r.wf(),
            r.player.skills() == (crate::skills::SkillSet {
                xp: 0,
                damage: PLAYER_DAMAGE,
                health: PLAYER_HEALTH,
                speed: PLAYER_SPEED,
            }),
            r.player_position == (Vec2 { x: 0, y: 0 }),
            r.player_collider.dims() == (Vec2 { x: PLAYER_SIZE, y: PLAYER_SIZE }),
            r.weapon_position == (Vec2 { x: 0, y: 0 }),
            r.spawn_timer.period_spec() == crate::spawn::SPAWN_PERIOD_MICROS,
            r.spawn_timer.elapsed_spec() == 0,
            r.enemies@.len() == 0,
    {
        Simulation {
            player: Player::new(PLAYER_DAMAGE, PLAYER_HEALTH, PLAYER_SPEED),
            player_position: Vec2::zero(),
            player_collider: Collider::new(Vec2::zero(), Vec2::new(PLAYER_SIZE, PLAYER_SIZE)),
            weapon_position: Vec2::zero(),
            spawn_timer: EnemySpawnTimer::standard(),
            enemies: Vec::new(),
            enemy_colliders: Vec::new(),
        }
    }

    /// Runs one frame in order: movement, spawning, the collision pass,
    /// aiming, firing.
    pub fn step(&mut self, input: &FrameInput) -> (ev: FrameEvents)
        requires
            old(self).wf(),
        ensures
            final(self).wf(),
            final(self).player == old(self).player,
            final(self).weapon_position == old(self).weapon_position,
            final(self).player_position == moved(
                old(self).player_position,
                input.movement,
                old(self).player.skills().speed,
                input.dt,
            ),
            final(self).player_collider.dims() == old(self).player_collider.dims(),
            final(self).spawn_timer.period_spec() == old(self).spawn_timer.period_spec(),
            final(self).spawn_timer.elapsed_spec() == elapsed_after(
                old(self).spawn_timer.elapsed_spec() as int,
                old(self).spawn_timer.period_spec() as int,
                input.dt as int,
            ),
            ev.spawned == fires(
                old(self).spawn_timer.elapsed_spec() as int,
                old(self).spawn_timer.period_spec() as int,
                input.dt as int,
            ),
            !ev.spawned ==> final(self).enemy_colliders@ == old(self).enemy_colliders@,
            !ev.spawned ==> final(self).enemies@ == old(self).enemies@,
            ev.spawned ==> {
                &&& final(self).enemies@.len() == old(self).enemies@.len() + 1
                &&& final(self).enemies@.drop_last() == old(self).enemies@
                &&& final(self).enemy_colliders@.drop_last() == old(self).enemy_colliders@
                &&& final(self).enemies@.last().variant_spec() == EnemyVariant::Zombie
                &&& final(self).enemies@.last().skills() == baseline(EnemyVariant::Zombie)
                &&& final(self).enemy_colliders@.last().pos() == (Vec2 { x: 0, y: 0 })
                &&& final(self).enemy_colliders@.last().dims() == (Vec2 { x: ENEMY_SIZE, y: ENEMY_SIZE })
            },
            ev.collisions@.len() == final(self).enemy_colliders@.len(),
            forall|k: int|
                0 <= k < ev.collisions@.len() ==> is_report_of(
                    #[trigger] ev.collisions@[k],
                    final(self).player_collider,
                    final(self).enemy_colliders@[k],
                ),
            ev.aim == (match input.cursor {
                Some(c) => Some(sat_diff(c, old(self).weapon_position)),
                None => None,
            }),
            ev.projectile == (if input.trigger_held {
                Some(Projectile { origin: old(self).weapon_position })
            } else {
                None
            }),
    {
        move_player(
            &mut self.player_position,
            &mut self.player_collider,
            &self.player,
            input.movement,
            input.dt,
        );
        let spawned = match spawn_enemy(&mut self.spawn_timer, input.dt) {
            Some((enemy, collider)) => {
                self.enemies.push(enemy);
                self.enemy_colliders.push(collider);
                true
            },
            None => false,
        };
        let collisions = check_player_collisions(&self.player_collider, &self.enemy_colliders);
        let aim = aim_offset(self.weapon_position, input.cursor);
        let projectile = fire(input.trigger_held, self.weapon_position);
        FrameEvents { spawned, collisions, aim, projectile }
    }
}

} // verus!
