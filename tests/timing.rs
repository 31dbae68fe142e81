use the_crypt::archetype::EnemyVariant;
use the_crypt::entity::Enemy;
use the_crypt::geometry::Vec2;
use the_crypt::skills::{Entity, SkillSet};
use the_crypt::spawn::{spawn_enemy, EnemySpawnTimer, ENEMY_SIZE, SPAWN_PERIOD_MICROS};

#[test]
fn frames_adding_up_to_one_period_fire_once() {
    let mut t = EnemySpawnTimer::standard();
    assert_eq!(t.period(), 5_000_000);
    let mut fired = 0;
    for _ in 0..50 {
        if t.tick(100_000) {
            fired += 1;
        }
    }
    assert_eq!(fired, 1);
    assert_eq!(t.elapsed(), 0);
}

#[test]
fn fire_comes_on_the_frame_that_completes_the_period() {
    let mut t = EnemySpawnTimer::new(SPAWN_PERIOD_MICROS);
    assert!(!t.tick(4_999_999));
    assert_eq!(t.elapsed(), 4_999_999);
    assert!(t.tick(1));
    assert_eq!(t.elapsed(), 0);
    assert!(!t.tick(1));
}

#[test]
fn a_long_jump_fires_once_and_keeps_the_rest() {
    let mut t = EnemySpawnTimer::standard();
    assert!(t.tick(12_000_000));
    assert_eq!(t.elapsed(), 2_000_000);
    assert!(!t.tick(2_999_999));
    assert!(t.tick(1));
    assert_eq!(t.elapsed(), 0);
}

#[test]
fn tick_all_counts_firings() {
    let mut t = EnemySpawnTimer::standard();
    assert_eq!(t.tick_all(&vec![1_000_000; 5]), 1);
    assert_eq!(t.elapsed(), 0);
    assert_eq!(t.tick_all(&vec![2_000_000, 12_000_000, 4_000_000, 0]), 2);
    assert_eq!(t.elapsed(), 3_000_000);
    assert_eq!(t.tick_all(&vec![]), 0);
    assert_eq!(t.elapsed(), 3_000_000);
}

#[test]
fn zero_period_fires_every_tick() {
    let mut t = EnemySpawnTimer::new(0);
    assert!(t.tick(0));
    assert!(t.tick(17));
    assert_eq!(t.elapsed(), 0);
}

#[test]
fn largest_tick_does_not_overflow() {
    let mut t = EnemySpawnTimer::new(u64::MAX);
    assert!(!t.tick(u64::MAX - 1));
    assert!(t.tick(u64::MAX));
    assert_eq!(t.elapsed(), u64::MAX - 1);
}

#[test]
fn spawning_gives_a_zombie_at_the_origin() {
    let mut t = EnemySpawnTimer::standard();
    assert!(spawn_enemy(&mut t, 4_000_000).is_none());
    let (e, c) = spawn_enemy(&mut t, 1_000_000).unwrap();
    assert_eq!(e.get_variant(), EnemyVariant::Zombie);
    assert_eq!(e.get_skillset(), SkillSet::new(10, 50, 100, 10));
    assert_eq!(e.get_skillset(), Enemy::new(EnemyVariant::Zombie).get_skillset());
    assert_eq!(c.get_position(), Vec2::new(0, 0));
    assert_eq!(c.get_dimensions(), Vec2::new(ENEMY_SIZE, ENEMY_SIZE));
    assert_eq!(ENEMY_SIZE, 20_000_000);
    assert!(spawn_enemy(&mut t, 1).is_none());
}
