use the_crypt::archetype::{baseline_of, ArchetypeTable, EnemyVariant};
use the_crypt::entity::{Enemy, Player};
use the_crypt::skills::{saturate_i64, Entity, SkillSet};

#[test]
fn table_rows_hold_the_baselines() {
    let t = ArchetypeTable::new();
    assert_eq!(t.lookup(EnemyVariant::Zombie), SkillSet::new(10, 50, 100, 10));
    assert_eq!(t.lookup(EnemyVariant::Skeleton), SkillSet::new(15, 25, 75, 30));
    assert_eq!(t.lookup(EnemyVariant::Slime), SkillSet::new(20, 45, 75, 20));
    assert_eq!(t.lookup(EnemyVariant::Bird), SkillSet::new(35, 10, 25, 50));
    assert_eq!(t.lookup(EnemyVariant::Pirate), SkillSet::new(50, 75, 250, 8));
}

#[test]
fn baseline_of_matches_table() {
    let t = ArchetypeTable::new();
    for v in [
        EnemyVariant::Zombie,
        EnemyVariant::Skeleton,
        EnemyVariant::Slime,
        EnemyVariant::Bird,
        EnemyVariant::Pirate,
    ] {
        assert_eq!(t.lookup(v), baseline_of(v));
    }
}

#[test]
fn lookups_are_independent_copies() {
    let t = ArchetypeTable::new();
    let mut first = t.lookup(EnemyVariant::Bird);
    let second = t.lookup(EnemyVariant::Bird);
    first.set_health(1);
    first.set_speed(-3);
    assert_eq!(second, SkillSet::new(35, 10, 25, 50));
    assert_eq!(t.lookup(EnemyVariant::Bird), SkillSet::new(35, 10, 25, 50));
    assert_eq!(first.get_health(), 1);
}

#[test]
fn skill_set_accessors() {
    let mut s = SkillSet::new(1, 2, 3, 4);
    assert_eq!((s.get_xp(), s.get_damage(), s.get_health(), s.get_speed()), (1, 2, 3, 4));
    s.set_xp(-10);
    s.set_damage(20);
    s.set_health(30);
    s.set_speed(40);
    assert_eq!(s, SkillSet::new(-10, 20, 30, 40));
}

#[test]
fn taking_damage_lowers_health_only() {
    let mut p = Player::new(50, 100, 100);
    assert_eq!(p.get_skillset(), SkillSet::new(0, 50, 100, 100));
    p.take_damage(30);
    assert_eq!(p.get_skillset(), SkillSet::new(0, 50, 70, 100));
    p.take_damage(100);
    assert_eq!(p.get_skillset().get_health(), -30);
    p.take_damage(-5);
    assert_eq!(p.get_skillset().get_health(), -25);
}

#[test]
fn damage_saturates() {
    let mut s = SkillSet::new(0, 0, i64::MIN + 1, 0);
    s.take_hit(10);
    assert_eq!(s.get_health(), i64::MIN);
    let mut e = Enemy::new(EnemyVariant::Zombie);
    e.take_damage(i64::MIN);
    assert_eq!(e.get_skillset().get_health(), i64::MAX);
    assert_eq!(saturate_i64(i64::MAX as i128 + 1), i64::MAX);
    assert_eq!(saturate_i64(-7), -7);
}

#[test]
fn enemy_copies_its_baseline() {
    let mut e = Enemy::new(EnemyVariant::Pirate);
    assert_eq!(e.get_variant(), EnemyVariant::Pirate);
    assert_eq!(e.get_skillset(), SkillSet::new(50, 75, 250, 8));
    let snapshot = e.get_skillset();
    e.take_damage(50);
    assert_eq!(e.get_skillset().get_health(), 200);
    assert_eq!(snapshot.get_health(), 250);
    assert_eq!(Enemy::new(EnemyVariant::Pirate).get_skillset().get_health(), 250);
}

#[test]
fn enemy_from_table() {
    let t = ArchetypeTable::new();
    let e = Enemy::from_table(EnemyVariant::Slime, &t);
    assert_eq!(e.get_variant(), EnemyVariant::Slime);
    assert_eq!(e.get_skillset(), SkillSet::new(20, 45, 75, 20));
}

#[test]
fn variant_rows_are_distinct() {
    let rows: Vec<usize> = [
        EnemyVariant::Zombie,
        EnemyVariant::Skeleton,
        EnemyVariant::Slime,
        EnemyVariant::Bird,
        EnemyVariant::Pirate,
    ]
    .iter()
    .map(|v| v.row())
    .collect();
    assert_eq!(rows, vec![0, 1, 2, 3, 4]);
}
