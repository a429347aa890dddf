use bevy_games_common::components::{Health, Vec3, Velocity};
use bevy_games_common::fixed::{advance, saturate, scale};
use bevy_games_common::prelude::{lerp, random_in_range};
use bevy_games_common::resources::{Difficulty, GameSettings, GameState, Score};
use bevy_games_common::systems::{apply_velocity, health_system};

#[test]
fn new_health_is_full() {
    let h = Health::new(100_000);
    assert_eq!(h.current, 100_000);
    assert_eq!(h.max, 100_000);
    assert!(!h.is_dead());
}

#[test]
fn damage_stops_at_zero() {
    let mut h = Health::new(100);
    h.take_damage(30);
    assert_eq!(h.current, 70);
    assert!(!h.is_dead());
    h.take_damage(70);
    assert_eq!(h.current, 0);
    assert!(h.is_dead());
    h.take_damage(u32::MAX);
    assert_eq!(h.current, 0);
    assert_eq!(h.max, 100);
}

#[test]
fn healing_stops_at_the_maximum() {
    let mut h = Health::new(100);
    h.take_damage(50);
    h.heal(20);
    assert_eq!(h.current, 70);
    h.heal(u32::MAX);
    assert_eq!(h.current, 100);
    h.heal(0);
    assert_eq!(h.current, 100);
}

#[test]
fn health_of_zero_maximum_is_dead() {
    assert!(Health::new(0).is_dead());
}

#[test]
fn default_settings() {
    let s = GameSettings::default();
    assert_eq!(s.master_volume, 1_000);
    assert_eq!(s.sfx_volume, 1_000);
    assert_eq!(s.music_volume, 700);
    assert_eq!(s.difficulty, Difficulty::Normal);
}

#[test]
fn default_score_and_state() {
    assert_eq!(Score::default(), Score { current: 0, high_score: 0 });
    assert_eq!(GameState::default(), GameState::MainMenu);
}

#[test]
fn scale_rounds_toward_zero() {
    assert_eq!(scale(3, 500_000, 1_000_000), 1);
    assert_eq!(scale(-3, 500_000, 1_000_000), -1);
    assert_eq!(scale(1, 999_999, 1_000_000), 0);
    assert_eq!(scale(-1, 999_999, 1_000_000), 0);
    assert_eq!(scale(400_000, 100_000, 1_000_000), 40_000);
    assert_eq!(scale(7, 0, 3), 0);
}

#[test]
fn saturate_limits_to_the_coordinate_range() {
    assert_eq!(saturate(i64::MAX as i128 + 1), i64::MAX);
    assert_eq!(saturate(i64::MIN as i128 - 1), i64::MIN);
    assert_eq!(saturate(-5), -5);
}

#[test]
fn advance_moves_by_speed_times_time() {
    assert_eq!(advance(0, 400_000, 100_000), 40_000);
    assert_eq!(advance(10, -400_000, 100_000), -39_990);
    assert_eq!(advance(10, 400_000, 0), 10);
    assert_eq!(advance(10, 0, u32::MAX), 10);
}

#[test]
fn advance_stays_at_the_end_of_the_range() {
    assert_eq!(advance(i64::MAX - 5, 1_000_000, 1_000_000), i64::MAX);
    assert_eq!(advance(i64::MIN + 5, -1_000_000, 1_000_000), i64::MIN);
    assert_eq!(advance(0, i64::MAX, u32::MAX), i64::MAX);
    assert_eq!(advance(0, i64::MIN, u32::MAX), i64::MIN);
}

#[test]
fn lerp_between_the_ends() {
    assert_eq!(lerp(0, 10_000, 500), 5_000);
    assert_eq!(lerp(10_000, 0, 250), 7_500);
    assert_eq!(lerp(-4, 4, 0), -4);
    assert_eq!(lerp(-4, 4, 1_000), 4);
    assert_eq!(lerp(0, 3, 500), 1);
    assert_eq!(lerp(0, -3, 500), -1);
}

#[test]
fn lerp_limits_the_fraction() {
    assert_eq!(lerp(2, 8, -1), 2);
    assert_eq!(lerp(2, 8, 1_001), 8);
    assert_eq!(lerp(2, 8, i64::MIN), 2);
    assert_eq!(lerp(2, 8, i64::MAX), 8);
}

#[test]
fn lerp_spans_the_whole_range() {
    assert_eq!(lerp(i64::MIN, i64::MAX, 1_000), i64::MAX);
    assert_eq!(lerp(i64::MAX, i64::MIN, 1_000), i64::MIN);
    assert_eq!(lerp(i64::MIN, i64::MAX, 0), i64::MIN);
    let mid = lerp(i64::MIN, i64::MAX, 500);
    assert!(mid == -1 || mid == 0);
}

#[test]
fn random_numbers_stay_in_range() {
    for _ in 0..1_000 {
        let r = random_in_range(-3, 4);
        assert!((-3..=4).contains(&r));
    }
    assert_eq!(random_in_range(7, 7), 7);
    assert_eq!(random_in_range(i64::MIN, i64::MIN), i64::MIN);
}

#[test]
fn random_numbers_vary() {
    let mut low = false;
    let mut high = false;
    for _ in 0..200 {
        let r = random_in_range(0, 1_000_000);
        low = low || r != 0;
        high = high || r != 1_000_000;
    }
    assert!(low && high);
}

#[test]
fn velocity_moves_and_turns() {
    let velocity = Velocity {
        linear: Vec3 { x: 1_000, y: -2_000, z: 0 },
        angular: Vec3 { x: 0, y: 1_000, z: -500 },
    };
    let mut translation = Vec3 { x: 5, y: 5, z: 5 };
    let rotation = apply_velocity(&velocity, &mut translation, 500_000);
    assert_eq!(translation, Vec3 { x: 505, y: -995, z: 5 });
    assert_eq!(rotation, Vec3 { x: 0, y: 500, z: -250 });
}

#[test]
fn velocity_over_no_time_changes_nothing() {
    let velocity = Velocity {
        linear: Vec3 { x: i64::MAX, y: i64::MIN, z: 1 },
        angular: Vec3 { x: i64::MAX, y: i64::MIN, z: 1 },
    };
    let mut translation = Vec3 { x: 1, y: 2, z: 3 };
    let rotation = apply_velocity(&velocity, &mut translation, 0);
    assert_eq!(translation, Vec3 { x: 1, y: 2, z: 3 });
    assert_eq!(rotation, Vec3 { x: 0, y: 0, z: 0 });
}

#[test]
fn health_system_lists_the_dead() {
    let mut wounded = Health::new(10);
    wounded.take_damage(9);
    let mut gone = Health::new(10);
    gone.take_damage(10);
    let healths = vec![gone, wounded, Health::new(0), Health::new(3), gone];
    assert_eq!(health_system(&healths), vec![0, 2, 4]);
    assert_eq!(health_system(&Vec::new()), Vec::<usize>::new());
    assert_eq!(health_system(&vec![wounded]), Vec::<usize>::new());
}
