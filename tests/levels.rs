use side_effects::level::{LevelSettings, SpawnPoint, Span};
use side_effects::sides::SideType;

fn advance(level: &LevelSettings, times: usize) -> LevelSettings {
    let mut l = level.next_level();
    for _ in 1..times {
        l = l.next_level();
    }
    l
}

#[test]
fn first_level_parameters() {
    let l = LevelSettings::first_level();
    assert_eq!(l.id, 1);
    assert_eq!(l.time_between_groups, 10000);
    assert_eq!(l.max_respite_time, 2000);
    assert_eq!(l.time_between_spawns_in_group, 500);
    assert_eq!(l.balls_per_group, 3);
    assert!(!l.type_b_active);
    assert!(!l.type_d_active);
    assert_eq!(l.duration, 32000);
    assert_eq!(l.min_score, 1);
    assert_eq!(l.sides_to_unlock, vec![SideType::FreezeOthers]);
    assert_eq!(l.spawn_points, SpawnPoint::four_sides(5, 20));
}

#[test]
fn authored_levels_follow_the_table() {
    let first = LevelSettings::first_level();
    let l2 = first.next_level();
    assert_eq!((l2.id, l2.time_between_groups, l2.duration, l2.min_score), (2, 9000, 40000, 1));
    assert!(l2.type_b_active && !l2.type_d_active);
    assert_eq!(l2.sides_to_unlock, vec![SideType::BounceBackwards]);
    let l3 = l2.next_level();
    assert_eq!((l3.id, l3.time_between_groups, l3.duration), (3, 8000, 50000));
    assert!(l3.type_b_active && l3.type_d_active);
    assert_eq!(l3.sides_to_unlock, vec![SideType::ResizeScoreAreas]);
    let l4 = l3.next_level();
    assert_eq!((l4.balls_per_group, l4.min_score, l4.max_impulse), (4, 3, 22));
    assert_eq!(l4.sides_to_unlock, vec![SideType::Destroy, SideType::ExtraPoints]);
    let l5 = l4.next_level();
    assert_eq!((l5.balls_per_group, l5.min_score, l5.max_impulse), (4, 5, 25));
    assert_eq!(l5.sides_to_unlock, vec![SideType::Duplicate, SideType::ExtremeBounce]);
    let l6 = l5.next_level();
    assert_eq!((l6.balls_per_group, l6.min_score, l6.max_respite_time), (5, 7, 1000));
    assert_eq!(l6.spawn_points, SpawnPoint::four_sides(6, 27));
    assert!(l6.sides_to_unlock.is_empty());
    let l7 = l6.next_level();
    assert_eq!((l7.id, l7.balls_per_group, l7.min_score), (7, 5, 10));
    assert_eq!(l7.spawn_points, SpawnPoint::four_sides(7, 30));
}

#[test]
fn generated_levels_ramp_up() {
    let l7 = advance(&LevelSettings::first_level(), 6);
    let l8 = l7.next_level();
    assert_eq!(l8.id, 8);
    assert_eq!(l8.balls_per_group, 6);
    assert_eq!(l8.min_score, 13);
    assert_eq!(l8.min_impulse, 4);
    assert_eq!(l8.max_impulse, 30);
    assert_eq!(l8.spawn_points, SpawnPoint::four_sides(4, 30));
    assert_eq!(l8.time_between_groups, l7.time_between_groups);
    assert_eq!(l8.max_respite_time, l7.max_respite_time);
    assert_eq!(l8.time_between_spawns_in_group, l7.time_between_spawns_in_group);
    assert_eq!(l8.duration, l7.duration);
    assert!(l8.sides_to_unlock.is_empty());
    let l9 = l8.next_level();
    assert_eq!((l9.id, l9.balls_per_group, l9.min_score, l9.min_impulse), (9, 7, 16, 1));
}

#[test]
fn difficulty_never_drops_over_many_levels() {
    let mut l = LevelSettings::first_level();
    for _ in 0..40 {
        let n = l.next_level();
        assert!(n.min_score >= l.min_score);
        assert!(n.balls_per_group >= l.balls_per_group);
        assert_eq!(n.id, l.id + 1);
        l = n;
    }
}

#[test]
fn next_level_is_deterministic() {
    let a = advance(&LevelSettings::first_level(), 9);
    let b = advance(&LevelSettings::first_level(), 9);
    assert_eq!(a.id, b.id);
    assert_eq!(a.min_score, b.min_score);
    assert_eq!(a.balls_per_group, b.balls_per_group);
    assert_eq!(a.spawn_points, b.spawn_points);
}

#[test]
fn spawn_points_sit_by_each_wall() {
    let top = SpawnPoint::top(5, 20);
    assert_eq!(top.start_position_range_x, Span { low: -120, high: 120 });
    assert_eq!(top.start_position_range_y, Span { low: 341, high: 341 });
    assert_eq!(top.start_impulse_range_x, Span { low: -10, high: 10 });
    assert_eq!(top.start_impulse_range_y, Span { low: -20, high: -5 });
    let bottom = SpawnPoint::bottom(5, 20);
    assert_eq!(bottom.start_position_range_y, Span { low: -341, high: -341 });
    assert_eq!(bottom.start_impulse_range_y, Span { low: 5, high: 20 });
    let left = SpawnPoint::left(5, 20);
    assert_eq!(left.start_position_range_x, Span { low: -341, high: -341 });
    assert_eq!(left.start_position_range_y, Span { low: -120, high: 120 });
    assert_eq!(left.start_impulse_range_x, Span { low: 5, high: 20 });
    let right = SpawnPoint::right(5, 20);
    assert_eq!(right.start_position_range_x, Span { low: 341, high: 341 });
    assert_eq!(right.start_impulse_range_x, Span { low: -20, high: -5 });
    assert_eq!(SpawnPoint::four_sides(5, 20), vec![top, bottom, left, right]);
}

#[test]
fn completion_needs_the_minimum_score() {
    let l = LevelSettings::first_level();
    assert!(l.is_completed_by(1));
    assert!(l.is_completed_by(5));
    assert!(!l.is_completed_by(0));
    assert!(!l.is_completed_by(-3));
}
