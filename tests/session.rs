use side_effects::ball::{Ball, BallType, Frozen};
use side_effects::level::{LevelSettings, SpawnPoint, Span};
use side_effects::session::{
    time_display, Action, Body, CollisionEvent, Cue, LevelSession, Resized, Score, ScoreArea,
    TimeDisplay,
};
use side_effects::sides::{SideId, SideType};
use side_effects::spawner::SpawnOrder;

type V = (i32, i32);

fn level(n: usize) -> LevelSettings {
    let mut l = LevelSettings::first_level();
    for _ in 1..n {
        l = l.next_level();
    }
    l
}

fn order(t: BallType) -> SpawnOrder {
    SpawnOrder {
        ball_type: t,
        spawn_point: SpawnPoint::top(5, 20),
        x: 0,
        y: 341,
        impulse_x: 0,
        impulse_y: -10,
    }
}

/// A session of level `n` started at time 0 with balls of the given types
/// and velocities; the actions of placing them are cleared.
fn session(n: usize, balls: &[(BallType, V)]) -> LevelSession<V> {
    let mut s = LevelSession::start(level(n), 0);
    for (t, v) in balls {
        s.place_ball(order(*t), *v);
    }
    s.take_actions();
    s
}

fn hit_side(ball: u64, side: usize, t: SideType) -> CollisionEvent {
    CollisionEvent { a: Body::Ball(ball), b: Body::Side(SideId(side), t) }
}

fn hit_area(ball: u64, area: usize) -> CollisionEvent {
    CollisionEvent { a: Body::ScoreArea(area), b: Body::Ball(ball) }
}

fn area_index(s: &LevelSession<V>, t: BallType) -> usize {
    s.score_areas.iter().position(|a| a.target == t).unwrap()
}

#[test]
fn level_start_creates_the_active_score_areas() {
    let s: LevelSession<V> = LevelSession::start(level(1), 500);
    let targets: Vec<BallType> = s.score_areas.iter().map(|a| a.target).collect();
    assert_eq!(targets, vec![BallType::A, BallType::C]);
    assert!(s.score_areas.iter().all(|a| a.radius == 150 && a.resized.is_none()));
    assert_eq!(s.score, Score(0));
    assert_eq!(s.level_end_time, 32500);
    assert!(s.balls.is_empty());
    let s3: LevelSession<V> = LevelSession::start(level(3), 0);
    let targets: Vec<BallType> = s3.score_areas.iter().map(|a| a.target).collect();
    assert_eq!(targets, vec![BallType::A, BallType::B, BallType::C, BallType::D]);
    let s2: LevelSession<V> = LevelSession::start(level(2), 0);
    assert_eq!(s2.score_areas.len(), 3);
}

#[test]
fn matching_ball_scores_its_points() {
    let mut s = session(1, &[(BallType::A, (1, 1))]);
    s.collisions(&vec![hit_area(0, 0)], 100);
    assert_eq!(s.score, Score(1));
    assert_eq!(s.entities_to_despawn, vec![0]);
    assert_eq!(
        s.take_actions(),
        vec![Action::Flash { area: 0, score_change: 1 }, Action::Play(Cue::Good)]
    );
    assert_eq!(s.despawn_entities(), vec![0]);
    assert!(s.balls.is_empty());
}

#[test]
fn wrong_ball_costs_its_points() {
    let mut s = session(1, &[(BallType::C, (1, 1))]);
    s.collisions(&vec![hit_area(0, 0)], 100);
    assert_eq!(s.score, Score(-1));
    assert_eq!(
        s.take_actions(),
        vec![Action::Flash { area: 0, score_change: -1 }, Action::Play(Cue::Bad)]
    );
    assert_eq!(s.entities_to_despawn, vec![0]);
}

#[test]
fn queued_ball_is_not_processed_again() {
    let mut s = session(1, &[(BallType::A, (1, 1))]);
    s.collisions(&vec![hit_area(0, 0), hit_area(0, 0), hit_side(0, 0, SideType::SpeedUp)], 100);
    assert_eq!(s.score, Score(1));
    assert_eq!(s.entities_to_despawn, vec![0]);
    assert_eq!(s.take_actions().len(), 2);
}

#[test]
fn collisions_without_a_live_ball_are_ignored() {
    let mut s = session(1, &[(BallType::A, (1, 1))]);
    let events = vec![
        CollisionEvent { a: Body::Other, b: Body::ScoreArea(0) },
        CollisionEvent { a: Body::Ball(42), b: Body::ScoreArea(0) },
        CollisionEvent { a: Body::Side(SideId(0), SideType::Destroy), b: Body::Other },
    ];
    s.collisions(&events, 100);
    assert_eq!(s.score, Score(0));
    assert!(s.entities_to_despawn.is_empty());
    assert!(s.take_actions().is_empty());
}

#[test]
fn wall_hit_only_plays_a_sound() {
    let mut s = session(1, &[(BallType::A, (1, 1))]);
    s.collisions(&vec![CollisionEvent { a: Body::Other, b: Body::Ball(0) }], 100);
    assert_eq!(s.take_actions(), vec![Action::Play(Cue::Hit)]);
    s.collisions(&vec![hit_side(0, 1, SideType::NothingSpecial)], 100);
    assert_eq!(s.take_actions(), vec![Action::Play(Cue::Hit)]);
    s.collisions(&vec![hit_side(0, 0, SideType::SpeedUp)], 100);
    assert_eq!(s.take_actions(), vec![Action::Play(Cue::Hit), Action::Play(Cue::Up)]);
    s.collisions(&vec![hit_side(0, 0, SideType::ExtremeBounce)], 100);
    assert_eq!(s.take_actions(), vec![Action::Play(Cue::Hit), Action::Play(Cue::UpMore)]);
    assert_eq!(s.score, Score(0));
}

#[test]
fn freeze_stops_the_other_balls() {
    let mut s = session(1, &[(BallType::A, (1, 2)), (BallType::C, (3, 4)), (BallType::A, (5, 6))]);
    s.collisions(&vec![hit_side(1, 0, SideType::FreezeOthers)], 1000);
    assert_eq!(s.balls[1].frozen, None);
    assert_eq!(s.balls[0].frozen, Some(Frozen { unfreeze_at: 4000, original_velocity: (1, 2) }));
    assert_eq!(s.balls[2].frozen, Some(Frozen { unfreeze_at: 4000, original_velocity: (5, 6) }));
    assert_eq!(s.take_actions(), vec![Action::Play(Cue::Hit), Action::Play(Cue::Down)]);
}

#[test]
fn refreezing_extends_the_deadline_and_keeps_the_first_velocity() {
    let mut s = session(1, &[(BallType::A, (1, 2)), (BallType::C, (3, 4)), (BallType::A, (5, 6))]);
    s.collisions(&vec![hit_side(1, 0, SideType::FreezeOthers)], 1000);
    // the engine reports the frozen ball as still
    s.balls[0].velocity = (0, 0);
    s.collisions(&vec![hit_side(2, 0, SideType::FreezeOthers)], 2500);
    assert_eq!(s.balls[0].frozen, Some(Frozen { unfreeze_at: 5500, original_velocity: (1, 2) }));
    s.take_actions();
    s.unfreeze_entities(4500);
    assert!(s.balls[0].frozen.is_some());
    assert!(s.take_actions().is_empty());
    s.unfreeze_entities(5501);
    assert_eq!(s.balls[0].frozen, None);
    assert_eq!(s.balls[0].velocity, (1, 2));
    assert_eq!(s.balls[1].frozen, None);
    assert_eq!(s.balls[1].velocity, (3, 4));
    assert_eq!(
        s.take_actions(),
        vec![
            Action::RestoreVelocity { ball: 0, velocity: (1, 2) },
            Action::RestoreVelocity { ball: 1, velocity: (3, 4) },
        ]
    );
}

#[test]
fn hitting_anything_releases_a_frozen_ball() {
    let mut s = session(1, &[(BallType::A, (1, 2)), (BallType::C, (3, 4))]);
    s.collisions(&vec![hit_side(1, 0, SideType::FreezeOthers)], 1000);
    assert!(s.balls[0].frozen.is_some());
    s.collisions(&vec![CollisionEvent { a: Body::Ball(0), b: Body::Other }], 1200);
    assert_eq!(s.balls[0].frozen, None);
    assert_eq!(s.balls[0].velocity, (1, 2));
}

#[test]
fn resize_grows_the_matching_area_and_shrinks_the_others() {
    let mut s = session(3, &[(BallType::B, (1, 1))]);
    s.collisions(&vec![hit_side(0, 2, SideType::ResizeScoreAreas)], 1000);
    for a in &s.score_areas {
        let expected = if a.target == BallType::B { 190 } else { 110 };
        assert_eq!(a.radius, expected);
        assert_eq!(
            a.resized,
            Some(Resized { unresize_at: 6000, original_radius: 150, penalty_disabled: true })
        );
    }
    assert_eq!(s.take_actions(), vec![Action::Play(Cue::Hit), Action::Play(Cue::Resize)]);
    s.unresize_entities(6000);
    assert!(s.score_areas.iter().all(|a| a.resized.is_some()));
    s.unresize_entities(6001);
    assert!(s.score_areas.iter().all(|a| a.radius == 150 && a.resized.is_none()));
}

#[test]
fn resizing_twice_reflects_only_the_second_ball() {
    let mut s = session(3, &[(BallType::B, (1, 1)), (BallType::D, (1, 1))]);
    s.collisions(&vec![hit_side(0, 2, SideType::ResizeScoreAreas)], 1000);
    s.collisions(&vec![hit_side(1, 2, SideType::ResizeScoreAreas)], 3000);
    for a in &s.score_areas {
        let expected = if a.target == BallType::D { 190 } else { 110 };
        assert_eq!(a.radius, expected);
        assert_eq!(
            a.resized,
            Some(Resized { unresize_at: 8000, original_radius: 150, penalty_disabled: true })
        );
    }
    s.unresize_entities(7000);
    assert!(s.score_areas.iter().all(|a| a.resized.is_some()));
    s.unresize_entities(8001);
    assert!(s.score_areas.iter().all(|a| a.radius == 150));
}

#[test]
fn waived_penalty_keeps_score_and_ball() {
    let mut s = session(1, &[(BallType::A, (1, 1)), (BallType::C, (1, 1)), (BallType::A, (1, 1))]);
    s.collisions(&vec![hit_side(0, 2, SideType::ResizeScoreAreas)], 1000);
    let a_area = area_index(&s, BallType::A);
    s.take_actions();
    s.collisions(&vec![hit_area(1, a_area)], 1100);
    assert_eq!(s.score, Score(0));
    assert!(s.entities_to_despawn.is_empty());
    assert!(s.take_actions().is_empty());
    s.collisions(&vec![hit_area(2, a_area)], 1200);
    assert_eq!(s.score, Score(1));
    assert_eq!(s.entities_to_despawn, vec![2]);
}

#[test]
fn two_wrong_balls_in_a_waived_area_cost_nothing() {
    let mut s = session(
        3,
        &[(BallType::B, (1, 1)), (BallType::C, (1, 1)), (BallType::D, (1, 1))],
    );
    s.collisions(&vec![hit_side(0, 2, SideType::ResizeScoreAreas)], 1000);
    let b_area = area_index(&s, BallType::B);
    s.collisions(&vec![hit_area(1, b_area), hit_area(2, b_area)], 1001);
    assert_eq!(s.score, Score(0));
    s.unresize_entities(7000);
    s.collisions(&vec![hit_area(1, b_area)], 7001);
    assert_eq!(s.score, Score(-1));
}

#[test]
fn destroy_queues_the_ball() {
    let mut s = session(1, &[(BallType::A, (1, 1))]);
    s.collisions(&vec![hit_side(0, 3, SideType::Destroy), hit_area(0, 0)], 100);
    assert_eq!(s.entities_to_despawn, vec![0]);
    assert_eq!(s.score, Score(0));
    assert_eq!(s.take_actions(), vec![Action::Play(Cue::Hit), Action::Play(Cue::Explode)]);
    assert_eq!(s.despawn_entities(), vec![0]);
    assert!(s.balls.is_empty());
    assert!(s.entities_to_despawn.is_empty());
}

#[test]
fn bounce_backwards_targets_the_opposite_side() {
    let mut s = session(1, &[(BallType::A, (1, 1))]);
    s.collisions(&vec![hit_side(0, 1, SideType::BounceBackwards)], 100);
    assert_eq!(
        s.take_actions(),
        vec![
            Action::Play(Cue::Hit),
            Action::BounceBackwards { ball: 0, side_hit: SideId(1), opposite_side: SideId(3) },
            Action::Play(Cue::Boop),
        ]
    );
}

#[test]
fn duplicate_adds_a_copy_on_cooldown() {
    let mut s = session(1, &[(BallType::C, (7, 8))]);
    s.collisions(&vec![hit_side(0, 0, SideType::Duplicate)], 2000);
    assert_eq!(s.balls.len(), 2);
    assert_eq!(s.balls[0].duplicate_cooldown, Some(3000));
    assert_eq!(
        s.balls[1],
        Ball {
            id: 1,
            ball_type: BallType::C,
            points: 1,
            extra_points: false,
            velocity: (7, 8),
            frozen: None,
            duplicate_cooldown: Some(3000),
        }
    );
    assert_eq!(
        s.take_actions(),
        vec![
            Action::Play(Cue::Hit),
            Action::SpawnDuplicate { source: 0, copy: 1 },
            Action::Play(Cue::Duplicate),
        ]
    );
}

#[test]
fn duplicate_on_cooldown_does_nothing() {
    let mut s = session(1, &[(BallType::C, (7, 8))]);
    s.collisions(&vec![hit_side(0, 0, SideType::Duplicate)], 2000);
    s.take_actions();
    let before = s.balls.clone();
    s.collisions(&vec![hit_side(0, 0, SideType::Duplicate), hit_side(1, 0, SideType::Duplicate)], 2500);
    assert_eq!(s.balls, before);
    assert_eq!(s.next_ball_id, 2);
    assert_eq!(s.take_actions(), vec![Action::Play(Cue::Hit), Action::Play(Cue::Hit)]);
    s.remove_duplicate_cooldown(3000);
    assert!(s.balls.iter().all(|b| b.duplicate_cooldown.is_some()));
    s.remove_duplicate_cooldown(3001);
    assert!(s.balls.iter().all(|b| b.duplicate_cooldown.is_none()));
    s.collisions(&vec![hit_side(0, 0, SideType::Duplicate)], 3002);
    assert_eq!(s.balls.len(), 3);
}

#[test]
fn extra_points_double_the_ball() {
    let mut s = session(1, &[(BallType::A, (1, 1))]);
    assert_eq!(s.balls[0].radius(), 18);
    s.collisions(&vec![hit_side(0, 0, SideType::ExtraPoints)], 100);
    assert_eq!(s.balls[0].points, 2);
    assert!(s.balls[0].extra_points);
    assert_eq!(s.balls[0].radius(), 25);
    assert_eq!(s.take_actions(), vec![Action::Play(Cue::Hit), Action::Play(Cue::ExtraPoints)]);
    s.collisions(&vec![hit_side(0, 0, SideType::ExtraPoints)], 200);
    assert_eq!(s.balls[0].points, 2);
    s.collisions(&vec![hit_area(0, 0)], 300);
    assert_eq!(s.score, Score(2));
}

#[test]
fn copy_of_an_upgraded_ball_carries_the_upgrade_at_one_point() {
    let mut s = session(1, &[(BallType::A, (1, 1))]);
    s.collisions(&vec![hit_side(0, 0, SideType::ExtraPoints)], 100);
    s.collisions(&vec![hit_side(0, 1, SideType::Duplicate)], 200);
    assert_eq!(s.balls.len(), 2);
    assert!(s.balls[1].extra_points);
    assert_eq!(s.balls[1].points, 1);
    assert_eq!(s.balls[1].radius(), 25);
}

#[test]
fn score_can_go_negative() {
    let mut s = session(1, &[(BallType::C, (1, 1)), (BallType::C, (1, 1))]);
    s.collisions(&vec![hit_area(0, 0), hit_area(1, 0)], 100);
    assert_eq!(s.score, Score(-2));
}

#[test]
fn first_level_can_be_completed_with_one_ball() {
    let mut s = session(1, &[(BallType::A, (1, 1))]);
    assert!(!s.end_level(31999));
    s.collisions(&vec![hit_area(0, 0)], 10000);
    assert_eq!(s.score, Score(1));
    assert!(s.end_level(32000));
    assert!(s.level.is_completed_by(s.score.0));
    let mut unlocked = side_effects::sides::UnlockedSides::new();
    side_effects::screens::unlock_sides(&s.score, &s.level, &mut unlocked);
    assert!(unlocked.0.contains(&SideType::FreezeOthers));
}

#[test]
fn level_clock() {
    let s: LevelSession<V> = LevelSession::start(level(1), 1000);
    assert_eq!(s.time_left(1000), 32000);
    assert_eq!(s.time_left(30000), 3000);
    assert_eq!(s.time_left(40000), 0);
    assert!(!s.end_level(32999));
    assert!(s.end_level(33000));
}

#[test]
fn countdown_shows_tenths_at_the_end() {
    assert_eq!(
        time_display(12345),
        TimeDisplay { seconds_left: 12, tenths_left: None, font_size_increase: 0 }
    );
    assert_eq!(
        time_display(5999),
        TimeDisplay { seconds_left: 5, tenths_left: Some(60), font_size_increase: 2 }
    );
    assert_eq!(time_display(4960).tenths_left, Some(50));
    assert_eq!(time_display(3200).font_size_increase, 9);
    assert_eq!(time_display(1500).font_size_increase, 20);
    assert_eq!(
        time_display(0),
        TimeDisplay { seconds_left: 0, tenths_left: Some(0), font_size_increase: 27 }
    );
}

#[test]
fn spawner_follows_the_group_rhythm() {
    let mut s: LevelSession<V> = LevelSession::start(level(1), 0);
    assert!(s.spawn_balls(0, (0, 0)));
    assert_eq!(s.spawner.next_spawn_time, 500);
    assert!(!s.spawn_balls(499, (0, 0)));
    assert!(s.spawn_balls(500, (0, 0)));
    assert!(s.spawn_balls(1000, (0, 0)));
    // group of three done: next group after ten seconds
    assert_eq!(s.spawner.next_spawn_time, 11000);
    assert_eq!(s.spawner.balls_spawned_in_group, 0);
    assert_eq!(s.balls.len(), 3);
    let ids: Vec<u64> = s.balls.iter().map(|b| b.id).collect();
    assert_eq!(ids, vec![0, 1, 2]);
    let actions = s.take_actions();
    assert_eq!(actions.len(), 6);
    assert_eq!(actions[1], Action::Play(Cue::Launch));
    for b in &s.balls {
        assert!(b.ball_type == BallType::A || b.ball_type == BallType::C);
        assert_eq!(b.points, 1);
    }
}

#[test]
fn empty_board_cuts_the_wait_to_the_respite() {
    let mut s: LevelSession<V> = LevelSession::start(level(1), 0);
    assert!(s.spawn_balls(0, (0, 0)));
    assert!(s.spawn_balls(500, (0, 0)));
    assert!(s.spawn_balls(1000, (0, 0)));
    assert_eq!(s.spawner.next_spawn_time, 11000);
    // balls still live: the wait stands
    assert!(!s.spawn_balls(2000, (0, 0)));
    assert_eq!(s.spawner.next_spawn_time, 11000);
    for id in 0..3 {
        s.entities_to_despawn.push(id);
    }
    s.despawn_entities();
    assert!(!s.spawn_balls(3000, (0, 0)));
    assert_eq!(s.spawner.next_spawn_time, 5000);
    assert!(!s.spawn_balls(4000, (0, 0)));
    assert!(s.spawn_balls(5000, (0, 0)));
}

#[test]
fn spawned_balls_come_from_the_level() {
    let mut s: LevelSession<V> = LevelSession::start(level(3), 0);
    let mut seen = Vec::new();
    let mut now = 0;
    while s.balls.len() < 200 {
        if s.spawn_balls(now, (0, 0)) {
            let t = s.balls.last().unwrap().ball_type;
            if !seen.contains(&t) {
                seen.push(t);
            }
        }
        now += 500;
    }
    assert_eq!(seen.len(), 4);
    let within = |v: i32, s: Span| s.low <= v && v <= s.high;
    let mut walls = Vec::new();
    let mut xs = Vec::new();
    for a in s.take_actions() {
        if let Action::Launch { x, y, impulse_x, impulse_y, .. } = a {
            let p = s
                .level
                .spawn_points
                .iter()
                .position(|p| {
                    within(x, p.start_position_range_x)
                        && within(y, p.start_position_range_y)
                        && within(impulse_x, p.start_impulse_range_x)
                        && within(impulse_y, p.start_impulse_range_y)
                })
                .expect("launch lies within a spawn point of the level");
            if !walls.contains(&p) {
                walls.push(p);
            }
            if !xs.contains(&x) {
                xs.push(x);
            }
        }
    }
    assert!(walls.len() >= 2);
    assert!(xs.len() >= 3);
}

#[test]
fn random_ball_types_follow_the_level_flags() {
    let l1 = level(1);
    let mut seen = Vec::new();
    for _ in 0..300 {
        let t = BallType::random(&l1);
        assert!(t == BallType::A || t == BallType::C);
        if !seen.contains(&t) {
            seen.push(t);
        }
    }
    assert_eq!(seen.len(), 2);
    assert_eq!(BallType::from_roll(&level(2), 1), BallType::B);
    assert_eq!(BallType::from_roll(&level(3), 3), BallType::D);
    assert_eq!(BallType::from_roll(&l1, 1), BallType::C);
    assert_eq!(BallType::active_count(&level(2)), 3);
}

#[test]
fn score_area_at_rest() {
    let a = ScoreArea { target: BallType::A, radius: 150, resized: None };
    let s: LevelSession<V> = LevelSession::start(level(1), 0);
    assert_eq!(s.score_areas[0], a);
}

#[test]
fn tick_runs_collisions_then_sweeps() {
    let mut s = session(1, &[(BallType::A, (1, 2)), (BallType::C, (3, 4))]);
    assert!(!s.tick(&vec![hit_side(1, 0, SideType::FreezeOthers)], 1000));
    assert!(s.balls[0].frozen.is_some());
    s.take_actions();
    assert!(!s.tick(&vec![], 3999));
    assert!(s.balls[0].frozen.is_some());
    assert!(!s.tick(&vec![], 4001));
    assert_eq!(s.balls[0].frozen, None);
    assert_eq!(s.take_actions(), vec![Action::RestoreVelocity { ball: 0, velocity: (1, 2) }]);
    assert!(!s.tick(&vec![hit_area(1, 1)], 5000));
    assert_eq!(s.score, Score(1));
    assert_eq!(s.despawn_entities(), vec![1]);
    assert!(s.tick(&vec![], 32000));
}

#[test]
fn clock_counts_up_from_its_start() {
    let c = side_effects::clock::Clock::start();
    let a = c.now_ms();
    let b = c.now_ms();
    assert!(a <= b);
    assert!(b < 60_000);
}
