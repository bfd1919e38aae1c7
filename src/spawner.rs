//! Timed, grouped spawning of balls.

use vstd::prelude::*;
use rand::Rng;
use rand::seq::SliceRandom;
use crate::ball::{BallType, level_ball_types};
use crate::level::{LevelSettings, SpawnPoint, Span, four_sides_spec, spawn_point_wf};

verus! {

/// Largest time, in milliseconds since the game started, that the rules accept.
pub const MAX_TIME: u64 = 4611686018427387904;

/// Relies on rand's `thread_rng` and `Rng::gen_range` over `low..=high`:
/// a number in the range; the range is non-empty, so the call does not panic.
#[verifier::external_body]
fn random_in(low: i32, high: i32) -> (r: i32)
    requires
        low <= high,
    ensures
        low <= r <= high,
{
    rand::thread_rng().gen_range(low..=high)
}

/// Relies on rand's `SliceRandom::choose`: `None` for an empty slice, else
/// one of its elements.
#[verifier::external_body]
fn choose_spawn_point(points: &[SpawnPoint]) -> (r: Option<SpawnPoint>)
    ensures
        r is None <==> points@.len() == 0,
        r matches Some(p) ==> points@.contains(p),
{
    points.choose(&mut rand::thread_rng()).copied()
}

impl BallType {
    /// Draws a random ball type among those that spawn in the level.
    pub fn random(level_settings: &LevelSettings) -> (r: BallType)
        ensures
            level_ball_types(level_settings).contains(r),
    {
        let count = BallType::active_count(level_settings);
        let roll = random_in(0, count as i32 - 1);
        BallType::from_roll(level_settings, roll as u32)
    }
}

/// What a spawned ball starts as: its type, the spawn point it was drawn
/// from, and its position and launch impulse within that point's ranges.
#[derive(PartialEq, Eq, Structural, Clone, Copy, Debug)]
pub struct SpawnOrder {
    pub ball_type: BallType,
    pub spawn_point: SpawnPoint,
    pub x: i32,
    pub y: i32,
    pub impulse_x: i32,
    pub impulse_y: i32,
}

pub open spec fn in_span(v: i32, s: Span) -> bool {
    s.low <= v <= s.high
}

/// Position and impulse lie within the ranges of the order's spawn point.
pub open spec fn order_within_point(o: SpawnOrder) -> bool {
    &&& in_span(o.x, o.spawn_point.start_position_range_x)
    &&& in_span(o.y, o.spawn_point.start_position_range_y)
    &&& in_span(o.impulse_x, o.spawn_point.start_impulse_range_x)
    &&& in_span(o.impulse_y, o.spawn_point.start_impulse_range_y)
}

fn random_in_span(s: Span) -> (r: i32)
    requires
        s.low <= s.high,
    ensures
        in_span(r, s),
{
    random_in(s.low, s.high)
}

/// Draws a new ball: a type among the level's, one of the level's spawn
/// points, and a position and impulse within that point's ranges.
pub fn spawn_random_ball(level_settings: &LevelSettings) -> (r: SpawnOrder)
    requires
        level_settings.wf(),
    ensures
        level_ball_types(level_settings).contains(r.ball_type),
        level_settings.spawn_points@.contains(r.spawn_point),
        order_within_point(r),
{
    let ball_type = BallType::random(level_settings);
    assert(level_settings.spawn_points@.len() == 4);
    let spawn_point = match choose_spawn_point(level_settings.spawn_points.as_slice()) {
        Some(p) => p,
        None => level_settings.spawn_points[0],
    };
    assert(level_settings.spawn_points@.contains(spawn_point));
    proof {
        let k = choose|k: int| 0 <= k < 4 && level_settings.spawn_points@[k] == spawn_point;
        assert(level_settings.spawn_points@[k] == four_sides_spec(
            level_settings.min_impulse as int,
            level_settings.max_impulse as int,
        )[k]);
    }
    assert(spawn_point_wf(spawn_point));
    let x = random_in_span(spawn_point.start_position_range_x);
    let y = random_in_span(spawn_point.start_position_range_y);
    let impulse_x = random_in_span(spawn_point.start_impulse_range_x);
    let impulse_y = random_in_span(spawn_point.start_impulse_range_y);
    SpawnOrder { ball_type, spawn_point, x, y, impulse_x, impulse_y }
}

/// Spawning state of the current wave.
#[derive(PartialEq, Eq, Structural, Clone, Copy, Debug)]
pub struct Spawner {
    /// Time (ms) at which the next ball is due
    pub next_spawn_time: u64,
    /// Balls spawned so far in the current group
    pub balls_spawned_in_group: u32,
}

/// Spawner state after one tick, and whether a ball spawns in it.
pub open spec fn spawner_tick_spec(
    s: Spawner,
    no_balls_live: bool,
    now: u64,
    level: &LevelSettings,
) -> (Spawner, bool) {
    if no_balls_live && s.next_spawn_time - now > level.max_respite_time {
        (Spawner { next_spawn_time: (now + level.max_respite_time) as u64, ..s }, false)
    } else if now >= s.next_spawn_time {
        if s.balls_spawned_in_group + 1 >= level.balls_per_group {
            (
                Spawner {
                    next_spawn_time: (now + level.time_between_groups) as u64,
                    balls_spawned_in_group: 0,
                },
                true,
            )
        } else {
            (
                Spawner {
                    next_spawn_time: (now + level.time_between_spawns_in_group) as u64,
                    balls_spawned_in_group: (s.balls_spawned_in_group + 1) as u32,
                },
                true,
            )
        }
    } else {
        (s, false)
    }
}

impl Spawner {
    pub open spec fn new_spec(now: u64) -> Spawner {
        Spawner { next_spawn_time: now, balls_spawned_in_group: 0 }
    }

    /// A spawner whose first ball is due at `now`.
    pub fn new(now: u64) -> (r: Spawner)
        ensures
            r == Spawner::new_spec(now),
    {
        Spawner { next_spawn_time: now, balls_spawned_in_group: 0 }
    }

    /// The group count is below the level's group size.
    pub open spec fn wf(&self, level: &LevelSettings) -> bool {
        self.balls_spawned_in_group < level.balls_per_group
    }

    /// Advances the spawner to time `now`; returns whether a ball spawns now.
    /// With no ball on screen, a wait longer than the level's respite is cut
    /// to the respite; otherwise a ball is due once `now` reaches the
    /// scheduled time, and the next one comes after the in-group gap, or
    /// after the group gap once the group is complete.
    pub fn tick(&mut self, no_balls_live: bool, now: u64, level_settings: &LevelSettings) -> (r:
        bool)
        requires
            old(self).wf(level_settings),
            level_settings.wf(),
            now <= MAX_TIME,
        ensures
            (*final(self), r) == spawner_tick_spec(*old(self), no_balls_live, now, level_settings),
            final(self).wf(level_settings),
    {
        if no_balls_live && self.next_spawn_time > now && self.next_spawn_time - now
            > level_settings.max_respite_time {
            // there are no balls left on screen, so reduce time until next group is spawned
            self.next_spawn_time = now + level_settings.max_respite_time;
            false
        } else if now >= self.next_spawn_time {
            self.balls_spawned_in_group = self.balls_spawned_in_group + 1;
            if self.balls_spawned_in_group >= level_settings.balls_per_group {
                self.balls_spawned_in_group = 0;
                self.next_spawn_time = now + level_settings.time_between_groups;
            } else {
                self.next_spawn_time = now + level_settings.time_between_spawns_in_group;
            }
            true
        } else {
            false
        }
    }
}

} // verus!
