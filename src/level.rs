//! Level progression: the parameters of each level and how the next level
//! is derived from the current one.

use vstd::prelude::*;
use crate::sides::SideType;

verus! {

/// Half the height of the square play area.
pub const PLAY_AREA_RADIUS: i32 = 360;

/// Radius of a regular ball.
pub const BALL_SIZE: i32 = 18;

/// Largest duration, in milliseconds, that a level parameter may hold.
pub const MAX_DURATION: u64 = 4294967296;

/// An inclusive range `low..=high` of integers.
#[derive(PartialEq, Eq, Structural, Clone, Copy, Debug)]
pub struct Span {
    pub low: i32,
    pub high: i32,
}

/// Where a ball may spawn and how hard it may be launched.
#[derive(PartialEq, Eq, Structural, Clone, Copy, Debug)]
pub struct SpawnPoint {
    /// Range of possible X coordinates
    pub start_position_range_x: Span,
    /// Range of possible Y coordinates
    pub start_position_range_y: Span,
    /// Range of possible initial impulses in the X direction
    pub start_impulse_range_x: Span,
    /// Range of possible initial impulses in the Y direction
    pub start_impulse_range_y: Span,
}

pub open spec fn span(low: int, high: int) -> Span {
    Span { low: low as i32, high: high as i32 }
}

/// Distance from the centre to the line on which balls spawn next to a wall.
pub open spec fn wall_offset() -> int {
    PLAY_AREA_RADIUS - BALL_SIZE - 1
}

pub open spec fn top_spec(min_impulse: int, max_impulse: int) -> SpawnPoint {
    SpawnPoint {
        start_position_range_x: span(-PLAY_AREA_RADIUS / 3, PLAY_AREA_RADIUS / 3),
        start_position_range_y: span(wall_offset(), wall_offset()),
        start_impulse_range_x: span(-10, 10),
        start_impulse_range_y: span(-max_impulse, -min_impulse),
    }
}

pub open spec fn bottom_spec(min_impulse: int, max_impulse: int) -> SpawnPoint {
    SpawnPoint {
        start_position_range_x: span(-PLAY_AREA_RADIUS / 3, PLAY_AREA_RADIUS / 3),
        start_position_range_y: span(-wall_offset(), -wall_offset()),
        start_impulse_range_x: span(-10, 10),
        start_impulse_range_y: span(min_impulse, max_impulse),
    }
}

pub open spec fn left_spec(min_impulse: int, max_impulse: int) -> SpawnPoint {
    SpawnPoint {
        start_position_range_x: span(-wall_offset(), -wall_offset()),
        start_position_range_y: span(-PLAY_AREA_RADIUS / 3, PLAY_AREA_RADIUS / 3),
        start_impulse_range_x: span(min_impulse, max_impulse),
        start_impulse_range_y: span(-10, 10),
    }
}

pub open spec fn right_spec(min_impulse: int, max_impulse: int) -> SpawnPoint {
    SpawnPoint {
        start_position_range_x: span(wall_offset(), wall_offset()),
        start_position_range_y: span(-PLAY_AREA_RADIUS / 3, PLAY_AREA_RADIUS / 3),
        start_impulse_range_x: span(-max_impulse, -min_impulse),
        start_impulse_range_y: span(-10, 10),
    }
}

pub open spec fn four_sides_spec(min_impulse: int, max_impulse: int) -> Seq<SpawnPoint> {
    seq![
        top_spec(min_impulse, max_impulse),
        bottom_spec(min_impulse, max_impulse),
        left_spec(min_impulse, max_impulse),
        right_spec(min_impulse, max_impulse),
    ]
}

/// Every range of the spawn point is non-empty.
pub open spec fn spawn_point_wf(p: SpawnPoint) -> bool {
    &&& p.start_position_range_x.low <= p.start_position_range_x.high
    &&& p.start_position_range_y.low <= p.start_position_range_y.high
    &&& p.start_impulse_range_x.low <= p.start_impulse_range_x.high
    &&& p.start_impulse_range_y.low <= p.start_impulse_range_y.high
}

/// Impulse bounds that the spawn point builders accept.
pub open spec fn impulses_ok(min_impulse: int, max_impulse: int) -> bool {
    -i32::MAX <= min_impulse <= max_impulse <= i32::MAX
}

impl SpawnPoint {
    /// Builds a spawn point next to the top wall.
    pub fn top(min_impulse: i32, max_impulse: i32) -> (r: SpawnPoint)
        requires
            impulses_ok(min_impulse as int, max_impulse as int),
        ensures
            r == top_spec(min_impulse as int, max_impulse as int),
    {
        SpawnPoint {
            start_position_range_x: Span { low: -PLAY_AREA_RADIUS / 3, high: PLAY_AREA_RADIUS / 3 },
            start_position_range_y: Span {
                low: PLAY_AREA_RADIUS - BALL_SIZE - 1,
                high: PLAY_AREA_RADIUS - BALL_SIZE - 1,
            },
            start_impulse_range_x: Span { low: -10, high: 10 },
            start_impulse_range_y: Span { low: -max_impulse, high: -min_impulse },
        }
    }

    /// Builds a spawn point next to the bottom wall.
    pub fn bottom(min_impulse: i32, max_impulse: i32) -> (r: SpawnPoint)
        requires
            impulses_ok(min_impulse as int, max_impulse as int),
        ensures
            r == bottom_spec(min_impulse as int, max_impulse as int),
    {
        SpawnPoint {
            start_position_range_x: Span { low: -PLAY_AREA_RADIUS / 3, high: PLAY_AREA_RADIUS / 3 },
            start_position_range_y: Span {
                low: -PLAY_AREA_RADIUS + BALL_SIZE + 1,
                high: -PLAY_AREA_RADIUS + BALL_SIZE + 1,
            },
            start_impulse_range_x: Span { low: -10, high: 10 },
            start_impulse_range_y: Span { low: min_impulse, high: max_impulse },
        }
    }

    /// Builds a spawn point next to the left wall.
    pub fn left(min_impulse: i32, max_impulse: i32) -> (r: SpawnPoint)
        requires
            impulses_ok(min_impulse as int, max_impulse as int),
        ensures
            r == left_spec(min_impulse as int, max_impulse as int),
    {
        SpawnPoint {
            start_position_range_x: Span {
                low: -PLAY_AREA_RADIUS + BALL_SIZE + 1,
                high: -PLAY_AREA_RADIUS + BALL_SIZE + 1,
            },
            start_position_range_y: Span { low: -PLAY_AREA_RADIUS / 3, high: PLAY_AREA_RADIUS / 3 },
            start_impulse_range_x: Span { low: min_impulse, high: max_impulse },
            start_impulse_range_y: Span { low: -10, high: 10 },
        }
    }

    /// Builds a spawn point next to the right wall.
    pub fn right(min_impulse: i32, max_impulse: i32) -> (r: SpawnPoint)
        requires
            impulses_ok(min_impulse as int, max_impulse as int),
        ensures
            r == right_spec(min_impulse as int, max_impulse as int),
    {
        SpawnPoint {
            start_position_range_x: Span {
                low: PLAY_AREA_RADIUS - BALL_SIZE - 1,
                high: PLAY_AREA_RADIUS - BALL_SIZE - 1,
            },
            start_position_range_y: Span { low: -PLAY_AREA_RADIUS / 3, high: PLAY_AREA_RADIUS / 3 },
            start_impulse_range_x: Span { low: -max_impulse, high: -min_impulse },
            start_impulse_range_y: Span { low: -10, high: 10 },
        }
    }

    /// Builds spawn points next to each wall: top, bottom, left, right.
    pub fn four_sides(min_impulse: i32, max_impulse: i32) -> (r: Vec<SpawnPoint>)
        requires
            impulses_ok(min_impulse as int, max_impulse as int),
        ensures
            r@ == four_sides_spec(min_impulse as int, max_impulse as int),
    {
        let r = vec![
            SpawnPoint::top(min_impulse, max_impulse),
            SpawnPoint::bottom(min_impulse, max_impulse),
            SpawnPoint::left(min_impulse, max_impulse),
            SpawnPoint::right(min_impulse, max_impulse),
        ];
        assert(r@ =~= four_sides_spec(min_impulse as int, max_impulse as int));
        r
    }
}

/// Mathematical picture of a level's settings; durations are in milliseconds.
pub ghost struct LevelView {
    pub id: int,
    pub time_between_groups: int,
    pub max_respite_time: int,
    pub time_between_spawns_in_group: int,
    pub balls_per_group: int,
    pub type_b_active: bool,
    pub type_d_active: bool,
    pub min_impulse: int,
    pub max_impulse: int,
    pub spawn_points: Seq<SpawnPoint>,
    pub duration: int,
    pub min_score: int,
    pub sides_to_unlock: Seq<SideType>,
}

/// Settings of one level. All durations are in milliseconds.
pub struct LevelSettings {
    /// The ID of the level
    pub id: usize,
    /// Amount of time between spawning groups of balls
    pub time_between_groups: u64,
    /// Maximum amount of time before a new group gets spawned if there are no balls left on screen
    pub max_respite_time: u64,
    /// Amount of time between spawning balls in the same group
    pub time_between_spawns_in_group: u64,
    /// Number of balls spawned per group
    pub balls_per_group: u32,
    /// Whether type B balls will spawn
    pub type_b_active: bool,
    /// Whether type D balls will spawn
    pub type_d_active: bool,
    /// Smallest launch impulse along a spawn point's inward axis
    pub min_impulse: i32,
    /// Largest launch impulse along a spawn point's inward axis
    pub max_impulse: i32,
    /// Settings for where to spawn balls
    pub spawn_points: Vec<SpawnPoint>,
    /// The time limit for the level
    pub duration: u64,
    /// The minimum score required to complete the level
    pub min_score: i32,
    /// The sides that will be unlocked when the level is completed
    pub sides_to_unlock: Vec<SideType>,
}

impl View for LevelSettings {
    type V = LevelView;

    open spec fn view(&self) -> LevelView {
        LevelView {
            id: self.id as int,
            time_between_groups: self.time_between_groups as int,
            max_respite_time: self.max_respite_time as int,
            time_between_spawns_in_group: self.time_between_spawns_in_group as int,
            balls_per_group: self.balls_per_group as int,
            type_b_active: self.type_b_active,
            type_d_active: self.type_d_active,
            min_impulse: self.min_impulse as int,
            max_impulse: self.max_impulse as int,
            spawn_points: self.spawn_points@,
            duration: self.duration as int,
            min_score: self.min_score as int,
            sides_to_unlock: self.sides_to_unlock@,
        }
    }
}

/// A hand-authored level whose spawn points lie next to each wall.
pub open spec fn authored_level(
    id: int,
    time_between_groups: int,
    max_respite_time: int,
    balls_per_group: int,
    type_b_active: bool,
    type_d_active: bool,
    min_impulse: int,
    max_impulse: int,
    duration: int,
    sides_to_unlock: Seq<SideType>,
    min_score: int,
) -> LevelView {
    LevelView {
        id,
        time_between_groups,
        max_respite_time,
        time_between_spawns_in_group: 500,
        balls_per_group,
        type_b_active,
        type_d_active,
        min_impulse,
        max_impulse,
        spawn_points: four_sides_spec(min_impulse, max_impulse),
        duration,
        min_score,
        sides_to_unlock,
    }
}

pub open spec fn first_level_view() -> LevelView {
    authored_level(1, 10000, 2000, 3, false, false, 5, 20, 32000, seq![SideType::FreezeOthers], 1)
}

/// The level after `l`: levels two to seven are authored, later ones ramp up
/// from the previous one with one more ball per group, a minimum impulse
/// lower by three and a minimum score higher by three.
pub open spec fn next_level_view(l: LevelView) -> LevelView {
    if l.id == 1 {
        authored_level(2, 9000, 2000, 3, true, false, 5, 20, 40000, seq![SideType::BounceBackwards], 1)
    } else if l.id == 2 {
        authored_level(3, 8000, 2000, 3, true, true, 5, 20, 50000, seq![SideType::ResizeScoreAreas], 1)
    } else if l.id == 3 {
        authored_level(
            4, 7000, 2000, 4, true, true, 5, 22, 64000,
            seq![SideType::Destroy, SideType::ExtraPoints], 3,
        )
    } else if l.id == 4 {
        authored_level(
            5, 7000, 2000, 4, true, true, 5, 25, 64000,
            seq![SideType::Duplicate, SideType::ExtremeBounce], 5,
        )
    } else if l.id == 5 {
        authored_level(6, 7000, 1000, 5, true, true, 6, 27, 64000, seq![], 7)
    } else if l.id == 6 {
        authored_level(7, 7000, 1000, 5, true, true, 7, 30, 64000, seq![], 10)
    } else {
        LevelView {
            id: l.id + 1,
            time_between_groups: l.time_between_groups,
            max_respite_time: l.max_respite_time,
            time_between_spawns_in_group: l.time_between_spawns_in_group,
            balls_per_group: l.balls_per_group + 1,
            type_b_active: true,
            type_d_active: true,
            min_impulse: l.min_impulse - 3,
            max_impulse: l.max_impulse,
            spawn_points: four_sides_spec(l.min_impulse - 3, l.max_impulse),
            duration: l.duration,
            min_score: l.min_score + 3,
            sides_to_unlock: seq![],
        }
    }
}

/// The level reached from the first one by `n` calls of `next_level`.
pub open spec fn nth_level(n: nat) -> LevelView
    decreases n,
{
    if n == 0 {
        first_level_view()
    } else {
        next_level_view(nth_level((n - 1) as nat))
    }
}

impl LevelSettings {
    /// The settings are consistent: durations are bounded, each group has a
    /// ball, and the spawn points are the four wall points built from the
    /// impulse bounds.
    pub open spec fn wf(&self) -> bool {
        &&& self.time_between_groups <= MAX_DURATION
        &&& self.max_respite_time <= MAX_DURATION
        &&& self.time_between_spawns_in_group <= MAX_DURATION
        &&& self.duration <= MAX_DURATION
        &&& self.balls_per_group >= 1
        &&& impulses_ok(self.min_impulse as int, self.max_impulse as int)
        &&& self.spawn_points@ == four_sides_spec(self.min_impulse as int, self.max_impulse as int)
    }

    /// The next level's numbers still fit their machine types.
    pub open spec fn can_advance(&self) -> bool {
        &&& self.id < usize::MAX
        &&& self.balls_per_group < u32::MAX
        &&& self.min_score <= i32::MAX - 3
        &&& self.min_impulse - 3 >= -i32::MAX
    }

    /// Builds settings for the first level.
    pub fn first_level() -> (r: LevelSettings)
        ensures
            r@ == first_level_view(),
            r.wf(),
    {
        let r = LevelSettings {
            id: 1,
            time_between_groups: 10000,
            max_respite_time: 2000,
            time_between_spawns_in_group: 500,
            balls_per_group: 3,
            type_b_active: false,
            type_d_active: false,
            min_impulse: 5,
            max_impulse: 20,
            spawn_points: SpawnPoint::four_sides(5, 20),
            duration: 32000,
            sides_to_unlock: vec![SideType::FreezeOthers],
            min_score: 1,
        };
        assert(r.sides_to_unlock@ =~= seq![SideType::FreezeOthers]);
        r
    }

    /// Builds settings for a hand-authored level.
    fn authored(
        id: usize,
        time_between_groups: u64,
        max_respite_time: u64,
        balls_per_group: u32,
        type_b_active: bool,
        type_d_active: bool,
        min_impulse: i32,
        max_impulse: i32,
        duration: u64,
        sides_to_unlock: Vec<SideType>,
        min_score: i32,
    ) -> (r: LevelSettings)
        requires
            impulses_ok(min_impulse as int, max_impulse as int),
        ensures
            r@ == authored_level(
                id as int,
                time_between_groups as int,
                max_respite_time as int,
                balls_per_group as int,
                type_b_active,
                type_d_active,
                min_impulse as int,
                max_impulse as int,
                duration as int,
                sides_to_unlock@,
                min_score as int,
            ),
    {
        LevelSettings {
            id,
            time_between_groups,
            max_respite_time,
            time_between_spawns_in_group: 500,
            balls_per_group,
            type_b_active,
            type_d_active,
            min_impulse,
            max_impulse,
            spawn_points: SpawnPoint::four_sides(min_impulse, max_impulse),
            duration,
            sides_to_unlock,
            min_score,
        }
    }

    /// Builds settings for the level after this one.
    pub fn next_level(&self) -> (r: LevelSettings)
        requires
            self.wf(),
            self.can_advance(),
        ensures
            r@ == next_level_view(self@),
            r.wf(),
    {
        match self.id {
            1 => {
                let v = vec![SideType::BounceBackwards];
                assert(v@ =~= seq![SideType::BounceBackwards]);
                LevelSettings::authored(2, 9000, 2000, 3, true, false, 5, 20, 40000, v, 1)
            },
            2 => {
                let v = vec![SideType::ResizeScoreAreas];
                assert(v@ =~= seq![SideType::ResizeScoreAreas]);
                LevelSettings::authored(3, 8000, 2000, 3, true, true, 5, 20, 50000, v, 1)
            },
            3 => {
                let v = vec![SideType::Destroy, SideType::ExtraPoints];
                assert(v@ =~= seq![SideType::Destroy, SideType::ExtraPoints]);
                LevelSettings::authored(4, 7000, 2000, 4, true, true, 5, 22, 64000, v, 3)
            },
            4 => {
                let v = vec![SideType::Duplicate, SideType::ExtremeBounce];
                assert(v@ =~= seq![SideType::Duplicate, SideType::ExtremeBounce]);
                LevelSettings::authored(5, 7000, 2000, 4, true, true, 5, 25, 64000, v, 5)
            },
            5 => {
                let v: Vec<SideType> = Vec::new();
                assert(v@ =~= seq![]);
                LevelSettings::authored(6, 7000, 1000, 5, true, true, 6, 27, 64000, v, 7)
            },
            6 => {
                let v: Vec<SideType> = Vec::new();
                assert(v@ =~= seq![]);
                LevelSettings::authored(7, 7000, 1000, 5, true, true, 7, 30, 64000, v, 10)
            },
            _ => {
                let v: Vec<SideType> = Vec::new();
                let r = LevelSettings {
                    id: self.id + 1,
                    time_between_groups: self.time_between_groups,
                    max_respite_time: self.max_respite_time,
                    time_between_spawns_in_group: self.time_between_spawns_in_group,
                    balls_per_group: self.balls_per_group + 1,
                    type_b_active: true,
                    type_d_active: true,
                    min_impulse: self.min_impulse - 3,
                    max_impulse: self.max_impulse,
                    spawn_points: SpawnPoint::four_sides(self.min_impulse - 3, self.max_impulse),
                    duration: self.duration,
                    sides_to_unlock: v,
                    min_score: self.min_score + 3,
                };
                assert(r@.sides_to_unlock =~= seq![]);
                r
            },
        }
    }

    /// Whether a final score completes this level.
    pub fn is_completed_by(&self, score: i32) -> (r: bool)
        ensures
            r == (score >= self.min_score),
    {
        score >= self.min_score
    }
}

proof fn lemma_nth_level_id(n: nat)
    ensures
        nth_level(n).id == n + 1,
    decreases n,
{
    if n > 0 {
        lemma_nth_level_id((n - 1) as nat);
    }
}

/// Difficulty never drops from one level to the next: starting from the
/// first level, each call of `next_level` keeps or raises both the minimum
/// score and the number of balls per group.
pub proof fn lemma_difficulty_never_drops(n: nat)
    ensures
        nth_level(n + 1).min_score >= nth_level(n).min_score,
        nth_level(n + 1).balls_per_group >= nth_level(n).balls_per_group,
    decreases n,
{
    lemma_nth_level_id(n);
    reveal_with_fuel(nth_level, 8);
    if n >= 7 {
        assert(nth_level(n).id >= 8);
    }
}

} // verus!
