//! Balls: their types, point values and the transient states that effects
//! put on them.

use vstd::prelude::*;
use crate::level::{LevelSettings, BALL_SIZE};

verus! {

/// Radius of a ball that carries the extra-points upgrade.
pub const EXTRA_POINT_BALL_SIZE: u32 = 25;

/// Colour class of a ball; each has a matching score area.
#[derive(PartialEq, Eq, Structural, Clone, Copy, Debug, Hash)]
pub enum BallType {
    A,
    B,
    C,
    D,
}

/// The ball types that spawn in a level with the given flags, in a fixed order.
pub open spec fn active_ball_types(type_b_active: bool, type_d_active: bool) -> Seq<BallType> {
    if type_b_active && type_d_active {
        seq![BallType::A, BallType::B, BallType::C, BallType::D]
    } else if type_b_active {
        seq![BallType::A, BallType::B, BallType::C]
    } else if type_d_active {
        seq![BallType::A, BallType::C, BallType::D]
    } else {
        seq![BallType::A, BallType::C]
    }
}

pub open spec fn level_ball_types(level: &LevelSettings) -> Seq<BallType> {
    active_ball_types(level.type_b_active, level.type_d_active)
}

impl BallType {
    /// Number of ball types that spawn in a level.
    pub fn active_count(level_settings: &LevelSettings) -> (r: u32)
        ensures
            r == level_ball_types(level_settings).len(),
            2 <= r <= 4,
    {
        if level_settings.type_b_active && level_settings.type_d_active {
            4
        } else if level_settings.type_b_active || level_settings.type_d_active {
            3
        } else {
            2
        }
    }

    /// The ball type that a roll in `0..active_count` stands for.
    pub fn from_roll(level_settings: &LevelSettings, roll: u32) -> (r: BallType)
        requires
            roll < level_ball_types(level_settings).len(),
        ensures
            r == level_ball_types(level_settings)[roll as int],
    {
        if level_settings.type_b_active && level_settings.type_d_active {
            match roll {
                0 => BallType::A,
                1 => BallType::B,
                2 => BallType::C,
                _ => BallType::D,
            }
        } else if level_settings.type_b_active {
            match roll {
                0 => BallType::A,
                1 => BallType::B,
                _ => BallType::C,
            }
        } else if level_settings.type_d_active {
            match roll {
                0 => BallType::A,
                1 => BallType::C,
                _ => BallType::D,
            }
        } else {
            match roll {
                0 => BallType::A,
                _ => BallType::C,
            }
        }
    }
}

/// A ball held still by the freeze effect.
#[derive(PartialEq, Eq, Structural, Clone, Copy, Debug)]
pub struct Frozen<V> {
    /// Time (ms) after which the ball moves again
    pub unfreeze_at: u64,
    /// Velocity the ball had when it was first frozen
    pub original_velocity: V,
}

/// A live ball. `V` is the physics engine's velocity, which this library
/// only stores and hands back.
#[derive(PartialEq, Eq, Structural, Clone, Copy, Debug)]
pub struct Ball<V> {
    /// Identity of the ball within its level
    pub id: u64,
    pub ball_type: BallType,
    /// Score value of the ball
    pub points: u16,
    /// Carries the extra-points upgrade, which also makes the ball larger
    pub extra_points: bool,
    /// Last known velocity
    pub velocity: V,
    pub frozen: Option<Frozen<V>>,
    /// Time (ms) until which the ball cannot be duplicated
    pub duplicate_cooldown: Option<u64>,
}

pub open spec fn ball_radius_spec<V>(ball: Ball<V>) -> int {
    if ball.extra_points {
        EXTRA_POINT_BALL_SIZE as int
    } else {
        BALL_SIZE as int
    }
}

impl<V: Copy> Ball<V> {
    /// A freshly spawned ball worth one point.
    pub fn new(id: u64, ball_type: BallType, velocity: V) -> (r: Ball<V>)
        ensures
            r == (Ball {
                id,
                ball_type,
                points: 1,
                extra_points: false,
                velocity,
                frozen: None,
                duplicate_cooldown: None,
            }),
    {
        Ball {
            id,
            ball_type,
            points: 1,
            extra_points: false,
            velocity,
            frozen: None,
            duplicate_cooldown: None,
        }
    }

    /// Collision and display radius of the ball.
    pub fn radius(&self) -> (r: u32)
        ensures
            r == ball_radius_spec(*self),
    {
        if self.extra_points {
            EXTRA_POINT_BALL_SIZE
        } else {
            BALL_SIZE as u32
        }
    }
}

} // verus!
