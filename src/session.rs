//! One attempt at a level: the live balls and score areas, the score, and
//! the rules that decide what each collision does to them.

use vstd::prelude::*;
use crate::ball::{Ball, BallType, Frozen};
use crate::level::LevelSettings;
use crate::ball::level_ball_types;
use crate::sides::{SideId, SideType, opposite_side_spec};
use crate::spawner::{
    Spawner, SpawnOrder, order_within_point, spawn_random_ball, spawner_tick_spec, MAX_TIME,
};

verus! {

/// How long the freeze effect holds other balls, in milliseconds.
pub const FREEZE_DURATION: u64 = 3000;

/// How long score areas stay resized, in milliseconds.
pub const SCORE_AREA_RESIZE_DURATION: u64 = 5000;

/// How long a duplicated ball and its copy cannot be duplicated again, in milliseconds.
pub const DUPLICATE_COOLDOWN_DURATION: u64 = 1000;

/// Radius of a score area at rest.
pub const SCORE_AREA_SIZE: u32 = 150;

/// How much the resize effect grows or shrinks a score area's radius.
pub const SCORE_AREA_RESIZE_AMOUNT: u32 = 40;

/// How long a score area flashes after a hit, in milliseconds.
pub const SCORE_AREA_HIT_ANIMATION_DURATION: u64 = 250;

/// Speed at which a ball leaves past the opposite side after a bounce-backwards hit.
pub const BOUNCE_BACKWARDS_VELOCITY: i32 = 100;

/// How far beyond the opposite side a bounced-backwards ball is placed.
pub const BOUNCE_BACKWARDS_DISTANCE: i32 = 19;

/// Impulse, along each axis, that pushes a duplicate away from its source.
pub const DUPLICATE_IMPULSE: i32 = 5;

/// The running score of a level attempt; it may go negative.
#[derive(PartialEq, Eq, Structural, Clone, Copy, Debug)]
pub struct Score(pub i32);

impl Score {
    /// Adds `delta`, which may be negative, to the score.
    pub fn add(&mut self, delta: i32)
        requires
            i32::MIN <= old(self).0 + delta <= i32::MAX,
        ensures
            final(self).0 == old(self).0 + delta,
    {
        self.0 = self.0 + delta;
    }
}

/// A temporary change of a score area's size.
#[derive(PartialEq, Eq, Structural, Clone, Copy, Debug)]
pub struct Resized {
    /// Time (ms) after which the area returns to its original size
    pub unresize_at: u64,
    pub original_radius: u32,
    /// Wrong-type balls entering the area cost no points
    pub penalty_disabled: bool,
}

/// A zone that scores balls of its target type.
#[derive(PartialEq, Eq, Structural, Clone, Copy, Debug)]
pub struct ScoreArea {
    pub target: BallType,
    pub radius: u32,
    pub resized: Option<Resized>,
}

/// One party of a collision, as the physics engine reports it.
#[derive(PartialEq, Eq, Structural, Clone, Copy, Debug)]
pub enum Body {
    /// The live ball with this identity
    Ball(u64),
    /// The score area at this index
    ScoreArea(usize),
    /// A side of the player's polygon and the effect it carries
    Side(SideId, SideType),
    /// A wall or anything else
    Other,
}

/// Two bodies that started touching.
#[derive(PartialEq, Eq, Structural, Clone, Copy, Debug)]
pub struct CollisionEvent {
    pub a: Body,
    pub b: Body,
}

/// Sound cues.
#[derive(PartialEq, Eq, Structural, Clone, Copy, Debug)]
pub enum Cue {
    Hit,
    Up,
    UpMore,
    Down,
    Launch,
    Boop,
    Duplicate,
    Explode,
    ExtraPoints,
    Resize,
    Good,
    Bad,
}

/// Work for the engine that hosts the rules.
#[derive(PartialEq, Eq, Structural, Clone, Copy, Debug)]
pub enum Action<V> {
    /// Play a sound cue once
    Play(Cue),
    /// Flash a score area for `SCORE_AREA_HIT_ANIMATION_DURATION` to show a
    /// score change
    Flash { area: usize, score_change: i32 },
    /// Send a ball out past the side opposite the one it hit, at
    /// `BOUNCE_BACKWARDS_VELOCITY` away from the hit side, placed
    /// `BOUNCE_BACKWARDS_DISTANCE` beyond the opposite side
    BounceBackwards { ball: u64, side_hit: SideId, opposite_side: SideId },
    /// Spawn ball `copy` where ball `source` is, with its velocity and a
    /// push of `DUPLICATE_IMPULSE`
    SpawnDuplicate { source: u64, copy: u64 },
    /// Make a ball move again with this velocity
    RestoreVelocity { ball: u64, velocity: V },
    /// Place a new ball at `(x, y)` and launch it with the given impulse
    Launch { ball: u64, ball_type: BallType, x: i32, y: i32, impulse_x: i32, impulse_y: i32 },
}

/// The part of a level session that collisions and timers change.
pub ghost struct SessionView<V> {
    pub balls: Seq<Ball<V>>,
    pub score_areas: Seq<ScoreArea>,
    pub score: int,
    /// Balls queued for removal at the end of the tick
    pub despawn: Seq<u64>,
    pub next_ball_id: int,
    /// Actions not yet taken by the engine
    pub outbox: Seq<Action<V>>,
}

/// State of one attempt at a level. Times are milliseconds on one clock.
pub struct LevelSession<V> {
    pub level: LevelSettings,
    pub balls: Vec<Ball<V>>,
    pub score_areas: Vec<ScoreArea>,
    pub score: Score,
    /// Balls to remove at the end of the tick
    pub entities_to_despawn: Vec<u64>,
    /// Time at which the level ends
    pub level_end_time: u64,
    pub spawner: Spawner,
    /// Identity the next new ball receives
    pub next_ball_id: u64,
    /// Actions for the engine, in the order they arose
    pub outbox: Vec<Action<V>>,
}

impl<V> View for LevelSession<V> {
    type V = SessionView<V>;

    open spec fn view(&self) -> SessionView<V> {
        SessionView {
            balls: self.balls@,
            score_areas: self.score_areas@,
            score: self.score.0 as int,
            despawn: self.entities_to_despawn@,
            next_ball_id: self.next_ball_id as int,
            outbox: self.outbox@,
        }
    }
}

/// Ball identities are distinct and below the next identity; each ball is
/// worth one or two points.
pub open spec fn balls_wf<V>(balls: Seq<Ball<V>>, next_ball_id: int) -> bool {
    &&& forall|i: int, j: int|
        0 <= i < balls.len() && 0 <= j < balls.len() && i != j ==> #[trigger] balls[i].id
            != #[trigger] balls[j].id
    &&& forall|i: int| 0 <= i < balls.len() ==> #[trigger] balls[i].id < next_ball_id
    &&& forall|i: int| 0 <= i < balls.len() ==> 1 <= #[trigger] balls[i].points <= 2
}

/// Index of the ball with identity `id`, if it is live.
pub open spec fn find_ball<V>(balls: Seq<Ball<V>>, id: u64) -> Option<int> {
    if exists|j: int| 0 <= j < balls.len() && balls[j].id == id {
        Some(choose|j: int| 0 <= j < balls.len() && balls[j].id == id)
    } else {
        None
    }
}

pub open spec fn body_ball<V>(balls: Seq<Ball<V>>, body: Body) -> Option<int> {
    match body {
        Body::Ball(id) => find_ball(balls, id),
        _ => None,
    }
}

pub open spec fn body_area(areas: Seq<ScoreArea>, body: Body) -> Option<int> {
    match body {
        Body::ScoreArea(k) => if k < areas.len() {
            Some(k as int)
        } else {
            None
        },
        _ => None,
    }
}

pub open spec fn body_side(body: Body) -> Option<(SideId, SideType)> {
    match body {
        Body::Side(id, t) => Some((id, t)),
        _ => None,
    }
}

/// The ball in a collision: the first party if it is a live ball, else the second.
pub open spec fn event_ball<V>(balls: Seq<Ball<V>>, e: CollisionEvent) -> Option<int> {
    if body_ball(balls, e.a) is Some {
        body_ball(balls, e.a)
    } else {
        body_ball(balls, e.b)
    }
}

/// The score area in a collision, looked up the same way.
pub open spec fn event_area(areas: Seq<ScoreArea>, e: CollisionEvent) -> Option<int> {
    if body_area(areas, e.a) is Some {
        body_area(areas, e.a)
    } else {
        body_area(areas, e.b)
    }
}

/// The side in a collision, looked up the same way.
pub open spec fn event_side(e: CollisionEvent) -> Option<(SideId, SideType)> {
    if body_side(e.a) is Some {
        body_side(e.a)
    } else {
        body_side(e.b)
    }
}

/// A score area that currently lets wrong-type balls in without penalty.
pub open spec fn penalty_waived(area: ScoreArea) -> bool {
    area.resized matches Some(r) && r.penalty_disabled
}

pub open spec fn play<V>(v: SessionView<V>, cue: Cue) -> SessionView<V> {
    SessionView { outbox: v.outbox.push(Action::Play(cue)), ..v }
}

/// Ball `i` enters score area `k`. A matching ball adds its points; a
/// wrong one takes them off, unless the area waives the penalty, in which
/// case nothing happens at all. A ball that scored either way is queued
/// for removal.
pub open spec fn score_spec<V>(v: SessionView<V>, i: int, k: int) -> SessionView<V> {
    let ball = v.balls[i];
    let area = v.score_areas[k];
    if ball.ball_type == area.target {
        SessionView {
            score: v.score + ball.points,
            despawn: v.despawn.push(ball.id),
            outbox: v.outbox + seq![
                Action::Flash { area: k as usize, score_change: ball.points as i32 },
                Action::Play(Cue::Good),
            ],
            ..v
        }
    } else if penalty_waived(area) {
        v
    } else {
        SessionView {
            score: v.score - ball.points,
            despawn: v.despawn.push(ball.id),
            outbox: v.outbox + seq![
                Action::Flash { area: k as usize, score_change: (-ball.points) as i32 },
                Action::Play(Cue::Bad),
            ],
            ..v
        }
    }
}

/// How the remaining time of a level is shown.
#[derive(PartialEq, Eq, Structural, Clone, Copy, Debug)]
pub struct TimeDisplay {
    /// Whole seconds left
    pub seconds_left: u64,
    /// In the last five seconds, the time left in tenths of a second, rounded
    pub tenths_left: Option<u64>,
    /// How much larger than its normal size the countdown is drawn
    pub font_size_increase: u32,
}

/// Growth of the countdown's font as the last seconds run out.
pub open spec fn font_size_increase_spec(seconds_left: u64) -> u32 {
    if seconds_left == 0 {
        27
    } else if seconds_left <= 1 {
        20
    } else if seconds_left <= 2 {
        14
    } else if seconds_left <= 3 {
        9
    } else if seconds_left <= 4 {
        5
    } else if seconds_left <= 5 {
        2
    } else {
        0
    }
}

/// Describes the countdown for `time_left` milliseconds: whole seconds,
/// with tenths in the last five seconds, drawn larger as the end nears.
pub fn time_display(time_left: u64) -> (r: TimeDisplay)
    ensures
        r.seconds_left == time_left / 1000,
        r.tenths_left == if time_left / 1000 <= 5 {
            Some(((time_left + 50) / 100) as u64)
        } else {
            None::<u64>
        },
        r.font_size_increase == font_size_increase_spec((time_left / 1000) as u64),
{
    let seconds_left = time_left / 1000;
    let tenths_left = if seconds_left <= 5 {
        Some((time_left + 50) / 100)
    } else {
        None
    };
    let font_size_increase: u32 = if seconds_left == 0 {
        27
    } else if seconds_left <= 1 {
        20
    } else if seconds_left <= 2 {
        14
    } else if seconds_left <= 3 {
        9
    } else if seconds_left <= 4 {
        5
    } else if seconds_left <= 5 {
        2
    } else {
        0
    };
    TimeDisplay { seconds_left, tenths_left, font_size_increase }
}

/// A ball after the freeze effect reaches it at `now`: it stays put until
/// `now + FREEZE_DURATION`, and keeps the velocity it had when it was first
/// frozen.
pub open spec fn freeze_ball<V>(b: Ball<V>, now: u64) -> Ball<V> {
    Ball {
        frozen: Some(
            Frozen {
                unfreeze_at: (now + FREEZE_DURATION) as u64,
                original_velocity: match b.frozen {
                    Some(f) => f.original_velocity,
                    None => b.velocity,
                },
            },
        ),
        ..b
    }
}

/// Ball `i` hit a freeze side: every other ball freezes.
pub open spec fn freeze_others_spec<V>(v: SessionView<V>, i: int, now: u64) -> SessionView<V> {
    play(
        SessionView {
            balls: Seq::new(
                v.balls.len(),
                |j: int|
                    if j == i {
                        v.balls[j]
                    } else {
                        freeze_ball(v.balls[j], now)
                    },
            ),
            ..v
        },
        Cue::Down,
    )
}

/// A score area after a ball of type `t` hit a resize side at `now`: it
/// grows if it takes `t`, else shrinks, from its rest size in both cases,
/// and waives penalties until `now + SCORE_AREA_RESIZE_DURATION`.
pub open spec fn resize_area(a: ScoreArea, t: BallType, now: u64) -> ScoreArea {
    ScoreArea {
        target: a.target,
        radius: if a.target == t {
            (SCORE_AREA_SIZE + SCORE_AREA_RESIZE_AMOUNT) as u32
        } else {
            (SCORE_AREA_SIZE - SCORE_AREA_RESIZE_AMOUNT) as u32
        },
        resized: Some(
            Resized {
                unresize_at: (now + SCORE_AREA_RESIZE_DURATION) as u64,
                original_radius: SCORE_AREA_SIZE,
                penalty_disabled: true,
            },
        ),
    }
}

pub open spec fn resize_spec<V>(v: SessionView<V>, t: BallType, now: u64) -> SessionView<V> {
    play(
        SessionView {
            score_areas: Seq::new(v.score_areas.len(), |k: int| resize_area(v.score_areas[k], t, now)),
            ..v
        },
        Cue::Resize,
    )
}

/// Ball `i` hit a duplicate side. On cooldown nothing changes. Otherwise a
/// copy of the same type, worth one point, carrying the extra-points
/// upgrade if the source does, joins the live balls; both are on cooldown
/// until `now + DUPLICATE_COOLDOWN_DURATION`.
pub open spec fn duplicate_spec<V>(v: SessionView<V>, i: int, now: u64) -> SessionView<V> {
    let b = v.balls[i];
    if b.duplicate_cooldown is Some {
        v
    } else {
        let cooldown = Some((now + DUPLICATE_COOLDOWN_DURATION) as u64);
        let copy = Ball {
            id: v.next_ball_id as u64,
            ball_type: b.ball_type,
            points: 1,
            extra_points: b.extra_points,
            velocity: b.velocity,
            frozen: None,
            duplicate_cooldown: cooldown,
        };
        SessionView {
            balls: v.balls.update(i, Ball { duplicate_cooldown: cooldown, ..b }).push(copy),
            next_ball_id: v.next_ball_id + 1,
            outbox: v.outbox + seq![
                Action::SpawnDuplicate { source: b.id, copy: copy.id },
                Action::Play(Cue::Duplicate),
            ],
            ..v
        }
    }
}

/// Ball `i` hit an extra-points side: it is worth two points and carries the upgrade.
pub open spec fn extra_points_spec<V>(v: SessionView<V>, i: int) -> SessionView<V> {
    play(
        SessionView {
            balls: v.balls.update(i, Ball { points: 2, extra_points: true, ..v.balls[i] }),
            ..v
        },
        Cue::ExtraPoints,
    )
}

/// What hitting side `side_id`, which carries `t`, does to ball `i`.
pub open spec fn side_effect_spec<V>(
    v: SessionView<V>,
    i: int,
    t: SideType,
    side_id: SideId,
    now: u64,
) -> SessionView<V> {
    let b = v.balls[i];
    match t {
        SideType::NothingSpecial => v,
        SideType::SpeedUp => play(v, Cue::Up),
        SideType::FreezeOthers => freeze_others_spec(v, i, now),
        SideType::BounceBackwards => SessionView {
            outbox: v.outbox + seq![
                Action::BounceBackwards {
                    ball: b.id,
                    side_hit: side_id,
                    opposite_side: opposite_side_spec(side_id),
                },
                Action::Play(Cue::Boop),
            ],
            ..v
        },
        SideType::Destroy => play(SessionView { despawn: v.despawn.push(b.id), ..v }, Cue::Explode),
        SideType::Duplicate => duplicate_spec(v, i, now),
        SideType::ResizeScoreAreas => resize_spec(v, b.ball_type, now),
        SideType::ExtremeBounce => play(v, Cue::UpMore),
        SideType::ExtraPoints => extra_points_spec(v, i),
    }
}

/// What one collision does. Collisions without a live ball, and those of a
/// ball already queued for removal, change nothing. Otherwise the ball is
/// released if frozen; then it scores if the other party is a score area,
/// or else bounces, taking the effect of the side it hit, if any.
pub open spec fn step<V>(v: SessionView<V>, e: CollisionEvent, now: u64) -> SessionView<V> {
    match event_ball(v.balls, e) {
        None => v,
        Some(i) => if v.despawn.contains(v.balls[i].id) {
            v
        } else {
            let released = SessionView {
                balls: v.balls.update(i, Ball { frozen: None, ..v.balls[i] }),
                ..v
            };
            match event_area(released.score_areas, e) {
                Some(k) => score_spec(released, i, k),
                None => {
                    let bounced = play(released, Cue::Hit);
                    match event_side(e) {
                        Some(side) => side_effect_spec(bounced, i, side.1, side.0, now),
                        None => bounced,
                    }
                },
            }
        },
    }
}

/// What a batch of collisions does, taken in order.
pub open spec fn steps<V>(v: SessionView<V>, events: Seq<CollisionEvent>, now: u64) -> SessionView<
    V,
>
    decreases events.len(),
{
    if events.len() == 0 {
        v
    } else {
        step(steps(v, events.drop_last(), now), events.last(), now)
    }
}

/// The side among the two parties of a collision, trying the first one first.
pub fn side_in_collision(event: &CollisionEvent) -> (r: Option<(SideId, SideType)>)
    ensures
        r == event_side(*event),
{
    match event.a {
        Body::Side(id, t) => Some((id, t)),
        _ => match event.b {
            Body::Side(id, t) => Some((id, t)),
            _ => None,
        },
    }
}

fn freeze_one<V: Copy>(b: Ball<V>, now: u64) -> (r: Ball<V>)
    requires
        now <= MAX_TIME,
    ensures
        r == freeze_ball(b, now),
{
    let original_velocity = match b.frozen {
        Some(f) => f.original_velocity,
        None => b.velocity,
    };
    Ball { frozen: Some(Frozen { unfreeze_at: now + FREEZE_DURATION, original_velocity }), ..b }
}

fn resize_one(a: ScoreArea, t: BallType, now: u64) -> (r: ScoreArea)
    requires
        now <= MAX_TIME,
    ensures
        r == resize_area(a, t, now),
{
    let radius = if a.target == t {
        SCORE_AREA_SIZE + SCORE_AREA_RESIZE_AMOUNT
    } else {
        SCORE_AREA_SIZE - SCORE_AREA_RESIZE_AMOUNT
    };
    ScoreArea {
        target: a.target,
        radius,
        resized: Some(
            Resized {
                unresize_at: now + SCORE_AREA_RESIZE_DURATION,
                original_radius: SCORE_AREA_SIZE,
                penalty_disabled: true,
            },
        ),
    }
}

/// A ball after the unfreeze sweep at `now`: once its freeze deadline has
/// passed it moves again, with the velocity saved when it was frozen.
pub open spec fn thaw_ball<V>(b: Ball<V>, now: u64) -> Ball<V> {
    match b.frozen {
        Some(f) => if now > f.unfreeze_at {
            Ball { frozen: None, velocity: f.original_velocity, ..b }
        } else {
            b
        },
        None => b,
    }
}

/// The velocity restorations that the unfreeze sweep at `now` asks for, in ball order.
pub open spec fn thaw_actions<V>(balls: Seq<Ball<V>>, now: u64) -> Seq<Action<V>>
    decreases balls.len(),
{
    if balls.len() == 0 {
        seq![]
    } else {
        let rest = thaw_actions(balls.drop_last(), now);
        let b = balls.last();
        match b.frozen {
            Some(f) => if now > f.unfreeze_at {
                rest.push(Action::RestoreVelocity { ball: b.id, velocity: f.original_velocity })
            } else {
                rest
            },
            None => rest,
        }
    }
}

pub open spec fn unfreeze_spec<V>(v: SessionView<V>, now: u64) -> SessionView<V> {
    SessionView {
        balls: Seq::new(v.balls.len(), |j: int| thaw_ball(v.balls[j], now)),
        outbox: v.outbox + thaw_actions(v.balls, now),
        ..v
    }
}

/// A score area after the un-resize sweep at `now`: once its resize has
/// expired it returns to its original radius.
pub open spec fn restore_area(a: ScoreArea, now: u64) -> ScoreArea {
    match a.resized {
        Some(r) => if now > r.unresize_at {
            ScoreArea { radius: r.original_radius, resized: None, ..a }
        } else {
            a
        },
        None => a,
    }
}

pub open spec fn unresize_spec<V>(v: SessionView<V>, now: u64) -> SessionView<V> {
    SessionView {
        score_areas: Seq::new(v.score_areas.len(), |k: int| restore_area(v.score_areas[k], now)),
        ..v
    }
}

/// A ball after the cooldown sweep at `now`: an expired duplicate cooldown is dropped.
pub open spec fn cool_ball<V>(b: Ball<V>, now: u64) -> Ball<V> {
    match b.duplicate_cooldown {
        Some(t) => if now > t {
            Ball { duplicate_cooldown: None, ..b }
        } else {
            b
        },
        None => b,
    }
}

pub open spec fn cooldown_spec<V>(v: SessionView<V>, now: u64) -> SessionView<V> {
    SessionView { balls: Seq::new(v.balls.len(), |j: int| cool_ball(v.balls[j], now)), ..v }
}

/// The balls, in order, whose identity is not in `ids`.
pub open spec fn survivors<V>(balls: Seq<Ball<V>>, ids: Seq<u64>) -> Seq<Ball<V>>
    decreases balls.len(),
{
    if balls.len() == 0 {
        seq![]
    } else {
        let rest = survivors(balls.drop_last(), ids);
        if ids.contains(balls.last().id) {
            rest
        } else {
            rest.push(balls.last())
        }
    }
}

pub open spec fn despawn_spec<V>(v: SessionView<V>) -> SessionView<V> {
    SessionView { balls: survivors(v.balls, v.despawn), despawn: seq![], ..v }
}

/// A new ball from `order` joins the live balls and the engine is asked to launch it.
pub open spec fn place_spec<V>(v: SessionView<V>, order: SpawnOrder, at_rest: V) -> SessionView<
    V,
> {
    let id = v.next_ball_id as u64;
    SessionView {
        balls: v.balls.push(
            Ball {
                id,
                ball_type: order.ball_type,
                points: 1,
                extra_points: false,
                velocity: at_rest,
                frozen: None,
                duplicate_cooldown: None,
            },
        ),
        next_ball_id: v.next_ball_id + 1,
        outbox: v.outbox + seq![
            Action::Launch {
                ball: id,
                ball_type: order.ball_type,
                x: order.x,
                y: order.y,
                impulse_x: order.impulse_x,
                impulse_y: order.impulse_y,
            },
            Action::Play(Cue::Launch),
        ],
        ..v
    }
}

/// The score areas a level starts with: A, then B if it spawns, C, then D
/// if it spawns, all at rest size.
pub open spec fn start_areas(level: &LevelSettings) -> Seq<ScoreArea> {
    let a = seq![ScoreArea { target: BallType::A, radius: SCORE_AREA_SIZE, resized: None }];
    let b = if level.type_b_active {
        seq![ScoreArea { target: BallType::B, radius: SCORE_AREA_SIZE, resized: None }]
    } else {
        seq![]
    };
    let c = seq![ScoreArea { target: BallType::C, radius: SCORE_AREA_SIZE, resized: None }];
    let d = if level.type_d_active {
        seq![ScoreArea { target: BallType::D, radius: SCORE_AREA_SIZE, resized: None }]
    } else {
        seq![]
    };
    a + b + c + d
}

fn thaw_one<V: Copy>(b: Ball<V>, now: u64) -> (r: Ball<V>)
    ensures
        r == thaw_ball(b, now),
{
    match b.frozen {
        Some(f) => if now > f.unfreeze_at {
            Ball { frozen: None, velocity: f.original_velocity, ..b }
        } else {
            b
        },
        None => b,
    }
}

fn cool_one<V: Copy>(b: Ball<V>, now: u64) -> (r: Ball<V>)
    ensures
        r == cool_ball(b, now),
{
    match b.duplicate_cooldown {
        Some(t) => if now > t {
            Ball { duplicate_cooldown: None, ..b }
        } else {
            b
        },
        None => b,
    }
}

fn restore_one(a: ScoreArea, now: u64) -> (r: ScoreArea)
    ensures
        r == restore_area(a, now),
{
    match a.resized {
        Some(r) => if now > r.unresize_at {
            ScoreArea { radius: r.original_radius, resized: None, ..a }
        } else {
            a
        },
        None => a,
    }
}

fn contains_id(ids: &Vec<u64>, id: u64) -> (r: bool)
    ensures
        r == ids@.contains(id),
{
    let mut j: usize = 0;
    while j < ids.len()
        invariant
            j <= ids@.len(),
            forall|m: int| 0 <= m < j ==> ids@[m] != id,
        decreases ids@.len() - j,
    {
        if ids[j] == id {
            assert(ids@[j as int] == id);
            return true;
        }
        j += 1;
    }
    false
}

/// One tick at `now`: the collision batch, then the unfreeze, un-resize and
/// cooldown sweeps.
pub open spec fn tick_spec<V>(v: SessionView<V>, events: Seq<CollisionEvent>, now: u64) -> SessionView<V> {
    cooldown_spec(unresize_spec(unfreeze_spec(steps(v, events, now), now), now), now)
}

/// The settings, clock and spawner of `a` and `b` agree.
pub open spec fn same_settings<V>(a: &LevelSession<V>, b: &LevelSession<V>) -> bool {
    &&& a.level == b.level
    &&& a.level_end_time == b.level_end_time
    &&& a.spawner == b.spawner
}

impl<V: Copy> LevelSession<V> {
    pub open spec fn wf(&self) -> bool {
        &&& self.level.wf()
        &&& self.spawner.wf(&self.level)
        &&& balls_wf(self.balls@, self.next_ball_id as int)
    }

    /// Index of the live ball with identity `id`.
    fn find_ball_index(&self, id: u64) -> (r: Option<usize>)
        requires
            balls_wf(self.balls@, self.next_ball_id as int),
        ensures
            r matches Some(i) ==> find_ball(self.balls@, id) == Some(i as int),
            r is None ==> find_ball(self.balls@, id) is None,
    {
        let mut j: usize = 0;
        while j < self.balls.len()
            invariant
                j <= self.balls@.len(),
                balls_wf(self.balls@, self.next_ball_id as int),
                forall|m: int| 0 <= m < j ==> self.balls@[m].id != id,
            decreases self.balls@.len() - j,
        {
            if self.balls[j].id == id {
                proof {
                    assert(self.balls@[j as int].id == id);
                    assert(exists|m: int| 0 <= m < self.balls@.len() && self.balls@[m].id == id);
                    let c = choose|m: int| 0 <= m < self.balls@.len() && self.balls@[m].id == id;
                    if c != j as int {
                        assert(self.balls@[c].id != self.balls@[j as int].id);
                    }
                }
                return Some(j);
            }
            j += 1;
        }
        None
    }

    fn body_ball_index(&self, body: Body) -> (r: Option<usize>)
        requires
            balls_wf(self.balls@, self.next_ball_id as int),
        ensures
            r matches Some(i) ==> body_ball(self.balls@, body) == Some(i as int),
            r is None ==> body_ball(self.balls@, body) is None,
    {
        match body {
            Body::Ball(id) => self.find_ball_index(id),
            _ => None,
        }
    }

    fn body_area_index(&self, body: Body) -> (r: Option<usize>)
        ensures
            r matches Some(k) ==> body_area(self.score_areas@, body) == Some(k as int),
            r is None ==> body_area(self.score_areas@, body) is None,
    {
        match body {
            Body::ScoreArea(k) => if k < self.score_areas.len() {
                Some(k)
            } else {
                None
            },
            _ => None,
        }
    }

    /// Finds the live ball among the two parties of a collision, trying the first one first.
    pub fn ball_in_collision(&self, event: &CollisionEvent) -> (r: Option<usize>)
        requires
            balls_wf(self.balls@, self.next_ball_id as int),
        ensures
            r matches Some(i) ==> event_ball(self.balls@, *event) == Some(i as int),
            r is None ==> event_ball(self.balls@, *event) is None,
    {
        match self.body_ball_index(event.a) {
            Some(i) => Some(i),
            None => self.body_ball_index(event.b),
        }
    }

    /// Finds the score area among the two parties of a collision, trying the first one first.
    pub fn score_area_in_collision(&self, event: &CollisionEvent) -> (r: Option<usize>)
        ensures
            r matches Some(k) ==> event_area(self.score_areas@, *event) == Some(k as int),
            r is None ==> event_area(self.score_areas@, *event) is None,
    {
        match self.body_area_index(event.a) {
            Some(k) => Some(k),
            None => self.body_area_index(event.b),
        }
    }

    /// Whether ball `id` is already queued for removal.
    fn is_queued_for_despawn(&self, id: u64) -> (r: bool)
        ensures
            r == self.entities_to_despawn@.contains(id),
    {
        let mut j: usize = 0;
        while j < self.entities_to_despawn.len()
            invariant
                j <= self.entities_to_despawn@.len(),
                forall|m: int| 0 <= m < j ==> self.entities_to_despawn@[m] != id,
            decreases self.entities_to_despawn@.len() - j,
        {
            if self.entities_to_despawn[j] == id {
                assert(self.entities_to_despawn@[j as int] == id);
                return true;
            }
            j += 1;
        }
        false
    }

    /// Ball `i` enters score area `k`: see `score_spec`.
    pub fn score_ball(&mut self, i: usize, k: usize)
        requires
            old(self).wf(),
            i < old(self).balls@.len(),
            k < old(self).score_areas@.len(),
            i32::MIN + 2 <= old(self).score.0 <= i32::MAX - 2,
        ensures
            final(self)@ == score_spec(old(self)@, i as int, k as int),
            final(self).wf(),
            same_settings(final(self), old(self)),
    {
        let ball = self.balls[i];
        let area = self.score_areas[k];
        let points = ball.points as i32;
        if ball.ball_type == area.target {
            self.score.add(points);
            self.outbox.push(Action::Flash { area: k, score_change: points });
            self.outbox.push(Action::Play(Cue::Good));
        } else {
            if let Some(resized) = area.resized {
                if resized.penalty_disabled {
                    // this score area doesn't penalize incorrect hits right now
                    return;
                }
            }
            self.score.add(-points);
            self.outbox.push(Action::Flash { area: k, score_change: -points });
            self.outbox.push(Action::Play(Cue::Bad));
        }
        self.entities_to_despawn.push(ball.id);
        assert(self@.outbox =~= score_spec(old(self)@, i as int, k as int).outbox);
    }
    /// Ball `i` hit a freeze side: see `freeze_others_spec`.
    pub fn freeze_others(&mut self, i: usize, now: u64)
        requires
            old(self).wf(),
            i < old(self).balls@.len(),
            now <= MAX_TIME,
        ensures
            final(self)@ == freeze_others_spec(old(self)@, i as int, now),
            final(self).wf(),
            same_settings(final(self), old(self)),
    {
        let n = self.balls.len();
        let mut balls: Vec<Ball<V>> = Vec::with_capacity(n);
        let mut j: usize = 0;
        while j < n
            invariant
                n == self.balls@.len(),
                j <= n,
                balls@.len() == j,
                forall|m: int|
                    0 <= m < j ==> balls@[m] == if m == i {
                        self.balls@[m]
                    } else {
                        freeze_ball(self.balls@[m], now)
                    },
                now <= MAX_TIME,
            decreases n - j,
        {
            let b = self.balls[j];
            if j == i {
                balls.push(b);
            } else {
                balls.push(freeze_one(b, now));
            }
            j += 1;
        }
        self.balls = balls;
        self.outbox.push(Action::Play(Cue::Down));
        assert(self@.balls =~= freeze_others_spec(old(self)@, i as int, now).balls);
    }

    /// A ball of type `ball_type` hit a resize side: see `resize_spec`.
    pub fn resize_score_areas(&mut self, ball_type: BallType, now: u64)
        requires
            old(self).wf(),
            now <= MAX_TIME,
        ensures
            final(self)@ == resize_spec(old(self)@, ball_type, now),
            final(self).wf(),
            same_settings(final(self), old(self)),
    {
        let n = self.score_areas.len();
        let mut areas: Vec<ScoreArea> = Vec::with_capacity(n);
        let mut k: usize = 0;
        while k < n
            invariant
                n == self.score_areas@.len(),
                k <= n,
                areas@.len() == k,
                forall|m: int|
                    0 <= m < k ==> areas@[m] == resize_area(self.score_areas@[m], ball_type, now),
                now <= MAX_TIME,
            decreases n - k,
        {
            areas.push(resize_one(self.score_areas[k], ball_type, now));
            k += 1;
        }
        self.score_areas = areas;
        self.outbox.push(Action::Play(Cue::Resize));
        assert(self@.score_areas =~= resize_spec(old(self)@, ball_type, now).score_areas);
    }

    /// Ball `i` hit a duplicate side: see `duplicate_spec`.
    pub fn duplicate(&mut self, i: usize, now: u64)
        requires
            old(self).wf(),
            i < old(self).balls@.len(),
            now <= MAX_TIME,
            old(self).next_ball_id < u64::MAX,
        ensures
            final(self)@ == duplicate_spec(old(self)@, i as int, now),
            final(self).wf(),
            same_settings(final(self), old(self)),
    {
        let ball = self.balls[i];
        if ball.duplicate_cooldown.is_some() {
            return;
        }
        let cooldown_end = now + DUPLICATE_COOLDOWN_DURATION;
        let copy = Ball {
            id: self.next_ball_id,
            ball_type: ball.ball_type,
            points: 1,
            extra_points: ball.extra_points,
            velocity: ball.velocity,
            frozen: None,
            duplicate_cooldown: Some(cooldown_end),
        };
        self.balls.set(i, Ball { duplicate_cooldown: Some(cooldown_end), ..ball });
        self.balls.push(copy);
        self.next_ball_id = self.next_ball_id + 1;
        self.outbox.push(Action::SpawnDuplicate { source: ball.id, copy: copy.id });
        self.outbox.push(Action::Play(Cue::Duplicate));
        assert(self@.outbox =~= duplicate_spec(old(self)@, i as int, now).outbox);
        assert(self@.balls =~= duplicate_spec(old(self)@, i as int, now).balls);
    }

    /// Ball `i` hit an extra-points side: see `extra_points_spec`.
    pub fn extra_points(&mut self, i: usize)
        requires
            old(self).wf(),
            i < old(self).balls@.len(),
        ensures
            final(self)@ == extra_points_spec(old(self)@, i as int),
            final(self).wf(),
            same_settings(final(self), old(self)),
    {
        let ball = self.balls[i];
        self.balls.set(i, Ball { points: 2, extra_points: true, ..ball });
        self.outbox.push(Action::Play(Cue::ExtraPoints));
    }

    /// Applies the effect of side `side_id`, which carries `side_type`, to
    /// ball `i`: see `side_effect_spec`.
    pub fn add_side_effect(&mut self, i: usize, side_type: SideType, side_id: SideId, now: u64)
        requires
            old(self).wf(),
            i < old(self).balls@.len(),
            now <= MAX_TIME,
            old(self).next_ball_id < u64::MAX,
        ensures
            final(self)@ == side_effect_spec(old(self)@, i as int, side_type, side_id, now),
            final(self).wf(),
            same_settings(final(self), old(self)),
    {
        let ball = self.balls[i];
        match side_type {
            SideType::NothingSpecial => {},
            SideType::SpeedUp => {
                self.outbox.push(Action::Play(Cue::Up));
            },
            SideType::FreezeOthers => {
                self.freeze_others(i, now);
            },
            SideType::BounceBackwards => {
                self.outbox.push(
                    Action::BounceBackwards {
                        ball: ball.id,
                        side_hit: side_id,
                        opposite_side: side_id.opposite_side(),
                    },
                );
                self.outbox.push(Action::Play(Cue::Boop));
                assert(self@.outbox =~= side_effect_spec(
                    old(self)@,
                    i as int,
                    side_type,
                    side_id,
                    now,
                ).outbox);
            },
            SideType::Destroy => {
                self.entities_to_despawn.push(ball.id);
                self.outbox.push(Action::Play(Cue::Explode));
            },
            SideType::Duplicate => {
                self.duplicate(i, now);
            },
            SideType::ResizeScoreAreas => {
                self.resize_score_areas(ball.ball_type, now);
            },
            SideType::ExtremeBounce => {
                self.outbox.push(Action::Play(Cue::UpMore));
            },
            SideType::ExtraPoints => {
                self.extra_points(i);
            },
        }
    }

    /// Handles one collision: see `step`.
    pub fn handle_collision(&mut self, event: &CollisionEvent, now: u64)
        requires
            old(self).wf(),
            now <= MAX_TIME,
            old(self).next_ball_id < u64::MAX,
            i32::MIN + 2 <= old(self).score.0 <= i32::MAX - 2,
        ensures
            final(self)@ == step(old(self)@, *event, now),
            final(self).wf(),
            same_settings(final(self), old(self)),
            old(self).score.0 - 2 <= final(self).score.0 <= old(self).score.0 + 2,
            final(self).next_ball_id <= old(self).next_ball_id + 1,
    {
        match self.ball_in_collision(event) {
            None => {},
            Some(i) => {
                let ball = self.balls[i];
                if self.is_queued_for_despawn(ball.id) {
                    // this ball is going to be despawned, so don't mess with it any more
                    return;
                }
                self.balls.set(i, Ball { frozen: None, ..ball });
                match self.score_area_in_collision(event) {
                    Some(k) => {
                        self.score_ball(i, k);
                    },
                    None => {
                        self.outbox.push(Action::Play(Cue::Hit));
                        match side_in_collision(event) {
                            Some((side_id, side_type)) => {
                                self.add_side_effect(i, side_type, side_id, now);
                            },
                            None => {},
                        }
                    },
                }
            },
        }
    }

    /// Handles a batch of collisions in order: see `steps`.
    pub fn collisions(&mut self, events: &Vec<CollisionEvent>, now: u64)
        requires
            old(self).wf(),
            now <= MAX_TIME,
            old(self).next_ball_id + events@.len() < u64::MAX,
            i32::MIN + 2 * events@.len() <= old(self).score.0 <= i32::MAX - 2 * events@.len(),
        ensures
            final(self)@ == steps(old(self)@, events@, now),
            final(self).wf(),
            same_settings(final(self), old(self)),
    {
        let mut j: usize = 0;
        while j < events.len()
            invariant
                j <= events@.len(),
                self.wf(),
                now <= MAX_TIME,
                same_settings(self, old(self)),
                self@ == steps(old(self)@, events@.take(j as int), now),
                self.next_ball_id <= old(self).next_ball_id + j,
                old(self).next_ball_id + events@.len() < u64::MAX,
                old(self).score.0 - 2 * j <= self.score.0 <= old(self).score.0 + 2 * j,
                i32::MIN + 2 * events@.len() <= old(self).score.0 <= i32::MAX - 2
                    * events@.len(),
            decreases events@.len() - j,
        {
            self.handle_collision(&events[j], now);
            assert(events@.take(j as int + 1).drop_last() =~= events@.take(j as int));
            j += 1;
        }
        assert(events@.take(events@.len() as int) =~= events@);
    }
    /// Starts an attempt at `level` at time `now`: score zero, no balls,
    /// the score areas of the level's ball types, the first ball due at
    /// once, and the level ending `level.duration` after `now`.
    pub fn start(level: LevelSettings, now: u64) -> (r: LevelSession<V>)
        requires
            level.wf(),
            now <= MAX_TIME,
        ensures
            r.wf(),
            r.level == level,
            r.score == Score(0),
            r@.balls == Seq::<Ball<V>>::empty(),
            r@.score_areas == start_areas(&level),
            r@.despawn == Seq::<u64>::empty(),
            r@.outbox == Seq::<Action<V>>::empty(),
            r.next_ball_id == 0,
            r.level_end_time == now + level.duration,
            r.spawner == Spawner::new_spec(now),
    {
        let mut score_areas: Vec<ScoreArea> = Vec::new();
        score_areas.push(ScoreArea { target: BallType::A, radius: SCORE_AREA_SIZE, resized: None });
        if level.type_b_active {
            score_areas.push(ScoreArea { target: BallType::B, radius: SCORE_AREA_SIZE, resized: None });
        }
        score_areas.push(ScoreArea { target: BallType::C, radius: SCORE_AREA_SIZE, resized: None });
        if level.type_d_active {
            score_areas.push(ScoreArea { target: BallType::D, radius: SCORE_AREA_SIZE, resized: None });
        }
        assert(score_areas@ =~= start_areas(&level));
        let level_end_time = now + level.duration;
        LevelSession {
            level,
            balls: Vec::new(),
            score_areas,
            score: Score(0),
            entities_to_despawn: Vec::new(),
            level_end_time,
            spawner: Spawner::new(now),
            next_ball_id: 0,
            outbox: Vec::new(),
        }
    }

    /// Releases every ball whose freeze has expired: see `unfreeze_spec`.
    pub fn unfreeze_entities(&mut self, now: u64)
        requires
            old(self).wf(),
        ensures
            final(self)@ == unfreeze_spec(old(self)@, now),
            final(self).wf(),
            same_settings(final(self), old(self)),
    {
        let n = self.balls.len();
        let mut balls: Vec<Ball<V>> = Vec::with_capacity(n);
        let mut j: usize = 0;
        while j < n
            invariant
                n == self.balls@.len(),
                j <= n,
                balls@.len() == j,
                forall|m: int| 0 <= m < j ==> balls@[m] == thaw_ball(self.balls@[m], now),
                self.outbox@ == old(self).outbox@ + thaw_actions(self.balls@.take(j as int), now),
                self.balls@ == old(self).balls@,
                self.wf(),
                same_settings(self, old(self)),
                self.score_areas@ == old(self).score_areas@,
                self.score == old(self).score,
                self.entities_to_despawn@ == old(self).entities_to_despawn@,
                self.next_ball_id == old(self).next_ball_id,
            decreases n - j,
        {
            let b = self.balls[j];
            proof {
                assert(self.balls@.take(j as int + 1).drop_last() =~= self.balls@.take(j as int));
            }
            if let Some(f) = b.frozen {
                if now > f.unfreeze_at {
                    self.outbox.push(
                        Action::RestoreVelocity { ball: b.id, velocity: f.original_velocity },
                    );
                }
            }
            balls.push(thaw_one(b, now));
            proof {
                assert(self.outbox@ =~= old(self).outbox@ + thaw_actions(
                    self.balls@.take(j as int + 1),
                    now,
                ));
            }
            j += 1;
        }
        proof {
            assert(self.balls@.take(n as int) =~= self.balls@);
            assert(balls@ =~= unfreeze_spec(old(self)@, now).balls);
        }
        self.balls = balls;
    }

    /// Returns every score area whose resize has expired to its original
    /// size: see `unresize_spec`.
    pub fn unresize_entities(&mut self, now: u64)
        requires
            old(self).wf(),
        ensures
            final(self)@ == unresize_spec(old(self)@, now),
            final(self).wf(),
            same_settings(final(self), old(self)),
    {
        let n = self.score_areas.len();
        let mut areas: Vec<ScoreArea> = Vec::with_capacity(n);
        let mut k: usize = 0;
        while k < n
            invariant
                n == self.score_areas@.len(),
                k <= n,
                areas@.len() == k,
                forall|m: int| 0 <= m < k ==> areas@[m] == restore_area(self.score_areas@[m], now),
            decreases n - k,
        {
            areas.push(restore_one(self.score_areas[k], now));
            k += 1;
        }
        assert(areas@ =~= unresize_spec(old(self)@, now).score_areas);
        self.score_areas = areas;
    }

    /// Drops every expired duplicate cooldown: see `cooldown_spec`.
    pub fn remove_duplicate_cooldown(&mut self, now: u64)
        requires
            old(self).wf(),
        ensures
            final(self)@ == cooldown_spec(old(self)@, now),
            final(self).wf(),
            same_settings(final(self), old(self)),
    {
        let n = self.balls.len();
        let mut balls: Vec<Ball<V>> = Vec::with_capacity(n);
        let mut j: usize = 0;
        while j < n
            invariant
                n == self.balls@.len(),
                j <= n,
                balls@.len() == j,
                forall|m: int| 0 <= m < j ==> balls@[m] == cool_ball(self.balls@[m], now),
            decreases n - j,
        {
            balls.push(cool_one(self.balls[j], now));
            j += 1;
        }
        assert(balls@ =~= cooldown_spec(old(self)@, now).balls);
        self.balls = balls;
    }

    /// Removes the balls queued for removal and returns their identities,
    /// in the order they were queued.
    pub fn despawn_entities(&mut self) -> (r: Vec<u64>)
        requires
            old(self).wf(),
        ensures
            r@ == old(self).entities_to_despawn@,
            final(self)@ == despawn_spec(old(self)@),
            final(self).wf(),
            same_settings(final(self), old(self)),
    {
        let n = self.balls.len();
        let mut balls: Vec<Ball<V>> = Vec::new();
        let mut j: usize = 0;
        while j < n
            invariant
                n == self.balls@.len(),
                j <= n,
                balls@ == survivors(self.balls@.take(j as int), self.entities_to_despawn@),
                balls_wf(self.balls@, self.next_ball_id as int),
                balls_wf(balls@, self.next_ball_id as int),
                forall|m: int, k: int|
                    0 <= m < balls@.len() && j <= k < n ==> #[trigger] balls@[m].id
                        != #[trigger] self.balls@[k].id,
            decreases n - j,
        {
            let b = self.balls[j];
            proof {
                assert(self.balls@.take(j as int + 1).drop_last() =~= self.balls@.take(j as int));
                assert(self.balls@.take(j as int + 1).last() == b);
            }
            if !contains_id(&self.entities_to_despawn, b.id) {
                balls.push(b);
            }
            j += 1;
        }
        assert(self.balls@.take(n as int) =~= self.balls@);
        self.balls = balls;
        let mut queued: Vec<u64> = Vec::new();
        std::mem::swap(&mut queued, &mut self.entities_to_despawn);
        queued
    }

    /// Adds a ball drawn as `order`, at rest, and asks the engine to launch it.
    pub fn place_ball(&mut self, order: SpawnOrder, at_rest: V)
        requires
            old(self).wf(),
            old(self).next_ball_id < u64::MAX,
        ensures
            final(self)@ == place_spec(old(self)@, order, at_rest),
            final(self).wf(),
            same_settings(final(self), old(self)),
    {
        let id = self.next_ball_id;
        self.balls.push(Ball::new(id, order.ball_type, at_rest));
        self.next_ball_id = id + 1;
        self.outbox.push(
            Action::Launch {
                ball: id,
                ball_type: order.ball_type,
                x: order.x,
                y: order.y,
                impulse_x: order.impulse_x,
                impulse_y: order.impulse_y,
            },
        );
        self.outbox.push(Action::Play(Cue::Launch));
        assert(self@.outbox =~= place_spec(old(self)@, order, at_rest).outbox);
    }

    /// Runs the spawner at time `now`; when a ball is due, draws its type
    /// among the level's types and its spawn point among the level's, and
    /// places it. Returns whether a ball was spawned.
    pub fn spawn_balls(&mut self, now: u64, at_rest: V) -> (r: bool)
        requires
            old(self).wf(),
            now <= MAX_TIME,
            old(self).next_ball_id < u64::MAX,
        ensures
            final(self).wf(),
            final(self).level == old(self).level,
            final(self).level_end_time == old(self).level_end_time,
            (final(self).spawner, r) == spawner_tick_spec(
                old(self).spawner,
                old(self).balls@.len() == 0,
                now,
                &old(self).level,
            ),
            r ==> exists|order: SpawnOrder|
                level_ball_types(&old(self).level).contains(order.ball_type)
                    && old(self).level.spawn_points@.contains(order.spawn_point)
                    && order_within_point(order)
                    && final(self)@ == place_spec(old(self)@, order, at_rest),
            !r ==> final(self)@ == old(self)@,
    {
        let no_balls_live = self.balls.len() == 0;
        if self.spawner.tick(no_balls_live, now, &self.level) {
            let order = spawn_random_ball(&self.level);
            assert(self@ == old(self)@);
            self.place_ball(order, at_rest);
            assert(level_ball_types(&old(self).level).contains(order.ball_type));
            assert(old(self).level.spawn_points@.contains(order.spawn_point));
            assert(order_within_point(order));
            true
        } else {
            false
        }
    }

    /// Runs one tick at `now` after the spawner: handles the collision
    /// batch, then releases expired freezes, resizes and cooldowns (see
    /// `tick_spec`). Returns whether the level's time is up; the balls
    /// queued for removal stay queued for `despawn_entities`.
    pub fn tick(&mut self, events: &Vec<CollisionEvent>, now: u64) -> (r: bool)
        requires
            old(self).wf(),
            now <= MAX_TIME,
            old(self).next_ball_id + events@.len() < u64::MAX,
            i32::MIN + 2 * events@.len() <= old(self).score.0 <= i32::MAX - 2 * events@.len(),
        ensures
            final(self)@ == tick_spec(old(self)@, events@, now),
            r == (now >= old(self).level_end_time),
            final(self).wf(),
            same_settings(final(self), old(self)),
    {
        self.collisions(events, now);
        self.unfreeze_entities(now);
        self.unresize_entities(now);
        self.remove_duplicate_cooldown(now);
        self.end_level(now)
    }

    /// The level's time is up at `now`.
    pub fn end_level(&self, now: u64) -> (r: bool)
        ensures
            r == (now >= self.level_end_time),
    {
        now >= self.level_end_time
    }

    /// Time left in the level at `now`, zero once it is up.
    pub fn time_left(&self, now: u64) -> (r: u64)
        ensures
            r == if self.level_end_time > now {
                self.level_end_time - now
            } else {
                0
            },
    {
        if self.level_end_time > now {
            self.level_end_time - now
        } else {
            0
        }
    }

    /// Hands the pending actions to the engine, oldest first, and clears them.
    pub fn take_actions(&mut self) -> (r: Vec<Action<V>>)
        ensures
            r@ == old(self).outbox@,
            final(self)@ == (SessionView { outbox: Seq::empty(), ..old(self)@ }),
            same_settings(final(self), old(self)),
            old(self).wf() ==> final(self).wf(),
    {
        let mut actions: Vec<Action<V>> = Vec::new();
        std::mem::swap(&mut actions, &mut self.outbox);
        actions
    }
}


/// Freezing a ball twice before its first freeze expires sets its deadline
/// to the second freeze's time plus the freeze duration, and the velocity it
/// moves with once that deadline has passed is the one it had before the
/// first freeze.
pub proof fn lemma_refreeze_extends<V>(
    v: SessionView<V>,
    j: int,
    first: int,
    second: int,
    t1: u64,
    t2: u64,
    t3: u64,
)
    requires
        0 <= j < v.balls.len(),
        0 <= first < v.balls.len(),
        0 <= second < v.balls.len(),
        j != first,
        j != second,
        v.balls[j].frozen is None,
        t1 <= t2 <= t1 + FREEZE_DURATION,
        t2 <= MAX_TIME,
        t3 > t2 + FREEZE_DURATION,
    ensures
        freeze_others_spec(freeze_others_spec(v, first, t1), second, t2).balls[j].frozen == Some(
            Frozen {
                unfreeze_at: (t2 + FREEZE_DURATION) as u64,
                original_velocity: v.balls[j].velocity,
            },
        ),
        unfreeze_spec(freeze_others_spec(freeze_others_spec(v, first, t1), second, t2), t3).balls[j]
            == (Ball { frozen: None, ..v.balls[j] }),
{
}

/// Resizing the score areas twice before the first resize expires leaves
/// them exactly as the second resize alone would: sized for the second
/// ball's type, with the second resize's deadline.
pub proof fn lemma_reresize_resets<V>(v: SessionView<V>, t1: BallType, t2: BallType, n1: u64, n2: u64)
    requires
        n1 <= n2 <= n1 + SCORE_AREA_RESIZE_DURATION,
        n2 <= MAX_TIME,
    ensures
        resize_spec(resize_spec(v, t1, n1), t2, n2).score_areas == resize_spec(v, t2, n2).score_areas,
        forall|k: int|
            0 <= k < v.score_areas.len() ==> {
                let a = #[trigger] resize_spec(resize_spec(v, t1, n1), t2, n2).score_areas[k];
                &&& a.radius == if v.score_areas[k].target == t2 {
                    SCORE_AREA_SIZE + SCORE_AREA_RESIZE_AMOUNT
                } else {
                    SCORE_AREA_SIZE - SCORE_AREA_RESIZE_AMOUNT
                }
                &&& a.resized == Some(
                    Resized {
                        unresize_at: (n2 + SCORE_AREA_RESIZE_DURATION) as u64,
                        original_radius: SCORE_AREA_SIZE,
                        penalty_disabled: true,
                    },
                )
            },
{
    assert(resize_spec(resize_spec(v, t1, n1), t2, n2).score_areas =~= resize_spec(
        v,
        t2,
        n2,
    ).score_areas);
}

/// While a score area waives penalties, a wrong-type ball entering it leaves
/// the score as it was, and a matching ball adds its points.
pub proof fn lemma_waived_area_scoring<V>(v: SessionView<V>, i: int, k: int)
    requires
        0 <= i < v.balls.len(),
        0 <= k < v.score_areas.len(),
        penalty_waived(v.score_areas[k]),
    ensures
        v.balls[i].ball_type != v.score_areas[k].target ==> score_spec(v, i, k).score == v.score,
        v.balls[i].ball_type == v.score_areas[k].target ==> score_spec(v, i, k).score == v.score
            + v.balls[i].points,
{
}

/// Two wrong-type balls entering the same penalty-waiving score area one
/// after the other leave the score as it was.
pub proof fn lemma_waived_area_twice<V>(v: SessionView<V>, i1: int, i2: int, k: int)
    requires
        0 <= i1 < v.balls.len(),
        0 <= i2 < v.balls.len(),
        0 <= k < v.score_areas.len(),
        penalty_waived(v.score_areas[k]),
        v.balls[i1].ball_type != v.score_areas[k].target,
        v.balls[i2].ball_type != v.score_areas[k].target,
    ensures
        score_spec(score_spec(v, i1, k), i2, k).score == v.score,
{
}

/// The duplicate effect on a ball that is on cooldown changes nothing: no
/// new ball, no cue, no other change.
pub proof fn lemma_duplicate_on_cooldown<V>(v: SessionView<V>, i: int, side_id: SideId, now: u64)
    requires
        0 <= i < v.balls.len(),
        v.balls[i].duplicate_cooldown is Some,
    ensures
        side_effect_spec(v, i, SideType::Duplicate, side_id, now) == v,
{
}

/// A copy made from a ball that carries the extra-points upgrade carries it
/// too, while being worth one point.
pub proof fn lemma_duplicate_carries_extra_points<V>(v: SessionView<V>, i: int, now: u64)
    requires
        0 <= i < v.balls.len(),
        v.balls[i].duplicate_cooldown is None,
        v.balls[i].extra_points,
    ensures
        duplicate_spec(v, i, now).balls.len() == v.balls.len() + 1,
        duplicate_spec(v, i, now).balls.last().extra_points,
        duplicate_spec(v, i, now).balls.last().points == 1,
        duplicate_spec(v, i, now).balls.last().ball_type == v.balls[i].ball_type,
{
}

proof fn lemma_find_ball_at<V>(balls: Seq<Ball<V>>, next_ball_id: int, i: int)
    requires
        balls_wf(balls, next_ball_id),
        0 <= i < balls.len(),
    ensures
        find_ball(balls, balls[i].id) == Some(i),
{
    let id = balls[i].id;
    assert(exists|j: int| 0 <= j < balls.len() && balls[j].id == id);
    let c = choose|j: int| 0 <= j < balls.len() && balls[j].id == id;
    if c != i {
        assert(balls[c].id != balls[i].id);
    }
}

/// Two wrong-type balls that enter the same penalty-waiving score area in
/// one batch of collisions, one after the other, leave the score as it was
/// and stay in play.
pub proof fn lemma_waived_area_batch<V>(v: SessionView<V>, i1: int, i2: int, k: usize, now: u64)
    requires
        balls_wf(v.balls, v.next_ball_id),
        0 <= i1 < v.balls.len(),
        0 <= i2 < v.balls.len(),
        k < v.score_areas.len(),
        penalty_waived(v.score_areas[k as int]),
        v.balls[i1].ball_type != v.score_areas[k as int].target,
        v.balls[i2].ball_type != v.score_areas[k as int].target,
    ensures
        ({
            let events = seq![
                CollisionEvent { a: Body::Ball(v.balls[i1].id), b: Body::ScoreArea(k) },
                CollisionEvent { a: Body::Ball(v.balls[i2].id), b: Body::ScoreArea(k) },
            ];
            &&& steps(v, events, now).score == v.score
            &&& steps(v, events, now).despawn == v.despawn
        }),
{
    let e1 = CollisionEvent { a: Body::Ball(v.balls[i1].id), b: Body::ScoreArea(k) };
    let e2 = CollisionEvent { a: Body::Ball(v.balls[i2].id), b: Body::ScoreArea(k) };
    let events = seq![e1, e2];
    reveal_with_fuel(steps, 3);
    assert(events.drop_last() =~= seq![e1]);
    assert(seq![e1].drop_last() =~= Seq::<CollisionEvent>::empty());
    lemma_find_ball_at(v.balls, v.next_ball_id, i1);
    assert(event_ball(v.balls, e1) == Some(i1));
    assert(event_area(v.score_areas, e1) == Some(k as int));
    let v1 = step(v, e1, now);
    assert(steps(v, seq![e1], now) == v1);
    assert(v1.score == v.score && v1.despawn == v.despawn && v1.score_areas == v.score_areas);
    assert(v1.balls.len() == v.balls.len());
    assert forall|j: int| 0 <= j < v1.balls.len() implies #[trigger] v1.balls[j].id == v.balls[j].id
        && v1.balls[j].ball_type == v.balls[j].ball_type && v1.balls[j].points == v.balls[j].points by {
    }
    assert(balls_wf(v1.balls, v1.next_ball_id)) by {
        assert forall|a: int, b: int|
            0 <= a < v1.balls.len() && 0 <= b < v1.balls.len() && a != b implies #[trigger] v1.balls[a].id
            != #[trigger] v1.balls[b].id by {
            assert(v.balls[a].id != v.balls[b].id);
        }
    }
    lemma_find_ball_at(v1.balls, v1.next_ball_id, i2);
    assert(event_ball(v1.balls, e2) == Some(i2));
    assert(event_area(v1.score_areas, e2) == Some(k as int));
    assert(steps(v, events, now) == step(v1, e2, now));
}

} // verus!
