//! The sides of the player's polygon, the effect each side carries, and the
//! configuration of which effect sits on which side.

use vstd::prelude::*;

verus! {

/// Number of sides of the player's polygon.
pub const PLAYER_SHAPE_SIDES: usize = 4;

/// Identity of one side of the player's polygon, in `0..PLAYER_SHAPE_SIDES`.
#[derive(PartialEq, Eq, Structural, Clone, Copy, Debug, Hash)]
pub struct SideId(pub usize);

/// The side half-way round the polygon from `id`.
pub open spec fn opposite_side_spec(id: SideId) -> SideId {
    let n = PLAYER_SHAPE_SIDES as int;
    SideId(((id.0 as int % n + n / 2) % n) as usize)
}

impl SideId {
    /// Finds the ID of the side opposite this one.
    pub fn opposite_side(&self) -> (r: SideId)
        ensures
            r == opposite_side_spec(*self),
            self.0 < PLAYER_SHAPE_SIDES ==> r.0 == (self.0 + PLAYER_SHAPE_SIDES / 2) % (
            PLAYER_SHAPE_SIDES as int),
            r.0 < PLAYER_SHAPE_SIDES,
    {
        SideId((self.0 % PLAYER_SHAPE_SIDES + (PLAYER_SHAPE_SIDES / 2)) % PLAYER_SHAPE_SIDES)
    }
}

/// The gameplay effect a side applies to balls that hit it.
#[derive(PartialEq, Eq, Structural, Clone, Copy, Debug, Hash)]
pub enum SideType {
    NothingSpecial,
    SpeedUp,
    FreezeOthers,
    BounceBackwards,
    Destroy,
    Duplicate,
    ResizeScoreAreas,
    ExtremeBounce,
    ExtraPoints,
}

/// Whether a side type may sit on more than one side at once.
pub open spec fn multiple_allowed_spec(t: SideType) -> bool {
    t == SideType::NothingSpecial
}

/// Restitution of a side type in hundredths: bouncy and extreme sides send
/// balls off faster than they came, destroy sides absorb them.
pub open spec fn side_restitution(t: SideType) -> u32 {
    match t {
        SideType::NothingSpecial => 33,
        SideType::SpeedUp => 200,
        SideType::FreezeOthers => 10,
        SideType::BounceBackwards => 10,
        SideType::Destroy => 0,
        SideType::Duplicate => 50,
        SideType::ResizeScoreAreas => 50,
        SideType::ExtremeBounce => 500,
        SideType::ExtraPoints => 33,
    }
}

/// Display name of a side type.
pub open spec fn side_name(t: SideType) -> Seq<char> {
    match t {
        SideType::NothingSpecial => "Regular"@,
        SideType::SpeedUp => "Bouncy"@,
        SideType::FreezeOthers => "Freeze"@,
        SideType::BounceBackwards => "Bounce Backwards"@,
        SideType::Destroy => "Destroy"@,
        SideType::Duplicate => "Duplicate"@,
        SideType::ResizeScoreAreas => "Resize"@,
        SideType::ExtremeBounce => "EXTREME BOUNCE"@,
        SideType::ExtraPoints => "Importantize"@,
    }
}

/// Description of a side type, as shown to the player.
pub open spec fn side_description(t: SideType) -> Seq<char> {
    match t {
        SideType::NothingSpecial => "Balls bounce off of it"@,
        SideType::SpeedUp => "Bounces balls real fast"@,
        SideType::FreezeOthers => "Temporarily freezes all balls other than the one that hit it"@,
        SideType::BounceBackwards => "Bounces balls backwards out the other side"@,
        SideType::Destroy => "Destroys balls that hit it"@,
        SideType::Duplicate => "Duplicates balls that hit it"@,
        SideType::ResizeScoreAreas => "Temporarily increases the size of the score area matching the ball that hit it, decreases the size of other score areas, and prevents incorrect scores from occurring"@,
        SideType::ExtremeBounce => "Contains the maximum bounciness allowed by the FDA"@,
        SideType::ExtraPoints => "Makes balls that hit it worth 1 additional point (don't get too excited, the effect can only be applied once per ball)"@,
    }
}

impl SideType {
    /// Gets the name of this side.
    pub fn name(&self) -> (r: &'static str)
        ensures
            r@ == side_name(*self),
    {
        match self {
            SideType::NothingSpecial => "Regular",
            SideType::SpeedUp => "Bouncy",
            SideType::FreezeOthers => "Freeze",
            SideType::BounceBackwards => "Bounce Backwards",
            SideType::Destroy => "Destroy",
            SideType::Duplicate => "Duplicate",
            SideType::ResizeScoreAreas => "Resize",
            SideType::ExtremeBounce => "EXTREME BOUNCE",
            SideType::ExtraPoints => "Importantize",
        }
    }

    /// Gets the description of this side.
    pub fn description(&self) -> (r: &'static str)
        ensures
            r@ == side_description(*self),
    {
        match self {
            SideType::NothingSpecial => "Balls bounce off of it",
            SideType::SpeedUp => "Bounces balls real fast",
            SideType::FreezeOthers => "Temporarily freezes all balls other than the one that hit it",
            SideType::BounceBackwards => "Bounces balls backwards out the other side",
            SideType::Destroy => "Destroys balls that hit it",
            SideType::Duplicate => "Duplicates balls that hit it",
            SideType::ResizeScoreAreas => "Temporarily increases the size of the score area matching the ball that hit it, decreases the size of other score areas, and prevents incorrect scores from occurring",
            SideType::ExtremeBounce => "Contains the maximum bounciness allowed by the FDA",
            SideType::ExtraPoints => "Makes balls that hit it worth 1 additional point (don't get too excited, the effect can only be applied once per ball)",
        }
    }

    /// Bounciness of a side of this type, in hundredths of the physics
    /// engine's restitution coefficient.
    pub fn restitution_hundredths(&self) -> (r: u32)
        ensures
            r == side_restitution(*self),
    {
        match self {
            SideType::NothingSpecial => 33,
            SideType::SpeedUp => 200,
            SideType::FreezeOthers => 10,
            SideType::BounceBackwards => 10,
            SideType::Destroy => 0,
            SideType::Duplicate => 50,
            SideType::ResizeScoreAreas => 50,
            SideType::ExtremeBounce => 500,
            SideType::ExtraPoints => 33,
        }
    }

    /// Determines whether this side type can appear on several sides of the player at once.
    pub fn multiple_allowed(&self) -> (r: bool)
        ensures
            r == multiple_allowed_spec(*self),
    {
        matches!(self, SideType::NothingSpecial)
    }
}

/// Some side other than `id` holds side type `t`.
pub open spec fn taken_elsewhere(sides: Seq<SideType>, t: SideType, id: int) -> bool {
    exists|j: int| 0 <= j < sides.len() && j != id && sides[j] == t
}

/// Side type `t` may be put on side `id`: it is shared, or no other side holds it.
pub open spec fn selectable(sides: Seq<SideType>, t: SideType, id: int) -> bool {
    multiple_allowed_spec(t) || !taken_elsewhere(sides, t, id)
}

/// No exclusive side type sits on two sides.
pub open spec fn exclusive_respected(sides: Seq<SideType>) -> bool {
    forall|i: int, j: int|
        0 <= i < sides.len() && 0 <= j < sides.len() && i != j && #[trigger] sides[i]
            == #[trigger] sides[j] ==> multiple_allowed_spec(sides[i])
}

/// Which side type sits on each side of the player's polygon; entry `i` is
/// the type of side `SideId(i)`.
pub struct ConfiguredSides {
    sides: Vec<SideType>,
}

impl View for ConfiguredSides {
    type V = Seq<SideType>;

    closed spec fn view(&self) -> Seq<SideType> {
        self.sides@
    }
}

impl ConfiguredSides {
    /// Every side has exactly one configured type.
    pub open spec fn wf(&self) -> bool {
        self@.len() == PLAYER_SHAPE_SIDES
    }

    /// The configuration a new game starts with: one bouncy side, the rest regular.
    pub fn new() -> (r: ConfiguredSides)
        ensures
            r.wf(),
            r@ == seq![
                SideType::SpeedUp,
                SideType::NothingSpecial,
                SideType::NothingSpecial,
                SideType::NothingSpecial,
            ],
            exclusive_respected(r@),
    {
        let sides = vec![
            SideType::SpeedUp,
            SideType::NothingSpecial,
            SideType::NothingSpecial,
            SideType::NothingSpecial,
        ];
        let r = ConfiguredSides { sides };
        assert(r@ =~= seq![
            SideType::SpeedUp,
            SideType::NothingSpecial,
            SideType::NothingSpecial,
            SideType::NothingSpecial,
        ]);
        r
    }

    /// Gets the type of the side with the provided ID.
    pub fn get(&self, side_id: &SideId) -> (r: SideType)
        requires
            self.wf(),
            side_id.0 < PLAYER_SHAPE_SIDES,
        ensures
            r == self@[side_id.0 as int],
    {
        self.sides[side_id.0]
    }

    /// Puts `side_type` on side `side_id`, unless that type is exclusive and
    /// another side already holds it; returns whether the change was made.
    pub fn configure(&mut self, side_id: SideId, side_type: SideType) -> (r: bool)
        requires
            old(self).wf(),
            side_id.0 < PLAYER_SHAPE_SIDES,
        ensures
            final(self).wf(),
            r == selectable(old(self)@, side_type, side_id.0 as int),
            r ==> final(self)@ == old(self)@.update(side_id.0 as int, side_type),
            !r ==> final(self)@ == old(self)@,
            exclusive_respected(old(self)@) ==> exclusive_respected(final(self)@),
    {
        if can_side_be_selected(&side_type, &side_id, self) {
            self.sides.set(side_id.0, side_type);
            proof {
                let s = self@;
                assert forall|i: int, j: int|
                    0 <= i < s.len() && 0 <= j < s.len() && i != j && #[trigger] s[i]
                        == #[trigger] s[j] && exclusive_respected(old(self)@)
                        implies multiple_allowed_spec(s[i]) by {
                    if i == side_id.0 {
                        assert(old(self)@[j] == side_type);
                    } else if j == side_id.0 {
                        assert(old(self)@[i] == side_type);
                    } else {
                        assert(old(self)@[i] == old(self)@[j]);
                    }
                }
            }
            true
        } else {
            false
        }
    }
}

/// Determines whether `side_type` can be chosen for side `side_id`, given the
/// other configured sides.
pub fn can_side_be_selected(
    side_type: &SideType,
    side_id: &SideId,
    configured_sides: &ConfiguredSides,
) -> (r: bool)
    requires
        configured_sides.wf(),
    ensures
        r == selectable(configured_sides@, *side_type, side_id.0 as int),
        *side_type == SideType::NothingSpecial ==> r,
        !r <==> (!multiple_allowed_spec(*side_type) && taken_elsewhere(
            configured_sides@,
            *side_type,
            side_id.0 as int,
        )),
{
    if !side_type.multiple_allowed() {
        let mut i: usize = 0;
        while i < PLAYER_SHAPE_SIDES
            invariant
                configured_sides.wf(),
                !multiple_allowed_spec(*side_type),
                i <= PLAYER_SHAPE_SIDES,
                forall|j: int|
                    0 <= j < i && j != side_id.0 ==> configured_sides@[j] != *side_type,
            decreases PLAYER_SHAPE_SIDES - i,
        {
            if i != side_id.0 && configured_sides.sides[i] == *side_type {
                assert(configured_sides@[i as int] == *side_type);
                return false;
            }
            i += 1;
        }
    }
    true
}

/// The side types the player has unlocked so far, in the order they were unlocked.
pub struct UnlockedSides(pub Vec<SideType>);

/// The unlocked list after adding each of `new`, in order, unless already present.
pub open spec fn unlock_spec(current: Seq<SideType>, new: Seq<SideType>) -> Seq<SideType>
    decreases new.len(),
{
    if new.len() == 0 {
        current
    } else {
        let before = unlock_spec(current, new.drop_last());
        if before.contains(new.last()) {
            before
        } else {
            before.push(new.last())
        }
    }
}

proof fn lemma_unlock_contents(current: Seq<SideType>, new: Seq<SideType>)
    ensures
        forall|t: SideType|
            #[trigger] unlock_spec(current, new).contains(t) <==> (current.contains(t)
                || new.contains(t)),
        current.no_duplicates() ==> unlock_spec(current, new).no_duplicates(),
        current.len() <= unlock_spec(current, new).len(),
        unlock_spec(current, new).subrange(0, current.len() as int) == current,
    decreases new.len(),
{
    if new.len() > 0 {
        let rest = new.drop_last();
        lemma_unlock_contents(current, rest);
        let before = unlock_spec(current, rest);
        assert forall|t: SideType| #[trigger] new.contains(t) <==> (rest.contains(t) || t == new.last()) by {
            if new.contains(t) {
                let k = choose|k: int| 0 <= k < new.len() && new[k] == t;
                if k < new.len() - 1 {
                    assert(rest[k] == t);
                }
            }
            if rest.contains(t) {
                let k = choose|k: int| 0 <= k < rest.len() && rest[k] == t;
                assert(new[k] == t);
            }
            if t == new.last() {
                assert(new[new.len() - 1] == t);
            }
        }
        if !before.contains(new.last()) {
            let after = before.push(new.last());
            assert forall|t: SideType| #[trigger] after.contains(t) <==> (before.contains(t) || t == new.last()) by {
                if after.contains(t) {
                    let k = choose|k: int| 0 <= k < after.len() && after[k] == t;
                    if k < before.len() {
                        assert(before[k] == t);
                    }
                }
                if before.contains(t) {
                    let k = choose|k: int| 0 <= k < before.len() && before[k] == t;
                    assert(after[k] == t);
                }
                if t == new.last() {
                    assert(after[before.len() as int] == t);
                }
            }
            assert(after.subrange(0, current.len() as int) =~= before.subrange(0, current.len() as int));
        }
    }
}

impl UnlockedSides {
    /// The side types available when a new game starts.
    pub fn new() -> (r: UnlockedSides)
        ensures
            r.0@ == seq![SideType::NothingSpecial, SideType::SpeedUp],
    {
        let r = UnlockedSides(vec![SideType::NothingSpecial, SideType::SpeedUp]);
        assert(r.0@ =~= seq![SideType::NothingSpecial, SideType::SpeedUp]);
        r
    }

    /// Adds each of `side_types` that is not unlocked yet, in order.
    pub fn unlock(&mut self, side_types: &Vec<SideType>)
        ensures
            final(self).0@ == unlock_spec(old(self).0@, side_types@),
            forall|t: SideType|
                #[trigger] final(self).0@.contains(t) <==> (old(self).0@.contains(t)
                    || side_types@.contains(t)),
            old(self).0@.no_duplicates() ==> final(self).0@.no_duplicates(),
            final(self).0@.subrange(0, old(self).0@.len() as int) == old(self).0@,
    {
        let mut i: usize = 0;
        while i < side_types.len()
            invariant
                i <= side_types@.len(),
                self.0@ == unlock_spec(old(self).0@, side_types@.take(i as int)),
            decreases side_types@.len() - i,
        {
            let t = side_types[i];
            let mut present = false;
            let mut k: usize = 0;
            while k < self.0.len()
                invariant
                    k <= self.0@.len(),
                    present <==> exists|m: int| 0 <= m < k && self.0@[m] == t,
                decreases self.0@.len() - k,
            {
                if self.0[k] == t {
                    present = true;
                }
                k += 1;
            }
            proof {
                assert(side_types@.take(i as int + 1).drop_last() =~= side_types@.take(i as int));
            }
            if !present {
                self.0.push(t);
            }
            i += 1;
        }
        proof {
            assert(side_types@.take(side_types@.len() as int) =~= side_types@);
            lemma_unlock_contents(old(self).0@, side_types@);
        }
    }
}

} // verus!
