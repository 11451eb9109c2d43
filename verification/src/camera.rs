//! The camera tracker: directional input moves a target position, and the
//! viewpoint follows the target by a discrete exponential decay.
//!
//! Positions are whole numbers of a unit that the caller fixes, time is in
//! nanoseconds and the speed is in units per nanosecond, so that every
//! step is exact. A coordinate that would leave the `i64` range stops at
//! its end.

use crate::spawn::total_nanos;
use vstd::arithmetic::div_mod::{
    lemma_div_is_ordered, lemma_div_multiples_vanish, lemma_div_pos_is_pos,
};
use vstd::prelude::*;

verus! {

/// The directional inputs that are held on one tick.
#[derive(Clone, Copy, Debug)]
pub struct CameraInput {
    /// Pulls the target along the positive y axis.
    pub up: bool,
    /// Pulls the target along the negative y axis.
    pub down: bool,
    /// Pulls the target along the negative x axis.
    pub left: bool,
    /// Pulls the target along the positive x axis.
    pub right: bool,
}

/// A position in the plane.
#[derive(Clone, Copy, Debug, PartialEq, Eq, Structural)]
pub struct Point {
    pub x: i64,
    pub y: i64,
}

/// The net pull of the held inputs along one axis: opposite inputs cancel.
pub open spec fn net_pull(forward: bool, backward: bool) -> int {
    (if forward {
        1int
    } else {
        0int
    }) - (if backward {
        1int
    } else {
        0int
    })
}

/// `value`, or the end of the `i64` range that it lies beyond.
pub open spec fn clamped(value: int) -> int {
    if value < i64::MIN {
        i64::MIN as int
    } else if value > i64::MAX {
        i64::MAX as int
    } else {
        value
    }
}

/// A target coordinate after a tick of `delta` nanoseconds under the pull
/// `pull`: it moves by `speed * delta` along the pull.
pub open spec fn nudged(target: int, pull: int, speed: int, delta: nat) -> int {
    clamped(target + pull * speed * delta)
}

/// The share `delta / smoothness` of the gap between viewpoint and target,
/// rounded toward zero.
pub open spec fn approach_step(gap: int, delta: nat, smoothness: nat) -> int {
    if gap >= 0 {
        (gap * delta) / (smoothness as int)
    } else {
        -((-gap * delta) / (smoothness as int))
    }
}

/// A viewpoint coordinate after a tick of `delta` nanoseconds: it gives up
/// the share `delta / smoothness` of its gap to the target.
pub open spec fn approached(actual: int, target: int, delta: nat, smoothness: nat) -> int {
    clamped(actual - approach_step(actual - target, delta, smoothness))
}

/// A target coordinate after a run of ticks under one constant pull.
pub open spec fn target_after(target: int, pull: int, speed: int, deltas: Seq<u64>) -> int
    decreases deltas.len(),
{
    if deltas.len() == 0 {
        target
    } else {
        target_after(
            nudged(target, pull, speed, deltas[0] as nat),
            pull,
            speed,
            deltas.drop_first(),
        )
    }
}

/// Holding one constant pull over a run of ticks moves the target
/// coordinate by exactly `speed` times the length of the run along the
/// pull, as long as the coordinate it arrives at lies in the `i64` range.
/// Under a pull of zero the coordinate stays where it is.
pub proof fn lemma_held_input_moves_target_exactly(
    target: int,
    pull: int,
    speed: int,
    deltas: Seq<u64>,
)
    requires
        i64::MIN <= target <= i64::MAX,
        i64::MIN <= target + pull * speed * total_nanos(deltas) <= i64::MAX,
    ensures
        target_after(target, pull, speed, deltas) == target + pull * speed * total_nanos(deltas),
    decreases deltas.len(),
{
    let rate = pull * speed;
    let total = total_nanos(deltas) as int;
    if deltas.len() == 0 {
        assert(rate * 0 == 0);
    } else {
        let first = deltas[0] as int;
        let rest = total_nanos(deltas.drop_first()) as int;
        assert(target + rate * first + rate * rest == target + rate * total) by (nonlinear_arith)
            requires
                total == first + rest,
        ;
        assert(i64::MIN <= target + rate * first <= i64::MAX) by (nonlinear_arith)
            requires
                0 <= first <= total,
                i64::MIN <= target <= i64::MAX,
                i64::MIN <= target + rate * total <= i64::MAX,
        ;
        lemma_held_input_moves_target_exactly(
            target + rate * first,
            pull,
            speed,
            deltas.drop_first(),
        );
    }
}

/// On a tick no longer than the smoothness the viewpoint moves toward the
/// target and never past it: the new coordinate lies between the old one
/// and the target.
pub proof fn lemma_approach_never_overshoots(actual: int, target: int, delta: nat, smoothness: nat)
    requires
        i64::MIN <= actual <= i64::MAX,
        i64::MIN <= target <= i64::MAX,
        0 < smoothness,
        delta <= smoothness,
    ensures
        actual >= target ==> target <= approached(actual, target, delta, smoothness) <= actual,
        actual <= target ==> actual <= approached(actual, target, delta, smoothness) <= target,
{
    let gap = if actual >= target {
        actual - target
    } else {
        target - actual
    };
    let step = (gap * delta) / (smoothness as int);
    assert(0 <= gap * delta <= smoothness * gap) by (nonlinear_arith)
        requires
            0 <= gap,
            0 <= delta <= smoothness,
    ;
    lemma_div_pos_is_pos(gap * delta, smoothness as int);
    lemma_div_is_ordered(gap * delta, smoothness * gap, smoothness as int);
    lemma_div_multiples_vanish(gap, smoothness as int);
    assert(0 <= step <= gap);
    if actual < target {
        assert(-(actual - target) == gap);
    }
}

/// A tick as long as the smoothness takes the viewpoint all the way to the
/// target.
pub proof fn lemma_full_tick_reaches_target(actual: int, target: int, smoothness: nat)
    requires
        i64::MIN <= actual <= i64::MAX,
        i64::MIN <= target <= i64::MAX,
        0 < smoothness,
    ensures
        approached(actual, target, smoothness, smoothness) == target,
{
    let gap = if actual >= target {
        actual - target
    } else {
        target - actual
    };
    assert(gap * smoothness == smoothness * gap) by (nonlinear_arith);
    lemma_div_multiples_vanish(gap, smoothness as int);
    if actual < target {
        assert(-(actual - target) == gap);
    }
}

impl CameraInput {
    /// The net pull along the x axis: 1 to the right, -1 to the left.
    pub open spec fn spec_pull_x(self) -> int {
        net_pull(self.right, self.left)
    }

    /// The net pull along the y axis: 1 upward, -1 downward.
    pub open spec fn spec_pull_y(self) -> int {
        net_pull(self.up, self.down)
    }

    /// The net pull along the x axis: 1 to the right, -1 to the left.
    pub fn pull_x(&self) -> (pull: i8)
        ensures
            pull == self.spec_pull_x(),
    {
        axis_pull(self.right, self.left)
    }

    /// The net pull along the y axis: 1 upward, -1 downward.
    pub fn pull_y(&self) -> (pull: i8)
        ensures
            pull == self.spec_pull_y(),
    {
        axis_pull(self.up, self.down)
    }
}

/// The net pull of two opposite inputs.
fn axis_pull(forward: bool, backward: bool) -> (pull: i8)
    ensures
        pull == net_pull(forward, backward),
{
    let plus: i8 = if forward {
        1
    } else {
        0
    };
    let minus: i8 = if backward {
        1
    } else {
        0
    };
    plus - minus
}

/// The camera: where it is asked to be and where it is.
pub struct CameraTracker {
    target: Point,
    actual: Point,
    speed: i64,
    smoothness_nanos: u64,
}

impl CameraTracker {
    /// The smoothness is positive.
    pub closed spec fn wf(&self) -> bool {
        self.smoothness_nanos > 0
    }

    /// The position that the directional input has asked for.
    pub closed spec fn target(&self) -> Point {
        self.target
    }

    /// The position of the viewpoint.
    pub closed spec fn actual(&self) -> Point {
        self.actual
    }

    /// Units per nanosecond by which a held input moves the target.
    pub closed spec fn speed(&self) -> int {
        self.speed as int
    }

    /// The time constant of the decay in nanoseconds.
    pub closed spec fn smoothness(&self) -> nat {
        self.smoothness_nanos as nat
    }

    /// A camera at rest at `start`; a zero smoothness is refused.
    pub fn new(start: Point, speed: i64, smoothness_nanos: u64) -> (made: Option<CameraTracker>)
        ensures
            made is Some <==> smoothness_nanos > 0,
            made is Some ==> {
                &&& made->0.wf()
                &&& made->0.target() == start
                &&& made->0.actual() == start
                &&& made->0.speed() == speed
                &&& made->0.smoothness() == smoothness_nanos
            },
    {
        if smoothness_nanos == 0 {
            None
        } else {
            Some(CameraTracker { target: start, actual: start, speed, smoothness_nanos })
        }
    }

    /// The position that the directional input has asked for.
    pub fn target_position(&self) -> (target: Point)
        ensures
            target == self.target(),
    {
        self.target
    }

    /// The position of the viewpoint.
    pub fn actual_position(&self) -> (actual: Point)
        ensures
            actual == self.actual(),
    {
        self.actual
    }

    /// One tick of the camera: the held inputs move the target, each axis
    /// by `speed * delta_nanos` along its net pull, and then the viewpoint
    /// gives up the share `delta_nanos / smoothness` of its gap to the new
    /// target, each axis on its own. Returns the new viewpoint.
    pub fn update(&mut self, input: CameraInput, delta_nanos: u64) -> (actual: Point)
        requires
            old(self).wf(),
        ensures
            final(self).wf(),
            final(self).speed() == old(self).speed(),
            final(self).smoothness() == old(self).smoothness(),
            final(self).target().x == nudged(
                old(self).target().x as int,
                input.spec_pull_x(),
                old(self).speed(),
                delta_nanos as nat,
            ),
            final(self).target().y == nudged(
                old(self).target().y as int,
                input.spec_pull_y(),
                old(self).speed(),
                delta_nanos as nat,
            ),
            final(self).actual().x == approached(
                old(self).actual().x as int,
                final(self).target().x as int,
                delta_nanos as nat,
                old(self).smoothness(),
            ),
            final(self).actual().y == approached(
                old(self).actual().y as int,
                final(self).target().y as int,
                delta_nanos as nat,
                old(self).smoothness(),
            ),
            actual == final(self).actual(),
    {
        let target = Point {
            x: nudge(self.target.x, input.pull_x(), self.speed, delta_nanos),
            y: nudge(self.target.y, input.pull_y(), self.speed, delta_nanos),
        };
        let actual = Point {
            x: approach(self.actual.x, target.x, delta_nanos, self.smoothness_nanos),
            y: approach(self.actual.y, target.y, delta_nanos, self.smoothness_nanos),
        };
        self.target = target;
        self.actual = actual;
        actual
    }
}

/// Moves a target coordinate by `speed * delta_nanos` along `pull`.
fn nudge(target: i64, pull: i8, speed: i64, delta_nanos: u64) -> (moved: i64)
    requires
        -1 <= pull <= 1,
    ensures
        moved == nudged(target as int, pull as int, speed as int, delta_nanos as nat),
{
    proof {
        lemma_shift_fits(pull as int, speed as int, delta_nanos as int);
    }
    let along: i128 = pull as i128 * speed as i128;
    let shift: i128 = along * delta_nanos as i128;
    let moved: i128 = target as i128 + shift;
    clamp(moved)
}

/// The product of a pull, a speed and a tick length stays far enough
/// inside `i128` for a coordinate to be added.
proof fn lemma_shift_fits(pull: int, speed: int, delta: int)
    requires
        -1 <= pull <= 1,
        i64::MIN <= speed <= i64::MAX,
        0 <= delta <= u64::MAX,
    ensures
        i64::MIN <= pull * speed <= -(i64::MIN as int),
        i128::MIN - i64::MIN <= pull * speed * delta <= i128::MAX - i64::MAX,
{
    let along = pull * speed;
    assert(i64::MIN <= along <= -(i64::MIN as int)) by (nonlinear_arith)
        requires
            -1 <= pull <= 1,
            i64::MIN <= speed <= i64::MAX,
            along == pull * speed,
    ;
    assert(-0x8000_0000_0000_0000 * 0xffff_ffff_ffff_ffff <= along * delta
        <= 0x8000_0000_0000_0000 * 0xffff_ffff_ffff_ffff) by (nonlinear_arith)
        requires
            -0x8000_0000_0000_0000 <= along <= 0x8000_0000_0000_0000,
            0 <= delta <= 0xffff_ffff_ffff_ffff,
    ;
}

/// Brings a wide coordinate back into the `i64` range.
fn clamp(value: i128) -> (kept: i64)
    ensures
        kept == clamped(value as int),
{
    if value < i64::MIN as i128 {
        i64::MIN
    } else if value > i64::MAX as i128 {
        i64::MAX
    } else {
        value as i64
    }
}

/// Moves a viewpoint coordinate toward its target by the share
/// `delta_nanos / smoothness_nanos` of the gap.
fn approach(actual: i64, target: i64, delta_nanos: u64, smoothness_nanos: u64) -> (moved: i64)
    requires
        smoothness_nanos > 0,
    ensures
        moved == approached(
            actual as int,
            target as int,
            delta_nanos as nat,
            smoothness_nanos as nat,
        ),
{
    if actual >= target {
        let gap: u128 = (actual as i128 - target as i128) as u128;
        let step: u128 = scaled(gap, delta_nanos, smoothness_nanos);
        let room: u128 = (actual as i128 - i64::MIN as i128) as u128;
        if step > room {
            i64::MIN
        } else {
            (actual as i128 - step as i128) as i64
        }
    } else {
        let gap: u128 = (target as i128 - actual as i128) as u128;
        let step: u128 = scaled(gap, delta_nanos, smoothness_nanos);
        let room: u128 = (i64::MAX as i128 - actual as i128) as u128;
        if step > room {
            i64::MAX
        } else {
            (actual as i128 + step as i128) as i64
        }
    }
}

/// `gap * delta_nanos / smoothness_nanos`, rounded down.
fn scaled(gap: u128, delta_nanos: u64, smoothness_nanos: u64) -> (step: u128)
    requires
        gap <= u64::MAX,
        smoothness_nanos > 0,
    ensures
        step == (gap * delta_nanos) / (smoothness_nanos as int),
{
    assert(gap * delta_nanos <= 0xffff_ffff_ffff_ffff * 0xffff_ffff_ffff_ffff) by (nonlinear_arith)
        requires
            0 <= gap <= 0xffff_ffff_ffff_ffff,
            0 <= delta_nanos <= 0xffff_ffff_ffff_ffff,
    ;
    gap * delta_nanos as u128 / smoothness_nanos as u128
}

} // verus!
