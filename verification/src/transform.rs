//! The per-frame transform and scale.
//!
//! The transform that the noise field is sampled through is a product of
//! three factors, each applied in the coordinate system that the factors
//! before it have set up: an aspect correction, a rotation about the X axis
//! and a move along the depth axis. This module decides the factors and
//! their exact parameters; it evaluates nothing, so no value in it is
//! rounded.

use vstd::prelude::*;
use vstd::math::min;
use crate::ratio::Ratio;

verus! {

/// The denominator of the animation speed: the sampling volume moves by
/// `1 / ANIMATION_SPEED_DEN` texture units per millisecond of elapsed time.
pub const ANIMATION_SPEED_DEN: u64 = 50000;

/// One factor of a transform.
#[derive(Clone, Copy, Debug, PartialEq, Eq)]
pub enum Step {
    /// Scales the X axis by `x` and the Y axis by `y`, and leaves the depth
    /// axis as it is.
    Scale { x: Ratio, y: Ratio },
    /// Rotates about the X axis by `angle`, in millionths of a radian.
    RotateX { angle: i32 },
    /// Moves along the depth axis by `depth` texture units.
    Translate { depth: Ratio },
}

impl Step {
    /// The step changes nothing: a scale by one on both axes, a rotation by
    /// no angle, or a move by no distance.
    pub open spec fn is_identity(self) -> bool {
        match self {
            Step::Scale { x, y } => x.is_one() && y.is_one(),
            Step::RotateX { angle } => angle == 0,
            Step::Translate { depth } => depth.is_zero(),
        }
    }
}

/// The parameters of a transform.
///
/// The transform is the product of the scale, the rotation and the move, in
/// this order from the left to the right: see [`Transform::factors`].
#[derive(Clone, Copy, Debug, PartialEq, Eq)]
pub struct Transform {
    /// The factor by which the X axis is scaled.
    pub scale_x: Ratio,
    /// The factor by which the Y axis is scaled.
    pub scale_y: Ratio,
    /// The angle of the rotation about the X axis, in millionths of a radian.
    pub angle: i32,
    /// The distance of the move along the depth axis, in texture units.
    pub depth: Ratio,
}

impl Transform {
    /// The factors of the transform, in the order in which they are
    /// multiplied: the scale, then the rotation, then the move.
    pub open spec fn factors(self) -> Seq<Step> {
        seq![
            Step::Scale { x: self.scale_x, y: self.scale_y },
            Step::RotateX { angle: self.angle },
            Step::Translate { depth: self.depth },
        ]
    }

    /// Every quotient in the transform names a number.
    pub open spec fn is_finite(self) -> bool {
        self.scale_x.is_finite() && self.scale_y.is_finite() && self.depth.is_finite()
    }

    /// Hands out the factors in the order in which the caller multiplies
    /// them, each new one on the right of the product so far.
    pub fn steps(&self) -> (steps: [Step; 3])
        ensures
            steps@ == self.factors(),
    {
        let steps = [
            Step::Scale { x: self.scale_x, y: self.scale_y },
            Step::RotateX { angle: self.angle },
            Step::Translate { depth: self.depth },
        ];
        assert(steps@ =~= self.factors());
        steps
    }
}

/// The transform and the scale that one frame is drawn with.
#[derive(Clone, Copy, Debug, PartialEq, Eq)]
pub struct TransformUniform {
    pub transform: Transform,
    pub scale: u32,
}

/// The transform after `elapsed_time` milliseconds in a window of the given
/// size, with the sampling plane turned by `rotation_angle`.
///
/// The axis of the longer side is scaled by the quotient of the longer and
/// the shorter side, and the other axis by one; a square window counts as
/// one that is not wider than high. The distance moved is the product of the
/// elapsed time and the animation speed.
pub open spec fn transform_of(
    elapsed_time: u64,
    width: u32,
    height: u32,
    rotation_angle: i32,
) -> Transform {
    Transform {
        scale_x: if width > height {
            Ratio { num: width as u64, den: height as u64 }
        } else {
            Ratio { num: 1, den: 1 }
        },
        scale_y: if width > height {
            Ratio { num: 1, den: 1 }
        } else {
            Ratio { num: height as u64, den: width as u64 }
        },
        angle: rotation_angle,
        depth: Ratio { num: elapsed_time, den: ANIMATION_SPEED_DEN },
    }
}

/// The sampling scale of a window: the smaller of its two sides.
pub fn get_scale(width: u32, height: u32) -> (scale: u32)
    ensures
        scale == min(width as int, height as int),
{
    if width > height {
        height
    } else {
        width
    }
}

/// Makes the transform of a frame from the time that has elapsed, the size of
/// the window and the angle of the sampling plane.
///
/// The rotation is part of the result whatever the angle is. A side of
/// length zero gives a scale factor that is not finite.
pub fn make_transform(
    elapsed_time: u64,
    width: u32,
    height: u32,
    rotation_angle: i32,
) -> (transform: Transform)
    ensures
        transform == transform_of(elapsed_time, width, height, rotation_angle),
{
    let one = Ratio { num: 1, den: 1 };
    let (scale_x, scale_y) = if width > height {
        (Ratio { num: width as u64, den: height as u64 }, one)
    } else {
        (one, Ratio { num: height as u64, den: width as u64 })
    };
    Transform {
        scale_x,
        scale_y,
        angle: rotation_angle,
        depth: Ratio { num: elapsed_time, den: ANIMATION_SPEED_DEN },
    }
}

/// The scale is no longer than either side of the window and is the length
/// of one of them, whichever way round the sides are given.
pub proof fn lemma_scale_is_minimum(width: u32, height: u32)
    ensures
        min(width as int, height as int) <= width,
        min(width as int, height as int) <= height,
        min(width as int, height as int) == width || min(width as int, height as int)
            == height,
        min(width as int, height as int) == min(height as int, width as int),
{
}

/// A transform has three factors: first a scale, then a rotation, then a
/// move.
pub proof fn lemma_factors_in_order(transform: Transform)
    ensures
        transform.factors().len() == 3,
        transform.factors()[0] == (Step::Scale { x: transform.scale_x, y: transform.scale_y }),
        transform.factors()[1] == (Step::RotateX { angle: transform.angle }),
        transform.factors()[2] == (Step::Translate { depth: transform.depth }),
{
}

/// In a window wider than high the X axis is scaled by width over height and
/// the Y axis by one; in any other window the X axis is scaled by one and
/// the Y axis by height over width.
pub proof fn lemma_aspect_correction(elapsed_time: u64, width: u32, height: u32, rotation_angle: i32)
    ensures
        width > height ==> {
            let t = transform_of(elapsed_time, width, height, rotation_angle);
            t.scale_x == (Ratio { num: width as u64, den: height as u64 }) && t.scale_y.is_one()
        },
        width <= height ==> {
            let t = transform_of(elapsed_time, width, height, rotation_angle);
            t.scale_x.is_one() && t.scale_y == (Ratio { num: height as u64, den: width as u64 })
        },
{
}

/// The correction stretches and never shrinks, and the two scale factors
/// stand to each other as the width stands to the height.
pub proof fn lemma_aspect_is_kept(elapsed_time: u64, width: u32, height: u32, rotation_angle: i32)
    ensures
        ({
            let t = transform_of(elapsed_time, width, height, rotation_angle);
            &&& t.scale_x.num >= t.scale_x.den
            &&& t.scale_y.num >= t.scale_y.den
            &&& t.scale_x.num * t.scale_y.den * height == t.scale_y.num * t.scale_x.den * width
        }),
{
    let (w, h) = (width as int, height as int);
    if width > height {
        assert(w * 1 * h == 1 * h * w) by (nonlinear_arith);
    } else {
        assert(1 * w * h == h * 1 * w) by (nonlinear_arith);
    }
}

/// Every quotient of the transform names a number exactly when neither side
/// of the window has length zero.
pub proof fn lemma_finite_transform(elapsed_time: u64, width: u32, height: u32, rotation_angle: i32)
    ensures
        transform_of(elapsed_time, width, height, rotation_angle).is_finite() <==> width >= 1
            && height >= 1,
{
}

/// The same arguments give the same transform and the same scale.
pub proof fn lemma_transform_is_determined(
    elapsed_time: u64,
    width: u32,
    height: u32,
    rotation_angle: i32,
    other_time: u64,
    other_width: u32,
    other_height: u32,
    other_angle: i32,
)
    requires
        elapsed_time == other_time,
        width == other_width,
        height == other_height,
        rotation_angle == other_angle,
    ensures
        transform_of(elapsed_time, width, height, rotation_angle) == transform_of(
            other_time,
            other_width,
            other_height,
            other_angle,
        ),
        min(width as int, height as int) == min(other_width as int, other_height as int),
{
}

/// The distance moved along the depth axis is the elapsed time divided by
/// fifty thousand, whatever the window and the angle are: after `k` times
/// fifty thousand milliseconds it is `k` texture units.
pub proof fn lemma_depth_is_time_times_speed(
    elapsed_time: u64,
    width: u32,
    height: u32,
    rotation_angle: i32,
    k: u64,
)
    ensures
        transform_of(elapsed_time, width, height, rotation_angle).depth == (Ratio {
            num: elapsed_time,
            den: 50000,
        }),
        elapsed_time == k * 50000 ==> transform_of(
            elapsed_time,
            width,
            height,
            rotation_angle,
        ).depth.same_value(Ratio { num: k, den: 1 }),
{
}

/// With no time elapsed and no angle, the rotation and the move change
/// nothing, so the transform is the aspect correction alone.
pub proof fn lemma_transform_at_rest(width: u32, height: u32)
    ensures
        ({
            let t = transform_of(0, width, height, 0);
            &&& t.factors().len() == 3
            &&& t.factors()[0] == (Step::Scale { x: t.scale_x, y: t.scale_y })
            &&& t.factors()[1].is_identity()
            &&& t.factors()[2].is_identity()
        }),
{
}

} // verus!
