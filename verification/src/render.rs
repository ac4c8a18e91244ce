//! What an iteration of the frame loop asks of the window and of the device.

use vstd::prelude::*;
use crate::geometry::QUAD_VERTICES;
use crate::ratio::Ratio;
use crate::transform::TransformUniform;

verus! {

/// A colour, each channel a quotient between zero and one.
#[derive(Clone, Copy, Debug, PartialEq, Eq)]
pub struct Color {
    pub red: Ratio,
    pub green: Ratio,
    pub blue: Ratio,
    pub alpha: Ratio,
}

impl Color {
    /// Every channel names a number between zero and one.
    pub open spec fn is_valid(self) -> bool {
        &&& self.red.is_finite() && self.red.num <= self.red.den
        &&& self.green.is_finite() && self.green.num <= self.green.den
        &&& self.blue.is_finite() && self.blue.num <= self.blue.den
        &&& self.alpha.is_finite() && self.alpha.num <= self.alpha.den
    }

    /// Nothing shows through the colour.
    pub open spec fn is_opaque(self) -> bool {
        self.alpha.is_one()
    }
}

/// One thing for the caller to do. An iteration hands out a list of them,
/// to be done in the order of the list.
#[derive(Clone, Copy, Debug, PartialEq, Eq)]
pub enum Action {
    /// Fit the drawing surface to a window of this size and derive the
    /// render targets anew.
    ResizeTargets { width: u32, height: u32 },
    /// Clear the render target to this colour.
    Clear { color: Color },
    /// Bind the quad's vertex buffer and these uniforms.
    Bind { uniform: TransformUniform },
    /// Draw this many vertices as triangles.
    Draw { vertex_count: u32 },
    /// Send the commands recorded so far to the device.
    Flush,
    /// Show the frame.
    Present,
    /// Let the device release what the frame no longer needs.
    Cleanup,
}

/// The colour that every frame is cleared to.
pub open spec fn background() -> Color {
    Color {
        red: Ratio { num: 1, den: 10 },
        green: Ratio { num: 2, den: 10 },
        blue: Ratio { num: 3, den: 10 },
        alpha: Ratio { num: 1, den: 1 },
    }
}

/// The actions that submit one frame, in order.
pub open spec fn submission(uniform: TransformUniform) -> Seq<Action> {
    seq![
        Action::Clear { color: background() },
        Action::Bind { uniform },
        Action::Draw { vertex_count: QUAD_VERTICES },
        Action::Flush,
        Action::Present,
        Action::Cleanup,
    ]
}

/// The colour that every frame is cleared to.
pub fn clear_color() -> (color: Color)
    ensures
        color == background(),
{
    Color {
        red: Ratio { num: 1, den: 10 },
        green: Ratio { num: 2, den: 10 },
        blue: Ratio { num: 3, den: 10 },
        alpha: Ratio { num: 1, den: 1 },
    }
}

/// Appends to `actions` what submits one frame drawn with `uniform`.
pub fn submit_frame(actions: &mut Vec<Action>, uniform: TransformUniform)
    ensures
        final(actions)@ == old(actions)@ + submission(uniform),
{
    actions.push(Action::Clear { color: clear_color() });
    actions.push(Action::Bind { uniform });
    actions.push(Action::Draw { vertex_count: QUAD_VERTICES });
    actions.push(Action::Flush);
    actions.push(Action::Present);
    actions.push(Action::Cleanup);
    assert(actions@ =~= old(actions)@ + submission(uniform));
}

/// The background is a colour, and an opaque one.
pub proof fn lemma_background_is_opaque()
    ensures
        background().is_valid(),
        background().is_opaque(),
{
}

/// A submission draws once, all the vertices of the quad, after the target
/// was cleared and the uniforms were bound, and shows the frame only after
/// the commands were sent to the device.
pub proof fn lemma_submission_order(uniform: TransformUniform)
    ensures
        submission(uniform).len() == 6,
        submission(uniform)[0] is Clear,
        submission(uniform)[1] == (Action::Bind { uniform }),
        submission(uniform)[2] == (Action::Draw { vertex_count: 6 }),
        submission(uniform)[3] is Flush,
        submission(uniform)[4] is Present,
        submission(uniform)[5] is Cleanup,
        forall|i: int| 0 <= i < 6 && submission(uniform)[i] is Draw ==> i == 2,
{
}

} // verus!
