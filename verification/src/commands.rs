//! The canvas commands one frame produces.
//!
//! The frame renderer turns drawable items into an exact list of these
//! commands; the unverified shell replays them on the real canvas in
//! order. The scissor a replay ends with is defined here and ties the
//! clip stack to what the canvas would actually mask.

use vstd::prelude::*;
use crate::graphics::{Color, Point, Rect};
use crate::image_cache::GpuImage;

verus! {

/// One canvas call.
#[derive(PartialEq, Eq, Debug)]
pub enum DrawCommand {
    /// Clear the whole surface, sized in physical pixels, with a color.
    ClearRect { width: u32, height: u32, color: Color },
    /// Fill an axis-aligned rectangle.
    FillRect { rect: Rect, color: Color },
    /// Fill a rounded rectangle and stroke its border: the border is
    /// drawn entirely inside the item's box, so `rect` is the box
    /// shrunk by half the border width on each side.
    FillBorderRect { rect: Rect, radius: i64, fill: Color, border: Color, border_width: i64 },
    /// Paint the `source` region of a GPU image at `origin`, scaled by
    /// requested size over native size when both requested sides are
    /// positive, at native size otherwise.
    DrawImage {
        image: GpuImage,
        source: Rect,
        origin: Point,
        requested_width: i64,
        requested_height: i64,
    },
    /// Draw a text run at `origin` with the top of the text as the
    /// baseline anchor.
    FillText { origin: Point, color: Color, font_id: u64, pixel_size: i64, text: String },
    /// Shrink the active scissor to its intersection with a rectangle.
    IntersectScissor { rect: Rect },
    /// Lift the scissor entirely.
    ResetScissor,
}

/// The scissor in force after replaying `cmds` on a canvas with no
/// scissor set: `None` is an unrestricted canvas.
pub open spec fn scissor_after(cmds: Seq<DrawCommand>) -> Option<Rect>
    decreases cmds.len(),
{
    if cmds.len() == 0 {
        None
    } else {
        let prev = scissor_after(cmds.drop_last());
        match cmds.last() {
            DrawCommand::IntersectScissor { rect } => Some(
                match prev {
                    None => rect,
                    Some(s) => s.spec_intersection(rect),
                },
            ),
            DrawCommand::ResetScissor => None,
            _ => prev,
        }
    }
}

/// The scissor a stack of clip rectangles denotes: the intersection of
/// all of them, in push order; an empty stack restricts nothing.
pub open spec fn fold_scissor(rects: Seq<Rect>) -> Option<Rect>
    decreases rects.len(),
{
    if rects.len() == 0 {
        None
    } else {
        match fold_scissor(rects.drop_last()) {
            None => Some(rects.last()),
            Some(s) => Some(s.spec_intersection(rects.last())),
        }
    }
}

/// The scissor commands that re-apply a clip stack from a clean
/// canvas: one reset, then one intersection per stacked rectangle.
pub open spec fn reset_scissor_commands(rects: Seq<Rect>) -> Seq<DrawCommand> {
    seq![DrawCommand::ResetScissor] + rects.map_values(
        |r: Rect| DrawCommand::IntersectScissor { rect: r },
    )
}

/// Law: lifting the scissor and then re-combining a saved clip stack,
/// one rectangle at a time in push order, ends with exactly the
/// scissor the stack denotes — the same as in a frame that combined
/// the stack and never reset, whatever was drawn before.
pub proof fn lemma_recombine_after_reset(cmds: Seq<DrawCommand>, rects: Seq<Rect>)
    ensures
        scissor_after(
            cmds.push(DrawCommand::ResetScissor) + rects.map_values(
                |r: Rect| (DrawCommand::IntersectScissor { rect: r }),
            ),
        ) == fold_scissor(rects),
{
    assert(cmds.push(DrawCommand::ResetScissor) + rects.map_values(
        |r: Rect| (DrawCommand::IntersectScissor { rect: r }),
    ) =~= cmds + reset_scissor_commands(rects));
    lemma_reset_scissor_replays_stack(cmds, rects);
}

/// Replaying a clip stack from any command history ends with exactly
/// the scissor the stack denotes: what came before does not matter.
pub proof fn lemma_reset_scissor_replays_stack(cmds: Seq<DrawCommand>, rects: Seq<Rect>)
    ensures
        scissor_after(cmds + reset_scissor_commands(rects)) == fold_scissor(rects),
    decreases rects.len(),
{
    if rects.len() == 0 {
        assert(cmds + reset_scissor_commands(rects) =~= cmds.push(DrawCommand::ResetScissor));
    } else {
        let prefix = cmds + reset_scissor_commands(rects.drop_last());
        let whole = cmds + reset_scissor_commands(rects);
        let last_cmd = DrawCommand::IntersectScissor { rect: rects.last() };
        assert(whole =~= prefix.push(last_cmd));
        assert(prefix.push(last_cmd).drop_last() =~= prefix);
        assert(prefix.push(last_cmd).last() == last_cmd);
        lemma_reset_scissor_replays_stack(cmds, rects.drop_last());
    }
}

} // verus!
