//! Plain values for the drawable items the renderer consumes.
//!
//! The item tree itself lives outside this library; the renderer reads
//! each item through these structs, which carry exactly the geometry
//! and style the draw operations use. An image-bearing item also
//! carries the slot the per-item cache attached to it.

use vstd::prelude::*;
use crate::graphics::{Color, Rect};

verus! {

/// What an image item draws from.
#[derive(Debug)]
pub enum Resource {
    /// No source: nothing to draw.
    Empty,
    /// An image file, by absolute path.
    AbsoluteFilePath(String),
    /// An embedded static buffer, identified by address and length.
    EmbeddedData { address: u64, length: u64 },
}

/// A flat, filled rectangle.
#[derive(Debug)]
pub struct RectangleItem {
    pub geometry: Rect,
    pub color: Color,
}

/// A rectangle with a border drawn entirely inside its box.
#[derive(Debug)]
pub struct BorderRectangleItem {
    pub geometry: Rect,
    pub color: Color,
    pub border_color: Color,
    pub border_width: i64,
    pub border_radius: i64,
}

/// An image drawn at its native size, or scaled to the item's size
/// when both sides of that size are positive.
#[derive(Debug)]
pub struct ImageItem {
    pub geometry: Rect,
    pub source: Resource,
    pub cache_slot: usize,
}

/// An image drawn through a clip window into its source; an empty
/// window means the whole source.
#[derive(Debug)]
pub struct ClippedImageItem {
    pub geometry: Rect,
    pub source: Resource,
    pub source_clip: Rect,
    pub cache_slot: usize,
}

/// Where a text run sits horizontally within its item's box.
#[derive(Clone, Copy, PartialEq, Eq, Structural, Debug)]
pub enum TextHorizontalAlignment {
    AlignLeft,
    AlignCenter,
    AlignRight,
}

/// Where a text run sits vertically within its item's box.
#[derive(Clone, Copy, PartialEq, Eq, Structural, Debug)]
pub enum TextVerticalAlignment {
    AlignTop,
    AlignCenter,
    AlignBottom,
}

/// A text run with its font request and alignment.
#[derive(Debug)]
pub struct TextItem {
    pub geometry: Rect,
    pub color: Color,
    pub font_family: String,
    pub font_weight: i32,
    pub font_pixel_size: i64,
    pub horizontal_alignment: TextHorizontalAlignment,
    pub vertical_alignment: TextVerticalAlignment,
    pub text: String,
}

/// A text input; its caret and selection rendering is intentionally
/// not implemented in this generation of the backend.
#[derive(Debug)]
pub struct TextInputItem {
    pub geometry: Rect,
}

/// A vector path; its rendering is intentionally not implemented in
/// this generation of the backend.
#[derive(Debug)]
pub struct PathItem {
    pub geometry: Rect,
}

/// A clip scope: restricts drawing to its geometry.
#[derive(Debug)]
pub struct ClipItem {
    pub geometry: Rect,
}

/// What the canvas measured of a text run in a chosen font and size:
/// the run's rendered width and the font's line height.
#[derive(Clone, Copy, PartialEq, Eq, Structural, Debug)]
pub struct TextMetrics {
    pub text_width: i64,
    pub line_height: i64,
}

} // verus!
