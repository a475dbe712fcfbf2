//! The raw sheet model: passive structures mirroring the sprite-sheet
//! export (frame rectangles, slice keyframes, tag ranges, source and trim
//! sizes), exactly as the authoring tool writes them.

use vstd::prelude::*;
use crate::geom::{AsepriteSize, Rect};

verus! {

/// A keyframe of a slice, as the export vocabulary names it.
#[derive(Clone, Copy, PartialEq, Eq, Structural, Debug)]
pub struct SliceKeys {
    pub frame: i32,
    pub bounds: Rect,
}

/// One keyframe of a slice: from `frame` on, the slice's bounding box is
/// `bounds` until a later key redefines it.
#[derive(Clone, Copy, PartialEq, Eq, Structural, Debug)]
pub struct AspriteSliceInstance {
    pub frame: i32,
    pub bounds: Rect,
}

/// One exported frame: its placement inside the shared texture, the trim
/// geometry, and its duration in milliseconds.
#[derive(Clone, PartialEq, Eq, Debug)]
pub struct AsepriteFrame {
    pub filename: String,
    pub frame: Rect,
    pub rotated: bool,
    pub trimmed: bool,
    pub sprite_source_size: Rect,
    pub source_size: AsepriteSize,
    pub duration: i32,
}

/// A named contiguous frame range.
#[derive(Clone, PartialEq, Eq, Debug)]
pub struct AsepriteFrametag {
    pub name: String,
    pub to: i32,
    pub from: i32,
    pub direction: String,
}

/// A named, time-varying sub-rectangle active on frames `from..=to`, with
/// optional free-form authoring metadata in `data` (a string-encoded
/// structured value, parsed lazily and defensively).
#[derive(Clone, PartialEq, Eq, Debug)]
pub struct AsepriteSlice {
    pub name: String,
    pub color: String,
    pub data: Option<String>,
    pub keys: Vec<AspriteSliceInstance>,
    pub from: i32,
    pub to: i32,
}

/// The export's metadata block.
#[derive(Clone, PartialEq, Eq, Debug)]
pub struct AsepriteMeta {
    pub app: String,
    pub version: String,
    pub image: String,
    pub format: String,
    pub size: AsepriteSize,
    pub scale: String,
    pub frame_tags: Vec<AsepriteFrametag>,
    pub slices: Vec<AsepriteSlice>,
}

/// A whole sheet export: the frame array plus the metadata block.
#[derive(Clone, PartialEq, Eq, Debug)]
pub struct AsepriteAtlas {
    pub frames: Vec<AsepriteFrame>,
    pub meta: AsepriteMeta,
}

} // verus!
