//! Loading a sheet export: parsing the JSON document into the raw sheet
//! model, then resolving it into an atlas.
//!
//! The two failure tiers: a document that is not a sheet export (malformed
//! JSON, a missing or mistyped required field, an empty frame array) is an
//! unrecoverable load error; a slice's free-form `data` content is not
//! checked here at all — it is carried through verbatim and read lazily and
//! defensively at spawn time.

use vstd::prelude::*;
use crate::atlas::{frame_views, resolve_atlas, resolve_frames, ImageAtlas};
use crate::geom::{AsepriteSize, Rect};
use crate::json::{json_array_field_len, json_as_array, json_as_bool, json_as_i64, json_as_str,
    json_doc_ok, json_from_slice, json_get, json_get_array, json_is_null};
use crate::sheet::{AsepriteAtlas, AsepriteFrame, AsepriteFrametag, AsepriteMeta, AsepriteSlice,
    AspriteSliceInstance};

verus! {

/// Why a sheet export failed to load. Every variant is fatal: no gameplay
/// can start without a valid atlas.
#[derive(Clone, Copy, PartialEq, Eq, Structural, Debug)]
pub enum LoadError {
    /// The document is not valid JSON.
    InvalidJson,
    /// The document is JSON but not a sheet export: a required field is
    /// missing or of the wrong type, or a number is out of range.
    InvalidStructure,
    /// The frame array is empty.
    NoFrames,
}

/// The named field of `obj` as an `i32`, when it is an integer in range.
fn json_field_i32(obj: &serde_json::Value, key: &str) -> Option<i32> {
    match json_get(obj, key) {
        Some(f) => match json_as_i64(f) {
            Some(n) => if -2147483648i64 <= n && n <= 2147483647i64 {
                Some(n as i32)
            } else {
                None
            },
            None => None,
        },
        None => None,
    }
}

/// The named field of `obj` as a string.
fn json_field_str(obj: &serde_json::Value, key: &str) -> Option<String> {
    match json_get(obj, key) {
        Some(f) => json_as_str(f),
        None => None,
    }
}

/// The named field of `obj` as a boolean.
fn json_field_bool(obj: &serde_json::Value, key: &str) -> Option<bool> {
    match json_get(obj, key) {
        Some(f) => json_as_bool(f),
        None => None,
    }
}

/// An `{x, y, w, h}` object.
fn parse_rect(v: &serde_json::Value) -> Option<Rect> {
    let x = match json_field_i32(v, "x") {
        Some(n) => n,
        None => {
            return None;
        },
    };
    let y = match json_field_i32(v, "y") {
        Some(n) => n,
        None => {
            return None;
        },
    };
    let w = match json_field_i32(v, "w") {
        Some(n) => n,
        None => {
            return None;
        },
    };
    let h = match json_field_i32(v, "h") {
        Some(n) => n,
        None => {
            return None;
        },
    };
    Some(Rect { x, y, w, h })
}

/// A `{w, h}` object.
fn parse_size(v: &serde_json::Value) -> Option<AsepriteSize> {
    let w = match json_field_i32(v, "w") {
        Some(n) => n,
        None => {
            return None;
        },
    };
    let h = match json_field_i32(v, "h") {
        Some(n) => n,
        None => {
            return None;
        },
    };
    Some(AsepriteSize { w, h })
}

/// The named field of `obj` as a rectangle.
fn json_field_rect(obj: &serde_json::Value, key: &str) -> Option<Rect> {
    match json_get(obj, key) {
        Some(f) => parse_rect(f),
        None => None,
    }
}

/// One entry of the `frames` array.
fn parse_frame(v: &serde_json::Value) -> Option<AsepriteFrame> {
    let filename = match json_field_str(v, "filename") {
        Some(s) => s,
        None => {
            return None;
        },
    };
    let frame = match json_field_rect(v, "frame") {
        Some(r) => r,
        None => {
            return None;
        },
    };
    let rotated = match json_field_bool(v, "rotated") {
        Some(b) => b,
        None => {
            return None;
        },
    };
    let trimmed = match json_field_bool(v, "trimmed") {
        Some(b) => b,
        None => {
            return None;
        },
    };
    let sprite_source_size = match json_field_rect(v, "spriteSourceSize") {
        Some(r) => r,
        None => {
            return None;
        },
    };
    let source_size = match json_get(v, "sourceSize") {
        Some(f) => match parse_size(f) {
            Some(s) => s,
            None => {
                return None;
            },
        },
        None => {
            return None;
        },
    };
    let duration = match json_field_i32(v, "duration") {
        Some(n) => n,
        None => {
            return None;
        },
    };
    Some(AsepriteFrame { filename, frame, rotated, trimmed, sprite_source_size, source_size, duration })
}

/// One entry of a slice's `keys` array: `{frame, bounds}`.
fn parse_key(v: &serde_json::Value) -> Option<AspriteSliceInstance> {
    let frame = match json_field_i32(v, "frame") {
        Some(n) => n,
        None => {
            return None;
        },
    };
    let bounds = match json_field_rect(v, "bounds") {
        Some(r) => r,
        None => {
            return None;
        },
    };
    Some(AspriteSliceInstance { frame, bounds })
}

/// One entry of the `meta.slices` array. The free-form `data` field may be
/// absent or null (no metadata); when present it must be a string, kept
/// verbatim for lazy reading.
fn parse_slice(v: &serde_json::Value) -> Option<AsepriteSlice> {
    let name = match json_field_str(v, "name") {
        Some(s) => s,
        None => {
            return None;
        },
    };
    let color = match json_field_str(v, "color") {
        Some(s) => s,
        None => {
            return None;
        },
    };
    let data: Option<String> = match json_get(v, "data") {
        Some(f) => {
            if json_is_null(f) {
                None
            } else {
                match json_as_str(f) {
                    Some(s) => Some(s),
                    None => {
                        return None;
                    },
                }
            }
        },
        None => None,
    };
    let keys_arr = match json_get(v, "keys") {
        Some(f) => match json_as_array(f) {
            Some(a) => a,
            None => {
                return None;
            },
        },
        None => {
            return None;
        },
    };
    let mut keys: Vec<AspriteSliceInstance> = Vec::new();
    let nk = keys_arr.len();
    for i in 0..nk
        invariant
            nk == keys_arr@.len(),
    {
        let kv = &keys_arr[i];
        match parse_key(kv) {
            Some(k) => keys.push(k),
            None => {
                return None;
            },
        }
    }
    let from = match json_field_i32(v, "from") {
        Some(n) => n,
        None => {
            return None;
        },
    };
    let to = match json_field_i32(v, "to") {
        Some(n) => n,
        None => {
            return None;
        },
    };
    Some(AsepriteSlice { name, color, data, keys, from, to })
}

/// One entry of the `meta.frameTags` array.
fn parse_tag(v: &serde_json::Value) -> Option<AsepriteFrametag> {
    let name = match json_field_str(v, "name") {
        Some(s) => s,
        None => {
            return None;
        },
    };
    let to = match json_field_i32(v, "to") {
        Some(n) => n,
        None => {
            return None;
        },
    };
    let from = match json_field_i32(v, "from") {
        Some(n) => n,
        None => {
            return None;
        },
    };
    let direction = match json_field_str(v, "direction") {
        Some(s) => s,
        None => {
            return None;
        },
    };
    Some(AsepriteFrametag { name, to, from, direction })
}

/// The `meta` block.
fn parse_meta(v: &serde_json::Value) -> Option<AsepriteMeta> {
    let app = match json_field_str(v, "app") {
        Some(s) => s,
        None => {
            return None;
        },
    };
    let version = match json_field_str(v, "version") {
        Some(s) => s,
        None => {
            return None;
        },
    };
    let image = match json_field_str(v, "image") {
        Some(s) => s,
        None => {
            return None;
        },
    };
    let format = match json_field_str(v, "format") {
        Some(s) => s,
        None => {
            return None;
        },
    };
    let size = match json_get(v, "size") {
        Some(f) => match parse_size(f) {
            Some(s) => s,
            None => {
                return None;
            },
        },
        None => {
            return None;
        },
    };
    let scale = match json_field_str(v, "scale") {
        Some(s) => s,
        None => {
            return None;
        },
    };
    let tags_arr = match json_get(v, "frameTags") {
        Some(f) => match json_as_array(f) {
            Some(a) => a,
            None => {
                return None;
            },
        },
        None => {
            return None;
        },
    };
    let mut frame_tags: Vec<AsepriteFrametag> = Vec::new();
    let nt = tags_arr.len();
    for i in 0..nt
        invariant
            nt == tags_arr@.len(),
    {
        let tv = &tags_arr[i];
        match parse_tag(tv) {
            Some(t) => frame_tags.push(t),
            None => {
                return None;
            },
        }
    }
    let slices_arr = match json_get(v, "slices") {
        Some(f) => match json_as_array(f) {
            Some(a) => a,
            None => {
                return None;
            },
        },
        None => {
            return None;
        },
    };
    let mut slices: Vec<AsepriteSlice> = Vec::new();
    let ns = slices_arr.len();
    for i in 0..ns
        invariant
            ns == slices_arr@.len(),
    {
        let sv = &slices_arr[i];
        match parse_slice(sv) {
            Some(s) => slices.push(s),
            None => {
                return None;
            },
        }
    }
    Some(AsepriteMeta { app, version, image, format, size, scale, frame_tags, slices })
}

/// Parses a JSON document into the raw sheet model. A missing or mistyped
/// required field fails the load, as does a tag range that leaves the
/// frame table; a loaded sheet always has at least one frame, and no more
/// than the export format's frame-index domain admits.
pub fn parse_atlas(doc: &serde_json::Value) -> (r: Result<AsepriteAtlas, LoadError>)
    ensures
        (r matches Ok(root) ==> 0 < root.frames@.len() <= 0x7fffffff),
        (r matches Ok(root) ==> json_array_field_len(*doc, "frames"@) == Some(
            root.frames@.len() as int,
        )),
        (r == Err::<AsepriteAtlas, LoadError>(LoadError::NoFrames)) == (json_array_field_len(*doc, "frames"@) == Some(0int)),
        (json_array_field_len(*doc, "frames"@) is None ==> r == Err::<AsepriteAtlas, LoadError>(LoadError::InvalidStructure)),
        r != Err::<AsepriteAtlas, LoadError>(LoadError::InvalidJson),
        (r matches Ok(root) ==> forall|t: int|
            0 <= t < root.meta.frame_tags@.len() ==> 0 <= #[trigger] root.meta.frame_tags@[t].from
                <= root.meta.frame_tags@[t].to < root.frames@.len()),
{
    let frames_arr = match json_get_array(doc, "frames") {
        Some(a) => a,
        None => {
            return Err(LoadError::InvalidStructure);
        },
    };
    let n = frames_arr.len();
    if n == 0 {
        return Err(LoadError::NoFrames);
    }
    if n > 0x7fffffff {
        return Err(LoadError::InvalidStructure);
    }
    let mut frames: Vec<AsepriteFrame> = Vec::new();
    for i in 0..n
        invariant
            frames@.len() == i,
            n == frames_arr@.len(),
            0 < n <= 0x7fffffff,
            json_array_field_len(*doc, "frames"@) == Some(n as int),
    {
        let fv = &frames_arr[i];
        match parse_frame(fv) {
            Some(f) => frames.push(f),
            None => {
                return Err(LoadError::InvalidStructure);
            },
        }
    }
    let meta = match json_get(doc, "meta") {
        Some(mv) => match parse_meta(mv) {
            Some(m) => m,
            None => {
                return Err(LoadError::InvalidStructure);
            },
        },
        None => {
            return Err(LoadError::InvalidStructure);
        },
    };
    let nt = meta.frame_tags.len();
    for t in 0..nt
        invariant
            nt == meta.frame_tags@.len(),
            frames@.len() == n,
            0 < n <= 0x7fffffff,
            json_array_field_len(*doc, "frames"@) == Some(n as int),
            forall|tt: int|
                0 <= tt < t ==> 0 <= #[trigger] meta.frame_tags@[tt].from
                    <= meta.frame_tags@[tt].to < n,
    {
        let tag = &meta.frame_tags[t];
        if tag.from < 0 || tag.to < tag.from || (tag.to as i64) >= (n as i64) {
            return Err(LoadError::InvalidStructure);
        }
    }
    Ok(AsepriteAtlas { frames, meta })
}

/// Loads a sheet export from the bytes of its JSON document and resolves
/// it into an atlas under the caller's texture handle. Exactly the byte
/// sequences that are not valid JSON fail with `InvalidJson`; a loaded
/// atlas is the pure resolution of the sheet the document describes (its
/// frame table is `resolve_frames` of that sheet and its tag table is the
/// sheet's tag list), and every tag range lies within the frame table.
pub fn load_aseprite_atlas_bytes(json_bytes: &[u8], texture_id: u64) -> (r: Result<
    ImageAtlas,
    LoadError,
>)
    ensures
        (r == Err::<ImageAtlas, LoadError>(LoadError::InvalidJson)) == !json_doc_ok(json_bytes@),
        (r matches Ok(atlas) ==> atlas.texture_id == texture_id && 0 < atlas.frames@.len()
            && (exists|root: AsepriteAtlas|
            frame_views(atlas.frames@) == #[trigger] resolve_frames(
                root.frames@,
                root.meta.slices@,
            ) && atlas.tags@ == root.meta.frame_tags@ && 0 < root.frames@.len())),
        (r matches Ok(atlas) ==> forall|i: int|
            0 <= i < atlas.tags@.len() ==> 0 <= #[trigger] atlas.tags@[i].from
                <= atlas.tags@[i].to < atlas.frames@.len()),
{
    let doc = match json_from_slice(json_bytes) {
        Some(v) => v,
        None => {
            return Err(LoadError::InvalidJson);
        },
    };
    let root = match parse_atlas(&doc) {
        Ok(rt) => rt,
        Err(e) => {
            return Err(e);
        },
    };
    let atlas = resolve_atlas(&root, texture_id);
    proof {
        assert(frame_views(atlas.frames@) == resolve_frames(root.frames@, root.meta.slices@));
        assert(frame_views(atlas.frames@).len() == atlas.frames@.len());
    }
    Ok(atlas)
}

} // verus!
