//! The atlas resolver: turns a raw sheet export into per-frame resolved
//! slices, a frame table, and a tag lookup.
//!
//! A slice's bounding box is only redefined at its keyframes; at any frame
//! the box of the last key at or before that frame holds, and when no key
//! is at or before it, the slice's last key overall ("hold last known box",
//! wrapped around at the slice's start boundary).

use vstd::prelude::*;
use crate::geom::{AsepriteSize, Rect};
use crate::sheet::{AsepriteAtlas, AsepriteFrametag, AsepriteSlice, AspriteSliceInstance};

verus! {

/// A slice resolved at one frame: the bounding box that applies there, the
/// slice's free-form metadata carried through verbatim (still unparsed),
/// and the slice's name.
#[derive(Clone, PartialEq, Eq, Debug)]
pub struct Slice {
    pub bound: Rect,
    pub data: Option<String>,
    pub name: String,
}

/// The value of a resolved slice.
pub ghost struct SliceView {
    pub bound: Rect,
    pub data: Option<Seq<char>>,
    pub name: Seq<char>,
}

impl View for Slice {
    type V = SliceView;

    open spec fn view(&self) -> SliceView {
        SliceView {
            bound: self.bound,
            data: match self.data {
                Some(s) => Some(s@),
                None => None,
            },
            name: self.name@,
        }
    }
}

/// A resolved frame: its placement inside the shared texture, the slices
/// active on it, its duration, and the trim geometry needed to place it on
/// screen.
#[derive(Clone, PartialEq, Eq, Debug)]
pub struct Frame {
    pub rect: Rect,
    pub slices: Vec<Slice>,
    pub duration: i32,
    pub source_size: AsepriteSize,
    pub sprite_source_size: Rect,
}

/// The value of a resolved frame.
pub ghost struct FrameView {
    pub rect: Rect,
    pub slices: Seq<SliceView>,
    pub duration: i32,
    pub source_size: AsepriteSize,
    pub sprite_source_size: Rect,
}

impl View for Frame {
    type V = FrameView;

    open spec fn view(&self) -> FrameView {
        FrameView {
            rect: self.rect,
            slices: self.slices@.map_values(|s: Slice| s@),
            duration: self.duration,
            source_size: self.source_size,
            sprite_source_size: self.sprite_source_size,
        }
    }
}

/// The resolved atlas: an opaque handle for the uploaded texture, the frame
/// table, the tag table (last entry with a name wins, as repeated inserts
/// into a name-keyed map would), and the sheet's pixel size.
#[derive(Clone, Debug)]
pub struct ImageAtlas {
    pub texture_id: u64,
    pub frames: Vec<Frame>,
    pub tags: Vec<AsepriteFrametag>,
    pub size: AsepriteSize,
}

/// The view of an `Option<String>`.
pub open spec fn opt_str_view(o: Option<String>) -> Option<Seq<char>> {
    match o {
        Some(s) => Some(s@),
        None => None,
    }
}

/// The view of an optional resolved slice.
pub open spec fn opt_slice_view(r: Option<Slice>) -> Option<SliceView> {
    match r {
        Some(s) => Some(s@),
        None => None,
    }
}

/// The views of a sequence of resolved slices.
pub open spec fn slice_views(s: Seq<Slice>) -> Seq<SliceView> {
    s.map_values(|sl: Slice| sl@)
}

/// The views of a sequence of resolved frames.
pub open spec fn frame_views(s: Seq<Frame>) -> Seq<FrameView> {
    s.map_values(|f: Frame| f@)
}

/// The last key in sequence order whose `frame` is at or before
/// `frame_index`, if any.
pub open spec fn last_covering_key(
    keys: Seq<AspriteSliceInstance>,
    frame_index: int,
) -> Option<AspriteSliceInstance>
    decreases keys.len(),
{
    if keys.len() == 0 {
        None::<AspriteSliceInstance>
    } else if keys.last().frame <= frame_index {
        Some(keys.last())
    } else {
        last_covering_key(keys.drop_last(), frame_index)
    }
}

/// The key that defines a slice's box at `frame_index`: the last key at or
/// before it, or the last key overall when none is.
pub open spec fn key_for_frame(
    keys: Seq<AspriteSliceInstance>,
    frame_index: int,
) -> Option<AspriteSliceInstance> {
    match last_covering_key(keys, frame_index) {
        Some(k) => Some(k),
        None => if keys.len() == 0 {
            None::<AspriteSliceInstance>
        } else {
            Some(keys.last())
        },
    }
}

/// What a slice contributes at `frame_index`: nothing outside its range or
/// when it has no keys, else its name and metadata under the box that
/// `key_for_frame` picks.
pub open spec fn resolve_slice_at(s: AsepriteSlice, frame_index: int) -> Option<SliceView> {
    if frame_index < s.from || s.to < frame_index {
        None::<SliceView>
    } else {
        match key_for_frame(s.keys@, frame_index) {
            Some(k) => Some(
                SliceView { bound: k.bounds, data: opt_str_view(s.data), name: s.name@ },
            ),
            None => None::<SliceView>,
        }
    }
}

/// A copy of an optional metadata string.
fn clone_opt_string(s: &Option<String>) -> (r: Option<String>)
    ensures
        r == *s,
{
    match s {
        Some(v) => Some(v.clone()),
        None => None,
    }
}

/// Resolves one slice at one frame index, or `None` when the slice does not
/// apply there.
pub fn find_single_slice_in_frames(frame_index: i32, slice: &AsepriteSlice) -> (r: Option<Slice>)
    ensures
        opt_slice_view(r) == resolve_slice_at(*slice, frame_index as int),
{
    if frame_index < slice.from || slice.to < frame_index {
        return None;
    }
    let n = slice.keys.len();
    let mut found: Option<usize> = None;
    proof {
        assert(slice.keys@.subrange(0, 0) =~= Seq::<AspriteSliceInstance>::empty());
    }
    for j in 0..n
        invariant
            n == slice.keys@.len(),
            match found {
                Some(jj) => jj < j && last_covering_key(
                    slice.keys@.subrange(0, j as int),
                    frame_index as int,
                ) == Some(slice.keys@[jj as int]),
                None => last_covering_key(
                    slice.keys@.subrange(0, j as int),
                    frame_index as int,
                ) is None,
            },
    {
        proof {
            assert(slice.keys@.subrange(0, (j + 1) as int).drop_last() =~= slice.keys@.subrange(
                0,
                j as int,
            ));
            assert(slice.keys@.subrange(0, (j + 1) as int).last() == slice.keys@[j as int]);
        }
        if slice.keys[j].frame <= frame_index {
            found = Some(j);
        }
    }
    proof {
        assert(slice.keys@.subrange(0, n as int) =~= slice.keys@);
    }
    match found {
        Some(jj) => {
            let k = slice.keys[jj];
            Some(
                Slice {
                    bound: k.bounds,
                    data: clone_opt_string(&slice.data),
                    name: slice.name.clone(),
                },
            )
        },
        None => {
            if n == 0 {
                None
            } else {
                let k = slice.keys[n - 1];
                Some(
                    Slice {
                        bound: k.bounds,
                        data: clone_opt_string(&slice.data),
                        name: slice.name.clone(),
                    },
                )
            }
        },
    }
}

/// The slices a frame resolves to, in slice-list order, skipping slices
/// that contribute nothing there.
pub open spec fn resolved_slices_at(ss: Seq<AsepriteSlice>, frame_index: int) -> Seq<SliceView>
    decreases ss.len(),
{
    if ss.len() == 0 {
        Seq::<SliceView>::empty()
    } else {
        let front = resolved_slices_at(ss.drop_last(), frame_index);
        match resolve_slice_at(ss.last(), frame_index) {
            Some(v) => front.push(v),
            None => front,
        }
    }
}

/// Resolves every slice of the sheet at one frame index.
pub fn find_slices_in_frame(frame_index: i32, slices: &Vec<AsepriteSlice>) -> (r: Vec<Slice>)
    ensures
        slice_views(r@) == resolved_slices_at(slices@, frame_index as int),
{
    let mut out: Vec<Slice> = Vec::new();
    let n = slices.len();
    proof {
        assert(slices@.subrange(0, 0) =~= Seq::<AsepriteSlice>::empty());
        assert(slice_views(out@) =~= resolved_slices_at(
            slices@.subrange(0, 0),
            frame_index as int,
        ));
    }
    for j in 0..n
        invariant
            n == slices@.len(),
            slice_views(out@) == resolved_slices_at(
                slices@.subrange(0, j as int),
                frame_index as int,
            ),
    {
        proof {
            assert(slices@.subrange(0, (j + 1) as int).drop_last() =~= slices@.subrange(
                0,
                j as int,
            ));
            assert(slices@.subrange(0, (j + 1) as int).last() == slices@[j as int]);
        }
        let ghost prev = out@;
        match find_single_slice_in_frames(frame_index, &slices[j]) {
            Some(s) => {
                out.push(s);
                proof {
                    assert(slice_views(out@) =~= slice_views(prev).push(s@));
                }
            },
            None => {},
        }
    }
    proof {
        assert(slices@.subrange(0, n as int) =~= slices@);
    }
    out
}

/// The view of the frame at `frame_index` once its slices are resolved.
pub open spec fn resolve_frame_at(
    f: crate::sheet::AsepriteFrame,
    slices: Seq<AsepriteSlice>,
    frame_index: int,
) -> FrameView {
    FrameView {
        rect: f.frame,
        slices: resolved_slices_at(slices, frame_index),
        duration: f.duration,
        source_size: f.source_size,
        sprite_source_size: f.sprite_source_size,
    }
}

/// The whole resolved frame table of a sheet.
pub open spec fn resolve_frames(
    frames: Seq<crate::sheet::AsepriteFrame>,
    slices: Seq<AsepriteSlice>,
) -> Seq<FrameView> {
    Seq::new(frames.len(), |i: int| resolve_frame_at(frames[i], slices, i))
}

/// Resolves a parsed sheet into an atlas: every frame's slices, the tag
/// table, and the sheet size, under the caller's texture handle. The frame
/// count is bounded by the frame-index domain of the export format.
pub fn resolve_atlas(root: &AsepriteAtlas, texture_id: u64) -> (atlas: ImageAtlas)
    requires
        root.frames@.len() <= 0x7fffffff,
    ensures
        atlas.texture_id == texture_id,
        frame_views(atlas.frames@) == resolve_frames(root.frames@, root.meta.slices@),
        atlas.tags@ == root.meta.frame_tags@,
        atlas.size == root.meta.size,
{
    let mut frames: Vec<Frame> = Vec::new();
    let nf = root.frames.len();
    for i in 0..nf
        invariant
            nf == root.frames@.len() <= 0x7fffffff,
            frames@.len() == i,
            forall|j: int|
                0 <= j < i ==> #[trigger] frames@[j]@ == resolve_frame_at(
                    root.frames@[j],
                    root.meta.slices@,
                    j,
                ),
    {
        let f = &root.frames[i];
        let resolved = find_slices_in_frame(i as i32, &root.meta.slices);
        frames.push(
            Frame {
                rect: f.frame,
                slices: resolved,
                duration: f.duration,
                source_size: f.source_size,
                sprite_source_size: f.sprite_source_size,
            },
        );
    }
    let mut tags: Vec<AsepriteFrametag> = Vec::new();
    let nt = root.meta.frame_tags.len();
    for i in 0..nt
        invariant
            nt == root.meta.frame_tags@.len(),
            tags@ == root.meta.frame_tags@.subrange(0, i as int),
    {
        let t = &root.meta.frame_tags[i];
        tags.push(
            AsepriteFrametag {
                name: t.name.clone(),
                to: t.to,
                from: t.from,
                direction: t.direction.clone(),
            },
        );
        proof {
            assert(tags@ =~= root.meta.frame_tags@.subrange(0, (i + 1) as int));
        }
    }
    proof {
        assert(root.meta.frame_tags@.subrange(0, nt as int) =~= root.meta.frame_tags@);
        assert(frame_views(frames@) =~= resolve_frames(root.frames@, root.meta.slices@));
    }
    ImageAtlas { texture_id, frames, tags, size: root.meta.size }
}

/// The tag a name resolves to: the last tag with that name in table order,
/// as repeated inserts into a name-keyed map would leave behind.
pub open spec fn find_tag(
    tags: Seq<AsepriteFrametag>,
    name: Seq<char>,
) -> Option<AsepriteFrametag>
    decreases tags.len(),
{
    if tags.len() == 0 {
        None::<AsepriteFrametag>
    } else if tags.last().name@ == name {
        Some(tags.last())
    } else {
        find_tag(tags.drop_last(), name)
    }
}

/// The frame at a tag's start index, or `None` when the name is unknown or
/// its start index lies outside the frame table. "Not found" is a normal
/// outcome for optional visual layers; callers skip the draw.
pub fn find_first_frame_in_tag<'a>(atlas: &'a ImageAtlas, name: &String) -> (r: Option<&'a Frame>)
    ensures
        (match find_tag(atlas.tags@, name@) {
            None => r is None,
            Some(t) => {
                if 0 <= t.from && (t.from as int) < atlas.frames@.len() {
                    r matches Some(f) && *f == atlas.frames@[t.from as int]
                } else {
                    r is None
                }
            },
        }),
{
    let n = atlas.tags.len();
    let mut idx: usize = n;
    proof {
        assert(atlas.tags@.subrange(0, n as int) =~= atlas.tags@);
    }
    while idx > 0
        invariant
            idx <= n,
            n == atlas.tags@.len(),
            find_tag(atlas.tags@, name@) == find_tag(atlas.tags@.subrange(0, idx as int), name@),
        decreases idx,
    {
        proof {
            assert(atlas.tags@.subrange(0, idx as int).drop_last() =~= atlas.tags@.subrange(
                0,
                idx as int - 1,
            ));
            assert(atlas.tags@.subrange(0, idx as int).last() == atlas.tags@[idx as int - 1]);
        }
        idx = idx - 1;
        let t = &atlas.tags[idx];
        if t.name == *name {
            if t.from >= 0 {
                let fidx = t.from as usize;
                if fidx < atlas.frames.len() {
                    return Some(&atlas.frames[fidx]);
                }
            }
            return None;
        }
    }
    None
}

/// The screen-space offset that places a resolved frame at a world anchor,
/// doubled so the half-pixel re-centering stays integral: twice the
/// trimming offset (y flipped to the y-up world) plus the centering
/// correction between the trimmed and untrimmed sizes. The draw position is
/// the anchor plus half this pair.
pub fn frame_draw_offset_doubled(frame: &Frame) -> (r: (i64, i64))
    ensures
        r.0 == 2 * (frame.sprite_source_size.x as int) + (frame.sprite_source_size.w as int) - (
        frame.source_size.w as int),
        r.1 == -2 * (frame.sprite_source_size.y as int) + (frame.source_size.h as int) - (
        frame.sprite_source_size.h as int),
{
    let sss = frame.sprite_source_size;
    let ss = frame.source_size;
    let x = 2 * (sss.x as i64) + (sss.w as i64) - (ss.w as i64);
    let y = -2 * (sss.y as i64) + (ss.h as i64) - (sss.h as i64);
    (x, y)
}

/// The last key at or before the frame index is the one that resolves,
/// stated through an explicit witness: if `keys[j]` covers `frame_index`
/// and every later key does not, `keys[j]` is picked.
proof fn lemma_last_covering_at(keys: Seq<AspriteSliceInstance>, frame_index: int, j: int)
    requires
        0 <= j < keys.len(),
        keys[j].frame <= frame_index,
        forall|k: int| j < k < keys.len() ==> #[trigger] keys[k].frame > frame_index,
    ensures
        last_covering_key(keys, frame_index) == Some(keys[j]),
    decreases keys.len(),
{
    if j == keys.len() - 1 {
    } else {
        assert(keys.last().frame > frame_index);
        lemma_last_covering_at(keys.drop_last(), frame_index, j);
    }
}

/// When no key is at or before the frame index, none covers it.
proof fn lemma_no_covering(keys: Seq<AspriteSliceInstance>, frame_index: int)
    requires
        forall|k: int| 0 <= k < keys.len() ==> #[trigger] keys[k].frame > frame_index,
    ensures
        last_covering_key(keys, frame_index) is None,
    decreases keys.len(),
{
    if keys.len() > 0 {
        lemma_no_covering(keys.drop_last(), frame_index);
    }
}

/// For every frame index within a slice's range, the resolved bounding box
/// equals the bounds of the last key at or before that index: `keys[j]`
/// resolves whenever it covers the index and every later key does not.
pub proof fn lemma_resolved_box_is_last_covering(s: AsepriteSlice, frame_index: int, j: int)
    requires
        s.from <= frame_index <= s.to,
        0 <= j < s.keys@.len(),
        s.keys@[j].frame <= frame_index,
        forall|k: int| j < k < s.keys@.len() ==> #[trigger] s.keys@[k].frame > frame_index,
    ensures
        resolve_slice_at(s, frame_index) == Some(
            (SliceView { bound: s.keys@[j].bounds, data: opt_str_view(s.data), name: s.name@ }),
        ),
{
    lemma_last_covering_at(s.keys@, frame_index, j);
}

/// For a frame index within a slice's range that no key covers, the
/// slice's last key overall resolves.
pub proof fn lemma_resolved_box_fallback(s: AsepriteSlice, frame_index: int)
    requires
        s.from <= frame_index <= s.to,
        s.keys@.len() > 0,
        forall|k: int| 0 <= k < s.keys@.len() ==> #[trigger] s.keys@[k].frame > frame_index,
    ensures
        resolve_slice_at(s, frame_index) == Some(
            (SliceView {
                bound: s.keys@.last().bounds,
                data: opt_str_view(s.data),
                name: s.name@,
            }),
        ),
{
    lemma_no_covering(s.keys@, frame_index);
}

/// A slice whose range is inverted (`from > to`) resolves to nothing at
/// every frame index.
pub proof fn lemma_inverted_range_is_absent(s: AsepriteSlice, frame_index: int)
    requires
        s.from > s.to,
    ensures
        resolve_slice_at(s, frame_index) is None,
{
}

/// Resolution is a pure function of the sheet: any two atlases resolved
/// from the same sheet carry identical frame and tag tables.
pub proof fn lemma_resolution_is_pure(root: AsepriteAtlas, a1: ImageAtlas, a2: ImageAtlas)
    requires
        frame_views(a1.frames@) == resolve_frames(root.frames@, root.meta.slices@),
        a1.tags@ == root.meta.frame_tags@,
        frame_views(a2.frames@) == resolve_frames(root.frames@, root.meta.slices@),
        a2.tags@ == root.meta.frame_tags@,
    ensures
        frame_views(a1.frames@) == frame_views(a2.frames@),
        a1.tags@ == a2.tags@,
{
}

} // verus!
