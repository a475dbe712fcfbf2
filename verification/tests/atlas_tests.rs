//! Slice-keyframe resolution and sheet loading.

use web_summons::atlas::{
    find_first_frame_in_tag, find_single_slice_in_frames, frame_draw_offset_doubled,
    resolve_atlas,
};
use web_summons::geom::{AsepriteSize, Rect};
use web_summons::loader::{load_aseprite_atlas_bytes, LoadError};
use web_summons::sheet::{
    AsepriteAtlas, AsepriteFrame, AsepriteFrametag, AsepriteMeta, AsepriteSlice,
    AspriteSliceInstance,
};

fn rect(x: i32, y: i32, w: i32, h: i32) -> Rect {
    Rect { x, y, w, h }
}

fn key(frame: i32, bounds: Rect) -> AspriteSliceInstance {
    AspriteSliceInstance { frame, bounds }
}

fn slice(from: i32, to: i32, keys: Vec<AspriteSliceInstance>) -> AsepriteSlice {
    AsepriteSlice {
        name: "box".to_string(),
        color: "#0000ffff".to_string(),
        data: None,
        keys,
        from,
        to,
    }
}

#[test]
fn resolved_box_is_last_key_at_or_before_index() {
    let s = slice(0, 5, vec![key(1, rect(1, 1, 2, 2)), key(3, rect(3, 3, 4, 4))]);
    let at1 = find_single_slice_in_frames(1, &s).unwrap();
    assert_eq!(at1.bound, rect(1, 1, 2, 2));
    let at2 = find_single_slice_in_frames(2, &s).unwrap();
    assert_eq!(at2.bound, rect(1, 1, 2, 2));
    let at3 = find_single_slice_in_frames(3, &s).unwrap();
    assert_eq!(at3.bound, rect(3, 3, 4, 4));
    let at5 = find_single_slice_in_frames(5, &s).unwrap();
    assert_eq!(at5.bound, rect(3, 3, 4, 4));
}

#[test]
fn resolved_box_falls_back_to_last_key_overall() {
    let s = slice(0, 5, vec![key(1, rect(1, 1, 2, 2)), key(3, rect(3, 3, 4, 4))]);
    // No key is at or before frame 0, so the slice's last key holds there.
    let at0 = find_single_slice_in_frames(0, &s).unwrap();
    assert_eq!(at0.bound, rect(3, 3, 4, 4));
}

#[test]
fn duplicate_key_indices_resolve_to_the_later_entry() {
    let s = slice(0, 5, vec![key(2, rect(1, 1, 1, 1)), key(2, rect(9, 9, 9, 9))]);
    let at3 = find_single_slice_in_frames(3, &s).unwrap();
    assert_eq!(at3.bound, rect(9, 9, 9, 9));
}

#[test]
fn draw_offset_compensates_trim_and_centering() {
    let root = small_sheet();
    let mut atlas = resolve_atlas(&root, 0);
    atlas.frames[0].sprite_source_size = rect(2, 3, 10, 12);
    atlas.frames[0].source_size = AsepriteSize { w: 16, h: 20 };
    // x: 2*2 + (10 - 16) = -2; y: -2*3 + (20 - 12) = 2.
    assert_eq!(frame_draw_offset_doubled(&atlas.frames[0]), (-2, 2));
}

#[test]
fn slice_outside_range_is_absent() {
    let s = slice(2, 4, vec![key(2, rect(0, 0, 1, 1))]);
    assert!(find_single_slice_in_frames(1, &s).is_none());
    assert!(find_single_slice_in_frames(5, &s).is_none());
}

#[test]
fn slice_with_no_keys_is_absent() {
    let s = slice(0, 3, vec![]);
    assert!(find_single_slice_in_frames(1, &s).is_none());
}

#[test]
fn inverted_range_is_absent_everywhere() {
    let s = slice(2, 1, vec![key(0, rect(0, 0, 1, 1)), key(2, rect(1, 1, 2, 2))]);
    for i in -3..7 {
        assert!(find_single_slice_in_frames(i, &s).is_none());
    }
}

fn sheet_frame(d: i32) -> AsepriteFrame {
    AsepriteFrame {
        filename: "f".to_string(),
        frame: rect(0, 0, 16, 16),
        rotated: false,
        trimmed: false,
        sprite_source_size: rect(0, 0, 16, 16),
        source_size: AsepriteSize { w: 16, h: 16 },
        duration: d,
    }
}

fn small_sheet() -> AsepriteAtlas {
    AsepriteAtlas {
        frames: vec![sheet_frame(100), sheet_frame(200)],
        meta: AsepriteMeta {
            app: "tool".to_string(),
            version: "1.0".to_string(),
            image: "atlas.png".to_string(),
            format: "RGBA8888".to_string(),
            size: AsepriteSize { w: 32, h: 32 },
            scale: "1".to_string(),
            frame_tags: vec![
                AsepriteFrametag {
                    name: "a".to_string(),
                    from: 1,
                    to: 1,
                    direction: "forward".to_string(),
                },
                AsepriteFrametag {
                    name: "bad".to_string(),
                    from: 7,
                    to: 9,
                    direction: "forward".to_string(),
                },
            ],
            slices: vec![slice(0, 1, vec![key(0, rect(2, 2, 3, 3))])],
        },
    }
}

#[test]
fn resolve_atlas_builds_frame_and_tag_tables() {
    let root = small_sheet();
    let atlas = resolve_atlas(&root, 7);
    assert_eq!(atlas.texture_id, 7);
    assert_eq!(atlas.frames.len(), 2);
    assert_eq!(atlas.frames[0].duration, 100);
    assert_eq!(atlas.frames[1].duration, 200);
    assert_eq!(atlas.frames[0].slices.len(), 1);
    assert_eq!(atlas.frames[0].slices[0].bound, rect(2, 2, 3, 3));
    assert_eq!(atlas.frames[1].slices[0].bound, rect(2, 2, 3, 3));
    assert_eq!(atlas.tags, root.meta.frame_tags);
    assert_eq!(atlas.size, AsepriteSize { w: 32, h: 32 });
}

#[test]
fn resolving_twice_yields_identical_tables() {
    let root = small_sheet();
    let a1 = resolve_atlas(&root, 1);
    let a2 = resolve_atlas(&root, 1);
    assert_eq!(a1.frames, a2.frames);
    assert_eq!(a1.tags, a2.tags);
}

#[test]
fn tag_lookup_returns_frame_at_tag_start() {
    let atlas = resolve_atlas(&small_sheet(), 0);
    let f = find_first_frame_in_tag(&atlas, &"a".to_string()).unwrap();
    assert_eq!(f.duration, 200);
}

#[test]
fn tag_lookup_unknown_name_is_none() {
    let atlas = resolve_atlas(&small_sheet(), 0);
    assert!(find_first_frame_in_tag(&atlas, &"missing".to_string()).is_none());
}

#[test]
fn tag_lookup_out_of_range_start_is_none() {
    let atlas = resolve_atlas(&small_sheet(), 0);
    assert!(find_first_frame_in_tag(&atlas, &"bad".to_string()).is_none());
}

fn frame_json() -> String {
    let mut f = String::new();
    f.push_str("{\"filename\":\"f\",\"frame\":{\"x\":0,\"y\":0,\"w\":16,\"h\":16},");
    f.push_str("\"rotated\":false,\"trimmed\":false,");
    f.push_str("\"spriteSourceSize\":{\"x\":0,\"y\":0,\"w\":16,\"h\":16},");
    f.push_str("\"sourceSize\":{\"w\":16,\"h\":16},\"duration\":100}");
    f
}

fn sheet_json() -> String {
    let f = frame_json();
    let mut d = String::new();
    d.push_str("{\"frames\":[");
    d.push_str(&f);
    d.push_str(",");
    d.push_str(&f);
    d.push_str(",");
    d.push_str(&f);
    d.push_str("],\"meta\":{");
    d.push_str("\"app\":\"tool\",\"version\":\"1.0\",\"image\":\"atlas.png\",");
    d.push_str("\"format\":\"RGBA8888\",\"size\":{\"w\":32,\"h\":32},\"scale\":\"1\",");
    d.push_str("\"frameTags\":[{\"name\":\"a\",\"from\":0,\"to\":2,\"direction\":\"forward\"}],");
    d.push_str("\"slices\":[{\"name\":\"box\",\"color\":\"#0000ffff\",");
    d.push_str("\"keys\":[{\"frame\":0,\"bounds\":{\"x\":0,\"y\":0,\"w\":10,\"h\":10}},");
    d.push_str("{\"frame\":2,\"bounds\":{\"x\":5,\"y\":5,\"w\":10,\"h\":10}}],");
    d.push_str("\"from\":0,\"to\":2}]}}");
    d
}

#[test]
fn end_to_end_keyframe_interpolation() {
    let atlas = load_aseprite_atlas_bytes(sheet_json().as_bytes(), 1).unwrap();
    assert_eq!(atlas.frames.len(), 3);
    // Frame 1: the last key at or before index 1 is the key at frame 0.
    assert_eq!(atlas.frames[1].slices[0].bound, rect(0, 0, 10, 10));
    // Frame 2: the key at frame 2 applies.
    assert_eq!(atlas.frames[2].slices[0].bound, rect(5, 5, 10, 10));
    // Frame 0: the key at frame 0 applies.
    assert_eq!(atlas.frames[0].slices[0].bound, rect(0, 0, 10, 10));
    let f = find_first_frame_in_tag(&atlas, &"a".to_string()).unwrap();
    assert_eq!(f.rect, rect(0, 0, 16, 16));
}

#[test]
fn loading_twice_yields_identical_tables() {
    let bytes = sheet_json();
    let a1 = load_aseprite_atlas_bytes(bytes.as_bytes(), 1).unwrap();
    let a2 = load_aseprite_atlas_bytes(bytes.as_bytes(), 1).unwrap();
    assert_eq!(a1.frames, a2.frames);
    assert_eq!(a1.tags, a2.tags);
}

#[test]
fn malformed_json_is_invalid_json() {
    let r = load_aseprite_atlas_bytes(b"not a json document", 0);
    assert_eq!(r.unwrap_err(), LoadError::InvalidJson);
}

#[test]
fn missing_meta_is_invalid_structure() {
    let doc = format!("{{\"frames\":[{}]}}", frame_json());
    let r = load_aseprite_atlas_bytes(doc.as_bytes(), 0);
    assert_eq!(r.unwrap_err(), LoadError::InvalidStructure);
}

#[test]
fn empty_frame_array_is_no_frames() {
    let r = load_aseprite_atlas_bytes(b"{\"frames\":[],\"meta\":{}}", 0);
    assert_eq!(r.unwrap_err(), LoadError::NoFrames);
}

#[test]
fn out_of_range_tag_is_invalid_structure() {
    let doc = sheet_json().replace("\"to\":2,\"direction\"", "\"to\":9,\"direction\"");
    let r = load_aseprite_atlas_bytes(doc.as_bytes(), 0);
    assert_eq!(r.unwrap_err(), LoadError::InvalidStructure);
}

#[test]
fn fractional_duration_is_invalid_structure() {
    let doc = sheet_json().replace("\"duration\":100", "\"duration\":1.5");
    let r = load_aseprite_atlas_bytes(doc.as_bytes(), 0);
    assert_eq!(r.unwrap_err(), LoadError::InvalidStructure);
}

#[test]
fn out_of_range_number_is_invalid_structure() {
    let doc = sheet_json().replace("\"duration\":100", "\"duration\":3000000000");
    let r = load_aseprite_atlas_bytes(doc.as_bytes(), 0);
    assert_eq!(r.unwrap_err(), LoadError::InvalidStructure);
}

#[test]
fn mistyped_slice_data_is_invalid_structure() {
    let doc = sheet_json().replace("\"color\":\"#0000ffff\"", "\"color\":\"#0000ffff\",\"data\":5");
    let r = load_aseprite_atlas_bytes(doc.as_bytes(), 0);
    assert_eq!(r.unwrap_err(), LoadError::InvalidStructure);
}

#[test]
fn null_slice_data_reads_as_absent() {
    let doc = sheet_json().replace(
        "\"color\":\"#0000ffff\"",
        "\"color\":\"#0000ffff\",\"data\":null",
    );
    let atlas = load_aseprite_atlas_bytes(doc.as_bytes(), 0).unwrap();
    assert_eq!(atlas.frames[0].slices[0].data, None);
}

#[test]
fn slice_data_string_is_carried_verbatim() {
    let doc = sheet_json().replace(
        "\"color\":\"#0000ffff\"",
        "\"color\":\"#0000ffff\",\"data\":\"{\\\"pickup\\\": \\\"skull\\\"}\"",
    );
    let atlas = load_aseprite_atlas_bytes(doc.as_bytes(), 0).unwrap();
    assert_eq!(
        atlas.frames[0].slices[0].data,
        Some("{\"pickup\": \"skull\"}".to_string())
    );
}
