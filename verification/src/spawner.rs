//! The level spawner: one entity per slice of the chosen background frame.
//!
//! Each entity gets a click region the size of the slice and a position
//! converting the slice's top-left, y-down sheet coordinates into the
//! centered, y-up world frame. The slice's free-form metadata then selects
//! gameplay attributes: a `"pickup"` string picks one of the seven pickups,
//! and the `"recipe_book"`, `"recipe_dropoff"` and `"summon_circle"` fields
//! mark the entity. Absent or malformed metadata never fails — it simply
//! selects nothing.

use vstd::prelude::*;
use crate::atlas::Frame;
use crate::components::{ClickBox, IsBook, IsDropoff, IsSummonCircle, Pickup, Position};
use crate::geom::{AsepriteSize, Rect, Vec2i};
use crate::json::{
    json_bool_field_of, json_from_str, json_get_bool, json_get_str, json_str_field_of,
    json_text_ok,
};
use crate::store::{EntityRecord, World};

verus! {

/// The recognized fields of a slice's free-form metadata, after reading.
#[derive(Clone, Copy, PartialEq, Eq, Structural, Debug)]
pub struct SliceProps {
    pub pickup: Option<Pickup>,
    pub is_book: bool,
    pub is_dropoff: bool,
    pub is_summon_circle: bool,
}

/// Which pickup a metadata string selects, if any.
pub open spec fn pickup_of_name(name: Seq<char>) -> Option<Pickup> {
    if name == "web"@ {
        Some(Pickup::Web {  })
    } else if name == "skull"@ {
        Some(Pickup::Skull {  })
    } else if name == "fire"@ {
        Some(Pickup::Fire {  })
    } else if name == "knife"@ {
        Some(Pickup::Knife {  })
    } else if name == "booze"@ {
        Some(Pickup::Booze {  })
    } else if name == "eye"@ {
        Some(Pickup::Eye {  })
    } else if name == "tentacle"@ {
        Some(Pickup::Tentacle {  })
    } else {
        None::<Pickup>
    }
}

/// Maps a metadata string to the pickup it names; unrecognized names select
/// nothing.
pub fn pickup_from_str(s: &String) -> (r: Option<Pickup>)
    ensures
        r == pickup_of_name(s@),
{
    let web: String = "web".to_owned();
    let skull: String = "skull".to_owned();
    let fire: String = "fire".to_owned();
    let knife: String = "knife".to_owned();
    let booze: String = "booze".to_owned();
    let eye: String = "eye".to_owned();
    let tentacle: String = "tentacle".to_owned();
    if *s == web {
        Some(Pickup::Web {  })
    } else if *s == skull {
        Some(Pickup::Skull {  })
    } else if *s == fire {
        Some(Pickup::Fire {  })
    } else if *s == knife {
        Some(Pickup::Knife {  })
    } else if *s == booze {
        Some(Pickup::Booze {  })
    } else if *s == eye {
        Some(Pickup::Eye {  })
    } else if *s == tentacle {
        Some(Pickup::Tentacle {  })
    } else {
        None
    }
}

/// The view of an optional string.
pub open spec fn opt_string_view(o: Option<String>) -> Option<Seq<char>> {
    match o {
        Some(s) => Some(s@),
        None => None,
    }
}

/// The attributes the raw field readings select: the pickup its name picks;
/// the book mark only on an explicit `true`; the drop-off and summon marks
/// on any boolean, as the authoring convention marks by mere presence.
pub open spec fn props_of_fields(
    pickup_name: Option<Seq<char>>,
    book: Option<bool>,
    dropoff: Option<bool>,
    summon: Option<bool>,
) -> SliceProps {
    SliceProps {
        pickup: match pickup_name {
            Some(n) => pickup_of_name(n),
            None => None,
        },
        is_book: book == Some(true),
        is_dropoff: dropoff is Some,
        is_summon_circle: summon is Some,
    }
}

/// Turns the raw field readings of a slice's metadata into the attribute
/// selection they stand for.
pub fn props_from_fields(
    pickup_name: &Option<String>,
    book: Option<bool>,
    dropoff: Option<bool>,
    summon: Option<bool>,
) -> (r: SliceProps)
    ensures
        r == props_of_fields(opt_string_view(*pickup_name), book, dropoff, summon),
{
    let pickup = match pickup_name {
        Some(n) => pickup_from_str(n),
        None => None,
    };
    let is_book = match book {
        Some(b) => b,
        None => false,
    };
    SliceProps { pickup, is_book, is_dropoff: dropoff.is_some(), is_summon_circle: summon.is_some() }
}

/// Signed halving that truncates toward zero, as machine division does.
pub open spec fn half_trunc(v: int) -> int {
    if v >= 0 {
        v / 2
    } else {
        -((-v) / 2)
    }
}

/// `v / 2` with truncating division, widened to `i64`.
fn half_i32(v: i32) -> (r: i64)
    ensures
        r == half_trunc(v as int),
{
    if v >= 0 {
        ((v as u32) / 2) as i64
    } else {
        let m: i64 = -(v as i64);
        -(((m as u64) / 2) as i64)
    }
}

/// The click region of a level entity: no offset, the slice's extent in
/// thousandths of a world unit.
pub open spec fn level_entity_click_box(bound: Rect) -> ClickBox {
    ClickBox {
        pos: Vec2i { x: 0, y: 0 },
        size: Vec2i { x: (bound.w as int * 1000) as i64, y: (bound.h as int * 1000) as i64 },
    }
}

/// The world position of a level entity: the slice's top-left, y-down
/// sheet coordinates recentered on the frame's untrimmed size and flipped
/// into the y-up world frame, in thousandths of a world unit.
pub open spec fn level_entity_position(bound: Rect, source: AsepriteSize) -> Position {
    Position {
        pos: Vec2i {
            x: ((bound.x as int - half_trunc(source.w as int)) * 1000) as i64,
            y: ((-(bound.y as int) + half_trunc(source.h as int) - bound.h as int) * 1000) as i64,
        },
    }
}

/// The geometry-only record a slice spawns, before its metadata is read.
pub open spec fn level_entity_base(bound: Rect, source: AsepriteSize) -> EntityRecord {
    EntityRecord {
        click_box: Some(level_entity_click_box(bound)),
        position: Some(level_entity_position(bound, source)),
        ..EntityRecord::empty_spec()
    }
}

/// A record after the attribute selection `props` is attached: a selected
/// attribute is set, an unselected one keeps whatever the record had.
pub open spec fn apply_props(r: EntityRecord, props: SliceProps) -> EntityRecord {
    EntityRecord {
        pickup: if props.pickup is Some {
            props.pickup
        } else {
            r.pickup
        },
        is_book: if props.is_book {
            Some(IsBook {  })
        } else {
            r.is_book
        },
        is_dropoff: if props.is_dropoff {
            Some(IsDropoff {  })
        } else {
            r.is_dropoff
        },
        is_summon_circle: if props.is_summon_circle {
            Some(IsSummonCircle {  })
        } else {
            r.is_summon_circle
        },
        ..r
    }
}

/// Attaches to `r` the attributes that `props` selects.
fn apply_props_exec(r: EntityRecord, props: &SliceProps) -> (out: EntityRecord)
    ensures
        out == apply_props(r, *props),
{
    let mut out = r;
    if props.pickup.is_some() {
        out.pickup = props.pickup;
    }
    if props.is_book {
        out.is_book = Some(IsBook {  });
    }
    if props.is_dropoff {
        out.is_dropoff = Some(IsDropoff {  });
    }
    if props.is_summon_circle {
        out.is_summon_circle = Some(IsSummonCircle {  });
    }
    out
}

/// The attribute selection a slice's structured metadata value makes,
/// through the named field readings: the `"pickup"` string and the
/// `"recipe_book"`, `"recipe_dropoff"` and `"summon_circle"` booleans.
pub open spec fn props_of_value(v: serde_json::Value) -> SliceProps {
    props_of_fields(
        json_str_field_of(v, "pickup"@),
        json_bool_field_of(v, "recipe_book"@),
        json_bool_field_of(v, "recipe_dropoff"@),
        json_bool_field_of(v, "summon_circle"@),
    )
}

/// Reads the recognized fields out of a slice's structured metadata value
/// and attaches exactly the attributes they select to the entity at `id`;
/// unrecognized fields are ignored.
pub fn properties_from_aseprite_data(w: &mut World, id: usize, value: &serde_json::Value)
    requires
        id < old(w).entities@.len(),
        old(w).entities@[id as int] is Some,
    ensures
        final(w).entities@ == old(w).entities@.update(
            id as int,
            Some(apply_props(old(w).entities@[id as int].unwrap(), props_of_value(*value))),
        ),
{
    let pickup_name = json_get_str(value, "pickup");
    let book = json_get_bool(value, "recipe_book");
    let dropoff = json_get_bool(value, "recipe_dropoff");
    let summon = json_get_bool(value, "summon_circle");
    let props = props_from_fields(&pickup_name, book, dropoff, summon);
    proof {
        assert(opt_string_view(pickup_name) == json_str_field_of(*value, "pickup"@));
        assert(props == props_of_value(*value));
    }
    let rec = w.entities[id].unwrap();
    w.entities[id] = Some(apply_props_exec(rec, &props));
}

/// Whether a slot holds a level entity spawned for a slice with bounds
/// `bound` on a frame of untrimmed size `source`: the fixed geometry, plus
/// some attribute selection its metadata made.
pub open spec fn is_level_entity_for(
    s: Option<EntityRecord>,
    bound: Rect,
    source: AsepriteSize,
) -> bool {
    exists|props: SliceProps|
        s == Some(#[trigger] apply_props(level_entity_base(bound, source), props))
}

/// Whether a slice carries metadata that is present but not a valid JSON
/// document; such metadata is read defensively and selects nothing.
pub open spec fn metadata_unparseable(data: Option<String>) -> bool {
    match data {
        Some(d) => !json_text_ok(d@),
        None => false,
    }
}

/// Spawns one entity per slice of the chosen background frame: entity `k`
/// is appended in slice order and carries the click region and world
/// position derived from slice `k`'s bounds, plus whatever attributes its
/// metadata selects. Existing entities are untouched.
pub fn spawn_level(w: &mut World, frame: &Frame)
    ensures
        final(w).entities@.len() == old(w).entities@.len() + frame.slices@.len(),
        forall|j: int|
            0 <= j < old(w).entities@.len() ==> final(w).entities@[j] == old(w).entities@[j],
        forall|k: int|
            0 <= k < frame.slices@.len() ==> is_level_entity_for(
                #[trigger] final(w).entities@[old(w).entities@.len() + k],
                frame.slices@[k].bound,
                frame.source_size,
            ),
        forall|k: int|
            0 <= k < frame.slices@.len() && (frame.slices@[k].data is None
                || metadata_unparseable(frame.slices@[k].data))
                ==> final(w).entities@[old(w).entities@.len() + k] == Some(
                #[trigger] level_entity_base(frame.slices@[k].bound, frame.source_size),
            ),
{
    let ghost base_len = w.entities@.len();
    let n = frame.slices.len();
    for k in 0..n
        invariant
            n == frame.slices@.len(),
            w.entities@.len() == base_len + k,
            base_len == old(w).entities@.len(),
            forall|j: int| 0 <= j < base_len ==> w.entities@[j] == old(w).entities@[j],
            forall|kk: int|
                0 <= kk < k ==> is_level_entity_for(
                    #[trigger] w.entities@[base_len + kk],
                    frame.slices@[kk].bound,
                    frame.source_size,
                ),
            forall|kk: int|
                0 <= kk < k && (frame.slices@[kk].data is None || metadata_unparseable(
                    frame.slices@[kk].data,
                )) ==> w.entities@[base_len + kk] == Some(
                    #[trigger] level_entity_base(frame.slices@[kk].bound, frame.source_size),
                ),
    {
        let s = &frame.slices[k];
        let size_x = (s.bound.w as i64) * 1000;
        let size_y = (s.bound.h as i64) * 1000;
        let pos_x = ((s.bound.x as i64) - half_i32(frame.source_size.w)) * 1000;
        let pos_y = (-(s.bound.y as i64) + half_i32(frame.source_size.h) - (s.bound.h as i64))
            * 1000;
        let mut base = EntityRecord::empty();
        base.click_box = Some(
            ClickBox { pos: Vec2i { x: 0, y: 0 }, size: Vec2i { x: size_x, y: size_y } },
        );
        base.position = Some(Position { pos: Vec2i { x: pos_x, y: pos_y } });
        proof {
            assert(base == level_entity_base(s.bound, frame.source_size));
        }
        let id = w.spawn(base);
        let parsed: Option<serde_json::Value> = match &s.data {
            Some(d) => json_from_str(d.as_str()),
            None => None,
        };
        match &parsed {
            Some(v) => {
                properties_from_aseprite_data(w, id, v);
            },
            None => {
                proof {
                    let ghost empty_props = SliceProps {
                        pickup: None,
                        is_book: false,
                        is_dropoff: false,
                        is_summon_circle: false,
                    };
                    assert(w.entities@[base_len + k as int] == Some(
                        apply_props(level_entity_base(s.bound, frame.source_size), empty_props),
                    ));
                }
            },
        }
    }
}

} // verus!
