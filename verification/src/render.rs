//! Render-side lookups: everything the drawing collaborator asks the core,
//! as plain values — which tag to draw for a pickup or demon, where the
//! summon circle sits, which overlays apply, and how a click box should be
//! tinted. No drawing happens here.

use vstd::prelude::*;
use crate::atlas::ImageAtlas;
use crate::components::{Demon, GlobalGameState, Pickup};
use crate::engine::world_clickbox_of;
use crate::geom::{clamp_i64, sat_add, Vec2i};
use crate::store::{EntityRecord, World};

verus! {

/// The session's bootstrap state: the atlas, once loaded.
pub struct GameState {
    pub atlas: Option<ImageAtlas>,
}

impl GameState {
    /// A session before its atlas is loaded.
    pub fn new() -> (gs: GameState)
        ensures
            gs.atlas is None,
    {
        GameState { atlas: None }
    }
}

/// Whether the recipe book overlay should be drawn.
pub fn should_show_book(gs: &GlobalGameState) -> (r: bool)
    ensures
        r == gs.show_recipe_book,
{
    gs.show_recipe_book
}

/// Whether a held pickup should be drawn at the pointer.
pub fn should_draw_pickup(gs: &GlobalGameState) -> (r: bool)
    ensures
        r == (gs.pickup is Some),
{
    gs.pickup.is_some()
}

/// The tag name under which a pickup's icon is stored in the sheet.
pub open spec fn pickup_tag_name(p: Pickup) -> Seq<char> {
    match p {
        Pickup::Web {  } => "pickups/web"@,
        Pickup::Tentacle {  } => "pickups/tentacle"@,
        Pickup::Eye {  } => "pickups/eye"@,
        Pickup::Fire {  } => "pickups/fire"@,
        Pickup::Skull {  } => "pickups/skull"@,
        Pickup::Knife {  } => "pickups/knife"@,
        Pickup::Booze {  } => "pickups/booze"@,
    }
}

/// The tag to draw for a pickup. Every pickup has one.
pub fn pickup_frame_string_from_enum(p: &Pickup) -> (r: Option<String>)
    ensures
        r matches Some(s) && s@ == pickup_tag_name(*p),
{
    match p {
        Pickup::Web {  } => Some("pickups/web".to_owned()),
        Pickup::Tentacle {  } => Some("pickups/tentacle".to_owned()),
        Pickup::Eye {  } => Some("pickups/eye".to_owned()),
        Pickup::Fire {  } => Some("pickups/fire".to_owned()),
        Pickup::Skull {  } => Some("pickups/skull".to_owned()),
        Pickup::Knife {  } => Some("pickups/knife".to_owned()),
        Pickup::Booze {  } => Some("pickups/booze".to_owned()),
    }
}

/// The tag name under which a demon's sprite is stored in the sheet.
pub open spec fn demon_tag_name(d: Demon) -> Seq<char> {
    match d {
        Demon::ToothImp {  } => "demons/tooth_imp"@,
    }
}

/// The tag to draw for a demon. Every demon has one.
pub fn demon_frame_string_from_enum(d: &Demon) -> (r: Option<String>)
    ensures
        r matches Some(s) && s@ == demon_tag_name(*d),
{
    match d {
        Demon::ToothImp {  } => Some("demons/tooth_imp".to_owned()),
    }
}

/// The tag to draw at the pointer for the held pickup, if one is held.
pub fn pickup_frame_string_from_state(gs: &GlobalGameState) -> (r: Option<String>)
    ensures
        (match gs.pickup {
            Some(p) => r matches Some(s) && s@ == pickup_tag_name(p),
            None => r is None,
        }),
{
    match &gs.pickup {
        Some(p) => pickup_frame_string_from_enum(p),
        None => None,
    }
}

/// Signed halving that truncates toward zero, widened through `i128` so no
/// input can overflow.
fn half_i64(v: i64) -> (r: i64)
    ensures
        r as int == (if v >= 0 {
            (v as int) / 2
        } else {
            -((-(v as int)) / 2)
        }),
{
    if v >= 0 {
        ((v as u64) / 2) as i64
    } else {
        let m: i128 = -(v as i128);
        (-((m as u128 / 2) as i128)) as i64
    }
}

/// The center of a summon-circle entity's world box, when the entity has
/// one.
pub open spec fn slot_circle_location(s: Option<EntityRecord>) -> Option<Vec2i> {
    match s {
        Some(r) => {
            if r.is_summon_circle is Some {
                match world_clickbox_of(r) {
                    Some(b) => Some(
                        Vec2i {
                            x: clamp_i64(b.pos.x + (if b.size.x >= 0 {
                                (b.size.x as int) / 2
                            } else {
                                -((-(b.size.x as int)) / 2)
                            })) as i64,
                            y: clamp_i64(b.pos.y + (if b.size.y >= 0 {
                                (b.size.y as int) / 2
                            } else {
                                -((-(b.size.y as int)) / 2)
                            })) as i64,
                        },
                    ),
                    None => None,
                }
            } else {
                None
            }
        },
        None => None,
    }
}

/// The circle location the store yields: the first summon-circle entity
/// with a click box, in store order.
pub open spec fn first_circle_location(es: Seq<Option<EntityRecord>>) -> Option<Vec2i>
    decreases es.len(),
{
    if es.len() == 0 {
        None::<Vec2i>
    } else {
        match slot_circle_location(es[0]) {
            Some(v) => Some(v),
            None => first_circle_location(es.drop_first()),
        }
    }
}

/// Where the recipe stack is drawn: the center of the first summon-circle
/// entity's world box, if any such entity has one.
pub fn find_draw_circle_location(w: &World) -> (r: Option<Vec2i>)
    ensures
        r == first_circle_location(w.entities@),
{
    let ghost es = w.entities@;
    let n = w.entities.len();
    proof {
        assert(es.subrange(0, n as int) =~= es);
    }
    for i in 0..n
        invariant
            n == es.len(),
            es == w.entities@,
            first_circle_location(es) == first_circle_location(es.subrange(i as int, n as int)),
    {
        let slot = w.entities[i];
        proof {
            assert(es.subrange(i as int, n as int)[0] == es[i as int]);
            assert(es.subrange(i as int, n as int).drop_first() =~= es.subrange(
                (i + 1) as int,
                n as int,
            ));
        }
        match slot {
            Some(rec) => {
                if rec.is_summon_circle.is_some() {
                    match rec.click_box {
                        Some(cb) => {
                            let pos = match rec.position {
                                Some(p) => p.pos,
                                None => Vec2i { x: 0, y: 0 },
                            };
                            let bx = sat_add(cb.pos.x, pos.x);
                            let by = sat_add(cb.pos.y, pos.y);
                            let cx = sat_add(bx, half_i64(cb.size.x));
                            let cy = sat_add(by, half_i64(cb.size.y));
                            return Some(Vec2i { x: cx, y: cy });
                        },
                        None => {},
                    }
                }
            },
            None => {},
        }
    }
    None
}

/// The offset above the circle at which recipe-stack entry `i` is drawn:
/// ten world units per entry, starting one entry up, in thousandths.
pub fn recipe_stack_icon_offset(i: usize) -> (r: Vec2i)
    ensures
        r.x == 0,
        r.y as int == clamp_i64((i as int + 1) * 10000),
{
    let y: i128 = (i as i128 + 1) * 10000;
    if y > i64::MAX as i128 {
        Vec2i { x: 0, y: i64::MAX }
    } else {
        Vec2i { x: 0, y: y as i64 }
    }
}

/// A demon's draw anchor: its kinematic position, or the origin when it
/// has no motion state.
pub open spec fn demon_draw_pos(r: EntityRecord) -> Vec2i {
    match r.motion {
        Some(m) => m.position,
        None => Vec2i { x: 0, y: 0 },
    }
}

/// What a slot contributes to the demon draw list.
pub open spec fn slot_demon_entry(s: Option<EntityRecord>) -> Option<(Seq<char>, Vec2i)> {
    match s {
        Some(r) => match r.demon {
            Some(d) => Some((demon_tag_name(d), demon_draw_pos(r))),
            None => None,
        },
        None => None,
    }
}

/// The demon draw list of a store, in store order.
pub open spec fn demon_entries(es: Seq<Option<EntityRecord>>) -> Seq<(Seq<char>, Vec2i)>
    decreases es.len(),
{
    if es.len() == 0 {
        Seq::<(Seq<char>, Vec2i)>::empty()
    } else {
        let front = demon_entries(es.drop_last());
        match slot_demon_entry(es.last()) {
            Some(e) => front.push(e),
            None => front,
        }
    }
}

/// The views of a demon draw list.
pub open spec fn demon_entry_views(s: Seq<(String, Vec2i)>) -> Seq<(Seq<char>, Vec2i)> {
    s.map_values(|e: (String, Vec2i)| (e.0@, e.1))
}

/// One entry per live demon, in store order: the tag to draw and the world
/// anchor to draw it at.
pub fn demon_draw_entries(w: &World) -> (r: Vec<(String, Vec2i)>)
    ensures
        demon_entry_views(r@) == demon_entries(w.entities@),
{
    let mut out: Vec<(String, Vec2i)> = Vec::new();
    let n = w.entities.len();
    proof {
        assert(w.entities@.subrange(0, 0) =~= Seq::<Option<EntityRecord>>::empty());
        assert(demon_entry_views(out@) =~= demon_entries(w.entities@.subrange(0, 0)));
    }
    for i in 0..n
        invariant
            n == w.entities@.len(),
            demon_entry_views(out@) == demon_entries(w.entities@.subrange(0, i as int)),
    {
        proof {
            assert(w.entities@.subrange(0, (i + 1) as int).drop_last() =~= w.entities@.subrange(
                0,
                i as int,
            ));
            assert(w.entities@.subrange(0, (i + 1) as int).last() == w.entities@[i as int]);
        }
        let slot = w.entities[i];
        let ghost prev = out@;
        match slot {
            Some(rec) => {
                match rec.demon {
                    Some(d) => {
                        let name = match demon_frame_string_from_enum(&d) {
                            Some(s) => s,
                            None => {
                                return out;
                            },
                        };
                        let pos = match rec.motion {
                            Some(m) => m.position,
                            None => Vec2i { x: 0, y: 0 },
                        };
                        out.push((name, pos));
                        proof {
                            assert(demon_entry_views(out@) =~= demon_entry_views(prev).push(
                                (demon_tag_name(d), pos),
                            ));
                        }
                    },
                    None => {},
                }
            },
            None => {},
        }
    }
    proof {
        assert(w.entities@.subrange(0, n as int) =~= w.entities@);
    }
    out
}

/// Whether a slot holds a live entity marked with the losing overlay.
pub open spec fn slot_draws_no(s: Option<EntityRecord>) -> bool {
    match s {
        Some(rec) => rec.draw_no is Some,
        None => false,
    }
}

/// Whether the losing overlay should be drawn: any entity carries the
/// mark.
pub fn should_draw_no(w: &World) -> (r: bool)
    ensures
        r == (exists|i: int| 0 <= i < w.entities@.len() && #[trigger] slot_draws_no(
            w.entities@[i],
        )),
{
    let n = w.entities.len();
    for i in 0..n
        invariant
            n == w.entities@.len(),
            forall|j: int| 0 <= j < i ==> !slot_draws_no(w.entities@[j]),
    {
        let slot = w.entities[i];
        match slot {
            Some(rec) => {
                if rec.draw_no.is_some() {
                    proof {
                        assert(slot_draws_no(w.entities@[i as int]));
                    }
                    return true;
                }
            },
            None => {},
        }
    }
    false
}

/// Whether a slot holds a live entity marked with the winning overlay.
pub open spec fn slot_draws_win(s: Option<EntityRecord>) -> bool {
    match s {
        Some(rec) => rec.draw_win is Some,
        None => false,
    }
}

/// Whether the winning overlay should be drawn: any entity carries the
/// mark.
pub fn should_draw_win(w: &World) -> (r: bool)
    ensures
        r == (exists|i: int| 0 <= i < w.entities@.len() && #[trigger] slot_draws_win(
            w.entities@[i],
        )),
{
    let n = w.entities.len();
    for i in 0..n
        invariant
            n == w.entities@.len(),
            forall|j: int| 0 <= j < i ==> !slot_draws_win(w.entities@[j]),
    {
        let slot = w.entities[i];
        match slot {
            Some(rec) => {
                if rec.draw_win.is_some() {
                    proof {
                        assert(slot_draws_win(w.entities@[i as int]));
                    }
                    return true;
                }
            },
            None => {},
        }
    }
    false
}

/// How a click box should be tinted for debugging: click feedback first,
/// hover second, else neutral.
#[derive(Clone, Copy, PartialEq, Eq, Structural, Debug)]
pub enum ClickBoxTint {
    Clicked,
    Hovered,
    Plain,
}

/// The tint of the entity at `id`, from its transient click and hover
/// marks.
pub fn click_box_tint(w: &World, id: usize) -> (r: ClickBoxTint)
    ensures
        r == (match crate::engine::live_record(w.entities@, id as int) {
            Some(rec) => {
                if rec.was_clicked is Some {
                    ClickBoxTint::Clicked
                } else if rec.is_hovered is Some {
                    ClickBoxTint::Hovered
                } else {
                    ClickBoxTint::Plain
                }
            },
            None => ClickBoxTint::Plain,
        }),
{
    match w.get(id) {
        Some(rec) => {
            if rec.was_clicked.is_some() {
                ClickBoxTint::Clicked
            } else if rec.is_hovered.is_some() {
                ClickBoxTint::Hovered
            } else {
                ClickBoxTint::Plain
            }
        },
        None => ClickBoxTint::Plain,
    }
}

} // verus!
