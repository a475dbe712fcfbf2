//! The per-tick interaction engine.
//!
//! Each pass reads pointer input and the tick's elapsed milliseconds as plain
//! values and rewrites the entity store; `run_tick` runs every pass exactly
//! once, in the fixed order that later passes depend on: click cool-down,
//! press detection, hover detection, pickup drag, recipe-book toggle,
//! recipe-stack threshold, lifetime expiry, motion integration. The caller
//! polls the platform and hands in the tick's plain values.

use vstd::prelude::*;
use crate::components::{
    ClickBox, Demon, GlobalGameState, IsHovered, Lifetime, Motion, Pickup, Position, VisualEffect,
    WasClicked,
};
use crate::geom::{clamp_i64, is_point_inside_box, point_in_box, sat_add, trunc_div_1000, Vec2i};
use crate::store::{EntityRecord, World};

verus! {

/// What the pointer did this tick: its world position, and whether the
/// button went down or up during the tick.
#[derive(Clone, Copy, PartialEq, Eq, Structural, Debug)]
pub struct PointerState {
    pub world: Vec2i,
    pub pressed: bool,
    pub released: bool,
}

/// Milliseconds of click feedback attached when a press lands inside an
/// entity's world box.
pub const CLICK_COOLDOWN_MS: i64 = 500;

/// An entity's world anchor: its position attribute, or the origin when the
/// attribute is absent.
pub open spec fn anchor_of(r: EntityRecord) -> Vec2i {
    match r.position {
        Some(p) => p.pos,
        None => Vec2i { x: 0, y: 0 },
    }
}

/// The world-space box of `model_box` anchored at `pos`; coordinates
/// saturate at the `i64` range.
pub open spec fn world_box_spec(model_box: ClickBox, pos: Vec2i) -> ClickBox {
    ClickBox {
        pos: Vec2i {
            x: clamp_i64(model_box.pos.x + pos.x) as i64,
            y: clamp_i64(model_box.pos.y + pos.y) as i64,
        },
        size: model_box.size,
    }
}

/// Translates a local click region to world space.
pub fn get_world_click_box(model_box: &ClickBox, pos: &Vec2i) -> (r: ClickBox)
    ensures
        r == world_box_spec(*model_box, *pos),
{
    ClickBox {
        pos: Vec2i { x: sat_add(model_box.pos.x, pos.x), y: sat_add(model_box.pos.y, pos.y) },
        size: model_box.size,
    }
}

/// The record stored at `id`, or `None` for an out-of-range or despawned
/// index.
pub open spec fn live_record(es: Seq<Option<EntityRecord>>, id: int) -> Option<EntityRecord> {
    if 0 <= id < es.len() {
        es[id]
    } else {
        None
    }
}

/// The world box of record `r`, when it is clickable at all.
pub open spec fn world_clickbox_of(r: EntityRecord) -> Option<ClickBox> {
    match r.click_box {
        Some(cb) => Some(world_box_spec(cb, anchor_of(r))),
        None => None,
    }
}

/// The world box of the entity at `id`: its click region anchored at its
/// position (or at the origin when it has no position attribute).
pub fn world_clickbox_from_id(w: &World, id: usize) -> (r: Option<ClickBox>)
    ensures
        r == (match live_record(w.entities@, id as int) {
            Some(rec) => world_clickbox_of(rec),
            None => None,
        }),
{
    match w.get(id) {
        Some(rec) => {
            match rec.click_box {
                Some(cb) => {
                    let pos = match rec.position {
                        Some(p) => p.pos,
                        None => Vec2i { x: 0, y: 0 },
                    };
                    Some(get_world_click_box(&cb, &pos))
                },
                None => None,
            }
        },
        None => None,
    }
}

/// Whether the entity at `id` carries click feedback this tick.
pub open spec fn clicked_at(es: Seq<Option<EntityRecord>>, id: int) -> bool {
    match live_record(es, id) {
        Some(rec) => rec.was_clicked is Some,
        None => false,
    }
}

/// Whether the entity at `id` was clicked (carries `WasClicked`).
pub fn is_clicked(w: &World, id: usize) -> (r: bool)
    ensures
        r == clicked_at(w.entities@, id as int),
{
    match w.get(id) {
        Some(rec) => rec.was_clicked.is_some(),
        None => false,
    }
}

/// Whether the pointer at `m` lands inside `r`'s world box.
pub open spec fn pointer_hit(r: EntityRecord, m: Vec2i) -> bool {
    match world_clickbox_of(r) {
        Some(cb) => point_in_box(cb.pos, cb.size, m),
        None => false,
    }
}

/// The click cool-down pass on one record: the feedback attribute is removed
/// unconditionally every tick, whatever time remains.
pub open spec fn cooldown_step(r: EntityRecord) -> EntityRecord {
    EntityRecord { was_clicked: None, ..r }
}

/// The cool-down pass on one slot.
pub open spec fn cooldown_slot(s: Option<EntityRecord>) -> Option<EntityRecord> {
    match s {
        Some(r) => Some(cooldown_step(r)),
        None => None,
    }
}

/// The press pass on one record: a press inside the world box attaches fresh
/// click feedback.
pub open spec fn press_step(r: EntityRecord, m: Vec2i) -> EntityRecord {
    if pointer_hit(r, m) {
        EntityRecord {
            was_clicked: Some(WasClicked { time: CLICK_COOLDOWN_MS, duration: CLICK_COOLDOWN_MS }),
            ..r
        }
    } else {
        r
    }
}

/// The press pass on one slot, applied only on a press edge.
pub open spec fn press_pass(s: Option<EntityRecord>, p: PointerState) -> Option<EntityRecord> {
    if p.pressed {
        match s {
            Some(r) => Some(press_step(r, p.world)),
            None => None,
        }
    } else {
        s
    }
}

/// The hover pass on one record: a clickable entity is marked hovered
/// exactly while the pointer overlaps its world box; entities without a
/// click region keep whatever hover mark they had.
pub open spec fn hover_step(r: EntityRecord, m: Vec2i) -> EntityRecord {
    match r.click_box {
        Some(_) => if pointer_hit(r, m) {
            EntityRecord { is_hovered: Some(IsHovered {  }), ..r }
        } else {
            EntityRecord { is_hovered: None, ..r }
        },
        None => r,
    }
}

/// The hover pass on one slot.
pub open spec fn hover_slot(s: Option<EntityRecord>, m: Vec2i) -> Option<EntityRecord> {
    match s {
        Some(r) => Some(hover_step(r, m)),
        None => None,
    }
}

/// One whole clickable pass on one slot: cool-down, then press, then hover.
pub open spec fn clickable_slot(s: Option<EntityRecord>, p: PointerState) -> Option<
    EntityRecord,
> {
    hover_slot(press_pass(cooldown_slot(s), p), p.world)
}

/// Removes click feedback from every entity. The remaining time would be
/// decremented by the tick's milliseconds first, but the attribute is
/// removed unconditionally in the same pass, so the feedback never outlives
/// the tick it was attached on.
pub fn handle_was_clicked_cool_down(w: &mut World, dt: i64)
    requires
        dt >= 0,
    ensures
        final(w).entities@.len() == old(w).entities@.len(),
        forall|j: int|
            0 <= j < old(w).entities@.len() ==> final(w).entities@[j] == cooldown_slot(
                old(w).entities@[j],
            ),
{
    let n = w.entities.len();
    for i in 0..n
        invariant
            w.entities@.len() == n,
            n == old(w).entities@.len(),
            forall|j: int| 0 <= j < i ==> w.entities@[j] == cooldown_slot(old(w).entities@[j]),
            forall|j: int| i <= j < n ==> w.entities@[j] == old(w).entities@[j],
    {
        let slot = w.entities[i];
        match slot {
            Some(rec) => {
                w.entities[i] = Some(EntityRecord { was_clicked: None, ..rec });
            },
            None => {},
        }
    }
}

/// On a press edge, attaches fresh click feedback to every entity whose
/// world box contains the pointer; does nothing otherwise.
pub fn handle_mouse_pressed(w: &mut World, pointer: &PointerState)
    ensures
        final(w).entities@.len() == old(w).entities@.len(),
        forall|j: int|
            0 <= j < old(w).entities@.len() ==> final(w).entities@[j] == press_pass(
                old(w).entities@[j],
                *pointer,
            ),
{
    if !pointer.pressed {
        return ;
    }
    let n = w.entities.len();
    for i in 0..n
        invariant
            pointer.pressed,
            w.entities@.len() == n,
            n == old(w).entities@.len(),
            forall|j: int|
                0 <= j < i ==> w.entities@[j] == press_pass(old(w).entities@[j], *pointer),
            forall|j: int| i <= j < n ==> w.entities@[j] == old(w).entities@[j],
    {
        let slot = w.entities[i];
        match slot {
            Some(rec) => {
                match rec.click_box {
                    Some(cb) => {
                        let pos = match rec.position {
                            Some(p) => p.pos,
                            None => Vec2i { x: 0, y: 0 },
                        };
                        let world_box = get_world_click_box(&cb, &pos);
                        if is_point_inside_box(&world_box.pos, &world_box.size, &pointer.world) {
                            w.entities[i] = Some(
                                EntityRecord {
                                    was_clicked: Some(
                                        WasClicked {
                                            time: CLICK_COOLDOWN_MS,
                                            duration: CLICK_COOLDOWN_MS,
                                        },
                                    ),
                                    ..rec
                                },
                            );
                        }
                    },
                    None => {},
                }
            },
            None => {},
        }
    }
}

/// Marks every clickable entity as hovered exactly while the pointer
/// overlaps its world box.
pub fn handle_mouse_hover(w: &mut World, pointer: &PointerState)
    ensures
        final(w).entities@.len() == old(w).entities@.len(),
        forall|j: int|
            0 <= j < old(w).entities@.len() ==> final(w).entities@[j] == hover_slot(
                old(w).entities@[j],
                pointer.world,
            ),
{
    let n = w.entities.len();
    for i in 0..n
        invariant
            w.entities@.len() == n,
            n == old(w).entities@.len(),
            forall|j: int|
                0 <= j < i ==> w.entities@[j] == hover_slot(old(w).entities@[j], pointer.world),
            forall|j: int| i <= j < n ==> w.entities@[j] == old(w).entities@[j],
    {
        let slot = w.entities[i];
        match slot {
            Some(rec) => {
                match rec.click_box {
                    Some(cb) => {
                        let pos = match rec.position {
                            Some(p) => p.pos,
                            None => Vec2i { x: 0, y: 0 },
                        };
                        let world_box = get_world_click_box(&cb, &pos);
                        if is_point_inside_box(&world_box.pos, &world_box.size, &pointer.world) {
                            w.entities[i] = Some(
                                EntityRecord { is_hovered: Some(IsHovered {  }), ..rec },
                            );
                        } else {
                            w.entities[i] = Some(EntityRecord { is_hovered: None, ..rec });
                        }
                    },
                    None => {},
                }
            },
            None => {},
        }
    }
}

/// The clickable pass of a tick, in order: click cool-down, press
/// detection, hover detection.
pub fn clickable_spin(w: &mut World, pointer: &PointerState, dt: i64)
    requires
        dt >= 0,
    ensures
        final(w).entities@.len() == old(w).entities@.len(),
        forall|j: int|
            0 <= j < old(w).entities@.len() ==> final(w).entities@[j] == clickable_slot(
                old(w).entities@[j],
                *pointer,
            ),
{
    handle_was_clicked_cool_down(w, dt);
    handle_mouse_pressed(w, pointer);
    handle_mouse_hover(w, pointer);
}

/// How many recipe items trigger a summon.
pub const RECIPE_THRESHOLD: usize = 3;

/// Milliseconds a summoned demon and its visual effect live.
pub const SUMMON_LIFETIME_MS: i64 = 2000;

/// Whether the slot holds a live entity that carries a pickup and was
/// clicked this tick.
pub open spec fn clicked_pickup_slot(s: Option<EntityRecord>) -> bool {
    match s {
        Some(r) => r.pickup is Some && r.was_clicked is Some,
        None => false,
    }
}

/// The pickup of the first (lowest-index) clicked pickup carrier, in store
/// order.
pub open spec fn first_clicked_pickup(es: Seq<Option<EntityRecord>>) -> Option<Pickup>
    decreases es.len(),
{
    if es.len() == 0 {
        None::<Pickup>
    } else if clicked_pickup_slot(es[0]) {
        es[0].unwrap().pickup
    } else {
        first_clicked_pickup(es.drop_first())
    }
}

/// The pickup of a clicked pickup carrier, if any entity is one this tick.
/// When several were clicked the same tick, the lowest store index wins.
pub fn was_something_picked_up(w: &World) -> (r: Option<Pickup>)
    ensures
        r == first_clicked_pickup(w.entities@),
{
    let ghost es = w.entities@;
    let n = w.entities.len();
    proof {
        assert(es.subrange(0, n as int) =~= es);
    }
    for i in 0..n
        invariant
            n == es.len(),
            es == w.entities@,
            first_clicked_pickup(es) == first_clicked_pickup(
                es.subrange(i as int, n as int),
            ),
    {
        let slot = w.entities[i];
        proof {
            assert(es.subrange(i as int, n as int)[0] == es[i as int]);
            assert(es.subrange(i as int, n as int).drop_first() =~= es.subrange(
                (i + 1) as int,
                n as int,
            ));
        }
        match slot {
            Some(rec) => {
                if rec.pickup.is_some() && rec.was_clicked.is_some() {
                    return rec.pickup;
                }
            },
            None => {},
        }
    }
    proof {
        assert(es.subrange(n as int, n as int).len() == 0);
    }
    None
}

/// Whether the slot holds a live drop-off entity whose world box contains
/// the pointer.
pub open spec fn dropoff_hit(s: Option<EntityRecord>, m: Vec2i) -> bool {
    match s {
        Some(r) => r.is_dropoff is Some && pointer_hit(r, m),
        None => false,
    }
}

/// Whether the pointer is over any drop-off entity.
pub open spec fn pointer_over_dropoff(es: Seq<Option<EntityRecord>>, m: Vec2i) -> bool {
    exists|i: int| 0 <= i < es.len() && #[trigger] dropoff_hit(es[i], m)
}

/// Whether the pointer at `m` is over any entity marked as a recipe
/// drop-off.
pub fn is_mouse_inside_summon_circle(w: &World, m: &Vec2i) -> (r: bool)
    ensures
        r == pointer_over_dropoff(w.entities@, *m),
{
    let n = w.entities.len();
    for i in 0..n
        invariant
            n == w.entities@.len(),
            forall|j: int| 0 <= j < i ==> !dropoff_hit(w.entities@[j], *m),
    {
        let slot = w.entities[i];
        match slot {
            Some(rec) => {
                if rec.is_dropoff.is_some() {
                    match world_clickbox_from_id(w, i) {
                        Some(world_box) => {
                            if is_point_inside_box(&world_box.pos, &world_box.size, m) {
                                proof {
                                    assert(dropoff_hit(w.entities@[i as int], *m));
                                }
                                return true;
                            }
                        },
                        None => {},
                    }
                }
            },
            None => {},
        }
    }
    false
}

/// Returns the pickup currently held by the session, if any.
pub fn get_pickup_from_state(gs: &GlobalGameState) -> (r: Option<Pickup>)
    ensures
        r == gs.pickup,
{
    gs.pickup
}

/// The held pickup after the pickup-drag pass: a clicked pickup carrier
/// replaces the held one, and any release clears the hand.
pub open spec fn pickup_after_spin(
    es: Seq<Option<EntityRecord>>,
    gs: GlobalGameState,
    p: PointerState,
) -> Option<Pickup> {
    let grabbed = if first_clicked_pickup(es) is Some {
        first_clicked_pickup(es)
    } else {
        gs.pickup
    };
    if p.released {
        None
    } else {
        grabbed
    }
}

/// The recipe stack after the pickup-drag pass: a release over a drop-off
/// appends the held pickup.
pub open spec fn stack_after_spin(
    es: Seq<Option<EntityRecord>>,
    gs: GlobalGameState,
    p: PointerState,
) -> Seq<Pickup> {
    let grabbed = if first_clicked_pickup(es) is Some {
        first_clicked_pickup(es)
    } else {
        gs.pickup
    };
    if p.released && grabbed is Some && pointer_over_dropoff(es, p.world) {
        gs.recipe_stack@.push(grabbed.unwrap())
    } else {
        gs.recipe_stack@
    }
}

/// The pickup-drag pass: picking up a clicked pickup carrier, and dropping
/// the held pickup onto the recipe stack when released over a drop-off.
pub fn pickup_spin(w: &World, gs: &mut GlobalGameState, pointer: &PointerState)
    ensures
        final(gs).pickup == pickup_after_spin(w.entities@, *old(gs), *pointer),
        final(gs).recipe_stack@ == stack_after_spin(w.entities@, *old(gs), *pointer),
        final(gs).show_recipe_book == old(gs).show_recipe_book,
{
    let maybe_pickup = was_something_picked_up(w);
    if maybe_pickup.is_some() {
        gs.pickup = maybe_pickup;
    }
    if pointer.released {
        let held = gs.pickup;
        let should_append = is_mouse_inside_summon_circle(w, &pointer.world);
        gs.pickup = None;
        if held.is_some() && should_append {
            let p = held.unwrap();
            gs.recipe_stack.push(p);
        }
    }
}

/// Whether the slot holds a live book entity that was clicked this tick.
pub open spec fn book_clicked_slot(s: Option<EntityRecord>) -> bool {
    match s {
        Some(r) => r.is_book is Some && r.was_clicked is Some,
        None => false,
    }
}

/// Whether any book entity was clicked this tick.
pub open spec fn book_clicked(es: Seq<Option<EntityRecord>>) -> bool {
    exists|i: int| 0 <= i < es.len() && #[trigger] book_clicked_slot(es[i])
}

/// Whether any entity marked as the recipe book was clicked this tick.
pub fn was_recipe_book_clicked(w: &World) -> (r: bool)
    ensures
        r == book_clicked(w.entities@),
{
    let n = w.entities.len();
    for i in 0..n
        invariant
            n == w.entities@.len(),
            forall|j: int| 0 <= j < i ==> !book_clicked_slot(w.entities@[j]),
    {
        let slot = w.entities[i];
        match slot {
            Some(rec) => {
                if rec.is_book.is_some() && rec.was_clicked.is_some() {
                    proof {
                        assert(book_clicked_slot(w.entities@[i as int]));
                    }
                    return true;
                }
            },
            None => {},
        }
    }
    false
}

/// Whether the recipe book is shown after the book pass: a click on the
/// book opens it and takes priority, within the tick, over the clearing
/// that any press performs.
pub open spec fn show_book_after_spin(
    es: Seq<Option<EntityRecord>>,
    show: bool,
    p: PointerState,
) -> bool {
    if book_clicked(es) {
        true
    } else if p.pressed {
        false
    } else {
        show
    }
}

/// The recipe-book pass: any press first closes the book; a click on a
/// book entity then opens it.
pub fn recipe_book_spin(w: &World, gs: &mut GlobalGameState, pointer: &PointerState)
    ensures
        final(gs).show_recipe_book == show_book_after_spin(
            w.entities@,
            old(gs).show_recipe_book,
            *pointer,
        ),
        final(gs).pickup == old(gs).pickup,
        final(gs).recipe_stack@ == old(gs).recipe_stack@,
{
    if pointer.pressed {
        gs.show_recipe_book = false;
    }
    if !was_recipe_book_clicked(w) {
        return ;
    }
    gs.show_recipe_book = true;
}

/// The combined interactable pass: pickup drag, then recipe-book toggle.
pub fn interactable_spin(w: &World, gs: &mut GlobalGameState, pointer: &PointerState)
    ensures
        final(gs).pickup == pickup_after_spin(w.entities@, *old(gs), *pointer),
        final(gs).recipe_stack@ == stack_after_spin(w.entities@, *old(gs), *pointer),
        final(gs).show_recipe_book == show_book_after_spin(
            w.entities@,
            old(gs).show_recipe_book,
            *pointer,
        ),
{
    pickup_spin(w, gs, pointer);
    recipe_book_spin(w, gs, pointer);
}

/// A copy of the session's recipe stack, oldest drop first.
pub fn get_recipe_stack(gs: &GlobalGameState) -> (r: Vec<Pickup>)
    ensures
        r@ == gs.recipe_stack@,
{
    let mut out: Vec<Pickup> = Vec::new();
    let n = gs.recipe_stack.len();
    for i in 0..n
        invariant
            n == gs.recipe_stack@.len(),
            out@ == gs.recipe_stack@.subrange(0, i as int),
    {
        out.push(gs.recipe_stack[i]);
        proof {
            assert(out@ =~= gs.recipe_stack@.subrange(0, (i + 1) as int));
        }
    }
    proof {
        assert(gs.recipe_stack@.subrange(0, n as int) =~= gs.recipe_stack@);
    }
    out
}

/// The transient visual burst a completed recipe spawns: it sits at the
/// fixed summon point and expires on its own.
pub open spec fn summon_effect_record() -> EntityRecord {
    EntityRecord {
        position: Some(Position { pos: Vec2i { x: 10000, y: 0 } }),
        lifetime: Some(Lifetime { time: 0, duration: SUMMON_LIFETIME_MS }),
        effect: Some(VisualEffect {  }),
        ..EntityRecord::empty_spec()
    }
}

/// The demon a completed recipe spawns, thrown from the fixed summon point
/// with the randomized launch components `rx` and `ry` (in thousandths),
/// under constant downward gravity.
pub open spec fn summon_demon_record(rx: i64, ry: i64) -> EntityRecord {
    EntityRecord {
        demon: Some(Demon::ToothImp {  }),
        lifetime: Some(Lifetime { time: 0, duration: SUMMON_LIFETIME_MS }),
        motion: Some(
            Motion {
                position: Vec2i { x: 10000, y: 0 },
                velocity: Vec2i { x: (rx * 200) as i64, y: (ry * 200) as i64 },
                gravity: Vec2i { x: 0, y: (-300000) as i64 },
            },
        ),
        ..EntityRecord::empty_spec()
    }
}

/// The recipe-stack pass: once the stack holds at least three pickups, it
/// is cleared and one visual-effect entity and one demon are spawned, in
/// that order. `rx` and `ry` are the randomized launch components the
/// caller drew from its random source, scaled by 1000: `rx` from [-1, 1]
/// and `ry` from [0, 1].
pub fn recipe_stack_spin(w: &mut World, gs: &mut GlobalGameState, rx: i64, ry: i64)
    requires
        -1000 <= rx <= 1000,
        0 <= ry <= 1000,
    ensures
        (if old(gs).recipe_stack@.len() >= RECIPE_THRESHOLD {
            final(gs).recipe_stack@.len() == 0 && final(w).entities@ == old(w).entities@.push(
                Some(summon_effect_record()),
            ).push(Some(summon_demon_record(rx, ry)))
        } else {
            final(gs).recipe_stack@ == old(gs).recipe_stack@ && final(w).entities@ == old(
                w,
            ).entities@
        }),
        final(gs).pickup == old(gs).pickup,
        final(gs).show_recipe_book == old(gs).show_recipe_book,
{
    if RECIPE_THRESHOLD <= gs.recipe_stack.len() {
        gs.recipe_stack.clear();

        let mut effect = EntityRecord::empty();
        effect.position = Some(Position { pos: Vec2i { x: 10000, y: 0 } });
        effect.lifetime = Some(Lifetime { time: 0, duration: SUMMON_LIFETIME_MS });
        effect.effect = Some(VisualEffect {  });
        let _ = w.spawn(effect);

        let mut demon = EntityRecord::empty();
        demon.demon = Some(Demon::ToothImp {  });
        demon.lifetime = Some(Lifetime { time: 0, duration: SUMMON_LIFETIME_MS });
        demon.motion = Some(
            Motion {
                position: Vec2i { x: 10000, y: 0 },
                velocity: Vec2i { x: rx * 200, y: ry * 200 },
                gravity: Vec2i { x: 0, y: -300000 },
            },
        );
        let _ = w.spawn(demon);
    }
}

/// The lifetime pass on one slot: elapsed time advances by the tick's
/// milliseconds (saturating at the `i64` range) and the entity is despawned
/// once it reaches its duration.
pub open spec fn lifetime_slot(s: Option<EntityRecord>, dt: int) -> Option<EntityRecord> {
    match s {
        Some(rec) => match rec.lifetime {
            Some(l) => if l.duration <= clamp_i64(l.time + dt) {
                None
            } else {
                Some(
                    EntityRecord {
                        lifetime: Some(
                            Lifetime { time: clamp_i64(l.time + dt) as i64, duration: l.duration },
                        ),
                        ..rec
                    },
                )
            },
            None => Some(rec),
        },
        None => None,
    }
}

/// The lifetime pass: every entity with a lifetime advances its elapsed
/// time by `dt` milliseconds and is despawned once `duration <= elapsed`.
#[allow(non_snake_case)]
pub fn Lifetime_spin(w: &mut World, dt: i64)
    requires
        dt >= 0,
    ensures
        final(w).entities@.len() == old(w).entities@.len(),
        forall|j: int|
            0 <= j < old(w).entities@.len() ==> final(w).entities@[j] == lifetime_slot(
                old(w).entities@[j],
                dt as int,
            ),
{
    let n = w.entities.len();
    for i in 0..n
        invariant
            w.entities@.len() == n,
            n == old(w).entities@.len(),
            forall|j: int|
                0 <= j < i ==> w.entities@[j] == lifetime_slot(old(w).entities@[j], dt as int),
            forall|j: int| i <= j < n ==> w.entities@[j] == old(w).entities@[j],
    {
        let slot = w.entities[i];
        match slot {
            Some(rec) => {
                match rec.lifetime {
                    Some(l) => {
                        let t = sat_add(l.time, dt);
                        if l.duration <= t {
                            w.entities[i] = None;
                        } else {
                            w.entities[i] = Some(
                                EntityRecord {
                                    lifetime: Some(Lifetime { time: t, duration: l.duration }),
                                    ..rec
                                },
                            );
                        }
                    },
                    None => {},
                }
            },
            None => {},
        }
    }
}

/// One velocity or position axis advanced by `delta * dt / 1000` with
/// truncating division, saturating at the `i64` range.
pub open spec fn integrate_axis(v: int, delta: int, dt: int) -> int {
    clamp_i64(v + clamp_i64(trunc_div_1000(delta * dt)))
}

/// Semi-implicit Euler over one tick of `dt` milliseconds: velocity first
/// absorbs gravity, then the updated velocity moves the position.
pub open spec fn motion_step(m: Motion, dt: int) -> Motion {
    let vx = integrate_axis(m.velocity.x as int, m.gravity.x as int, dt);
    let vy = integrate_axis(m.velocity.y as int, m.gravity.y as int, dt);
    let px = integrate_axis(m.position.x as int, vx, dt);
    let py = integrate_axis(m.position.y as int, vy, dt);
    Motion {
        position: Vec2i { x: px as i64, y: py as i64 },
        velocity: Vec2i { x: vx as i64, y: vy as i64 },
        gravity: m.gravity,
    }
}

/// The motion pass on one slot.
pub open spec fn motion_slot(s: Option<EntityRecord>, dt: int) -> Option<EntityRecord> {
    match s {
        Some(rec) => match rec.motion {
            Some(m) => Some(EntityRecord { motion: Some(motion_step(m, dt)), ..rec }),
            None => Some(rec),
        },
        None => None,
    }
}

/// `a * dt / 1000` with machine (truncating) division, saturating at the
/// `i64` range.
fn scaled_step(a: i64, dt: i64) -> (r: i64)
    ensures
        r as int == clamp_i64(trunc_div_1000(a as int * dt as int)),
{
    proof {
        assert((a as int) * (dt as int) <= 0x40000000000000000000000000000000 && -(
        0x40000000000000000000000000000000) <= (a as int) * (dt as int)) by (nonlinear_arith)
            requires
                -0x8000000000000000 <= a as int <= 0x7fffffffffffffff,
                -0x8000000000000000 <= dt as int <= 0x7fffffffffffffff,
        ;
    }
    let prod: i128 = (a as i128) * (dt as i128);
    let q: i128 = if prod >= 0 {
        ((prod as u128) / 1000) as i128
    } else {
        -(((-prod) as u128 / 1000) as i128)
    };
    if q > i64::MAX as i128 {
        i64::MAX
    } else if q < i64::MIN as i128 {
        i64::MIN
    } else {
        q as i64
    }
}

/// The motion pass: every entity with kinematic state advances one tick of
/// `dt` milliseconds by semi-implicit Euler integration.
pub fn motion_spin(w: &mut World, dt: i64)
    requires
        dt >= 0,
    ensures
        final(w).entities@.len() == old(w).entities@.len(),
        forall|j: int|
            0 <= j < old(w).entities@.len() ==> final(w).entities@[j] == motion_slot(
                old(w).entities@[j],
                dt as int,
            ),
{
    let n = w.entities.len();
    for i in 0..n
        invariant
            w.entities@.len() == n,
            n == old(w).entities@.len(),
            forall|j: int|
                0 <= j < i ==> w.entities@[j] == motion_slot(old(w).entities@[j], dt as int),
            forall|j: int| i <= j < n ==> w.entities@[j] == old(w).entities@[j],
    {
        let slot = w.entities[i];
        match slot {
            Some(rec) => {
                match rec.motion {
                    Some(m) => {
                        let vx = sat_add(m.velocity.x, scaled_step(m.gravity.x, dt));
                        let vy = sat_add(m.velocity.y, scaled_step(m.gravity.y, dt));
                        let px = sat_add(m.position.x, scaled_step(vx, dt));
                        let py = sat_add(m.position.y, scaled_step(vy, dt));
                        w.entities[i] = Some(
                            EntityRecord {
                                motion: Some(
                                    Motion {
                                        position: Vec2i { x: px, y: py },
                                        velocity: Vec2i { x: vx, y: vy },
                                        gravity: m.gravity,
                                    },
                                ),
                                ..rec
                            },
                        );
                    },
                    None => {},
                }
            },
            None => {},
        }
    }
}

/// The clickable pass over a whole store.
pub open spec fn clickable_pass(
    es: Seq<Option<EntityRecord>>,
    p: PointerState,
) -> Seq<Option<EntityRecord>> {
    es.map_values(|s: Option<EntityRecord>| clickable_slot(s, p))
}

/// The lifetime pass over a whole store.
pub open spec fn lifetime_pass(es: Seq<Option<EntityRecord>>, dt: int) -> Seq<
    Option<EntityRecord>,
> {
    es.map_values(|s: Option<EntityRecord>| lifetime_slot(s, dt))
}

/// The motion pass over a whole store.
pub open spec fn motion_pass(es: Seq<Option<EntityRecord>>, dt: int) -> Seq<
    Option<EntityRecord>,
> {
    es.map_values(|s: Option<EntityRecord>| motion_slot(s, dt))
}

/// The store after the recipe-stack pass: when the stack has reached the
/// threshold, the visual effect and the demon are appended, in that order.
pub open spec fn summon_pass(
    es: Seq<Option<EntityRecord>>,
    stack_len: int,
    rx: i64,
    ry: i64,
) -> Seq<Option<EntityRecord>> {
    if stack_len >= RECIPE_THRESHOLD as int {
        es.push(Some(summon_effect_record())).push(Some(summon_demon_record(rx, ry)))
    } else {
        es
    }
}

/// The store after one whole tick, pass by pass in the fixed order:
/// clickable (cool-down, press, hover), then the summon spawned by the
/// pickup-updated recipe stack, then lifetime expiry, then motion.
/// Entities spawned by the summon take part in the lifetime and motion
/// passes of the same tick.
pub open spec fn tick_entities(
    es: Seq<Option<EntityRecord>>,
    gs: GlobalGameState,
    p: PointerState,
    dt: int,
    rx: i64,
    ry: i64,
) -> Seq<Option<EntityRecord>> {
    let clicked = clickable_pass(es, p);
    let after_summon = summon_pass(
        clicked,
        stack_after_spin(clicked, gs, p).len() as int,
        rx,
        ry,
    );
    motion_pass(lifetime_pass(after_summon, dt), dt)
}

/// The recipe stack after one whole tick: the pickup pass may append to
/// it, and reaching the threshold clears it on the same tick.
pub open spec fn tick_stack(
    es: Seq<Option<EntityRecord>>,
    gs: GlobalGameState,
    p: PointerState,
) -> Seq<Pickup> {
    let s = stack_after_spin(clickable_pass(es, p), gs, p);
    if s.len() >= RECIPE_THRESHOLD as int {
        Seq::<Pickup>::empty()
    } else {
        s
    }
}

/// One whole simulation tick, each pass exactly once, strictly in order:
/// click cool-down, press detection, hover detection, pickup drag,
/// recipe-book toggle, recipe-stack threshold, lifetime expiry, motion
/// integration. Later passes read the state the earlier ones wrote within
/// the same tick. `rx` and `ry` are the randomized launch components a
/// summon would use, scaled by 1000.
pub fn run_tick(
    w: &mut World,
    gs: &mut GlobalGameState,
    pointer: &PointerState,
    dt: i64,
    rx: i64,
    ry: i64,
)
    requires
        dt >= 0,
        -1000 <= rx <= 1000,
        0 <= ry <= 1000,
    ensures
        final(w).entities@ == tick_entities(
            old(w).entities@,
            *old(gs),
            *pointer,
            dt as int,
            rx,
            ry,
        ),
        final(gs).pickup == pickup_after_spin(
            clickable_pass(old(w).entities@, *pointer),
            *old(gs),
            *pointer,
        ),
        final(gs).recipe_stack@ == tick_stack(old(w).entities@, *old(gs), *pointer),
        final(gs).show_recipe_book == show_book_after_spin(
            clickable_pass(old(w).entities@, *pointer),
            old(gs).show_recipe_book,
            *pointer,
        ),
{
    let ghost es0 = w.entities@;
    clickable_spin(w, pointer, dt);
    proof {
        assert(w.entities@ =~= clickable_pass(es0, *pointer));
    }
    let ghost es1 = w.entities@;
    pickup_spin(w, gs, pointer);
    recipe_book_spin(w, gs, pointer);
    recipe_stack_spin(w, gs, rx, ry);
    proof {
        assert(w.entities@ =~= summon_pass(
            es1,
            stack_after_spin(es1, *old(gs), *pointer).len() as int,
            rx,
            ry,
        ));
    }
    let ghost es2 = w.entities@;
    Lifetime_spin(w, dt);
    proof {
        assert(w.entities@ =~= lifetime_pass(es2, dt as int));
    }
    let ghost es3 = w.entities@;
    motion_spin(w, dt);
    proof {
        assert(w.entities@ =~= motion_pass(es3, dt as int));
    }
}

} // verus!
