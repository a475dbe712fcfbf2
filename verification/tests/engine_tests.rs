//! The per-tick interaction engine: clicks, hover, pickups, the recipe
//! stack, lifetimes and motion.

use web_summons::components::{
    ClickBox, Demon, GlobalGameState, Lifetime, Motion, Pickup, Position, WasClicked,
};
use web_summons::engine::{
    clickable_spin, get_pickup_from_state, get_recipe_stack, get_world_click_box,
    handle_was_clicked_cool_down, interactable_spin, is_clicked, is_mouse_inside_summon_circle,
    pickup_spin, recipe_book_spin, recipe_stack_spin, run_tick, was_recipe_book_clicked,
    was_something_picked_up, world_clickbox_from_id, Lifetime_spin, motion_spin, PointerState,
};
use web_summons::geom::{is_point_inside_box, Vec2i};
use web_summons::store::{EntityRecord, World};

fn v(x: i64, y: i64) -> Vec2i {
    Vec2i { x, y }
}

fn idle_pointer() -> PointerState {
    PointerState { world: v(0, 0), pressed: false, released: false }
}

fn press_at(x: i64, y: i64) -> PointerState {
    PointerState { world: v(x, y), pressed: true, released: false }
}

fn clickable_at(w: &mut World, pos: Vec2i, size: Vec2i) -> usize {
    let mut rec = EntityRecord::empty();
    rec.click_box = Some(ClickBox { pos: v(0, 0), size });
    rec.position = Some(Position { pos });
    w.spawn(rec)
}

#[test]
fn containment_is_inclusive_at_all_four_edges() {
    let pos = v(10, 20);
    let size = v(30, 40);
    assert!(is_point_inside_box(&pos, &size, &v(10, 20)));
    assert!(is_point_inside_box(&pos, &size, &v(40, 60)));
    assert!(is_point_inside_box(&pos, &size, &v(10, 60)));
    assert!(is_point_inside_box(&pos, &size, &v(40, 20)));
    assert!(is_point_inside_box(&pos, &size, &v(25, 40)));
    assert!(!is_point_inside_box(&pos, &size, &v(9, 20)));
    assert!(!is_point_inside_box(&pos, &size, &v(41, 60)));
    assert!(!is_point_inside_box(&pos, &size, &v(25, 19)));
    assert!(!is_point_inside_box(&pos, &size, &v(25, 61)));
}

#[test]
fn world_click_box_adds_anchor() {
    let cb = ClickBox { pos: v(1, 2), size: v(3, 4) };
    let world_box = get_world_click_box(&cb, &v(10, 20));
    assert_eq!(world_box.pos, v(11, 22));
    assert_eq!(world_box.size, v(3, 4));
}

#[test]
fn world_click_box_saturates_at_the_coordinate_range() {
    let cb = ClickBox { pos: v(i64::MAX - 1, 0), size: v(1, 1) };
    let world_box = get_world_click_box(&cb, &v(10, -3));
    assert_eq!(world_box.pos, v(i64::MAX, -3));
}

#[test]
fn world_clickbox_defaults_to_origin_without_position() {
    let mut w = World::new();
    let mut rec = EntityRecord::empty();
    rec.click_box = Some(ClickBox { pos: v(5, 5), size: v(1, 1) });
    let id = w.spawn(rec);
    let world_box = world_clickbox_from_id(&w, id).unwrap();
    assert_eq!(world_box.pos, v(5, 5));
    assert!(world_clickbox_from_id(&w, id + 1).is_none());
}

#[test]
fn press_inside_box_attaches_click_feedback() {
    let mut w = World::new();
    let id = clickable_at(&mut w, v(0, 0), v(100, 100));
    clickable_spin(&mut w, &press_at(50, 100), 16);
    assert!(is_clicked(&w, id));
    let rec = w.get(id).unwrap();
    assert_eq!(rec.was_clicked, Some(WasClicked { time: 500, duration: 500 }));
    assert!(rec.is_hovered.is_some());
}

#[test]
fn click_feedback_is_gone_the_following_tick() {
    let mut w = World::new();
    let id = clickable_at(&mut w, v(0, 0), v(100, 100));
    clickable_spin(&mut w, &press_at(50, 50), 16);
    assert!(is_clicked(&w, id));
    // Next tick without a press: the cool-down pass removes the attribute
    // unconditionally, whatever time remains.
    clickable_spin(&mut w, &PointerState { world: v(50, 50), pressed: false, released: false }, 16);
    assert!(!is_clicked(&w, id));
}

#[test]
fn press_outside_box_attaches_nothing() {
    let mut w = World::new();
    let id = clickable_at(&mut w, v(0, 0), v(100, 100));
    clickable_spin(&mut w, &press_at(101, 50), 16);
    assert!(!is_clicked(&w, id));
}

#[test]
fn hover_follows_pointer_every_tick() {
    let mut w = World::new();
    let id = clickable_at(&mut w, v(0, 0), v(10, 10));
    clickable_spin(&mut w, &PointerState { world: v(5, 5), pressed: false, released: false }, 16);
    assert!(w.get(id).unwrap().is_hovered.is_some());
    clickable_spin(&mut w, &PointerState { world: v(50, 5), pressed: false, released: false }, 16);
    assert!(w.get(id).unwrap().is_hovered.is_none());
}

#[test]
fn cooldown_pass_removes_feedback_everywhere() {
    let mut w = World::new();
    let mut rec = EntityRecord::empty();
    rec.was_clicked = Some(WasClicked { time: 400, duration: 500 });
    let id = w.spawn(rec);
    handle_was_clicked_cool_down(&mut w, 16);
    assert!(w.get(id).unwrap().was_clicked.is_none());
}

fn clicked_pickup(w: &mut World, p: Pickup) -> usize {
    let mut rec = EntityRecord::empty();
    rec.pickup = Some(p);
    rec.was_clicked = Some(WasClicked { time: 500, duration: 500 });
    w.spawn(rec)
}

#[test]
fn first_clicked_pickup_wins_in_store_order() {
    let mut w = World::new();
    let mut unclicked = EntityRecord::empty();
    unclicked.pickup = Some(Pickup::Booze {});
    w.spawn(unclicked);
    clicked_pickup(&mut w, Pickup::Web {});
    clicked_pickup(&mut w, Pickup::Eye {});
    assert_eq!(was_something_picked_up(&w), Some(Pickup::Web {}));
}

#[test]
fn clicking_a_pickup_takes_it_in_hand() {
    let mut w = World::new();
    clicked_pickup(&mut w, Pickup::Skull {});
    let mut gs = GlobalGameState::default();
    pickup_spin(&w, &mut gs, &idle_pointer());
    assert_eq!(gs.pickup, Some(Pickup::Skull {}));
    assert_eq!(get_pickup_from_state(&gs), Some(Pickup::Skull {}));
    assert_eq!(gs.recipe_stack.len(), 0);
}

fn dropoff_under(w: &mut World, m: Vec2i) -> usize {
    let mut rec = EntityRecord::empty();
    rec.click_box = Some(ClickBox { pos: v(0, 0), size: v(10, 10) });
    rec.position = Some(Position { pos: v(m.x - 5, m.y - 5) });
    rec.is_dropoff = Some(web_summons::components::IsDropoff {});
    w.spawn(rec)
}

#[test]
fn release_over_dropoff_appends_to_recipe_stack() {
    let mut w = World::new();
    dropoff_under(&mut w, v(0, 0));
    let mut gs = GlobalGameState::default();
    gs.pickup = Some(Pickup::Fire {});
    assert!(is_mouse_inside_summon_circle(&w, &v(0, 0)));
    let release = PointerState { world: v(0, 0), pressed: false, released: true };
    pickup_spin(&w, &mut gs, &release);
    assert_eq!(gs.pickup, None);
    assert_eq!(gs.recipe_stack, vec![Pickup::Fire {}]);
}

#[test]
fn release_elsewhere_just_drops_the_pickup() {
    let mut w = World::new();
    dropoff_under(&mut w, v(100, 100));
    let mut gs = GlobalGameState::default();
    gs.pickup = Some(Pickup::Fire {});
    let release = PointerState { world: v(0, 0), pressed: false, released: true };
    pickup_spin(&w, &mut gs, &release);
    assert_eq!(gs.pickup, None);
    assert_eq!(gs.recipe_stack.len(), 0);
}

#[test]
fn clicking_the_book_opens_it_and_pressing_elsewhere_closes_it() {
    let mut w = World::new();
    let mut book = EntityRecord::empty();
    book.is_book = Some(web_summons::components::IsBook {});
    book.was_clicked = Some(WasClicked { time: 500, duration: 500 });
    let id = w.spawn(book);
    assert!(was_recipe_book_clicked(&w));
    let mut gs = GlobalGameState::default();
    recipe_book_spin(&w, &mut gs, &press_at(0, 0));
    assert!(gs.show_recipe_book);

    // A press with no book click closes it again.
    let mut w2 = World::new();
    let mut plain = EntityRecord::empty();
    plain.is_book = Some(web_summons::components::IsBook {});
    w2.spawn(plain);
    recipe_book_spin(&w2, &mut gs, &press_at(0, 0));
    assert!(!gs.show_recipe_book);
    let _ = id;
}

#[test]
fn interactable_spin_runs_pickup_then_book() {
    let mut w = World::new();
    clicked_pickup(&mut w, Pickup::Tentacle {});
    let mut gs = GlobalGameState::default();
    gs.show_recipe_book = true;
    interactable_spin(&w, &mut gs, &press_at(1000, 1000));
    assert_eq!(gs.pickup, Some(Pickup::Tentacle {}));
    assert!(!gs.show_recipe_book);
}

#[test]
fn recipe_stack_copy_matches_state() {
    let mut gs = GlobalGameState::default();
    gs.recipe_stack = vec![Pickup::Web {}, Pickup::Eye {}];
    assert_eq!(get_recipe_stack(&gs), vec![Pickup::Web {}, Pickup::Eye {}]);
}

#[test]
fn full_recipe_stack_summons_demon_and_effect() {
    let mut w = World::new();
    let mut gs = GlobalGameState::default();
    gs.recipe_stack = vec![Pickup::Web {}, Pickup::Eye {}, Pickup::Fire {}];
    recipe_stack_spin(&mut w, &mut gs, 500, 1000);
    assert_eq!(gs.recipe_stack.len(), 0);
    assert_eq!(w.len(), 2);

    let effect = w.get(0).unwrap();
    assert!(effect.effect.is_some());
    assert_eq!(effect.position, Some(Position { pos: v(10000, 0) }));
    assert_eq!(effect.lifetime, Some(Lifetime { time: 0, duration: 2000 }));
    assert!(effect.demon.is_none());

    let demon = w.get(1).unwrap();
    assert_eq!(demon.demon, Some(Demon::ToothImp {}));
    assert_eq!(demon.lifetime, Some(Lifetime { time: 0, duration: 2000 }));
    assert_eq!(
        demon.motion,
        Some(Motion {
            position: v(10000, 0),
            velocity: v(100000, 200000),
            gravity: v(0, -300000),
        })
    );
}

#[test]
fn short_recipe_stack_summons_nothing() {
    let mut w = World::new();
    let mut gs = GlobalGameState::default();
    gs.recipe_stack = vec![Pickup::Web {}, Pickup::Eye {}];
    recipe_stack_spin(&mut w, &mut gs, 500, 1000);
    assert_eq!(gs.recipe_stack, vec![Pickup::Web {}, Pickup::Eye {}]);
    assert_eq!(w.len(), 0);
}

#[test]
fn lifetime_expires_and_despawns() {
    // 1.9s of a 2.0s lifetime, then a 0.2s tick: 2.1 >= 2.0, so the entity
    // is despawned after the tick.
    let mut w = World::new();
    let mut rec = EntityRecord::empty();
    rec.lifetime = Some(Lifetime { time: 1900, duration: 2000 });
    let id = w.spawn(rec);
    Lifetime_spin(&mut w, 200);
    assert_eq!(w.get(id), None);
    assert_eq!(w.len(), 1);
}

#[test]
fn lifetime_survives_a_short_tick() {
    // The same entity under a 0.05s tick survives with 1.95s elapsed.
    let mut w = World::new();
    let mut rec = EntityRecord::empty();
    rec.lifetime = Some(Lifetime { time: 1900, duration: 2000 });
    let id = w.spawn(rec);
    Lifetime_spin(&mut w, 50);
    let after = w.get(id).unwrap();
    assert_eq!(after.lifetime, Some(Lifetime { time: 1950, duration: 2000 }));
}

#[test]
fn whole_tick_picks_up_a_clicked_pickup() {
    let mut w = World::new();
    let id = clickable_at(&mut w, v(0, 0), v(100, 100));
    let mut rec = w.get(id).unwrap();
    rec.pickup = Some(Pickup::Skull {});
    w.entities[id] = Some(rec);
    let mut gs = GlobalGameState::default();
    run_tick(&mut w, &mut gs, &press_at(50, 50), 16, 0, 0);
    // The press pass runs before the pickup pass of the same tick.
    assert_eq!(gs.pickup, Some(Pickup::Skull {}));
    assert!(is_clicked(&w, id));
    // The next tick's cool-down removes the feedback; the hand keeps the
    // pickup until a release.
    run_tick(&mut w, &mut gs, &idle_pointer(), 16, 0, 0);
    assert!(!is_clicked(&w, id));
    assert_eq!(gs.pickup, Some(Pickup::Skull {}));
}

#[test]
fn whole_tick_summons_and_integrates_the_demon() {
    let mut w = World::new();
    let mut gs = GlobalGameState::default();
    gs.recipe_stack = vec![Pickup::Web {}, Pickup::Eye {}, Pickup::Fire {}];
    run_tick(&mut w, &mut gs, &idle_pointer(), 100, 500, 1000);
    assert_eq!(gs.recipe_stack.len(), 0);
    assert_eq!(w.len(), 2);
    // The demon spawned by the recipe pass takes part in the lifetime and
    // motion passes of the same tick.
    let demon = w.get(1).unwrap();
    assert_eq!(demon.lifetime, Some(Lifetime { time: 100, duration: 2000 }));
    let m = demon.motion.unwrap();
    assert_eq!(m.velocity, v(100000, 170000));
    assert_eq!(m.position, v(20000, 17000));
}

#[test]
fn motion_integrates_velocity_then_position() {
    let mut w = World::new();
    let mut rec = EntityRecord::empty();
    rec.motion = Some(Motion {
        position: v(10000, 0),
        velocity: v(100000, 200000),
        gravity: v(0, -300000),
    });
    let id = w.spawn(rec);
    // One 100 ms tick: v.y gains -300000 * 0.1 = -30000; the updated
    // velocity then moves the position by v * 0.1.
    motion_spin(&mut w, 100);
    let m = w.get(id).unwrap().motion.unwrap();
    assert_eq!(m.velocity, v(100000, 170000));
    assert_eq!(m.position, v(20000, 17000));
    assert_eq!(m.gravity, v(0, -300000));
}
