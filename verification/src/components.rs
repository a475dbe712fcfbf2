//! The typed attributes ("components") that entities can carry, and the
//! session-wide game state.
//!
//! Times are integers in milliseconds; positions, velocities and gravity are
//! in thousandths of a world unit (velocity per second, gravity per second
//! squared).

use vstd::prelude::*;
use crate::geom::Vec2i;

verus! {

/// A local-space click region: offset from the entity's position plus extent.
#[derive(Clone, Copy, PartialEq, Eq, Structural, Debug)]
pub struct ClickBox {
    pub pos: Vec2i,
    pub size: Vec2i,
}

/// Unused marker kept for sheet-authoring experiments.
#[derive(Clone, Copy, PartialEq, Eq, Structural, Debug)]
pub struct DIE {}

/// An entity's anchor point in world space.
#[derive(Clone, Copy, PartialEq, Eq, Structural, Debug)]
pub struct Position {
    pub pos: Vec2i,
}

/// Transient click feedback: remaining and total cool-down, in milliseconds.
#[derive(Clone, Copy, PartialEq, Eq, Structural, Debug)]
pub struct WasClicked {
    pub time: i64,
    pub duration: i64,
}

/// Marker: the pointer currently overlaps this entity's world box.
#[derive(Clone, Copy, PartialEq, Eq, Structural, Debug)]
pub struct IsHovered {}

/// Marker tying an entity to the one that spawned it.
#[derive(Clone, Copy, PartialEq, Eq, Structural, Debug)]
pub struct Owner {
    pub id: usize,
}

/// Names the sheet frame a level was built from.
#[derive(Clone, PartialEq, Eq, Debug)]
pub struct Level {
    pub frame: String,
}

/// One of the seven items that can be picked up and dropped into the recipe.
#[derive(Clone, Copy, PartialEq, Eq, Structural, Debug)]
pub enum Pickup {
    Skull {},
    Fire {},
    Web {},
    Tentacle {},
    Knife {},
    Eye {},
    Booze {},
}

/// Marker: clicking this entity opens the recipe book.
#[derive(Clone, Copy, PartialEq, Eq, Structural, Debug)]
pub struct IsBook {}

/// Marker: releasing a held pickup over this entity appends it to the recipe.
#[derive(Clone, Copy, PartialEq, Eq, Structural, Debug)]
pub struct IsDropoff {}

/// Marker: this entity is the summon circle.
#[derive(Clone, Copy, PartialEq, Eq, Structural, Debug)]
pub struct IsSummonCircle {}

/// Session-wide interaction state, owned by the caller and passed into each
/// tick pass.
#[derive(Clone, PartialEq, Eq, Debug)]
pub struct GlobalGameState {
    pub show_recipe_book: bool,
    pub pickup: Option<Pickup>,
    pub recipe_stack: Vec<Pickup>,
}

impl Default for GlobalGameState {
    /// The state a fresh session starts in: book closed, nothing held,
    /// empty recipe stack.
    fn default() -> (gs: GlobalGameState)
        ensures
            !gs.show_recipe_book,
            gs.pickup is None,
            gs.recipe_stack@.len() == 0,
    {
        GlobalGameState { show_recipe_book: false, pickup: None, recipe_stack: Vec::new() }
    }
}

/// Elapsed and total life of a transient entity, in milliseconds; once
/// `duration <= time` the entity is despawned.
#[derive(Clone, Copy, PartialEq, Eq, Structural, Debug)]
pub struct Lifetime {
    pub time: i64,
    pub duration: i64,
}

/// Kinematic state integrated each tick by semi-implicit Euler.
#[derive(Clone, Copy, PartialEq, Eq, Structural, Debug)]
pub struct Motion {
    pub position: Vec2i,
    pub velocity: Vec2i,
    pub gravity: Vec2i,
}

/// The kind of demon a successful recipe summons.
#[derive(Clone, Copy, PartialEq, Eq, Structural, Debug)]
pub enum Demon {
    ToothImp {},
}

/// Marker: a transient visual burst spawned alongside a demon; the renderer
/// draws a particle system at its position.
#[derive(Clone, Copy, PartialEq, Eq, Structural, Debug)]
pub struct VisualEffect {}

/// Marker: the losing overlay should be drawn.
#[derive(Clone, Copy, PartialEq, Eq, Structural, Debug)]
pub struct DrawNo {}

/// Marker: the winning overlay should be drawn.
#[derive(Clone, Copy, PartialEq, Eq, Structural, Debug)]
pub struct DrawWin {}

} // verus!
