//! The entity store: a container of entities, each an open set of typed
//! attributes, supporting spawn, attach/detach (by writing a record's
//! fields), despawn, and index-ordered iteration.

use vstd::prelude::*;
use crate::components::{
    ClickBox, Demon, DrawNo, DrawWin, IsBook, IsDropoff, IsHovered, IsSummonCircle, Lifetime,
    Motion, Pickup, Position, VisualEffect, WasClicked,
};

verus! {

/// Every attribute an entity may carry; `None` means the attribute is absent.
#[derive(Clone, Copy, PartialEq, Eq, Debug)]
pub struct EntityRecord {
    pub click_box: Option<ClickBox>,
    pub position: Option<Position>,
    pub was_clicked: Option<WasClicked>,
    pub is_hovered: Option<IsHovered>,
    pub pickup: Option<Pickup>,
    pub is_book: Option<IsBook>,
    pub is_dropoff: Option<IsDropoff>,
    pub is_summon_circle: Option<IsSummonCircle>,
    pub lifetime: Option<Lifetime>,
    pub motion: Option<Motion>,
    pub demon: Option<Demon>,
    pub effect: Option<VisualEffect>,
    pub draw_no: Option<DrawNo>,
    pub draw_win: Option<DrawWin>,
}

impl EntityRecord {
    /// A record with every attribute absent.
    pub fn empty() -> (r: EntityRecord)
        ensures
            r == EntityRecord::empty_spec(),
    {
        EntityRecord {
            click_box: None,
            position: None,
            was_clicked: None,
            is_hovered: None,
            pickup: None,
            is_book: None,
            is_dropoff: None,
            is_summon_circle: None,
            lifetime: None,
            motion: None,
            demon: None,
            effect: None,
            draw_no: None,
            draw_win: None,
        }
    }

    /// The all-absent record, for use in contracts.
    pub open spec fn empty_spec() -> EntityRecord {
        EntityRecord {
            click_box: None,
            position: None,
            was_clicked: None,
            is_hovered: None,
            pickup: None,
            is_book: None,
            is_dropoff: None,
            is_summon_circle: None,
            lifetime: None,
            motion: None,
            demon: None,
            effect: None,
            draw_no: None,
            draw_win: None,
        }
    }
}

/// The entity store. An entity is an index into `entities`; a despawned
/// entity leaves a `None` slot behind, so indices stay stable for the whole
/// session.
#[derive(Clone, PartialEq, Eq, Debug)]
pub struct World {
    pub entities: Vec<Option<EntityRecord>>,
}

impl World {
    /// An empty store.
    pub fn new() -> (w: World)
        ensures
            w.entities@.len() == 0,
    {
        World { entities: Vec::new() }
    }

    /// Creates a new live entity holding `rec` and returns its index.
    pub fn spawn(&mut self, rec: EntityRecord) -> (id: usize)
        ensures
            final(self).entities@ == old(self).entities@.push(Some(rec)),
            id == old(self).entities@.len(),
    {
        let id = self.entities.len();
        self.entities.push(Some(rec));
        id
    }

    /// Releases the entity and all its attributes; the slot stays `None`.
    pub fn despawn(&mut self, id: usize)
        requires
            id < old(self).entities@.len(),
        ensures
            final(self).entities@ == old(self).entities@.update(id as int, None::<EntityRecord>),
    {
        self.entities[id] = None;
    }

    /// The record of a live entity, or `None` for an out-of-range or
    /// despawned index.
    pub fn get(&self, id: usize) -> (r: Option<EntityRecord>)
        ensures
            r == if id < self.entities@.len() {
                self.entities@[id as int]
            } else {
                None::<EntityRecord>
            },
    {
        if id < self.entities.len() {
            self.entities[id]
        } else {
            None
        }
    }

    /// How many entity slots exist, live or despawned.
    pub fn len(&self) -> (n: usize)
        ensures
            n == self.entities@.len(),
    {
        self.entities.len()
    }
}

} // verus!
