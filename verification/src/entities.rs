//! Placeable game objects other than the snake. An entity carries a
//! position and a capability-queryable kind tag, so a caller holding a
//! generic entity can test for and recover a concrete variant without
//! the engine enumerating every kind upfront: new variants pick an
//! unused `Custom` tag.

use vstd::prelude::*;

verus! {

/// The kind tag of an entity: the built-in food marker, or an extension
/// slot for variants the engine does not know about.
#[derive(Debug, PartialEq, Eq, Structural, Clone, Copy)]
pub enum EntityKind {
    /// The built-in food marker.
    Apple,
    /// An extension variant, distinguished by the caller-chosen tag.
    Custom(u64),
}

/// A placeable, position-bearing game object. The kind tag is checked
/// before any recovery of a concrete variant, so the downcast is safe.
#[derive(Debug, PartialEq, Eq, Structural, Clone, Copy)]
pub struct Entity {
    pub kind: EntityKind,
    pub x: i16,
    pub y: i16,
}

/// The built-in food marker: a plain position and nothing more.
#[derive(Debug, PartialEq, Eq, Structural, Clone, Copy)]
pub struct Apple {
    pub x: i16,
    pub y: i16,
}

impl Entity {
    /// An entity of the given kind at the given position.
    pub fn new(kind: EntityKind, x: i16, y: i16) -> (e: Entity)
        ensures
            e == (Entity { kind, x, y }),
    {
        Entity { kind, x, y }
    }

    /// Recovers the built-in [`Apple`] variant when the kind tag says
    /// this entity is one; any other kind yields nothing.
    pub fn downcast_ref(&self) -> (r: Option<Apple>)
        ensures
            r == if self.kind == EntityKind::Apple {
                Some(Apple { x: self.x, y: self.y })
            } else {
                Option::<Apple>::None
            },
    {
        match self.kind {
            EntityKind::Apple => Some(Apple { x: self.x, y: self.y }),
            EntityKind::Custom(_) => None,
        }
    }
}

impl Apple {
    /// An apple at the given position: the factory every concrete
    /// variant provides.
    pub fn new(x: i16, y: i16) -> (a: Apple)
        ensures
            a == (Apple { x, y }),
    {
        Apple { x, y }
    }

    /// This apple as a generic entity, tagged [`EntityKind::Apple`].
    pub fn as_entity(&self) -> (e: Entity)
        ensures
            e == (Entity { kind: EntityKind::Apple, x: self.x, y: self.y }),
    {
        Entity { kind: EntityKind::Apple, x: self.x, y: self.y }
    }
}

} // verus!
