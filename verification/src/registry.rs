//! The entity registry: which entities exist, of what kind, and where on
//! the grid each one stands.

use vstd::prelude::*;
use crate::grid::Position;
use crate::heading::Direction;

verus! {

/// Side of the head's and the food's tile, in hundredths of a cell.
pub const HEAD_SIZE: u32 = 80;

/// Side of a body segment's tile, in hundredths of a cell.
pub const SEGMENT_SIZE: u32 = 65;

/// Side of the food's tile, in hundredths of a cell.
pub const FOOD_SIZE: u32 = 80;

/// How much of a grid cell an entity's tile covers, in hundredths of a cell
/// along each axis: 80 stands for 0.8 of a cell. It only scales the picture.
#[derive(Clone, Copy, Debug, PartialEq, Eq, Structural)]
pub struct Size {
    pub width: u32,
    pub height: u32,
}

impl Size {
    /// A size with the same extent along both axes.
    pub fn square(value: u32) -> (size: Size)
        ensures
            size == (Size { width: value, height: value }),
    {
        Size { width: value, height: value }
    }
}

/// What the head carries beyond a body segment: the current heading.
#[derive(Clone, Copy, Debug, PartialEq, Eq, Structural)]
pub struct SnakeHead {
    pub direction: Direction,
}

/// The closed set of entity kinds. The head counts as part of the snake's
/// body.
#[derive(Clone, Copy, Debug, PartialEq, Eq, Structural)]
pub enum EntityKind {
    Head(SnakeHead),
    Segment,
    Food,
}

/// One entity: its kind, its cell and its tile size.
#[derive(Clone, Copy, Debug, PartialEq, Eq, Structural)]
pub struct Entity {
    pub kind: EntityKind,
    pub position: Position,
    pub size: Size,
}

/// The identity of an entity: the number of entities that its registry held
/// when it was spawned. An identity stays valid for the registry's lifetime,
/// since nothing is ever removed.
#[derive(Clone, Copy, Debug, PartialEq, Eq, Structural)]
pub struct EntityId(pub usize);

/// The head as it is spawned: heading up.
pub open spec fn head_at(position: Position) -> Entity {
    Entity {
        kind: EntityKind::Head(SnakeHead { direction: Direction::Up }),
        position,
        size: Size { width: HEAD_SIZE, height: HEAD_SIZE },
    }
}

/// A body segment as it is spawned.
pub open spec fn segment_at(position: Position) -> Entity {
    Entity {
        kind: EntityKind::Segment,
        position,
        size: Size { width: SEGMENT_SIZE, height: SEGMENT_SIZE },
    }
}

/// The food as it is spawned.
pub open spec fn food_at(position: Position) -> Entity {
    Entity {
        kind: EntityKind::Food,
        position,
        size: Size { width: FOOD_SIZE, height: FOOD_SIZE },
    }
}

/// The heading that an entity carries; `Up` for one that is no head.
pub open spec fn heading_of(entity: Entity) -> Direction {
    match entity.kind {
        EntityKind::Head(head) => head.direction,
        _ => Direction::Up,
    }
}

/// The entity `entity` standing on `position`.
pub open spec fn moved_to(entity: Entity, position: Position) -> Entity {
    Entity { position, ..entity }
}

/// The head `entity` heading in `direction`.
pub open spec fn turned_to(entity: Entity, direction: Direction) -> Entity {
    Entity { kind: EntityKind::Head(SnakeHead { direction }), ..entity }
}

/// All entities, in the order in which they were spawned.
pub struct Registry {
    entities: Vec<Entity>,
}

impl View for Registry {
    type V = Seq<Entity>;

    /// The entities by identity: entry `i` is the entity `EntityId(i)`.
    closed spec fn view(&self) -> Seq<Entity> {
        self.entities@
    }
}

impl Registry {
    /// Whether `id` names an entity of this registry.
    pub open spec fn spec_contains(&self, id: EntityId) -> bool {
        id.0 < self@.len()
    }

    /// A registry without entities.
    pub fn new() -> (registry: Registry)
        ensures
            registry@ == Seq::<Entity>::empty(),
    {
        Registry { entities: Vec::new() }
    }

    /// Number of entities spawned so far.
    pub fn len(&self) -> (count: usize)
        ensures
            count == self@.len(),
    {
        self.entities.len()
    }

    /// Tests whether `id` names an entity of this registry.
    #[verifier::when_used_as_spec(spec_contains)]
    pub fn contains(&self, id: EntityId) -> (known: bool)
        ensures
            known == self.spec_contains(id),
    {
        id.0 < self.entities.len()
    }

    /// Adds `entity` behind the entities that are there; its identity is the
    /// number of those.
    fn spawn(&mut self, entity: Entity) -> (id: EntityId)
        ensures
            final(self)@ == old(self)@.push(entity),
            id.0 == old(self)@.len(),
    {
        let id = EntityId(self.entities.len());
        self.entities.push(entity);
        id
    }

    /// Adds the snake's head at `position`, heading up, and returns its
    /// identity.
    pub fn spawn_head(&mut self, position: Position) -> (id: EntityId)
        ensures
            final(self)@ == old(self)@.push(head_at(position)),
            id.0 == old(self)@.len(),
    {
        self.spawn(
            Entity {
                kind: EntityKind::Head(SnakeHead { direction: Direction::Up }),
                position,
                size: Size::square(HEAD_SIZE),
            },
        )
    }

    /// Adds a body segment at `position` and returns its identity.
    pub fn spawn_segment(&mut self, position: Position) -> (id: EntityId)
        ensures
            final(self)@ == old(self)@.push(segment_at(position)),
            id.0 == old(self)@.len(),
    {
        self.spawn(
            Entity { kind: EntityKind::Segment, position, size: Size::square(SEGMENT_SIZE) },
        )
    }

    /// Adds the food at `position` and returns its identity.
    pub fn spawn_food(&mut self, position: Position) -> (id: EntityId)
        ensures
            final(self)@ == old(self)@.push(food_at(position)),
            id.0 == old(self)@.len(),
    {
        self.spawn(Entity { kind: EntityKind::Food, position, size: Size::square(FOOD_SIZE) })
    }

    /// The entity that `id` names.
    pub fn entity(&self, id: EntityId) -> (entity: Entity)
        requires
            self.contains(id),
        ensures
            entity == self@[id.0 as int],
    {
        self.entities[id.0]
    }

    /// The cell on which the entity `id` stands.
    pub fn position(&self, id: EntityId) -> (position: Position)
        requires
            self.contains(id),
        ensures
            position == self@[id.0 as int].position,
    {
        self.entities[id.0].position
    }

    /// Puts the entity `id` on the cell `position`; nothing else changes.
    pub fn set_position(&mut self, id: EntityId, position: Position)
        requires
            old(self).contains(id),
        ensures
            final(self)@ == old(self)@.update(
                id.0 as int,
                moved_to(old(self)@[id.0 as int], position),
            ),
    {
        let entity = self.entities[id.0];
        self.entities.set(id.0, Entity { position, ..entity });
    }

    /// Turns the head `id` to `direction`; nothing else changes.
    pub fn set_heading(&mut self, id: EntityId, direction: Direction)
        requires
            old(self).contains(id),
            old(self)@[id.0 as int].kind is Head,
        ensures
            final(self)@ == old(self)@.update(
                id.0 as int,
                turned_to(old(self)@[id.0 as int], direction),
            ),
    {
        let entity = self.entities[id.0];
        self.entities.set(
            id.0,
            Entity { kind: EntityKind::Head(SnakeHead { direction }), ..entity },
        );
    }
}

} // verus!
