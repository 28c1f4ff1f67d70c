//! The snake chain controller: the game state, the resolution of input into
//! the head's heading, and the step that one fixed tick makes.

use vstd::prelude::*;
use bevy::input::keyboard::KeyCode;
use bevy::input::ButtonInput;
use crate::grid::Position;
use crate::heading::Direction;
use crate::input::{
    pressed_arrows, resolve_heading, resolved_heading, sample_arrows, sample_of, PressedArrows,
};
use crate::registry::{
    food_at, head_at, heading_of, segment_at, turned_to, Entity, EntityId, EntityKind, Registry,
};

verus! {

/// Length of one fixed tick in milliseconds. The step is made once per tick,
/// however often the keys are sampled in between.
pub const TICK_MILLIS: u64 = 150;

/// The cell on which the head is spawned.
pub open spec fn head_start() -> Position {
    Position { x: 3, y: 3 }
}

/// The cell on which the first body segment is spawned.
pub open spec fn tail_start() -> Position {
    Position { x: 3, y: 2 }
}

/// The snake's segments by identity, head first, tail last.
#[derive(Debug)]
pub struct SnakeSegments(pub Vec<EntityId>);

impl View for SnakeSegments {
    type V = Seq<EntityId>;

    open spec fn view(&self) -> Seq<EntityId> {
        self.0@
    }
}

/// What makes a chain of identities a snake among `entities`: it has a head
/// and at least one more segment, every identity names an entity, none occurs
/// twice, the first names the one head that there is and the others name
/// body segments.
pub open spec fn chain_wf(chain: Seq<EntityId>, entities: Seq<Entity>) -> bool {
    &&& chain.len() >= 2
    &&& forall|i: int| 0 <= i < chain.len() ==> (#[trigger] chain[i]).0 < entities.len()
    &&& forall|i: int, j: int| 0 <= i < j < chain.len() ==> chain[i] != chain[j]
    &&& forall|e: int|
        0 <= e < entities.len() && (#[trigger] entities[e]).kind is Head ==> e == chain[0].0
    &&& entities[chain[0].0 as int].kind is Head
    &&& forall|i: int|
        1 <= i < chain.len() ==> entities[(#[trigger] chain[i]).0 as int].kind is Segment
}

/// The cell of the chain's segment number `i`, counted from the head.
pub open spec fn cell_at(chain: Seq<EntityId>, entities: Seq<Entity>, i: int) -> Position {
    entities[chain[i].0 as int].position
}

/// What a tick leaves alone: the number of entities, every entity's kind and
/// size, and every entity that is no segment of the chain.
pub open spec fn rest_unchanged(
    chain: Seq<EntityId>,
    before: Seq<Entity>,
    after: Seq<Entity>,
) -> bool {
    &&& after.len() == before.len()
    &&& forall|e: int|
        0 <= e < before.len() && !chain.contains(EntityId(e as usize))
            ==> #[trigger] after[e] == before[e]
    &&& forall|e: int|
        0 <= e < before.len()
            ==> (#[trigger] after[e]).kind == before[e].kind && after[e].size == before[e].size
}

/// Tests whether `chain` is a snake among the entities of `registry`.
pub fn is_snake(chain: &SnakeSegments, registry: &Registry) -> (snake: bool)
    ensures
        snake == chain_wf(chain@, registry@),
{
    let ids = &chain.0;
    let count: usize = ids.len();
    if count < 2 {
        return false;
    }
    let mut i: usize = 0;
    while i < count
        invariant
            i <= count,
            count == ids@.len(),
            ids@ == chain@,
            forall|k: int| 0 <= k < i ==> (#[trigger] ids@[k]).0 < registry@.len(),
            i > 0 ==> registry@[ids@[0].0 as int].kind is Head,
            forall|k: int| 1 <= k < i ==> registry@[(#[trigger] ids@[k]).0 as int].kind is Segment,
        decreases count - i,
    {
        let id = ids[i];
        if !registry.contains(id) {
            assert(!(chain@[i as int].0 < registry@.len()));
            return false;
        }
        let in_place = match registry.entity(id).kind {
            EntityKind::Head(_) => i == 0,
            EntityKind::Segment => i > 0,
            EntityKind::Food => false,
        };
        if !in_place {
            assert(i == 0 ==> !(registry@[chain@[0].0 as int].kind is Head));
            assert(i > 0 ==> !(registry@[chain@[i as int].0 as int].kind is Segment));
            return false;
        }
        i += 1;
    }
    let mut i: usize = 0;
    while i < count
        invariant
            i <= count,
            count == ids@.len(),
            ids@ == chain@,
            forall|a: int, b: int| 0 <= a < b < count && a < i ==> ids@[a] != ids@[b],
        decreases count - i,
    {
        let mut j: usize = i + 1;
        while j < count
            invariant
                i < j <= count,
                count == ids@.len(),
                ids@ == chain@,
                forall|b: int| i < b < j ==> ids@[i as int] != ids@[b],
            decreases count - j,
        {
            if ids[i].0 == ids[j].0 {
                assert(chain@[i as int] == chain@[j as int]);
                return false;
            }
            j += 1;
        }
        i += 1;
    }
    let total: usize = registry.len();
    let mut e: usize = 0;
    while e < total
        invariant
            e <= total,
            total == registry@.len(),
            ids@ == chain@,
            count == ids@.len(),
            count >= 2,
            forall|k: int| 0 <= k < e && (#[trigger] registry@[k]).kind is Head ==> k == ids@[0].0,
        decreases total - e,
    {
        match registry.entity(EntityId(e)).kind {
            EntityKind::Head(_) => {
                if e != ids[0].0 {
                    assert(registry@[e as int].kind is Head);
                    return false;
                }
            },
            _ => {},
        }
        e += 1;
    }
    true
}

/// The state of one game: the registry of its entities and the chain of the
/// snake's segments.
pub struct Game {
    registry: Registry,
    segments: SnakeSegments,
}

impl Game {
    /// The entities by identity.
    pub closed spec fn entities(&self) -> Seq<Entity> {
        self.registry@
    }

    /// The snake's segments, head first.
    pub closed spec fn chain(&self) -> Seq<EntityId> {
        self.segments@
    }

    /// The state's invariant: the chain is a snake among the entities.
    pub open spec fn wf(&self) -> bool {
        chain_wf(self.chain(), self.entities())
    }

    /// The identity of the head.
    pub open spec fn spec_head(&self) -> EntityId {
        self.chain()[0]
    }

    /// The head's heading.
    pub open spec fn spec_heading(&self) -> Direction {
        heading_of(self.entities()[self.spec_head().0 as int])
    }

    /// The cell on which the entity `id` stands.
    pub open spec fn spec_position(&self, id: EntityId) -> Position {
        self.entities()[id.0 as int].position
    }

    /// The cell of the chain's segment number `i`, counted from the head.
    pub open spec fn cell(&self, i: int) -> Position {
        cell_at(self.chain(), self.entities(), i)
    }

    /// Whether the head can move one cell along its heading without leaving
    /// the range of the coordinates.
    pub open spec fn spec_can_step(&self) -> bool {
        self.cell(0).can_advance(self.spec_heading())
    }

    /// The registry of the game's entities.
    pub fn registry(&self) -> (registry: &Registry)
        ensures
            registry@ == self.entities(),
    {
        &self.registry
    }

    /// The chain of the snake's segments.
    pub fn segments(&self) -> (segments: &SnakeSegments)
        ensures
            segments@ == self.chain(),
    {
        &self.segments
    }

    /// The identity of the head.
    #[verifier::when_used_as_spec(spec_head)]
    pub fn head(&self) -> (id: EntityId)
        requires
            self.wf(),
        ensures
            id == self.spec_head(),
    {
        self.segments.0[0]
    }

    /// The head's heading.
    #[verifier::when_used_as_spec(spec_heading)]
    pub fn heading(&self) -> (direction: Direction)
        requires
            self.wf(),
        ensures
            direction == self.spec_heading(),
    {
        match self.registry.entity(self.segments.0[0]).kind {
            EntityKind::Head(head) => head.direction,
            _ => Direction::Up,
        }
    }

    /// The cell on which the entity `id` stands.
    #[verifier::when_used_as_spec(spec_position)]
    pub fn position(&self, id: EntityId) -> (position: Position)
        requires
            id.0 < self.entities().len(),
        ensures
            position == self.spec_position(id),
    {
        self.registry.position(id)
    }

    /// Tests whether [`Game::snake_movement`] may be called.
    #[verifier::when_used_as_spec(spec_can_step)]
    pub fn can_step(&self) -> (fits: bool)
        requires
            self.wf(),
        ensures
            fits == self.spec_can_step(),
    {
        let head = self.segments.0[0];
        self.registry.position(head).can_advance(self.heading())
    }

    /// Makes a game of a registry and a chain, where the chain is a snake
    /// among the registry's entities.
    pub fn from_parts(registry: Registry, segments: SnakeSegments) -> (made: Option<Game>)
        ensures
            made is Some <==> chain_wf(segments@, registry@),
            made matches Some(game) ==> {
                &&& game.wf()
                &&& game.entities() == registry@
                &&& game.chain() == segments@
            },
    {
        if is_snake(&segments, &registry) {
            Some(Game { registry, segments })
        } else {
            None
        }
    }

    /// Starts a game: spawns the head on the cell (3, 3), heading up, and one
    /// body segment below it on (3, 2), and chains the two.
    pub fn spawn_snake() -> (game: Game)
        ensures
            game.wf(),
            game.entities() == seq![head_at(head_start()), segment_at(tail_start())],
            game.chain() == seq![EntityId(0), EntityId(1)],
    {
        let mut registry = Registry::new();
        let head = registry.spawn_head(Position { x: 3, y: 3 });
        let tail = registry.spawn_segment(Position { x: 3, y: 2 });
        let mut chain: Vec<EntityId> = Vec::new();
        chain.push(head);
        chain.push(tail);
        let game = Game { registry, segments: SnakeSegments(chain) };
        assert(game.entities() =~= seq![head_at(head_start()), segment_at(tail_start())]);
        assert(game.chain() =~= seq![EntityId(0), EntityId(1)]);
        game
    }

    /// Puts the food on `position` and returns its identity. The snake is
    /// not looked at: the food may land on it.
    pub fn spawn_food(&mut self, position: Position) -> (id: EntityId)
        requires
            old(self).wf(),
        ensures
            final(self).wf(),
            final(self).chain() == old(self).chain(),
            final(self).entities() == old(self).entities().push(food_at(position)),
            id.0 == old(self).entities().len(),
    {
        self.registry.spawn_food(position)
    }

    /// Commits the heading that the sample `keys` resolves to.
    pub fn steer(&mut self, keys: PressedArrows)
        requires
            old(self).wf(),
        ensures
            final(self).wf(),
            final(self).chain() == old(self).chain(),
            final(self).entities() == old(self).entities().update(
                old(self).head().0 as int,
                turned_to(
                    old(self).entities()[old(self).head().0 as int],
                    resolved_heading(old(self).heading(), keys),
                ),
            ),
            final(self).heading() == resolved_heading(old(self).heading(), keys),
            final(self).heading() != old(self).heading().opposite(),
    {
        let head = self.segments.0[0];
        let next = resolve_heading(self.heading(), keys);
        self.registry.set_heading(head, next);
    }

    /// Samples the arrow keys of `keyboard` and commits the heading that
    /// they resolve to. It may run any number of times between two ticks;
    /// the tick moves the head along the heading committed last.
    pub fn snake_movement_input(&mut self, keyboard: &ButtonInput<KeyCode>)
        requires
            old(self).wf(),
        ensures
            final(self).wf(),
            final(self).chain() == old(self).chain(),
            final(self).entities() == old(self).entities().update(
                old(self).head().0 as int,
                turned_to(
                    old(self).entities()[old(self).head().0 as int],
                    resolved_heading(old(self).heading(), sample_of(pressed_arrows(*keyboard))),
                ),
            ),
            final(self).heading() == resolved_heading(
                old(self).heading(),
                sample_of(pressed_arrows(*keyboard)),
            ),
            final(self).heading() != old(self).heading().opposite(),
    {
        let keys = sample_arrows(keyboard);
        self.steer(keys);
    }

    /// Makes the step of one tick: the head moves one cell along its heading
    /// and every other segment takes the cell that the segment ahead of it
    /// held before the tick.
    pub fn snake_movement(&mut self)
        requires
            old(self).wf(),
            old(self).can_step(),
        ensures
            final(self).wf(),
            final(self).chain() == old(self).chain(),
            final(self).heading() == old(self).heading(),
            final(self).cell(0) == old(self).cell(0).advanced(old(self).heading()),
            forall|i: int|
                1 <= i < old(self).chain().len()
                    ==> #[trigger] final(self).cell(i) == old(self).cell(i - 1),
            rest_unchanged(old(self).chain(), old(self).entities(), final(self).entities()),
    {
        let ghost before = self.entities();
        let ghost chain = self.chain();
        let heading = self.heading();
        let count: usize = self.segments.0.len();

        let mut snapshot: Vec<Position> = Vec::new();
        let mut i: usize = 0;
        while i < count
            invariant
                i <= count,
                count == chain.len(),
                self.chain() == chain,
                self.entities() == before,
                chain_wf(chain, before),
                snapshot@.len() == i,
                forall|k: int| 0 <= k < i ==> #[trigger] snapshot@[k] == cell_at(chain, before, k),
            decreases count - i,
        {
            snapshot.push(self.registry.position(self.segments.0[i]));
            i += 1;
        }

        let head = self.segments.0[0];
        self.registry.set_position(head, snapshot[0].advance(heading));
        assert forall|e: int|
            0 <= e < before.len() && !chain.contains(EntityId(e as usize))
        implies #[trigger] self.entities()[e] == before[e] by {
            assert(chain.contains(chain[0]));
        }

        let mut i: usize = 1;
        while i < count
            invariant
                1 <= i <= count,
                count == chain.len(),
                self.chain() == chain,
                chain_wf(chain, before),
                snapshot@.len() == count,
                forall|k: int|
                    0 <= k < count ==> #[trigger] snapshot@[k] == cell_at(chain, before, k),
                cell_at(chain, self.entities(), 0) == cell_at(chain, before, 0).advanced(
                    heading_of(before[chain[0].0 as int]),
                ),
                forall|k: int|
                    1 <= k < i
                        ==> #[trigger] cell_at(chain, self.entities(), k) == snapshot@[k - 1],
                rest_unchanged(chain, before, self.entities()),
            decreases count - i,
        {
            let ghost mid = self.entities();
            let id = self.segments.0[i];
            self.registry.set_position(id, snapshot[i - 1]);
            proof {
                // The write goes to segment `i` alone: no identity occurs twice.
                assert(chain[0] != chain[i as int]);
                assert forall|k: int| 1 <= k < i + 1
                implies #[trigger] cell_at(chain, self.entities(), k) == snapshot@[k - 1] by {
                    if k < i {
                        assert(chain[k] != chain[i as int]);
                        assert(cell_at(chain, mid, k) == snapshot@[k - 1]);
                    }
                }
                assert forall|e: int|
                    0 <= e < before.len() && !chain.contains(EntityId(e as usize))
                implies #[trigger] self.entities()[e] == before[e] by {
                    assert(chain.contains(chain[i as int]));
                    assert(mid[e] == before[e]);
                }
                assert forall|e: int| 0 <= e < before.len()
                implies (#[trigger] self.entities()[e]).kind == before[e].kind
                    && self.entities()[e].size == before[e].size by {
                    assert(mid[e].kind == before[e].kind);
                }
            }
            i += 1;
        }
    }
}

} // verus!
