//! The entity store: a `legion` world, and what the library states of it.
//!
//! Verus does not look inside a world. The library speaks of one through
//! [`entities`], the component values of its entities in the order in which
//! the world stores them, which is the order in which every query visits
//! them.

use vstd::prelude::*;
use legion::prelude::{IntoQuery, Read, Universe, World, Write};
use crate::components::{LeftMover, Player, Position, Renderable};

verus! {

/// `legion::world::World`, the entity store. It is opaque here: all that is
/// said of a world is said through [`entities`].
#[verifier::external_type_specification]
#[verifier::external_body]
pub struct ExWorld(legion::world::World);

/// The component values attached to one entity, as far as this library
/// knows component kinds.
pub struct Components {
    pub position: Option<Position>,
    pub renderable: Option<Renderable>,
    pub player: bool,
    pub left_mover: bool,
}

impl Components {
    /// A drawable entity that the keyboard moves.
    pub open spec fn of_player(position: Position, renderable: Renderable) -> Components {
        Components {
            position: Some(position),
            renderable: Some(renderable),
            player: true,
            left_mover: false,
        }
    }

    /// A drawable entity that drifts to the left.
    pub open spec fn of_left_mover(position: Position, renderable: Renderable) -> Components {
        Components {
            position: Some(position),
            renderable: Some(renderable),
            player: false,
            left_mover: true,
        }
    }

    /// Whether a query for position and appearance yields this entity.
    pub open spec fn is_drawable(self) -> bool {
        self.position is Some && self.renderable is Some
    }

    /// What a query for position and appearance yields for this entity.
    pub open spec fn drawn(self) -> (Position, Renderable) {
        (self.position->0, self.renderable->0)
    }

    /// The entity with its position replaced.
    pub open spec fn at(self, position: Position) -> Components {
        Components { position: Some(position), ..self }
    }

    /// The entity after a move of the players by `(dx, dy)`: only a player
    /// with a position changes.
    pub open spec fn player_moved(self, dx: int, dy: int) -> Components {
        if self.player && self.position is Some {
            self.at(self.position->0.moved(dx, dy))
        } else {
            self
        }
    }

    /// The entity after one drift of the left movers: only a left mover with
    /// a position changes.
    pub open spec fn left_mover_drifted(self) -> Components {
        if self.left_mover && self.position is Some {
            self.at(self.position->0.drifted())
        } else {
            self
        }
    }
}

/// The entities of a world, each by the component values it carries, in
/// storage order: archetype by archetype, chunk by chunk, slot by slot, as a
/// `legion` query walks them. An entity that carries none of the four kinds
/// stands in it with all four absent.
pub uninterp spec fn entities(world: World) -> Seq<Components>;

/// Whether every position in the world lies on the grid.
pub open spec fn positions_in_bounds(es: Seq<Components>) -> bool {
    forall|i: int|
        0 <= i < es.len() && (#[trigger] es[i]).position is Some ==> es[i].position->0.in_bounds()
}

/// Whether every player that has a position is on the grid.
pub open spec fn players_in_bounds(es: Seq<Components>) -> bool {
    forall|i: int|
        0 <= i < es.len() && (#[trigger] es[i]).player && es[i].position is Some
            ==> es[i].position->0.in_bounds()
}

/// Two worlds with the same entities, in whatever order, are on the grid
/// together.
pub proof fn lemma_same_entities_same_grid(a: Seq<Components>, b: Seq<Components>)
    requires
        a.to_multiset() == b.to_multiset(),
        positions_in_bounds(b),
    ensures
        positions_in_bounds(a),
{
    assert forall|i: int| 0 <= i < a.len() && (#[trigger] a[i]).position is Some implies a[i].position->0.in_bounds() by {
        assert(a.contains(a[i]));
        vstd::seq_lib::to_multiset_contains(a, a[i]);
        vstd::seq_lib::to_multiset_contains(b, a[i]);
        let j = choose|j: int| 0 <= j < b.len() && b[j] == a[i];
        assert(b[j].position->0.in_bounds());
    }
}

/// Every entity after a move of the players by `(dx, dy)`.
pub open spec fn players_moved(es: Seq<Components>, dx: int, dy: int) -> Seq<Components> {
    Seq::new(es.len(), |i: int| es[i].player_moved(dx, dy))
}

/// Every entity after one drift of the left movers.
pub open spec fn left_movers_drifted(es: Seq<Components>) -> Seq<Components> {
    Seq::new(es.len(), |i: int| es[i].left_mover_drifted())
}

/// What a query for position and appearance yields: one pair for each
/// entity that has both, in storage order.
pub open spec fn draw_list(es: Seq<Components>) -> Seq<(Position, Renderable)> {
    es.filter(|c: Components| c.is_drawable()).map_values(|c: Components| c.drawn())
}

/// Whether every entity has both a position and an appearance.
pub open spec fn all_drawable(es: Seq<Components>) -> bool {
    forall|i: int| 0 <= i < es.len() ==> (#[trigger] es[i]).is_drawable()
}

/// Where every entity has a position and an appearance, the query for both
/// yields one pair for each entity, in storage order.
pub proof fn lemma_all_drawable_draws_all(es: Seq<Components>)
    requires
        all_drawable(es),
    ensures
        draw_list(es) == es.map_values(|c: Components| c.drawn()),
        draw_list(es).len() == es.len(),
{
    let keep = |c: Components| c.is_drawable();
    lemma_filter_keeps_all(es, keep);
}

proof fn lemma_filter_keeps_all(es: Seq<Components>, keep: spec_fn(Components) -> bool)
    requires
        forall|i: int| 0 <= i < es.len() ==> keep(#[trigger] es[i]),
    ensures
        es.filter(keep) == es,
    decreases es.len(),
{
    reveal(Seq::filter);
    if es.len() > 0 {
        lemma_filter_keeps_all(es.drop_last(), keep);
        assert(es.drop_last().push(es.last()) =~= es);
    }
}

/// Two worlds with the same entities, in whatever order, are drawable
/// together.
pub proof fn lemma_same_entities_same_drawable(a: Seq<Components>, b: Seq<Components>)
    requires
        a.to_multiset() == b.to_multiset(),
        all_drawable(b),
    ensures
        all_drawable(a),
{
    assert forall|i: int| 0 <= i < a.len() implies (#[trigger] a[i]).is_drawable() by {
        assert(a.contains(a[i]));
        vstd::seq_lib::to_multiset_contains(a, a[i]);
        vstd::seq_lib::to_multiset_contains(b, a[i]);
        let j = choose|j: int| 0 <= j < b.len() && b[j] == a[i];
        assert(b[j].is_drawable());
    }
}

/// The entities that a batch of players adds to a world.
pub open spec fn as_players(batch: Seq<(Position, Renderable, Player)>) -> Seq<Components> {
    Seq::new(batch.len(), |i: int| Components::of_player(batch[i].0, batch[i].1))
}

/// The entities that a batch of left movers adds to a world.
pub open spec fn as_left_movers(batch: Seq<(Position, Renderable, LeftMover)>) -> Seq<Components> {
    Seq::new(batch.len(), |i: int| Components::of_left_mover(batch[i].0, batch[i].1))
}

/// `Universe::create_world` on a new `Universe`: the world holds no entity.
#[verifier::external_body]
pub(crate) fn create_world() -> (world: World)
    ensures
        entities(world) == Seq::<Components>::empty(),
{
    Universe::new().create_world()
}

/// `World::insert` without tags: each tuple of the batch becomes one new
/// entity with these three components, and the entities that were there stay
/// as they were. Where the new entities stand among the old ones is left
/// open.
#[verifier::external_body]
pub(crate) fn insert_players(ecs: &mut World, batch: Vec<(Position, Renderable, Player)>)
    ensures
        entities(*final(ecs)).to_multiset() == entities(*old(ecs)).to_multiset().add(
            as_players(batch@).to_multiset(),
        ),
{
    ecs.insert((), batch);
}

/// `World::insert` without tags: each tuple of the batch becomes one new
/// entity with these three components, and the entities that were there stay
/// as they were. Where the new entities stand among the old ones is left
/// open.
#[verifier::external_body]
pub(crate) fn insert_left_movers(ecs: &mut World, batch: Vec<(Position, Renderable, LeftMover)>)
    ensures
        entities(*final(ecs)).to_multiset() == entities(*old(ecs)).to_multiset().add(
            as_left_movers(batch@).to_multiset(),
        ),
{
    ecs.insert((), batch);
}

/// `Query::for_each_mut` on the query for `Player` and a writable
/// `Position`: the closure runs once for each entity that has both, and
/// stores the stepped position. No entity is added, removed or reordered.
#[verifier::external_body]
pub(crate) fn move_players(ecs: &mut World, dx: i32, dy: i32)
    ensures
        entities(*final(ecs)) == players_moved(entities(*old(ecs)), dx as int, dy as int),
{
    <(Read<Player>, Write<Position>)>::query().for_each_mut(
        ecs,
        |(_player, mut position)| *position = position.step(dx, dy),
    );
}

/// `Query::for_each_mut` on the query for `LeftMover` and a writable
/// `Position`: the closure runs once for each entity that has both, and
/// stores the drifted position. No entity is added, removed or reordered.
#[verifier::external_body]
pub(crate) fn drift_left_movers(ecs: &mut World)
    ensures
        entities(*final(ecs)) == left_movers_drifted(entities(*old(ecs))),
{
    <(Read<LeftMover>, Write<Position>)>::query().for_each_mut(
        ecs,
        |(_mover, mut position)| *position = position.drift_left(),
    );
}

/// `Query::iter` on the query for `Position` and `Renderable`: it yields
/// the two components of each entity that has both, in storage order.
#[verifier::external_body]
pub(crate) fn renderables(ecs: &World) -> (out: Vec<(Position, Renderable)>)
    ensures
        out@ == draw_list(entities(*ecs)),
{
    <(Read<Position>, Read<Renderable>)>::query().iter(ecs).map(
        |(position, renderable)| (*position, *renderable),
    ).collect()
}

} // verus!
