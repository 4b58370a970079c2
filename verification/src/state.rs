//! The frame driver: the world, its schedule, and what one frame does.

use vstd::prelude::*;
use legion::prelude::World;
use crate::components::{Color, LeftMover, Player, Position, Renderable};
use crate::glyph::{cp437, to_cp437};
use crate::input::{after_input, player_input, Key};
use crate::store::{
    all_drawable, as_left_movers, as_players, create_world, draw_list, entities,
    insert_left_movers, insert_players, lemma_all_drawable_draws_all,
    lemma_same_entities_same_drawable, lemma_same_entities_same_grid, positions_in_bounds,
    renderables, Components,
};
use crate::systems::{create_walker_system, lemma_schedule_keeps_grid, run_schedule, System};

verus! {

/// The world and the systems that run on it once per frame, in order.
pub struct State {
    pub ecs: World,
    pub walker_schedule: Vec<System>,
}

/// The appearance of the player: a yellow glyph on black.
pub open spec fn player_look(glyph: u16) -> Renderable {
    Renderable { glyph, fg: Color::yellow(), bg: Color::black() }
}

/// The appearance of a left mover: a red glyph on black.
pub open spec fn mover_look(glyph: u16) -> Renderable {
    Renderable { glyph, fg: Color::red(), bg: Color::black() }
}

/// The cell where the `i`-th left mover starts.
pub open spec fn mover_start(i: int) -> Position {
    Position { x: (7 * i) as i32, y: 20 }
}

/// The entities of the initial world: the player in the middle of the
/// grid, and ten left movers on row 20, seven columns apart.
pub open spec fn initial_entities(player_glyph: u16, mover_glyph: u16) -> Seq<Components> {
    seq![Components::of_player(Position { x: 40, y: 25 }, player_look(player_glyph))] + Seq::new(
        10,
        |i: int| Components::of_left_mover(mover_start(i), mover_look(mover_glyph)),
    )
}

/// The entities after one frame: first the input, then the schedule.
pub open spec fn frame(es: Seq<Components>, schedule: Seq<System>, key: Option<Key>) -> Seq<
    Components,
> {
    run_schedule(schedule, after_input(es, key))
}

impl State {
    /// Whether every position in the world lies on the grid.
    pub open spec fn on_grid(self) -> bool {
        positions_in_bounds(entities(self.ecs))
    }

    /// The initial world, with `@` for the player and a smiling face for
    /// the left movers.
    pub fn new() -> (gs: State)
        ensures
            entities(gs.ecs).to_multiset() == initial_entities(
                cp437('@'),
                cp437('\u{263A}'),
            ).to_multiset(),
            entities(gs.ecs).len() == 11,
            draw_list(entities(gs.ecs)).len() == 11,
            gs.walker_schedule@ == seq![System::LeftWalker],
            gs.on_grid(),
    {
        let player_glyph = to_cp437('@');
        let mover_glyph = to_cp437('\u{263A}');
        State::with_glyphs(player_glyph, mover_glyph)
    }

    /// The initial world with the two glyphs given: one player at (40, 25),
    /// ten left movers at (7 i, 20), and the left walker as the only system.
    pub fn with_glyphs(player_glyph: u16, mover_glyph: u16) -> (gs: State)
        ensures
            entities(gs.ecs).to_multiset() == initial_entities(
                player_glyph,
                mover_glyph,
            ).to_multiset(),
            entities(gs.ecs).len() == 11,
            draw_list(entities(gs.ecs)).len() == 11,
            gs.walker_schedule@ == seq![System::LeftWalker],
            gs.on_grid(),
    {
        let mut ecs = create_world();
        let mut players: Vec<(Position, Renderable, Player)> = Vec::new();
        players.push(
            (
                Position { x: 40, y: 25 },
                Renderable { glyph: player_glyph, fg: Color::yellow(), bg: Color::black() },
                Player {},
            ),
        );
        let ghost first = as_players(players@);
        insert_players(&mut ecs, players);

        let mut movers: Vec<(Position, Renderable, LeftMover)> = Vec::new();
        let mut i: i32 = 0;
        while i < 10
            invariant
                0 <= i <= 10,
                movers@.len() == i,
                forall|j: int|
                    0 <= j < i ==> #[trigger] movers@[j] == (
                        mover_start(j),
                        mover_look(mover_glyph),
                        LeftMover {},
                    ),
            decreases 10 - i,
        {
            movers.push(
                (
                    Position { x: i * 7, y: 20 },
                    Renderable { glyph: mover_glyph, fg: Color::red(), bg: Color::black() },
                    LeftMover {},
                ),
            );
            i += 1;
        }
        let ghost rest = as_left_movers(movers@);
        insert_left_movers(&mut ecs, movers);

        let mut walker_schedule: Vec<System> = Vec::new();
        walker_schedule.push(create_walker_system());
        proof {
            broadcast use vstd::seq_lib::group_to_multiset_ensures;

            assert(first + rest =~= initial_entities(player_glyph, mover_glyph));
            assert(Seq::<Components>::empty().to_multiset() =~= vstd::multiset::Multiset::empty());
            vstd::seq_lib::lemma_multiset_commutative(first, rest);
            assert(entities(ecs).to_multiset() =~= (first + rest).to_multiset());
            lemma_same_entities_same_grid(entities(ecs), first + rest);
            vstd::seq_lib::to_multiset_len(entities(ecs));
            vstd::seq_lib::to_multiset_len(first + rest);
            assert(all_drawable(first + rest));
            lemma_same_entities_same_drawable(entities(ecs), first + rest);
            lemma_all_drawable_draws_all(entities(ecs));
        }
        State { ecs, walker_schedule }
    }

    /// Runs every system of the schedule once, first to last.
    pub fn run_systems(&mut self)
        ensures
            entities(final(self).ecs) == run_schedule(
                old(self).walker_schedule@,
                entities(old(self).ecs),
            ),
            final(self).walker_schedule@ == old(self).walker_schedule@,
            old(self).on_grid() ==> final(self).on_grid(),
    {
        let mut i: usize = 0;
        while i < self.walker_schedule.len()
            invariant
                0 <= i <= self.walker_schedule.len(),
                self.walker_schedule@ == old(self).walker_schedule@,
                entities(self.ecs) == run_schedule(
                    self.walker_schedule@.take(i as int),
                    entities(old(self).ecs),
                ),
            decreases self.walker_schedule.len() - i,
        {
            let system = self.walker_schedule[i];
            system.run(&mut self.ecs);
            proof {
                let done = self.walker_schedule@.take(i + 1);
                assert(done.drop_last() =~= self.walker_schedule@.take(i as int));
            }
            i += 1;
        }
        proof {
            assert(self.walker_schedule@.take(i as int) =~= self.walker_schedule@);
            if old(self).on_grid() {
                lemma_schedule_keeps_grid(old(self).walker_schedule@, entities(old(self).ecs));
            }
        }
    }

    /// What is to be drawn: position and appearance of every entity that
    /// has both, in storage order.
    pub fn render(&self) -> (out: Vec<(Position, Renderable)>)
        ensures
            out@ == draw_list(entities(self.ecs)),
    {
        renderables(&self.ecs)
    }

    /// One frame on a cleared surface: the input moves the player, the
    /// systems run, and the result lists what is to be drawn, one glyph per
    /// entry.
    pub fn tick(&mut self, key: Option<Key>) -> (out: Vec<(Position, Renderable)>)
        ensures
            entities(final(self).ecs) == frame(
                entities(old(self).ecs),
                old(self).walker_schedule@,
                key,
            ),
            final(self).walker_schedule@ == old(self).walker_schedule@,
            out@ == draw_list(entities(final(self).ecs)),
            old(self).on_grid() ==> final(self).on_grid(),
    {
        player_input(self, key);
        self.run_systems();
        self.render()
    }
}

} // verus!
