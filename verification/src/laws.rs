//! What holds of every run of the frame loop: the grid is never left,
//! opposite keys cancel, the left walker wraps around, and a frame without
//! input or systems changes nothing.

use vstd::prelude::*;
use crate::components::Position;
use crate::input::{after_input, Key};
use crate::state::frame;
use crate::store::{players_in_bounds, positions_in_bounds, Components};
use crate::systems::{lemma_schedule_keeps_grid, run_schedule, System};

verus! {

/// The entities after the inputs of several frames, first to last, with no
/// system running in between.
pub open spec fn after_inputs(es: Seq<Components>, keys: Seq<Option<Key>>) -> Seq<Components>
    decreases keys.len(),
{
    if keys.len() == 0 {
        es
    } else {
        after_input(after_inputs(es, keys.drop_last()), keys.last())
    }
}

/// The entities after `n` runs of the schedule, with no input in between.
pub open spec fn after_ticks(es: Seq<Components>, schedule: Seq<System>, n: nat) -> Seq<Components>
    decreases n,
{
    if n == 0 {
        es
    } else {
        run_schedule(schedule, after_ticks(es, schedule, (n - 1) as nat))
    }
}

/// The entities after several frames, one for each entry of `keys`.
pub open spec fn after_frames(
    es: Seq<Components>,
    schedule: Seq<System>,
    keys: Seq<Option<Key>>,
) -> Seq<Components>
    decreases keys.len(),
{
    if keys.len() == 0 {
        es
    } else {
        frame(after_frames(es, schedule, keys.drop_last()), schedule, keys.last())
    }
}

/// Whether no entity was added or removed and every entity kept its tags
/// and its appearance.
pub open spec fn same_cast(a: Seq<Components>, b: Seq<Components>) -> bool {
    &&& a.len() == b.len()
    &&& forall|i: int|
        0 <= i < a.len() ==> {
            &&& (#[trigger] a[i]).player == b[i].player
            &&& a[i].left_mover == b[i].left_mover
            &&& a[i].renderable == b[i].renderable
            &&& a[i].position is Some <==> b[i].position is Some
        }
}

proof fn lemma_inputs_keep_players(es: Seq<Components>, keys: Seq<Option<Key>>)
    requires
        players_in_bounds(es),
    ensures
        players_in_bounds(after_inputs(es, keys)),
        same_cast(after_inputs(es, keys), es),
    decreases keys.len(),
{
    if keys.len() > 0 {
        lemma_inputs_keep_players(es, keys.drop_last());
    }
}

/// Clamping: whatever keys are pressed, one after the other, a player that
/// starts on the grid is on the grid after each of them, with `x` in
/// `[0, 79]` and `y` in `[0, 49]`.
pub proof fn lemma_player_stays_on_grid(es: Seq<Components>, keys: Seq<Option<Key>>)
    requires
        players_in_bounds(es),
    ensures
        forall|n: int|
            0 <= n <= keys.len() ==> players_in_bounds(#[trigger] after_inputs(es, keys.take(n))),
        forall|n: int, i: int|
            0 <= n <= keys.len() && 0 <= i < es.len() && es[i].player && es[i].position is Some ==> {
                let p = (#[trigger] after_inputs(es, keys.take(n))[i]).position->0;
                0 <= p.x <= 79 && 0 <= p.y <= 49
            },
{
    assert forall|n: int| 0 <= n <= keys.len() implies players_in_bounds(
        #[trigger] after_inputs(es, keys.take(n)),
    ) && same_cast(after_inputs(es, keys.take(n)), es) by {
        lemma_inputs_keep_players(es, keys.take(n));
    }
}

proof fn lemma_frames_keep_positions(
    es: Seq<Components>,
    schedule: Seq<System>,
    keys: Seq<Option<Key>>,
)
    requires
        positions_in_bounds(es),
    ensures
        positions_in_bounds(after_frames(es, schedule, keys)),
    decreases keys.len(),
{
    if keys.len() > 0 {
        lemma_frames_keep_positions(es, schedule, keys.drop_last());
        let before = after_frames(es, schedule, keys.drop_last());
        lemma_schedule_keeps_grid(schedule, after_input(before, keys.last()));
    }
}

/// The grid is never left: in a world whose positions are all on the grid,
/// they all are after every frame, whatever the keys and the schedule.
pub proof fn lemma_frames_stay_on_grid(
    es: Seq<Components>,
    schedule: Seq<System>,
    keys: Seq<Option<Key>>,
)
    requires
        positions_in_bounds(es),
    ensures
        forall|n: int|
            0 <= n <= keys.len() ==> positions_in_bounds(
                #[trigger] after_frames(es, schedule, keys.take(n)),
            ),
{
    assert forall|n: int| 0 <= n <= keys.len() implies positions_in_bounds(
        #[trigger] after_frames(es, schedule, keys.take(n)),
    ) by {
        lemma_frames_keep_positions(es, schedule, keys.take(n));
    }
}

/// The cast is fixed: over any number of frames no entity appears or
/// disappears, and every entity keeps its tags and its appearance.
pub proof fn lemma_frames_keep_the_cast(
    es: Seq<Components>,
    schedule: Seq<System>,
    keys: Seq<Option<Key>>,
)
    ensures
        same_cast(after_frames(es, schedule, keys), es),
    decreases keys.len(),
{
    if keys.len() > 0 {
        lemma_frames_keep_the_cast(es, schedule, keys.drop_last());
        let before = after_frames(es, schedule, keys.drop_last());
        lemma_schedule_keeps_the_cast(schedule, after_input(before, keys.last()));
    }
}

proof fn lemma_schedule_keeps_the_cast(schedule: Seq<System>, es: Seq<Components>)
    ensures
        same_cast(run_schedule(schedule, es), es),
    decreases schedule.len(),
{
    if schedule.len() > 0 {
        lemma_schedule_keeps_the_cast(schedule.drop_last(), es);
    }
}

/// Left then Right brings every player back to where it was, provided it
/// stood on the grid and not in the first column, where Left is clamped.
pub proof fn lemma_left_then_right_returns(es: Seq<Components>)
    requires
        forall|i: int|
            0 <= i < es.len() && (#[trigger] es[i]).player && es[i].position is Some ==> {
                &&& es[i].position->0.in_bounds()
                &&& es[i].position->0.x > 0
            },
    ensures
        after_input(after_input(es, Some(Key::Left)), Some(Key::Right)) == es,
{
    assert(after_input(after_input(es, Some(Key::Left)), Some(Key::Right)) =~= es);
}

/// Up then Down brings every player back to where it was, provided it
/// stood on the grid and not in the first row, where Up is clamped.
pub proof fn lemma_up_then_down_returns(es: Seq<Components>)
    requires
        forall|i: int|
            0 <= i < es.len() && (#[trigger] es[i]).player && es[i].position is Some ==> {
                &&& es[i].position->0.in_bounds()
                &&& es[i].position->0.y > 0
            },
    ensures
        after_input(after_input(es, Some(Key::Up)), Some(Key::Down)) == es,
{
    assert(after_input(after_input(es, Some(Key::Up)), Some(Key::Down)) =~= es);
}

/// Wrapping: one run of the left walker takes a left mover from column `x`
/// to column `x - 1` if `x > 0`, and to column 79 otherwise. Its row and
/// everything else about it stay, and so does every entity that is no left
/// mover.
pub proof fn lemma_walker_wraps(es: Seq<Components>, i: int)
    requires
        0 <= i < es.len(),
    ensures
        run_schedule(seq![System::LeftWalker], es).len() == es.len(),
        es[i].left_mover && es[i].position is Some ==> {
            let old_p = es[i].position->0;
            let new_x = if old_p.x > 0 { old_p.x - 1 } else { 79 };
            run_schedule(seq![System::LeftWalker], es)[i] == es[i].at(
                Position { x: new_x as i32, y: old_p.y },
            )
        },
        !(es[i].left_mover && es[i].position is Some) ==> run_schedule(
            seq![System::LeftWalker],
            es,
        )[i] == es[i],
{
    let schedule = seq![System::LeftWalker];
    assert(schedule.drop_last() =~= Seq::<System>::empty());
    assert(run_schedule(schedule.drop_last(), es) == es);
    assert(schedule.last() == System::LeftWalker);
}

/// Doing nothing changes nothing: no run of the schedule, no frame, a
/// frame without key and systems, each leaves every component value as it
/// was.
pub proof fn lemma_idle_changes_nothing(es: Seq<Components>, schedule: Seq<System>)
    ensures
        after_ticks(es, schedule, 0) == es,
        after_inputs(es, Seq::empty()) == es,
        after_frames(es, schedule, Seq::empty()) == es,
        after_input(es, None) == es,
        after_input(es, Some(Key::Other)) == es,
        run_schedule(Seq::empty(), es) == es,
        frame(es, Seq::empty(), None) == es,
{
}

} // verus!
