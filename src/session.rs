//! The stages of one launch. The transition function decides where a launch
//! goes after each piece of outside work, and sends every failure after the
//! process-information mount to the teardown, so that it is released on
//! every path.
use vstd::prelude::*;

verus! {

#[derive(Debug, Clone, Copy, PartialEq, Eq, Structural)]
pub enum Stage {
    Created,
    Cloned,
    JailEstablished,
    ProcMounted,
    CommandResolved,
    Spawned,
    /// No process of the launch runs any more; the mounts are still held.
    Exited,
    Unmounted,
    Done,
}

pub open spec fn rank(s: Stage) -> nat {
    match s {
        Stage::Created => 0,
        Stage::Cloned => 1,
        Stage::JailEstablished => 2,
        Stage::ProcMounted => 3,
        Stage::CommandResolved => 4,
        Stage::Spawned => 5,
        Stage::Exited => 6,
        Stage::Unmounted => 7,
        Stage::Done => 8,
    }
}

/// The stage after the work of `s` succeeded (`ok`) or failed.
pub open spec fn next_spec(s: Stage, ok: bool) -> Stage {
    match s {
        Stage::Created => if ok { Stage::Cloned } else { Stage::Done },
        Stage::Cloned => if ok { Stage::JailEstablished } else { Stage::Done },
        Stage::JailEstablished => if ok { Stage::ProcMounted } else { Stage::Done },
        Stage::ProcMounted => if ok { Stage::CommandResolved } else { Stage::Exited },
        Stage::CommandResolved => if ok { Stage::Spawned } else { Stage::Exited },
        Stage::Spawned => Stage::Exited,
        Stage::Exited => Stage::Unmounted,
        Stage::Unmounted => Stage::Done,
        Stage::Done => Stage::Done,
    }
}

/// The work of stage `s` releases the recorded mounts.
pub open spec fn releases(s: Stage) -> bool {
    s == Stage::Exited
}

/// How many times a launch at `s` releases its mounts while the outcomes
/// `oks` come in.
pub open spec fn releases_in_run(s: Stage, oks: Seq<bool>) -> nat
    decreases oks.len(),
{
    if oks.len() == 0 {
        0
    } else {
        (if releases(s) { 1nat } else { 0nat }) + releases_in_run(next_spec(s, oks[0]), oks.drop_first())
    }
}

/// The mount is held: it was made and not yet released.
pub open spec fn holds_mount(s: Stage) -> bool {
    rank(Stage::ProcMounted) <= rank(s) <= rank(Stage::Exited)
}

/// Where a launch goes after the work of `stage`.
pub fn next_stage(stage: Stage, ok: bool) -> (r: Stage)
    ensures
        r == next_spec(stage, ok),
{
    match stage {
        Stage::Created => if ok { Stage::Cloned } else { Stage::Done },
        Stage::Cloned => if ok { Stage::JailEstablished } else { Stage::Done },
        Stage::JailEstablished => if ok { Stage::ProcMounted } else { Stage::Done },
        Stage::ProcMounted => if ok { Stage::CommandResolved } else { Stage::Exited },
        Stage::CommandResolved => if ok { Stage::Spawned } else { Stage::Exited },
        Stage::Spawned => Stage::Exited,
        Stage::Exited => Stage::Unmounted,
        Stage::Unmounted => Stage::Done,
        Stage::Done => Stage::Done,
    }
}

/// Whether the work of `stage` is to release the recorded mounts.
pub fn is_teardown(stage: Stage) -> (r: bool)
    ensures
        r == releases(stage),
{
    match stage {
        Stage::Exited => true,
        _ => false,
    }
}

proof fn lemma_next_rank(s: Stage, ok: bool)
    ensures
        s != Stage::Done ==> rank(next_spec(s, ok)) > rank(s),
        holds_mount(s) && s != Stage::Exited ==> holds_mount(next_spec(s, ok)),
{
}

proof fn lemma_at_most_once(s: Stage, oks: Seq<bool>)
    ensures
        releases_in_run(s, oks) <= (if rank(s) <= rank(Stage::Exited) { 1nat } else { 0nat }),
    decreases oks.len(),
{
    if oks.len() > 0 {
        lemma_next_rank(s, oks[0]);
        lemma_at_most_once(next_spec(s, oks[0]), oks.drop_first());
    }
}

proof fn lemma_at_least_once(s: Stage, oks: Seq<bool>)
    requires
        holds_mount(s),
        oks.len() + rank(s) > rank(Stage::Exited),
    ensures
        releases_in_run(s, oks) >= 1,
    decreases oks.len(),
{
    if s != Stage::Exited {
        lemma_next_rank(s, oks[0]);
        lemma_at_least_once(next_spec(s, oks[0]), oks.drop_first());
    }
}

/// A launch releases its mounts at most once, whatever the outcomes of its
/// steps; one that holds the process-information mount releases it exactly
/// once within four more steps, on success and on failure alike.
pub proof fn lemma_unmounted_exactly_once(s: Stage, oks: Seq<bool>)
    ensures
        releases_in_run(s, oks) <= 1,
        holds_mount(s) && oks.len() >= 4 ==> releases_in_run(s, oks) == 1,
{
    lemma_at_most_once(s, oks);
    if holds_mount(s) && oks.len() >= 4 {
        lemma_at_least_once(s, oks);
    }
}

} // verus!
