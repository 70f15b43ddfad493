//! Ant spawners: a group of ants sent by a move order leaves its building
//! one ant per tick of the spawner's timer.
use vstd::prelude::*;

use crate::game::ant::ant_type::AntType;

verus! {

/// The ants still to leave a building towards a target building (entities
/// are written as their 64-bit form).
#[derive(Clone, Copy, Debug, PartialEq, Eq, Structural)]
pub struct AntSpawner {
    pub ant_type: AntType,
    pub left_to_spawn: u32,
    pub target_building: u64,
}

/// What a spawner does on a frame.
#[derive(Clone, Copy, Debug, PartialEq, Eq, Structural)]
pub struct SpawnerStep {
    /// An ant leaves this frame.
    pub spawn_ant: bool,
    /// The spawner has no ant left and is removed.
    pub despawn: bool,
}

impl AntSpawner {
    /// One frame of the spawner: when its timer has just fired, one ant
    /// leaves; once none is left, the spawner goes.
    pub fn step(&mut self, timer_just_finished: bool) -> (step: SpawnerStep)
        requires
            timer_just_finished ==> old(self).left_to_spawn > 0,
        ensures
            final(self).left_to_spawn == old(self).left_to_spawn - (if timer_just_finished { 1int } else { 0int }),
            final(self).ant_type == old(self).ant_type,
            final(self).target_building == old(self).target_building,
            *final(self) == spec_step(*old(self), timer_just_finished),
            step.spawn_ant == timer_just_finished,
            step.despawn == (final(self).left_to_spawn == 0),
    {
        if timer_just_finished {
            self.left_to_spawn = self.left_to_spawn - 1;
        }
        SpawnerStep { spawn_ant: timer_just_finished, despawn: self.left_to_spawn == 0 }
    }
}

/// The spawner after one frame, as `step` leaves it.
pub open spec fn spec_step(spawner: AntSpawner, timer_just_finished: bool) -> AntSpawner {
    if timer_just_finished {
        AntSpawner { left_to_spawn: (spawner.left_to_spawn - 1) as u32, ..spawner }
    } else {
        spawner
    }
}

/// The spawner after a run of frames, each given by whether its timer fired.
pub open spec fn after_frames(spawner: AntSpawner, frames: Seq<bool>) -> AntSpawner
    decreases frames.len(),
{
    if frames.len() == 0 {
        spawner
    } else {
        spec_step(after_frames(spawner, frames.drop_last()), frames.last())
    }
}

/// How many ants a run of frames sends: one per frame whose timer fired.
pub open spec fn ants_sent(frames: Seq<bool>) -> int
    decreases frames.len(),
{
    if frames.len() == 0 {
        0
    } else {
        ants_sent(frames.drop_last()) + if frames.last() { 1int } else { 0int }
    }
}

proof fn lemma_ants_sent_prefix(frames: Seq<bool>, j: int, k: int)
    requires
        0 <= j <= k <= frames.len(),
    ensures
        0 <= ants_sent(frames.take(j)) <= ants_sent(frames.take(k)),
    decreases k - j,
{
    if j < k {
        assert(frames.take(k).drop_last() =~= frames.take(k - 1));
        lemma_ants_sent_prefix(frames, j, k - 1);
    } else {
        lemma_ants_sent_nonnegative(frames.take(j));
    }
}

proof fn lemma_ants_sent_nonnegative(frames: Seq<bool>)
    ensures
        ants_sent(frames) >= 0,
    decreases frames.len(),
{
    if frames.len() > 0 {
        lemma_ants_sent_nonnegative(frames.drop_last());
    }
}

proof fn lemma_left_after(spawner: AntSpawner, frames: Seq<bool>)
    requires
        ants_sent(frames) <= spawner.left_to_spawn,
    ensures
        after_frames(spawner, frames).left_to_spawn == spawner.left_to_spawn - ants_sent(frames),
        after_frames(spawner, frames).ant_type == spawner.ant_type,
        after_frames(spawner, frames).target_building == spawner.target_building,
    decreases frames.len(),
{
    if frames.len() > 0 {
        lemma_ants_sent_nonnegative(frames.drop_last());
        lemma_left_after(spawner, frames.drop_last());
    }
}

/// The life of a spawner: while the ants sent do not outnumber those it
/// started with, each frame whose timer fires finds an ant left to send
/// (so `step` may run every frame), its count never rises, it keeps its
/// kind of ant and its target, it has sent exactly as many ants as the
/// timer fired, and it is removed exactly when all of its ants have left.
pub proof fn lemma_spawner_lifetime(spawner: AntSpawner, frames: Seq<bool>)
    requires
        ants_sent(frames) <= spawner.left_to_spawn,
    ensures
        forall|j: int| 0 <= j < frames.len() && #[trigger] frames[j]
            ==> after_frames(spawner, frames.take(j)).left_to_spawn > 0,
        forall|j: int, k: int| 0 <= j <= k <= frames.len()
            ==> after_frames(spawner, frames.take(k)).left_to_spawn
                <= after_frames(spawner, frames.take(j)).left_to_spawn,
        after_frames(spawner, frames).left_to_spawn == spawner.left_to_spawn - ants_sent(frames),
        after_frames(spawner, frames).ant_type == spawner.ant_type,
        after_frames(spawner, frames).target_building == spawner.target_building,
        (after_frames(spawner, frames).left_to_spawn == 0) <==> ants_sent(frames) == spawner.left_to_spawn,
{
    lemma_left_after(spawner, frames);
    assert forall|j: int| 0 <= j < frames.len() && #[trigger] frames[j]
        implies after_frames(spawner, frames.take(j)).left_to_spawn > 0 by {
        lemma_ants_sent_prefix(frames, j + 1, frames.len() as int);
        assert(frames.take(frames.len() as int) =~= frames);
        assert(frames.take(j + 1).drop_last() =~= frames.take(j));
        assert(frames.take(j + 1).last() == frames[j]);
        lemma_ants_sent_prefix(frames, j, j + 1);
        lemma_left_after(spawner, frames.take(j));
    }
    assert forall|j: int, k: int| 0 <= j <= k <= frames.len()
        implies after_frames(spawner, frames.take(k)).left_to_spawn
            <= after_frames(spawner, frames.take(j)).left_to_spawn by {
        assert(frames.take(frames.len() as int) =~= frames);
        lemma_ants_sent_prefix(frames, k, frames.len() as int);
        lemma_ants_sent_prefix(frames, j, k);
        lemma_left_after(spawner, frames.take(j));
        lemma_left_after(spawner, frames.take(k));
    }
}

} // verus!
