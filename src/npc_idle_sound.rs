//! When an idle NPC makes its sound.

use vstd::prelude::*;

verus! {

/// The chance, in percent, that an idle NPC makes its sound on a loop of its
/// idle animation.
pub const IDLE_SOUND_CHANCE_PERCENT: u32 = 20;

/// The last loop of its idle animation on which an NPC had its chance to
/// make its sound, while it stands still.
#[derive(Clone, Copy, Debug, Default, PartialEq, Eq, Structural)]
pub struct NpcIdleSoundState {
    pub last_idle_loop_count: Option<usize>,
}

impl NpcIdleSoundState {
    /// Decides, on one frame, whether the NPC makes its idle sound. An NPC
    /// that is not standing still forgets its loop. One that stands still
    /// gets one chance for each new loop of its animation, and `roll`, drawn
    /// from `0..100`, wins it when below [`IDLE_SOUND_CHANCE_PERCENT`].
    pub fn update(&mut self, is_stopped: bool, current_loop_count: usize, roll: u32) -> (play: bool)
        ensures
            !is_stopped ==> !play && final(self).last_idle_loop_count is None,
            is_stopped && (old(self).last_idle_loop_count matches Some(last)
                && last >= current_loop_count) ==> !play && *final(self) == *old(self),
            is_stopped && !(old(self).last_idle_loop_count matches Some(last)
                && last >= current_loop_count) ==> final(self).last_idle_loop_count == Some(
                current_loop_count,
            ) && play == (roll < IDLE_SOUND_CHANCE_PERCENT),
    {
        if !is_stopped {
            self.last_idle_loop_count = None;
            return false;
        }
        if let Some(last) = self.last_idle_loop_count {
            if last >= current_loop_count {
                return false;
            }
        }
        self.last_idle_loop_count = Some(current_loop_count);
        roll < IDLE_SOUND_CHANCE_PERCENT
    }
}

} // verus!
