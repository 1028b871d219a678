//! The throw cycle: which phase a throw is in, the stone selected and the throws
//! left. The continuous quantities (charge, aim, spin, cooldown timer) are kept
//! by the caller, which reports when the cooldown has run out.

use vstd::prelude::*;
use crate::kinds::ThrowPhase;
use crate::stones::{StoneKind, STONE_COUNT, spec_all_stones};

verus! {

/// Phase, selected stone and throw budget of the player.
#[derive(Debug, Clone, Copy)]
pub struct ThrowState {
    pub phase: ThrowPhase,
    pub selected_stone: StoneKind,
    pub throws_remaining: u32,
    pub max_throws: u32,
}

impl Default for ThrowState {
    /// Idle, medium stone, 10 of 10 throws.
    fn default() -> (t: Self)
        ensures
            t.phase == ThrowPhase::Idle,
            t.selected_stone == StoneKind::Medium,
            t.throws_remaining == 10 && t.max_throws == 10,
    {
        ThrowState {
            phase: ThrowPhase::Idle,
            selected_stone: StoneKind::Medium,
            throws_remaining: 10,
            max_throws: 10,
        }
    }
}

impl ThrowState {
    /// Starts charging from the idle or aiming phase when throws are left;
    /// returns whether charging started (the caller then resets the charge).
    pub fn begin_charge(&mut self) -> (started: bool)
        ensures
            started == (old(self).throws_remaining > 0 && (old(self).phase == ThrowPhase::Idle
                || old(self).phase == ThrowPhase::Aiming)),
            started ==> final(self).phase == ThrowPhase::Charging,
            !started ==> final(self).phase == old(self).phase,
            final(self).throws_remaining == old(self).throws_remaining,
            final(self).max_throws == old(self).max_throws,
            final(self).selected_stone == old(self).selected_stone,
    {
        if self.throws_remaining == 0 {
            return false;
        }
        match self.phase {
            ThrowPhase::Idle | ThrowPhase::Aiming => {
                self.phase = ThrowPhase::Charging;
                true
            },
            _ => false,
        }
    }

    /// Releases the stone if charging with throws left: one throw is used and
    /// the stone flies. Returns whether the stone was released (the caller then
    /// computes the launch from its charge and aim).
    pub fn release(&mut self) -> (released: bool)
        ensures
            released == (old(self).phase == ThrowPhase::Charging && old(self).throws_remaining > 0),
            released ==> final(self).phase == ThrowPhase::Flying && final(self).throws_remaining
                == old(self).throws_remaining - 1,
            !released ==> *final(self) == *old(self),
            final(self).max_throws == old(self).max_throws,
            final(self).selected_stone == old(self).selected_stone,
    {
        if self.phase != ThrowPhase::Charging || self.throws_remaining == 0 {
            return false;
        }
        self.throws_remaining = self.throws_remaining - 1;
        self.phase = ThrowPhase::Flying;
        true
    }

    /// The stone came to rest: the cooldown begins.
    pub fn on_rock_landed(&mut self)
        ensures
            *final(self) == (ThrowState { phase: ThrowPhase::Cooldown, ..*old(self) }),
    {
        self.phase = ThrowPhase::Cooldown;
    }

    /// The cooldown timer ran out: back to aiming.
    pub fn on_cooldown_over(&mut self)
        ensures
            *final(self) == (ThrowState { phase: ThrowPhase::Aiming, ..*old(self) }),
    {
        self.phase = ThrowPhase::Aiming;
    }

    /// Selects the stone with the given index in `StoneKind::all()`; an index out
    /// of range is ignored.
    pub fn select_stone(&mut self, index: usize)
        ensures
            index < STONE_COUNT ==> *final(self) == (ThrowState {
                selected_stone: spec_all_stones()[index as int],
                ..*old(self)
            }),
            index >= STONE_COUNT ==> *final(self) == *old(self),
    {
        let stones = StoneKind::all();
        if index < stones.len() {
            self.selected_stone = stones[index];
        }
    }
}

} // verus!
