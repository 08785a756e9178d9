//! The signal shown after a fatal fault.
//!
//! Once a fault has been reported nothing else can be trusted, so the signal
//! depends on nothing: two pins are made outputs, then both LEDs are held on
//! for a fixed number of busy spins, off for as many, and so on for ever.
//! The library decides what is done at each spin; the caller does it to the
//! pins and asks again. No step ends the signal.

use vstd::prelude::*;

verus! {

/// Pin of the first diagnostic LED on the GPIO port.
pub const LED0_PIN: usize = 18;

/// Pin of the second diagnostic LED on the GPIO port.
pub const LED1_PIN: usize = 19;

/// Number of busy spins in one phase of the blink.
pub const SPIN_COUNT: u32 = 100000;

/// What the caller does to the two diagnostic pins in one step.
#[derive(Clone, Copy, Debug, PartialEq, Eq, Structural)]
pub enum LedAction {
    /// Make both pins outputs.
    EnableOutputs,
    /// Drive both LEDs on and spin once.
    TurnOn,
    /// Drive both LEDs off and spin once.
    TurnOff,
}

/// The action taken at `position` of the signal. Position 0 is the entry;
/// the on phase takes the positions from 1 to `SPIN_COUNT`, the off phase
/// those from `SPIN_COUNT + 1` to `2 * SPIN_COUNT`.
pub open spec fn action_at(position: nat) -> LedAction {
    if position == 0 {
        LedAction::EnableOutputs
    } else if position <= SPIN_COUNT {
        LedAction::TurnOn
    } else {
        LedAction::TurnOff
    }
}

/// The position that follows `position`: the next one, and after the last
/// spin of the off phase the first spin of the on phase again.
pub open spec fn next_position(position: nat) -> nat {
    if position >= 2 * SPIN_COUNT {
        1
    } else {
        position + 1
    }
}

/// The position of the signal after `steps` steps from the entry.
pub open spec fn position_after(steps: nat) -> nat
    decreases steps,
{
    if steps == 0 {
        0
    } else {
        next_position(position_after((steps - 1) as nat))
    }
}

/// The signal in progress.
pub struct FaultSignal {
    configured: bool,
    lit: bool,
    spins: u32,
}

impl FaultSignal {
    /// Holds of every signal that exists: the spins of a phase stay below
    /// the spin count, and before the pins are outputs nothing has been spun.
    #[verifier::type_invariant]
    spec fn inv(&self) -> bool {
        &&& self.spins < SPIN_COUNT
        &&& !self.configured ==> self.lit && self.spins == 0
    }

    /// Where the signal stands: 0 at the entry, then the number of the spin
    /// that comes next within the on-off cycle.
    pub closed spec fn position(&self) -> nat {
        if !self.configured {
            0
        } else if self.lit {
            (1 + self.spins) as nat
        } else {
            (1 + SPIN_COUNT + self.spins) as nat
        }
    }

    /// Says what to do to the diagnostic pins now, and moves on by one
    /// position.
    pub fn step(&mut self) -> (action: LedAction)
        ensures
            action == action_at(old(self).position()),
            final(self).position() == next_position(old(self).position()),
    {
        proof {
            use_type_invariant(&*self);
        }
        if !self.configured {
            *self = FaultSignal { configured: true, lit: true, spins: 0 };
            LedAction::EnableOutputs
        } else {
            let action = if self.lit {
                LedAction::TurnOn
            } else {
                LedAction::TurnOff
            };
            if self.spins + 1 < SPIN_COUNT {
                *self = FaultSignal { configured: true, lit: self.lit, spins: self.spins + 1 };
            } else {
                *self = FaultSignal { configured: true, lit: !self.lit, spins: 0 };
            }
            action
        }
    }
}

/// Entry of the fault hook: the signal at its first position. Where the
/// fault was reported does not matter to it.
pub fn rust_begin_unwind(_file: &'static str, _line: usize) -> (signal: FaultSignal)
    ensures
        signal.position() == 0,
{
    FaultSignal { configured: false, lit: true, spins: 0 }
}

/// The signal never ends and never leaves its pattern: the first step makes
/// the pins outputs, and from then on the steps fall into blocks of
/// `SPIN_COUNT`, the LEDs on in the first block, off in the second, on in
/// the third, and so on.
pub proof fn lemma_blink_pattern(steps: nat)
    ensures
        position_after(steps) == if steps == 0 {
            0
        } else {
            1 + (steps - 1) % (2 * SPIN_COUNT)
        },
        action_at(position_after(steps)) == if steps == 0 {
            LedAction::EnableOutputs
        } else if ((steps - 1) / (SPIN_COUNT as int)) % 2 == 0 {
            LedAction::TurnOn
        } else {
            LedAction::TurnOff
        },
    decreases steps,
{
    if steps > 0 {
        lemma_blink_pattern((steps - 1) as nat);
    }
}

} // verus!
