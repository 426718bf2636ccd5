//! A pending-interrupt latch: a countdown that becomes ready at zero.
//!
//! The PPU schedules an NMI with a one-tick delay; every bus tick counts the
//! latch down; the CPU observes `ready` at the next opcode boundary and
//! acknowledges, returning the latch to absent.

use vstd::prelude::*;

verus! {

pub struct Interrupt {
    pub schedule: Option<usize>,
}

/// The latch after one tick: a positive countdown decrements; an absent or
/// already-ready latch is unchanged.
pub open spec fn interrupt_after_tick(i: Interrupt) -> Interrupt {
    match i.schedule {
        Some(t) => if t > 0 {
            Interrupt { schedule: Some((t - 1) as usize) }
        } else {
            i
        },
        None => i,
    }
}

/// A latch is ready exactly when its countdown has reached zero.
pub open spec fn interrupt_is_ready(i: Interrupt) -> bool {
    i.schedule == Some(0usize)
}

impl Interrupt {
    pub fn new() -> (r: Interrupt)
        ensures
            r.schedule == Option::<usize>::None,
    {
        Interrupt { schedule: None }
    }

    pub fn tick(&mut self)
        ensures
            *final(self) == interrupt_after_tick(*old(self)),
    {
        match self.schedule {
            Some(t) => {
                if t > 0 {
                    self.schedule = Some(t - 1);
                }
            }
            None => {}
        }
    }

    pub fn schedule(&mut self, ticks: usize)
        ensures
            final(self).schedule == Some(ticks),
    {
        self.schedule = Some(ticks);
    }

    pub fn acknowledge(&mut self)
        ensures
            final(self).schedule == Option::<usize>::None,
    {
        self.schedule = None;
    }

    pub fn ready(&self) -> (r: bool)
        ensures
            r == interrupt_is_ready(*self),
    {
        match self.schedule {
            Some(t) => t == 0,
            None => false,
        }
    }
}

/// A latch scheduled with a one-tick delay is not ready at once, and is ready
/// after exactly one tick.
pub proof fn lemma_one_tick_delay(i: Interrupt)
    ensures
        !interrupt_is_ready(Interrupt { schedule: Some(1usize) }),
        interrupt_is_ready(interrupt_after_tick(Interrupt { schedule: Some(1usize) })),
{
}

} // verus!
