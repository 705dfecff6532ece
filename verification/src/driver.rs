//! The execution driver: what the host's loop does next.
//!
//! The host runs the machine in batches of cycles. Before each batch it
//! shows the state of the processor; after each cycle it renders, polls the
//! keys and pauses, and it stops as soon as the processor is halted. The
//! driver decides; the host's loop performs what it decided and asks again.

use vstd::prelude::*;
use crate::state::Progress;

verus! {

/// Cycles between two reports of the processor's state.
pub const CYCLES_PER_BATCH: u32 = 1200;

/// Microseconds to pause after a cycle that completed.
pub const CYCLE_PAUSE_MICROS: u64 = 100;

/// Microseconds to pause before polling the keys again while an instruction
/// waits for one.
pub const KEY_POLL_MICROS: u64 = 10_000;

/// What the host's loop is to do next.
#[derive(Clone, Copy, Debug, PartialEq, Eq, Structural)]
pub enum Action {
    /// Show the state of the processor.
    Report,
    /// Run one cycle, render, poll the keys and pause.
    Cycle,
    /// End the run.
    Stop,
}

/// Where the host's loop stands within the current batch.
#[derive(Clone, Copy, Debug, PartialEq, Eq, Structural)]
pub struct Driver {
    /// Whether the state has been shown for the current batch.
    pub reported: bool,
    /// Cycles that were run in the current batch.
    pub cycles_done: u32,
}

impl Driver {
    /// What is due when the processor's halt flag is `halted`: nothing more
    /// once it is set; else the report that opens a batch, then its cycles.
    pub open spec fn due(self, halted: bool) -> Action {
        if halted {
            Action::Stop
        } else if !self.reported {
            Action::Report
        } else {
            Action::Cycle
        }
    }

    /// Where the loop stands once what was due has been done. The cycle that
    /// completes a batch opens the next one.
    pub open spec fn after(self, halted: bool) -> Driver {
        if halted {
            self
        } else if !self.reported {
            Driver { reported: true, ..self }
        } else if self.cycles_done + 1 >= CYCLES_PER_BATCH {
            Driver { reported: false, cycles_done: 0 }
        } else {
            Driver { cycles_done: (self.cycles_done + 1) as u32, ..self }
        }
    }

    /// Where the loop stands after `n` more steps during which the
    /// processor is not halted.
    pub open spec fn after_steps(self, n: nat) -> Driver
        decreases n,
    {
        if n == 0 {
            self
        } else {
            self.after(false).after_steps((n - 1) as nat)
        }
    }

    /// A driver at the start of the first batch.
    pub fn new() -> (driver: Driver)
        ensures
            driver == (Driver { reported: false, cycles_done: 0 }),
    {
        Driver { reported: false, cycles_done: 0 }
    }

    /// Says what to do next, given the processor's halt flag, and moves on.
    pub fn next(&mut self, halted: bool) -> (action: Action)
        ensures
            action == old(self).due(halted),
            *final(self) == old(self).after(halted),
    {
        if halted {
            Action::Stop
        } else if !self.reported {
            self.reported = true;
            Action::Report
        } else {
            if self.cycles_done >= CYCLES_PER_BATCH - 1 {
                self.cycles_done = 0;
                self.reported = false;
            } else {
                self.cycles_done = self.cycles_done + 1;
            }
            Action::Cycle
        }
    }
}

/// How long the host pauses after a cycle, in microseconds: the pace of the
/// cycle loop after an instruction that completed, the key polling interval
/// while an instruction waits for a key.
pub fn pause_micros(progress: Progress) -> (micros: u64)
    ensures
        micros == match progress {
            Progress::Completed => CYCLE_PAUSE_MICROS,
            Progress::AwaitingKey => KEY_POLL_MICROS,
        },
{
    match progress {
        Progress::Completed => CYCLE_PAUSE_MICROS,
        Progress::AwaitingKey => KEY_POLL_MICROS,
    }
}

/// A halted processor stops the run at once, and for good: nothing else is
/// ever due, and the driver stays where it is.
pub proof fn law_halt_stops(driver: Driver)
    ensures
        driver.due(true) == Action::Stop,
        driver.after(true) == driver,
        forall|halted: bool| driver.due(halted) == Action::Stop ==> halted,
{
}

/// While the processor is not halted, a batch is one report followed by
/// exactly `CYCLES_PER_BATCH` cycles, and then the next batch begins.
pub proof fn law_batch(driver: Driver, k: nat)
    requires
        !driver.reported,
        driver.cycles_done == 0,
        k <= CYCLES_PER_BATCH,
    ensures
        driver.due(false) == Action::Report,
        k < CYCLES_PER_BATCH ==> driver.after_steps(1 + k).due(false) == Action::Cycle,
        k < CYCLES_PER_BATCH ==> driver.after_steps(1 + k) == (Driver {
            reported: true,
            cycles_done: k as u32,
        }),
        k == CYCLES_PER_BATCH ==> driver.after_steps(1 + k) == driver,
    decreases k,
{
    if k == 0 {
        assert(driver.after(false).after_steps(0) == driver.after(false));
    } else {
        law_batch(driver, (k - 1) as nat);
        lemma_steps_split(driver, k, 1);
        let before = driver.after_steps(k);
        assert(before.after(false).after_steps(0) == before.after(false));
    }
}

/// Taking `m` steps and then `n` is taking `m + n`.
proof fn lemma_steps_split(driver: Driver, m: nat, n: nat)
    ensures
        driver.after_steps(m + n) == driver.after_steps(m).after_steps(n),
    decreases m,
{
    if m > 0 {
        lemma_steps_split(driver.after(false), (m - 1) as nat, n);
    }
}

} // verus!
