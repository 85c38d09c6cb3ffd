use vstd::prelude::*;
use std::time::Duration;
use crate::emulator::basics::VmError;
use crate::emulator::semantics::{fetch, ticked};
use crate::emulator::vm::{executes, VMInterface, VirtualMachine};

verus! {

/// The time from one tick of the timers to the next, in microseconds: the
/// timers run at 60 Hz.
pub const TIMER_INTERVAL_MICROS: u64 = 16_667;

/// A machine together with the pace at which it is run: the pause after each
/// instruction and the interval of the timer clock.
///
/// Two loops drive a running machine, each a sequence of turns. A turn looks
/// at the stop signal first; once the signal is set it does nothing and tells
/// its loop to end. Otherwise it does its work and tells how long to sleep
/// before the next turn.
pub struct Executor {
    /// The pause after each instruction.
    pub instruction_sleep: Duration,
    /// The time from one tick of the timers to the next.
    pub timer_interval: Duration,
    /// The machine that is run.
    pub vm: VirtualMachine,
}

impl Executor {
    /// An executor that runs `vm` at the given pace.
    pub fn new(instruction_sleep: Duration, timer_interval: Duration, vm: VirtualMachine) -> (executor:
        Executor)
        ensures
            executor.instruction_sleep == instruction_sleep,
            executor.timer_interval == timer_interval,
            executor.vm == vm,
    {
        Executor { instruction_sleep, timer_interval, vm }
    }

    /// One turn of the timer loop. Unless `stopped`, both timers tick once,
    /// together, and the loop is to sleep for `timer_interval`; if `stopped`,
    /// nothing is touched and the loop is to end.
    pub fn timer_turn(timer_interval: Duration, stopped: bool, interface: &mut VMInterface) -> (sleep:
        Option<Duration>)
        ensures
            stopped ==> sleep is None && *final(interface) == *old(interface),
            !stopped ==> sleep == Some(timer_interval) && final(interface)@ == ticked(
                old(interface)@,
            ) && final(interface).display == old(interface).display,
    {
        if stopped {
            None
        } else {
            interface.tick_timers();
            Some(timer_interval)
        }
    }

    /// One turn of the instruction loop. Unless `stopped`, the machine
    /// fetches and executes exactly one instruction, and the loop is to sleep
    /// for the instruction pause; a fault ends the run and leaves everything
    /// untouched. If `stopped`, nothing is touched and the loop is to end.
    pub fn instruction_turn(&mut self, stopped: bool, interface: &mut VMInterface) -> (sleep: Result<
        Option<Duration>,
        VmError,
    >)
        ensures
            final(self).instruction_sleep == old(self).instruction_sleep,
            final(self).timer_interval == old(self).timer_interval,
            sleep is Err ==> *final(self) == *old(self),
            old(self).vm@.wf() ==> final(self).vm@.wf(),
            stopped ==> sleep == Ok::<Option<Duration>, VmError>(None) && *final(self) == *old(self)
                && *final(interface) == *old(interface),
            !stopped ==> match fetch(old(self).vm@) {
                Err(error) => sleep == Err::<Option<Duration>, VmError>(error) && *final(interface)
                    == *old(interface),
                Ok(instruction) => exists|random: u8, outcome: Result<(), VmError>|
                    {
                        &&& #[trigger] executes(
                            old(self).vm@,
                            *old(interface),
                            instruction,
                            random,
                            outcome,
                            final(self).vm@,
                            *final(interface),
                        )
                        &&& outcome is Ok ==> sleep == Ok::<Option<Duration>, VmError>(
                            Some(old(self).instruction_sleep),
                        )
                        &&& outcome matches Err(error) ==> sleep == Err::<
                            Option<Duration>,
                            VmError,
                        >(error)
                    },
            },
    {
        if stopped {
            return Ok(None);
        }
        let outcome = self.vm.step(interface);
        proof {
            if let Ok(instruction) = fetch(old(self).vm@) {
                let random = choose|random: u8|
                    executes(
                        old(self).vm@,
                        *old(interface),
                        instruction,
                        random,
                        outcome,
                        self.vm@,
                        *interface,
                    );
                assert(executes(
                    old(self).vm@,
                    *old(interface),
                    instruction,
                    random,
                    outcome,
                    self.vm@,
                    *interface,
                ));
            }
        }
        match outcome {
            Ok(_) => Ok(Some(self.instruction_sleep)),
            Err(error) => Err(error),
        }
    }
}

} // verus!
