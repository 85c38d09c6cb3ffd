//! An emulator of the CHIP-8 virtual machine: instruction decoder, machine
//! state with its execute step, display sinks, and the turns of the two
//! loops that run a machine.
//!
//! What each instruction does is stated once, as a function on mathematical
//! values, in [`emulator::semantics`]; the executable machine in
//! [`emulator::vm`] is proved to do exactly that, and [`emulator::laws`]
//! holds what follows for all machines and all programs.

pub mod emulator;
pub mod visualizer;
