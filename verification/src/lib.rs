//! The core of a conformance test runner for an Elm compiler toolchain.
//!
//! A suite is a directory with a small program. It passes when the
//! compiler builds it in silence and the built program, run under a
//! generated harness, reports its expected output and nothing else.
//!
//! The crate decides and the program around it acts. Each stage of the
//! pipeline is a state machine that hands out one [`world::Request`] at a
//! time, for a file to be looked at or a process to be run, and takes the
//! [`world::Reply`] back:
//!
//! * [`compile::compile`] builds a suite,
//! * [`run::run`] runs what was built,
//! * [`suite::compile_and_run`] takes one suite through both and
//!   classifies how it ended,
//! * [`batch::compile_and_run_suites`] does so for a list of suites.
//!
//! Every machine is given by a transition function over mathematical
//! values, and comes in two forms. The functions whose names end in
//! `_step` make one transition and are exact about it for every reply. The
//! functions named above go on from there for as long as the machine asks
//! for something that the library can do itself ([`in_process`]), and hand
//! back the first move that needs the caller.
//!
//! [`laws`] states what holds of the machines whatever they are told, and
//! [`still`] gives, for a world that does not change while a machine runs,
//! the result of each machine as a function of that world.

pub mod batch;
pub mod compile;
pub mod config;
pub mod in_process;
pub mod laws;
pub mod layout;
pub mod outdir;
pub mod run;
pub mod search;
pub mod still;
pub mod suite;
pub mod text;
pub mod world;
