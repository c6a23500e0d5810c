//! Clock-tree and voltage-scaling engine for the SF32LB52x high-power subsystem,
//! stated over a plain-value model of its clock and power registers.
//!
//! - [`regs`] models the register file as read at one instant ([`regs::ChipState`]).
//! - [`clock`] derives the frequency of every clock node from such a reading.
//! - [`dvfs`] classifies a core frequency into an operating mode and sequences the
//!   voltage changes around a clock change.
//! - [`config`] holds the update-or-keep request and turns it, with a reading, into a
//!   validated, ordered list of [`step::Step`]s; a refused request yields no step.
//! - [`step`] gives each step its effect on the register model.
//! - [`laws`] proves what the steps achieve: the clock tree the request describes, the
//!   regulator path of the target mode, DLL1 locked before the core moves onto it, and
//!   nothing more on a second application.
//!
//! Reading and writing the real registers, and the critical section around each
//! sequence, are left to the caller.

pub mod time;
pub mod regs;
pub mod dvfs;
pub mod error;
pub mod clock;
pub mod step;
pub mod config;
pub mod laws;
pub mod gpio;
pub mod timer;
pub mod syscfg;
pub mod rcc;
