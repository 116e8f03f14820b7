//! A typed, stateful front for the ParKissat-RS parallel SAT engine.
//!
//! The engine is reached through a flat table of foreign functions on an
//! opaque handle. It accepts any call in any order and fails softly; this
//! crate holds everything that is decided on the near side of that table:
//! which call may be made in which state, what exactly is handed to it, and
//! what its raw answer means.
//!
//! The crate makes no foreign call itself. An operation of
//! [`ParkissatSolver`] checks its arguments and the solver's state and
//! returns an [`ffi::EngineCall`]: the one engine function to call, with its
//! arguments. The caller performs it. Where the function returns
//! something, the method whose name ends in `_reply` takes the raw answer
//! and gives the typed one:
//!
//! ```text
//! let call = solver.solve()?;             // Err(NotConfigured), or the call
//! let code = perform(call);               // the caller's foreign call
//! let result = solver.solve_reply(code)?; // Sat, Unsat or Unknown
//! ```
//!
//! [`protocol`] states the same rules over plain values and proves what
//! follows from them for one operation; [`session`] proves what holds of
//! every call that any sequence of operations issues.

pub mod error;
pub mod ffi;
pub mod platform;
pub mod protocol;
pub mod session;
pub mod text;
pub mod wrapper;

pub use error::{ErrorView, ParkissatError};
pub use wrapper::{ParkissatSolver, SolverConfig, SolverResult, SolverStatistics};
