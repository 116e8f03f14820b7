//! The engine's side of the boundary, as plain values.
//!
//! The engine offers a flat table of functions on an opaque handle. Each
//! entry of that table is a variant of [`EngineRequest`]; a request together
//! with the handle it is addressed to is an [`EngineCall`]. The structs and
//! result codes that the table exchanges are mirrored here field by field.

use vstd::prelude::*;

verus! {

/// The raw code that a solve call returns. The engine numbers its answers
/// as SAT solvers commonly do: 10 for a model, 20 for none, 0 for neither.
pub type ParkissatResult = u32;

/// The engine gave up: a timeout, an interrupt, or a limit.
pub const PARKISSAT_UNKNOWN: ParkissatResult = 0;

/// The formula is satisfiable.
pub const PARKISSAT_SAT: ParkissatResult = 10;

/// The formula is unsatisfiable.
pub const PARKISSAT_UNSAT: ParkissatResult = 20;

/// The configuration struct that the engine's configure function reads.
#[derive(Debug, Clone, Copy, PartialEq, Eq, Structural)]
pub struct ParkissatConfig {
    pub num_threads: i32,
    pub timeout_seconds: i32,
    pub random_seed: i32,
    pub enable_preprocessing: bool,
    pub verbosity: i32,
}

/// The statistics struct that the engine returns.
///
/// The engine reports its peak memory, in kilobytes, as a 64-bit IEEE 754
/// number; `mem_peak_bits` carries the bits of that number unchanged.
#[derive(Debug, Clone, Copy, PartialEq, Eq, Structural)]
pub struct ParkissatStatistics {
    pub decisions: u64,
    pub propagations: u64,
    pub conflicts: u64,
    pub restarts: u64,
    pub mem_peak_bits: u64,
}

/// One entry of the engine's function table, with its arguments.
#[derive(Debug, PartialEq, Eq)]
pub enum EngineRequest<'a> {
    /// Apply a configuration.
    Configure(ParkissatConfig),
    /// Read a DIMACS file; the path holds no NUL byte.
    LoadDimacs(&'a str),
    /// Add one clause: the buffer of literals and the length handed with it.
    AddClause { literals: &'a [i32], length: i32 },
    /// Announce the number of variables.
    SetVariableCount(i32),
    /// Search for a model.
    Solve,
    /// Search for a model under assumptions: their buffer and its length.
    SolveWithAssumptions { assumptions: &'a [i32], length: i32 },
    /// Read the truth value of one variable of the model.
    GetModelValue(i32),
    /// Read the number of entries of the model.
    GetModelSize,
    /// Fill `buffer` with the `size` entries of the model.
    GetModel { buffer: Vec<i32>, size: i32 },
    /// Read the counters.
    GetStatistics,
    /// Ask a running search to stop.
    Interrupt,
    /// Withdraw an earlier request to stop.
    ClearInterrupt,
    /// Destroy the engine instance behind the handle.
    Delete,
}

/// An [`EngineRequest`] with each buffer taken as a sequence.
pub enum RequestView {
    Configure(ParkissatConfig),
    LoadDimacs(Seq<char>),
    AddClause { literals: Seq<i32>, length: i32 },
    SetVariableCount(i32),
    Solve,
    SolveWithAssumptions { assumptions: Seq<i32>, length: i32 },
    GetModelValue(i32),
    GetModelSize,
    GetModel { buffer: Seq<i32>, size: i32 },
    GetStatistics,
    Interrupt,
    ClearInterrupt,
    Delete,
}

impl<'a> View for EngineRequest<'a> {
    type V = RequestView;

    open spec fn view(&self) -> RequestView {
        match self {
            EngineRequest::Configure(config) => RequestView::Configure(*config),
            EngineRequest::LoadDimacs(path) => RequestView::LoadDimacs(path@),
            EngineRequest::AddClause { literals, length } => RequestView::AddClause {
                literals: literals@,
                length: *length,
            },
            EngineRequest::SetVariableCount(count) => RequestView::SetVariableCount(*count),
            EngineRequest::Solve => RequestView::Solve,
            EngineRequest::SolveWithAssumptions {
                assumptions,
                length,
            } => RequestView::SolveWithAssumptions { assumptions: assumptions@, length: *length },
            EngineRequest::GetModelValue(variable) => RequestView::GetModelValue(*variable),
            EngineRequest::GetModelSize => RequestView::GetModelSize,
            EngineRequest::GetModel { buffer, size } => RequestView::GetModel {
                buffer: buffer@,
                size: *size,
            },
            EngineRequest::GetStatistics => RequestView::GetStatistics,
            EngineRequest::Interrupt => RequestView::Interrupt,
            EngineRequest::ClearInterrupt => RequestView::ClearInterrupt,
            EngineRequest::Delete => RequestView::Delete,
        }
    }
}

/// A request and the engine instance it is addressed to.
///
/// `handle` is the address that the engine's factory returned. It is never
/// zero in a call that the solver issues.
#[derive(Debug, PartialEq, Eq)]
pub struct EngineCall<'a> {
    pub handle: usize,
    pub request: EngineRequest<'a>,
}

/// An [`EngineCall`] with its request taken by view.
pub struct CallView {
    pub handle: usize,
    pub request: RequestView,
}

impl<'a> View for EngineCall<'a> {
    type V = CallView;

    open spec fn view(&self) -> CallView {
        CallView { handle: self.handle, request: self.request@ }
    }
}

} // verus!
