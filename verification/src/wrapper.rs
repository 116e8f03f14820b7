//! The solver and the values it takes and gives.

use crate::error::{ErrorView, ParkissatError};
use crate::ffi::{
    CallView, EngineCall, EngineRequest, ParkissatConfig, ParkissatResult, ParkissatStatistics,
    RequestView, PARKISSAT_SAT, PARKISSAT_UNSAT,
};
use crate::platform::{available_cpus, duration_from_secs, duration_secs};
use crate::protocol::{highest_variable, variable_of, ModelStepView, SolverState};
use std::time::Duration;
use vstd::prelude::*;
use vstd::string::*;

verus! {

/// How the engine is to run.
#[derive(Debug, Clone)]
pub struct SolverConfig {
    /// Number of parallel workers; `-1` asks for one per available CPU.
    pub num_threads: isize,
    /// Time limit, of which the whole seconds count; zero means no limit.
    pub timeout: Duration,
    /// Seed for diversification; zero keeps the engine's default.
    pub random_seed: u32,
    /// Whether the engine preprocesses the formula.
    pub enable_preprocessing: bool,
    /// How much the engine prints; zero is quiet.
    pub verbosity: u32,
}

impl Default for SolverConfig {
    /// One worker, no time limit, default seed, no preprocessing, quiet.
    fn default() -> (config: Self)
        ensures
            config.num_threads == 1,
            config.timeout == duration_from_secs(0),
            duration_secs(config.timeout) == 0,
            config.random_seed == 0,
            !config.enable_preprocessing,
            config.verbosity == 0,
    {
        SolverConfig {
            num_threads: 1,
            timeout: Duration::from_secs(0),
            random_seed: 0,
            enable_preprocessing: false,
            verbosity: 0,
        }
    }
}

/// What a search found.
#[derive(Debug, Clone, Copy, PartialEq, Eq, Structural)]
pub enum SolverResult {
    /// The formula has a model.
    Sat,
    /// The formula has no model.
    Unsat,
    /// The search ended without an answer.
    Unknown,
}

impl SolverResult {
    /// The meaning of a raw result code: the two codes that the engine
    /// defines for an answer, and `Unknown` for every other number.
    pub open spec fn from_code(code: ParkissatResult) -> SolverResult {
        if code == PARKISSAT_SAT {
            SolverResult::Sat
        } else if code == PARKISSAT_UNSAT {
            SolverResult::Unsat
        } else {
            SolverResult::Unknown
        }
    }
}

impl From<ParkissatResult> for SolverResult {
    fn from(code: ParkissatResult) -> (result: SolverResult) {
        if code == PARKISSAT_SAT {
            SolverResult::Sat
        } else if code == PARKISSAT_UNSAT {
            SolverResult::Unsat
        } else {
            SolverResult::Unknown
        }
    }
}

impl vstd::std_specs::convert::FromSpecImpl<ParkissatResult> for SolverResult {
    open spec fn obeys_from_spec() -> bool {
        true
    }

    open spec fn from_spec(code: ParkissatResult) -> SolverResult {
        SolverResult::from_code(code)
    }
}

/// A snapshot of the engine's counters.
#[derive(Debug, Clone, Copy, PartialEq, Eq, Structural)]
pub struct SolverStatistics {
    /// Number of propagations.
    pub propagations: u64,
    /// Number of decisions.
    pub decisions: u64,
    /// Number of conflicts.
    pub conflicts: u64,
    /// Number of restarts.
    pub restarts: u64,
    /// Peak memory in kilobytes, as the bits of a 64-bit IEEE 754 number.
    pub memory_peak_kb_bits: u64,
}

impl SolverStatistics {
    /// The snapshot that holds the counters of `raw`, each under its name.
    pub open spec fn from_raw(raw: ParkissatStatistics) -> SolverStatistics {
        SolverStatistics {
            propagations: raw.propagations,
            decisions: raw.decisions,
            conflicts: raw.conflicts,
            restarts: raw.restarts,
            memory_peak_kb_bits: raw.mem_peak_bits,
        }
    }
}

impl From<ParkissatStatistics> for SolverStatistics {
    fn from(raw: ParkissatStatistics) -> (statistics: SolverStatistics) {
        SolverStatistics {
            propagations: raw.propagations,
            decisions: raw.decisions,
            conflicts: raw.conflicts,
            restarts: raw.restarts,
            memory_peak_kb_bits: raw.mem_peak_bits,
        }
    }
}

impl vstd::std_specs::convert::FromSpecImpl<ParkissatStatistics> for SolverStatistics {
    open spec fn obeys_from_spec() -> bool {
        true
    }

    open spec fn from_spec(raw: ParkissatStatistics) -> SolverStatistics {
        SolverStatistics::from_raw(raw)
    }
}

/// The variable that `literal` speaks of.
fn variable(literal: i32) -> (number: usize)
    ensures
        number == variable_of(literal),
{
    if literal < 0 {
        let negated: i64 = -(literal as i64);
        negated as usize
    } else {
        literal as usize
    }
}

/// Whether zero occurs among `literals`.
fn contains_zero(literals: &[i32]) -> (found: bool)
    ensures
        found == literals@.contains(0i32),
{
    let mut index: usize = 0;
    while index < literals.len()
        invariant
            index <= literals.len(),
            forall|i: int| 0 <= i < index ==> literals@[i] != 0,
        decreases literals.len() - index,
    {
        if literals[index] == 0 {
            return true;
        }
        index += 1;
    }
    false
}

/// The highest variable among `literals`.
fn highest_variable_of(literals: &[i32]) -> (highest: usize)
    ensures
        highest == highest_variable(literals@),
{
    let mut highest: usize = 0;
    let mut index: usize = 0;
    while index < literals.len()
        invariant
            index <= literals.len(),
            highest == highest_variable(literals@.take(index as int)),
        decreases literals.len() - index,
    {
        let number: usize = variable(literals[index]);
        proof {
            let next = literals@.take(index + 1);
            assert(next.drop_last() =~= literals@.take(index as int));
        }
        if number > highest {
            highest = number;
        }
        index += 1;
    }
    assert(literals@.take(index as int) =~= literals@);
    highest
}

/// The offset of the first NUL byte among `bytes`, if there is one.
fn first_nul(bytes: &[u8]) -> (position: Option<usize>)
    ensures
        match position {
            Some(offset) => bytes@.index_of_first(0u8) == Some(offset as int),
            None => bytes@.index_of_first(0u8) is None,
        },
{
    let mut index: usize = 0;
    while index < bytes.len()
        invariant
            index <= bytes.len(),
            forall|i: int| 0 <= i < index ==> bytes@[i] != 0,
        decreases bytes.len() - index,
    {
        if bytes[index] == 0 {
            proof {
                bytes@.index_of_first_ensures(0u8);
            }
            return Some(index);
        }
        index += 1;
    }
    proof {
        bytes@.index_of_first_ensures(0u8);
    }
    None
}

/// What reading the model leads to once its size is known.
#[derive(Debug, PartialEq, Eq)]
pub enum ModelStep<'a> {
    /// The model is this vector; no further call is made.
    Done(Vec<i32>),
    /// The engine fills the buffer of this call, which then is the model.
    Fill(EngineCall<'a>),
}

impl<'a> View for ModelStep<'a> {
    type V = ModelStepView;

    open spec fn view(&self) -> ModelStepView {
        match self {
            ModelStep::Done(model) => ModelStepView::Done(model@),
            ModelStep::Fill(call) => ModelStepView::Fill(call@),
        }
    }
}

/// An outcome with its value and its error taken by view.
pub open spec fn viewed<T: View>(outcome: Result<T, ParkissatError>) -> Result<T::V, ErrorView> {
    match outcome {
        Ok(value) => Ok(value@),
        Err(error) => Err(error@),
    }
}

/// An outcome with its value as it is and its error taken by view.
pub open spec fn reported<T>(outcome: Result<T, ParkissatError>) -> Result<T, ErrorView> {
    match outcome {
        Ok(value) => Ok(value),
        Err(error) => Err(error@),
    }
}

/// A call that may be absent, taken by view.
pub open spec fn signalled(call: Option<EngineCall>) -> Option<CallView> {
    match call {
        Some(call) => Some(call@),
        None => None,
    }
}

/// One solver instance: the owner of one engine instance.
///
/// Every operation checks what must hold before the engine may be called
/// and returns the call to make. Where the call has an answer, the method
/// whose name ends in `_reply` takes it.
pub struct ParkissatSolver {
    solver: usize,
    configured: bool,
    last_result: Option<SolverResult>,
    variable_count: usize,
}

impl View for ParkissatSolver {
    type V = SolverState;

    closed spec fn view(&self) -> SolverState {
        SolverState {
            handle: self.solver,
            configured: self.configured,
            last_result: self.last_result,
            variable_count: self.variable_count,
        }
    }
}

impl ParkissatSolver {
    #[verifier::type_invariant]
    spec fn sound(self) -> bool {
        self@.well_formed()
    }

    /// Takes ownership of the engine instance at `handle`, the address that
    /// the engine's factory returned. A null address, zero, means that the
    /// factory failed: then no solver is made.
    pub fn new(handle: usize) -> (created: Result<ParkissatSolver, ParkissatError>)
        ensures
            viewed(created) == SolverState::create(handle),
            created matches Ok(solver) ==> solver@.well_formed(),
    {
        if handle == 0 {
            return Err(ParkissatError::SolverCreationFailed);
        }
        Ok(
            ParkissatSolver {
                solver: handle,
                configured: false,
                last_result: None,
                variable_count: 0,
            },
        )
    }

    /// The highest variable number announced so far.
    pub fn variable_count(&self) -> (count: usize)
        ensures
            count == self@.variable_count,
            self@.well_formed(),
    {
        proof {
            use_type_invariant(self);
        }
        self.variable_count
    }

    /// Whether a configuration has been applied.
    pub fn is_configured(&self) -> (configured: bool)
        ensures
            configured == self@.configured,
            self@.well_formed(),
    {
        proof {
            use_type_invariant(self);
        }
        self.configured
    }

    /// The outcome of the latest search, if there was one.
    pub fn last_result(&self) -> (result: Option<SolverResult>)
        ensures
            result == self@.last_result,
            self@.well_formed(),
    {
        proof {
            use_type_invariant(self);
        }
        self.last_result
    }

    /// Applies `config`, asking the platform for the number of available
    /// CPUs where the thread count is the sentinel `-1`. The platform is
    /// asked anew each time, and only then.
    ///
    /// The outcome is that of [`ParkissatSolver::configure_with_cpus`] for
    /// the CPU count that the platform reported, which is at least 1; the
    /// count has no part in the outcome unless the thread count is `-1`.
    pub fn configure(&mut self, config: &SolverConfig) -> (outcome: Result<
        EngineCall<'static>,
        ParkissatError,
    >)
        ensures
            exists|cpus: usize|
                {
                    &&& cpus >= 1
                    &&& final(self)@ == (#[trigger] old(self)@.configure(*config, cpus)).0
                    &&& viewed(outcome) == old(self)@.configure(*config, cpus).1
                },
            outcome matches Ok(call) ==> call.request matches EngineRequest::Configure(told)
                && told.num_threads >= 1,
            final(self)@.well_formed(),
    {
        let cpus: usize = if self.solver != 0 && config.num_threads == -1 {
            available_cpus()
        } else {
            1
        };
        self.configure_with_cpus(config, cpus)
    }

    /// Applies `config` on a platform with `cpus` available CPUs.
    ///
    /// A thread count of `-1` becomes `cpus`; any other count that is not
    /// positive is refused and leaves the solver as it was. On success the
    /// solver is configured, and the call carries the engine's
    /// configuration struct with the resolved thread count. A count beyond
    /// the engine's 32-bit integer is told as the largest such integer, so
    /// that the engine is always told a positive count.
    pub fn configure_with_cpus(&mut self, config: &SolverConfig, cpus: usize) -> (outcome: Result<
        EngineCall<'static>,
        ParkissatError,
    >)
        requires
            cpus >= 1,
        ensures
            final(self)@ == old(self)@.configure(*config, cpus).0,
            viewed(outcome) == old(self)@.configure(*config, cpus).1,
            outcome matches Ok(call) ==> call.request matches EngineRequest::Configure(told)
                && told.num_threads >= 1,
            final(self)@.well_formed(),
    {
        proof {
            use_type_invariant(&*self);
        }
        if self.solver == 0 {
            return Err(ParkissatError::SolverCreationFailed);
        }
        let threads: usize = if config.num_threads == -1 {
            cpus
        } else if config.num_threads <= 0 {
            return Err(
                ParkissatError::InvalidConfiguration(
                    String::from_str("Number of threads must be positive or -1 for auto-detection"),
                ),
            );
        } else {
            config.num_threads as usize
        };
        let told: i32 = if threads > 0x7fff_ffff {
            i32::MAX
        } else {
            threads as i32
        };
        let engine_config = ParkissatConfig {
            num_threads: told,
            timeout_seconds: #[verifier::truncate]
            (config.timeout.as_secs() as i32),
            random_seed: #[verifier::truncate]
            (config.random_seed as i32),
            enable_preprocessing: config.enable_preprocessing,
            verbosity: #[verifier::truncate]
            (config.verbosity as i32),
        };
        self.configured = true;
        Ok(EngineCall { handle: self.solver, request: EngineRequest::Configure(engine_config) })
    }

    /// Checks a clause and records the variables it speaks of.
    ///
    /// The clause must have a literal and no literal zero, and the solver
    /// must be configured; else nothing changes and no call is issued. The
    /// call hands the engine the literals as they are, with their number.
    pub fn add_clause<'a>(&mut self, literals: &'a [i32]) -> (outcome: Result<
        EngineCall<'a>,
        ParkissatError,
    >)
        ensures
            final(self)@ == old(self)@.add_clause(literals@).0,
            viewed(outcome) == old(self)@.add_clause(literals@).1,
            final(self)@.well_formed(),
    {
        proof {
            use_type_invariant(&*self);
        }
        if !self.configured {
            return Err(ParkissatError::NotConfigured);
        }
        if literals.len() == 0 {
            return Err(ParkissatError::InvalidClause(String::from_str("Empty clause")));
        }
        if contains_zero(literals) {
            return Err(ParkissatError::InvalidClause(String::from_str("Literal cannot be zero")));
        }
        let highest: usize = highest_variable_of(literals);
        if highest > self.variable_count {
            self.variable_count = highest;
        }
        let length: i32 = #[verifier::truncate]
        (literals.len() as i32);
        Ok(
            EngineCall {
                handle: self.solver,
                request: EngineRequest::AddClause { literals, length },
            },
        )
    }

    /// Reads the model, as far as its size.
    ///
    /// A model can be read only after a search that found one; then the
    /// call asks the engine for the model's size, which
    /// [`ParkissatSolver::get_model_size_reply`] takes.
    pub fn get_model(&self) -> (outcome: Result<EngineCall<'static>, ParkissatError>)
        ensures
            viewed(outcome) == self@.get_model(),
            self@.well_formed(),
    {
        proof {
            use_type_invariant(self);
        }
        match self.last_result {
            Some(SolverResult::Sat) => Ok(
                EngineCall { handle: self.solver, request: EngineRequest::GetModelSize },
            ),
            Some(SolverResult::Unsat) | Some(SolverResult::Unknown) => Err(
                ParkissatError::NoSolution,
            ),
            None => Err(ParkissatError::NoSolution),
        }
    }

    /// Takes the model's size as the engine reported it.
    ///
    /// A size that is not positive means an empty model, and no further
    /// call. Otherwise the call hands the engine a fresh buffer of `size`
    /// zeros to fill; [`ParkissatSolver::get_model_reply`] takes it back.
    pub fn get_model_size_reply(&self, size: i32) -> (outcome: Result<
        ModelStep<'static>,
        ParkissatError,
    >)
        ensures
            viewed(outcome) == self@.get_model_size_reply(size),
            self@.well_formed(),
    {
        proof {
            use_type_invariant(self);
        }
        match self.last_result {
            Some(SolverResult::Sat) => {
                if size <= 0 {
                    return Ok(ModelStep::Done(Vec::new()));
                }
                let buffer: Vec<i32> = vec![0i32; size as usize];
                assert(buffer@ =~= Seq::new(size as nat, |i: int| 0i32));
                Ok(
                    ModelStep::Fill(
                        EngineCall {
                            handle: self.solver,
                            request: EngineRequest::GetModel { buffer, size },
                        },
                    ),
                )
            },
            Some(SolverResult::Unsat) | Some(SolverResult::Unknown) => Err(
                ParkissatError::NoSolution,
            ),
            None => Err(ParkissatError::NoSolution),
        }
    }

    /// Takes the buffer that the engine filled: it is the model, one signed
    /// entry per variable, handed on unchanged.
    pub fn get_model_reply(&self, buffer: Vec<i32>) -> (outcome: Result<Vec<i32>, ParkissatError>)
        ensures
            viewed(outcome) == self@.get_model_reply(buffer@),
            self@.well_formed(),
    {
        proof {
            use_type_invariant(self);
        }
        match self.last_result {
            Some(SolverResult::Sat) => Ok(buffer),
            Some(SolverResult::Unsat) | Some(SolverResult::Unknown) => Err(
                ParkissatError::NoSolution,
            ),
            None => Err(ParkissatError::NoSolution),
        }
    }

    /// Starts a search under `assumptions`, which may be empty but may not
    /// hold the literal zero. [`ParkissatSolver::solve_reply`] takes the
    /// engine's result code.
    pub fn solve_with_assumptions<'a>(&mut self, assumptions: &'a [i32]) -> (outcome: Result<
        EngineCall<'a>,
        ParkissatError,
    >)
        ensures
            final(self)@ == old(self)@,
            viewed(outcome) == old(self)@.solve_with_assumptions(assumptions@),
            final(self)@.well_formed(),
    {
        proof {
            use_type_invariant(&*self);
        }
        if !self.configured {
            return Err(ParkissatError::NotConfigured);
        }
        if contains_zero(assumptions) {
            return Err(
                ParkissatError::InvalidClause(String::from_str("Assumption cannot be zero")),
            );
        }
        let length: i32 = #[verifier::truncate]
        (assumptions.len() as i32);
        Ok(
            EngineCall {
                handle: self.solver,
                request: EngineRequest::SolveWithAssumptions { assumptions, length },
            },
        )
    }

    /// Asks for the truth value of `variable` in the model.
    ///
    /// The variable must be positive, and the latest search must have found
    /// a model. [`ParkissatSolver::get_model_value_reply`] takes the
    /// engine's answer.
    pub fn get_model_value(&self, variable: i32) -> (outcome: Result<
        EngineCall<'static>,
        ParkissatError,
    >)
        ensures
            viewed(outcome) == self@.get_model_value(variable),
            self@.well_formed(),
    {
        proof {
            use_type_invariant(self);
        }
        if variable <= 0 {
            return Err(ParkissatError::InvalidVariable(variable));
        }
        match self.last_result {
            Some(SolverResult::Sat) => Ok(
                EngineCall {
                    handle: self.solver,
                    request: EngineRequest::GetModelValue(variable),
                },
            ),
            Some(SolverResult::Unsat) | Some(SolverResult::Unknown) => Err(
                ParkissatError::NoSolution,
            ),
            None => Err(ParkissatError::NoSolution),
        }
    }

    /// Takes the engine's truth value for `variable` and hands it on
    /// unchanged, under the conditions of
    /// [`ParkissatSolver::get_model_value`].
    pub fn get_model_value_reply(&self, variable: i32, value: bool) -> (outcome: Result<
        bool,
        ParkissatError,
    >)
        ensures
            reported(outcome) == self@.get_model_value_reply(variable, value),
            self@.well_formed(),
    {
        proof {
            use_type_invariant(self);
        }
        if variable <= 0 {
            return Err(ParkissatError::InvalidVariable(variable));
        }
        match self.last_result {
            Some(SolverResult::Sat) => Ok(value),
            Some(SolverResult::Unsat) | Some(SolverResult::Unknown) => Err(
                ParkissatError::NoSolution,
            ),
            None => Err(ParkissatError::NoSolution),
        }
    }

    /// Loads the DIMACS file at `path`; `None` stands for a path that has
    /// no text form.
    ///
    /// The solver must be configured, and the path must be text without a
    /// NUL byte, since the engine takes it as a C string.
    /// [`ParkissatSolver::load_dimacs_reply`] takes the engine's answer.
    pub fn load_dimacs<'a>(&mut self, path: Option<&'a str>) -> (outcome: Result<
        EngineCall<'a>,
        ParkissatError,
    >)
        ensures
            final(self)@ == old(self)@,
            viewed(outcome) == old(self)@.load_dimacs(
                match path {
                    Some(text) => Some(text@),
                    None => None,
                },
            ),
            final(self)@.well_formed(),
    {
        proof {
            use_type_invariant(&*self);
        }
        if !self.configured {
            return Err(ParkissatError::NotConfigured);
        }
        let text: &'a str = match path {
            Some(text) => text,
            None => {
                return Err(ParkissatError::IoError(String::from_str("Invalid path")));
            },
        };
        match first_nul(text.as_bytes()) {
            Some(position) => Err(ParkissatError::nul_byte(position)),
            None => Ok(
                EngineCall { handle: self.solver, request: EngineRequest::LoadDimacs(text) },
            ),
        }
    }

    /// Takes the engine's answer to loading the file at `path`: whether it
    /// was loaded.
    pub fn load_dimacs_reply(&self, path: &str, loaded: bool) -> (outcome: Result<
        (),
        ParkissatError,
    >)
        ensures
            reported(outcome) == self@.load_dimacs_reply(path@, loaded),
            self@.well_formed(),
    {
        proof {
            use_type_invariant(self);
        }
        if !self.configured {
            return Err(ParkissatError::NotConfigured);
        }
        if !loaded {
            return Err(
                ParkissatError::IoError(
                    String::from_str("Failed to load DIMACS file: ").concat(path),
                ),
            );
        }
        Ok(())
    }

    /// Announces the number of variables.
    ///
    /// The count must be positive. It replaces what the solver had
    /// recorded, also where that was higher.
    pub fn set_variable_count(&mut self, count: usize) -> (outcome: Result<
        EngineCall<'static>,
        ParkissatError,
    >)
        ensures
            final(self)@ == old(self)@.set_variable_count(count).0,
            viewed(outcome) == old(self)@.set_variable_count(count).1,
            final(self)@.well_formed(),
    {
        proof {
            use_type_invariant(&*self);
        }
        if !self.configured {
            return Err(ParkissatError::NotConfigured);
        }
        if count == 0 {
            return Err(
                ParkissatError::InvalidConfiguration(
                    String::from_str("Variable count must be positive"),
                ),
            );
        }
        self.variable_count = count;
        let announced: i32 = #[verifier::truncate]
        (count as i32);
        Ok(
            EngineCall {
                handle: self.solver,
                request: EngineRequest::SetVariableCount(announced),
            },
        )
    }

    /// Starts a search. [`ParkissatSolver::solve_reply`] takes the engine's
    /// result code.
    pub fn solve(&mut self) -> (outcome: Result<EngineCall<'static>, ParkissatError>)
        ensures
            final(self)@ == old(self)@,
            viewed(outcome) == old(self)@.solve(),
            final(self)@.well_formed(),
    {
        proof {
            use_type_invariant(&*self);
        }
        if !self.configured {
            return Err(ParkissatError::NotConfigured);
        }
        Ok(EngineCall { handle: self.solver, request: EngineRequest::Solve })
    }

    /// Takes the raw result code of a search and records what it means.
    ///
    /// Every code is accepted: one that the engine does not define counts
    /// as `Unknown`. The result replaces that of any earlier search.
    pub fn solve_reply(&mut self, code: ParkissatResult) -> (outcome: Result<
        SolverResult,
        ParkissatError,
    >)
        ensures
            final(self)@ == old(self)@.solve_reply(code).0,
            reported(outcome) == old(self)@.solve_reply(code).1,
            final(self)@.well_formed(),
    {
        proof {
            use_type_invariant(&*self);
        }
        if !self.configured {
            return Err(ParkissatError::NotConfigured);
        }
        let result = SolverResult::from(code);
        self.last_result = Some(result);
        Ok(result)
    }

    /// Asks for the engine's counters.
    /// [`ParkissatSolver::get_statistics_reply`] takes them.
    pub fn get_statistics(&self) -> (outcome: Result<EngineCall<'static>, ParkissatError>)
        ensures
            viewed(outcome) == self@.get_statistics(),
            self@.well_formed(),
    {
        proof {
            use_type_invariant(self);
        }
        if !self.configured {
            return Err(ParkissatError::NotConfigured);
        }
        Ok(EngineCall { handle: self.solver, request: EngineRequest::GetStatistics })
    }

    /// Takes the engine's counters and hands them on, each under its name.
    pub fn get_statistics_reply(&self, raw: ParkissatStatistics) -> (outcome: Result<
        SolverStatistics,
        ParkissatError,
    >)
        ensures
            reported(outcome) == self@.get_statistics_reply(raw),
            self@.well_formed(),
    {
        proof {
            use_type_invariant(self);
        }
        if !self.configured {
            return Err(ParkissatError::NotConfigured);
        }
        Ok(SolverStatistics::from(raw))
    }

    /// Asks a running search to stop. There is nothing to ask, and no call,
    /// once the engine instance has been released.
    pub fn interrupt(&mut self) -> (call: Option<EngineCall<'static>>)
        ensures
            final(self)@ == old(self)@,
            signalled(call) == old(self)@.signal(RequestView::Interrupt),
            final(self)@.well_formed(),
    {
        proof {
            use_type_invariant(&*self);
        }
        if self.solver != 0 {
            Some(EngineCall { handle: self.solver, request: EngineRequest::Interrupt })
        } else {
            None
        }
    }

    /// Withdraws an earlier request to stop. There is no call once the
    /// engine instance has been released.
    pub fn clear_interrupt(&mut self) -> (call: Option<EngineCall<'static>>)
        ensures
            final(self)@ == old(self)@,
            signalled(call) == old(self)@.signal(RequestView::ClearInterrupt),
            final(self)@.well_formed(),
    {
        proof {
            use_type_invariant(&*self);
        }
        if self.solver != 0 {
            Some(EngineCall { handle: self.solver, request: EngineRequest::ClearInterrupt })
        } else {
            None
        }
    }

    /// Gives up the engine instance.
    ///
    /// The first release returns the call that destroys the instance and
    /// forgets the handle, the configuration and the result, so that no
    /// operation issues a call afterwards. A later release returns nothing.
    pub fn release(&mut self) -> (call: Option<EngineCall<'static>>)
        ensures
            final(self)@ == old(self)@.release().0,
            signalled(call) == old(self)@.release().1,
            final(self)@.well_formed(),
    {
        proof {
            use_type_invariant(&*self);
        }
        if self.solver != 0 {
            let handle: usize = self.solver;
            self.last_result = None;
            self.configured = false;
            self.solver = 0;
            Some(EngineCall { handle, request: EngineRequest::Delete })
        } else {
            None
        }
    }
}

} // verus!
