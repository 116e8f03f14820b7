//! The solver's protocol as a state machine over plain values.
//!
//! [`SolverState`] is what a solver remembers. Each operation of the solver
//! is a function from a state and the operation's arguments to the next
//! state and the outcome: an error, or the one engine call to make. The
//! executable solver is proved to follow these functions step by step.

use crate::error::{nul_byte_text, ErrorView};
use crate::ffi::{
    CallView, ParkissatConfig, ParkissatResult, ParkissatStatistics, RequestView,
};
use crate::platform::duration_secs;
use crate::wrapper::{SolverConfig, SolverResult, SolverStatistics};
use vstd::prelude::*;
use vstd::utf8::encode_utf8;

verus! {

/// What a solver remembers between operations.
pub struct SolverState {
    /// The engine instance that the solver owns; zero once it is released.
    pub handle: usize,
    /// Whether a configuration has been applied.
    pub configured: bool,
    /// The outcome of the latest search, if there was one.
    pub last_result: Option<SolverResult>,
    /// The highest variable number announced so far.
    pub variable_count: usize,
}

/// The variable that a literal speaks of: its absolute value.
pub open spec fn variable_of(literal: i32) -> nat {
    if literal < 0 {
        (-literal) as nat
    } else {
        literal as nat
    }
}

/// The highest variable among `literals`; zero where there is none.
pub open spec fn highest_variable(literals: Seq<i32>) -> nat
    decreases literals.len(),
{
    if literals.len() == 0 {
        0
    } else {
        let before = highest_variable(literals.drop_last());
        let last = variable_of(literals.last());
        if last > before {
            last
        } else {
            before
        }
    }
}

/// The worker count that the engine is told: the CPU count for the
/// sentinel `-1`, the request itself otherwise.
pub open spec fn resolved_threads(requested: isize, cpus: usize) -> usize {
    if requested == -1 {
        cpus
    } else {
        requested as usize
    }
}

/// The thread count as the engine's 32-bit integer holds it: the count
/// itself, or the largest such integer where the count is larger. A
/// positive count stays positive.
pub open spec fn told_threads(threads: usize) -> i32 {
    if threads > i32::MAX {
        i32::MAX
    } else {
        threads as i32
    }
}

/// The engine's configuration struct for `config` with `threads` workers.
/// The thread count is told as [`told_threads`] gives it. Each other number
/// is narrowed to the engine's 32-bit integer by keeping its low 32 bits.
pub open spec fn engine_config(config: SolverConfig, threads: usize) -> ParkissatConfig {
    ParkissatConfig {
        num_threads: told_threads(threads),
        timeout_seconds: duration_secs(config.timeout) as i32,
        random_seed: config.random_seed as i32,
        enable_preprocessing: config.enable_preprocessing,
        verbosity: config.verbosity as i32,
    }
}

/// The reason given for a thread count that is neither positive nor `-1`.
pub open spec fn thread_count_text() -> Seq<char> {
    "Number of threads must be positive or -1 for auto-detection"@
}

/// The reason given for a variable count of zero.
pub open spec fn variable_count_text() -> Seq<char> {
    "Variable count must be positive"@
}

/// The reason given for a clause without literals.
pub open spec fn empty_clause_text() -> Seq<char> {
    "Empty clause"@
}

/// The reason given for a clause that holds the literal zero.
pub open spec fn zero_literal_text() -> Seq<char> {
    "Literal cannot be zero"@
}

/// The reason given for an assumption list that holds the literal zero.
pub open spec fn zero_assumption_text() -> Seq<char> {
    "Assumption cannot be zero"@
}

/// The reason given for a path that has no text form.
pub open spec fn invalid_path_text() -> Seq<char> {
    "Invalid path"@
}

/// The reason given for a file that the engine could not load.
pub open spec fn load_failed_text(path: Seq<char>) -> Seq<char> {
    "Failed to load DIMACS file: "@ + path
}

/// What reading the model leads to once its size is known.
pub enum ModelStepView {
    /// The model is this sequence; no further call is made.
    Done(Seq<i32>),
    /// The engine fills the buffer of this call, which then is the model.
    Fill(CallView),
}

impl SolverState {
    /// The state of a solver that has just taken ownership of `handle`.
    pub open spec fn fresh(handle: usize) -> SolverState {
        SolverState { handle, configured: false, last_result: None, variable_count: 0 }
    }

    /// What holds of every state that a solver can be in: a configured
    /// solver owns an engine instance, and only a configured solver has
    /// searched.
    pub open spec fn well_formed(self) -> bool {
        &&& self.configured ==> self.handle != 0
        &&& self.last_result is Some ==> self.configured
    }

    /// `request`, addressed to the engine instance of this state.
    pub open spec fn call(self, request: RequestView) -> CallView {
        CallView { handle: self.handle, request }
    }

    /// Whether a model may be read: the latest search found one.
    pub open spec fn has_model(self) -> bool {
        self.last_result == Some(SolverResult::Sat)
    }

    /// Taking ownership of what the engine's factory returned.
    pub open spec fn create(handle: usize) -> Result<SolverState, ErrorView> {
        if handle == 0 {
            Err(ErrorView::SolverCreationFailed)
        } else {
            Ok(SolverState::fresh(handle))
        }
    }

    /// Applying `config` where the platform reports `cpus` available CPUs.
    pub open spec fn configure(self, config: SolverConfig, cpus: usize) -> (
        SolverState,
        Result<CallView, ErrorView>,
    ) {
        if self.handle == 0 {
            (self, Err(ErrorView::SolverCreationFailed))
        } else if config.num_threads != -1 && config.num_threads <= 0 {
            (self, Err(ErrorView::InvalidConfiguration(thread_count_text())))
        } else {
            (
                SolverState { configured: true, ..self },
                Ok(
                    self.call(
                        RequestView::Configure(
                            engine_config(config, resolved_threads(config.num_threads, cpus)),
                        ),
                    ),
                ),
            )
        }
    }

    /// Loading the file at `path`; `None` stands for a path without a text
    /// form.
    pub open spec fn load_dimacs(self, path: Option<Seq<char>>) -> Result<CallView, ErrorView> {
        if !self.configured {
            Err(ErrorView::NotConfigured)
        } else {
            match path {
                None => Err(ErrorView::IoError(invalid_path_text())),
                Some(text) => match encode_utf8(text).index_of_first(0u8) {
                    Some(position) => Err(
                        ErrorView::InvalidConfiguration(nul_byte_text(position as nat)),
                    ),
                    None => Ok(self.call(RequestView::LoadDimacs(text))),
                },
            }
        }
    }

    /// Taking the engine's answer to a load of the file at `path`.
    pub open spec fn load_dimacs_reply(self, path: Seq<char>, loaded: bool) -> Result<
        (),
        ErrorView,
    > {
        if !self.configured {
            Err(ErrorView::NotConfigured)
        } else if !loaded {
            Err(ErrorView::IoError(load_failed_text(path)))
        } else {
            Ok(())
        }
    }

    /// Adding the clause `literals`.
    pub open spec fn add_clause(self, literals: Seq<i32>) -> (
        SolverState,
        Result<CallView, ErrorView>,
    ) {
        if !self.configured {
            (self, Err(ErrorView::NotConfigured))
        } else if literals.len() == 0 {
            (self, Err(ErrorView::InvalidClause(empty_clause_text())))
        } else if literals.contains(0i32) {
            (self, Err(ErrorView::InvalidClause(zero_literal_text())))
        } else {
            (
                SolverState {
                    variable_count: if highest_variable(literals) > self.variable_count {
                        highest_variable(literals) as usize
                    } else {
                        self.variable_count
                    },
                    ..self
                },
                Ok(
                    self.call(
                        RequestView::AddClause { literals, length: literals.len() as i32 },
                    ),
                ),
            )
        }
    }

    /// Announcing `count` variables.
    pub open spec fn set_variable_count(self, count: usize) -> (
        SolverState,
        Result<CallView, ErrorView>,
    ) {
        if !self.configured {
            (self, Err(ErrorView::NotConfigured))
        } else if count == 0 {
            (self, Err(ErrorView::InvalidConfiguration(variable_count_text())))
        } else {
            (
                SolverState { variable_count: count, ..self },
                Ok(self.call(RequestView::SetVariableCount(count as i32))),
            )
        }
    }

    /// Starting a search.
    pub open spec fn solve(self) -> Result<CallView, ErrorView> {
        if !self.configured {
            Err(ErrorView::NotConfigured)
        } else {
            Ok(self.call(RequestView::Solve))
        }
    }

    /// Starting a search under `assumptions`.
    pub open spec fn solve_with_assumptions(self, assumptions: Seq<i32>) -> Result<
        CallView,
        ErrorView,
    > {
        if !self.configured {
            Err(ErrorView::NotConfigured)
        } else if assumptions.contains(0i32) {
            Err(ErrorView::InvalidClause(zero_assumption_text()))
        } else {
            Ok(
                self.call(
                    RequestView::SolveWithAssumptions {
                        assumptions,
                        length: assumptions.len() as i32,
                    },
                ),
            )
        }
    }

    /// Taking the raw result `code` of a search.
    pub open spec fn solve_reply(self, code: ParkissatResult) -> (
        SolverState,
        Result<SolverResult, ErrorView>,
    ) {
        if !self.configured {
            (self, Err(ErrorView::NotConfigured))
        } else {
            (
                SolverState { last_result: Some(SolverResult::from_code(code)), ..self },
                Ok(SolverResult::from_code(code)),
            )
        }
    }

    /// The error, if any, that stands in the way of reading `variable`.
    pub open spec fn model_value_refusal(self, variable: i32) -> Option<ErrorView> {
        if variable <= 0 {
            Some(ErrorView::InvalidVariable(variable))
        } else if !self.has_model() {
            Some(ErrorView::NoSolution)
        } else {
            None
        }
    }

    /// Asking for the truth value of `variable`.
    pub open spec fn get_model_value(self, variable: i32) -> Result<CallView, ErrorView> {
        match self.model_value_refusal(variable) {
            Some(error) => Err(error),
            None => Ok(self.call(RequestView::GetModelValue(variable))),
        }
    }

    /// Taking the engine's truth value for `variable`.
    pub open spec fn get_model_value_reply(self, variable: i32, value: bool) -> Result<
        bool,
        ErrorView,
    > {
        match self.model_value_refusal(variable) {
            Some(error) => Err(error),
            None => Ok(value),
        }
    }

    /// Asking for the model: first for its size.
    pub open spec fn get_model(self) -> Result<CallView, ErrorView> {
        if !self.has_model() {
            Err(ErrorView::NoSolution)
        } else {
            Ok(self.call(RequestView::GetModelSize))
        }
    }

    /// Taking the engine's model size: an empty model where it is not
    /// positive, else a call that fills a zeroed buffer of that size.
    pub open spec fn get_model_size_reply(self, size: i32) -> Result<ModelStepView, ErrorView> {
        if !self.has_model() {
            Err(ErrorView::NoSolution)
        } else if size <= 0 {
            Ok(ModelStepView::Done(Seq::empty()))
        } else {
            Ok(
                ModelStepView::Fill(
                    self.call(
                        RequestView::GetModel {
                            buffer: Seq::new(size as nat, |i: int| 0i32),
                            size,
                        },
                    ),
                ),
            )
        }
    }

    /// Taking the buffer that the engine filled.
    pub open spec fn get_model_reply(self, buffer: Seq<i32>) -> Result<Seq<i32>, ErrorView> {
        if !self.has_model() {
            Err(ErrorView::NoSolution)
        } else {
            Ok(buffer)
        }
    }

    /// Asking for the counters.
    pub open spec fn get_statistics(self) -> Result<CallView, ErrorView> {
        if !self.configured {
            Err(ErrorView::NotConfigured)
        } else {
            Ok(self.call(RequestView::GetStatistics))
        }
    }

    /// Taking the engine's counters.
    pub open spec fn get_statistics_reply(self, raw: ParkissatStatistics) -> Result<
        SolverStatistics,
        ErrorView,
    > {
        if !self.configured {
            Err(ErrorView::NotConfigured)
        } else {
            Ok(SolverStatistics::from_raw(raw))
        }
    }

    /// `request` where the solver still owns an engine instance.
    pub open spec fn signal(self, request: RequestView) -> Option<CallView> {
        if self.handle == 0 {
            None
        } else {
            Some(self.call(request))
        }
    }

    /// Giving up the engine instance.
    pub open spec fn release(self) -> (SolverState, Option<CallView>) {
        if self.handle == 0 {
            (self, None)
        } else {
            (
                SolverState { handle: 0, configured: false, last_result: None, ..self },
                Some(self.call(RequestView::Delete)),
            )
        }
    }
}

/// The state after adding `clauses` one after the other, whatever the
/// outcome of each.
pub open spec fn after_clauses(state: SolverState, clauses: Seq<Seq<i32>>) -> SolverState
    decreases clauses.len(),
{
    if clauses.len() == 0 {
        state
    } else {
        after_clauses(state, clauses.drop_last()).add_clause(clauses.last()).0
    }
}

/// The highest variable in any of `clauses`; zero where there is none.
pub open spec fn highest_variable_among(clauses: Seq<Seq<i32>>) -> nat
    decreases clauses.len(),
{
    if clauses.len() == 0 {
        0
    } else {
        let before = highest_variable_among(clauses.drop_last());
        let last = highest_variable(clauses.last());
        if last > before {
            last
        } else {
            before
        }
    }
}

/// Whether each of `clauses` has a literal and none has the literal zero.
pub open spec fn all_valid(clauses: Seq<Seq<i32>>) -> bool {
    forall|i: int|
        0 <= i < clauses.len() ==> (#[trigger] clauses[i]).len() > 0 && !clauses[i].contains(0i32)
}

/// `highest_variable` is the maximum of the literals' variables: no literal
/// has a higher one, a literal has it unless there is none, and it fits the
/// machine's word.
pub proof fn highest_variable_is_maximum(literals: Seq<i32>)
    ensures
        forall|i: int|
            0 <= i < literals.len() ==> variable_of(#[trigger] literals[i]) <= highest_variable(
                literals,
            ),
        literals.len() > 0 ==> exists|i: int|
            0 <= i < literals.len() && variable_of(#[trigger] literals[i]) == highest_variable(
                literals,
            ),
        literals.len() == 0 ==> highest_variable(literals) == 0,
        highest_variable(literals) <= 0x8000_0000,
        highest_variable(literals) <= usize::MAX,
    decreases literals.len(),
{
    if literals.len() > 0 {
        let before = literals.drop_last();
        highest_variable_is_maximum(before);
        assert forall|i: int| 0 <= i < literals.len() implies variable_of(
            #[trigger] literals[i],
        ) <= highest_variable(literals) by {
            if i < before.len() {
                assert(literals[i] == before[i]);
            }
        }
        if before.len() > 0 && variable_of(literals.last()) <= highest_variable(before) {
            let i = choose|i: int|
                0 <= i < before.len() && variable_of(#[trigger] before[i]) == highest_variable(
                    before,
                );
            assert(variable_of(literals[i]) == highest_variable(literals));
        } else {
            assert(variable_of(literals[literals.len() - 1]) == highest_variable(literals));
        }
    }
}

/// The engine instance is destroyed once: the release of a solver that owns
/// an instance issues the call that destroys it, and from then on no
/// operation issues a call, a second release included.
pub proof fn released_solver_is_inert(
    state: SolverState,
    config: SolverConfig,
    cpus: usize,
    path: Option<Seq<char>>,
    literals: Seq<i32>,
    count: usize,
    variable: i32,
    size: i32,
)
    requires
        state.well_formed(),
    ensures
        state.handle != 0 ==> state.release().1 == Some(state.call(RequestView::Delete)),
        ({
            let released = state.release().0;
            &&& released.handle == 0
            &&& released.release() == (released, None::<CallView>)
            &&& released.configure(config, cpus) == (
                released,
                Err::<CallView, ErrorView>(ErrorView::SolverCreationFailed),
            )
            &&& released.load_dimacs(path) is Err
            &&& released.add_clause(literals).1 is Err
            &&& released.set_variable_count(count).1 is Err
            &&& released.solve() is Err
            &&& released.solve_with_assumptions(literals) is Err
            &&& released.get_model_value(variable) is Err
            &&& released.get_model() is Err
            &&& released.get_model_size_reply(size) is Err
            &&& released.get_statistics() is Err
            &&& released.signal(RequestView::Interrupt) is None
            &&& released.signal(RequestView::ClearInterrupt) is None
        }),
{
}

/// On a configured solver every clause that has a literal and no literal
/// zero is accepted, and the recorded variable count becomes the higher of
/// what it was and the clause's highest variable. The call hands the engine
/// exactly these literals, with their number where that fits 32 bits.
pub proof fn valid_clause_is_accepted(state: SolverState, literals: Seq<i32>)
    requires
        state.configured,
        literals.len() > 0,
        !literals.contains(0i32),
    ensures
        ({
            &&& state.add_clause(literals).1 matches Ok(call)
            &&& call.request matches RequestView::AddClause { literals: sent, length }
            &&& sent == literals
            &&& literals.len() <= i32::MAX ==> length == literals.len()
        }),
        state.add_clause(literals).0.variable_count >= state.variable_count,
        state.add_clause(literals).0.variable_count >= highest_variable(literals),
        state.add_clause(literals).0.variable_count == state.variable_count || state.add_clause(
            literals,
        ).0.variable_count == highest_variable(literals),
        state.add_clause(literals).0 == (SolverState {
            variable_count: state.add_clause(literals).0.variable_count,
            ..state
        }),
{
    highest_variable_is_maximum(literals);
}

/// After any number of valid clauses on a configured solver, each of them
/// accepted, the recorded variable count is the highest variable seen in
/// any of them, or what it was before them where that is higher: on a
/// fresh solver, the running maximum of the literals' absolute values.
pub proof fn variable_count_is_running_maximum(state: SolverState, clauses: Seq<Seq<i32>>)
    requires
        state.configured,
        all_valid(clauses),
    ensures
        forall|i: int|
            0 <= i < clauses.len() ==> (#[trigger] after_clauses(
                state,
                clauses.take(i),
            )).add_clause(clauses[i]).1 is Ok,
        after_clauses(state, clauses).variable_count == if highest_variable_among(clauses)
            > state.variable_count {
            highest_variable_among(clauses)
        } else {
            state.variable_count as nat
        },
        state.variable_count == 0 ==> after_clauses(state, clauses).variable_count
            == highest_variable_among(clauses),
        after_clauses(state, clauses) == (SolverState {
            variable_count: after_clauses(state, clauses).variable_count,
            ..state
        }),
    decreases clauses.len(),
{
    if clauses.len() > 0 {
        let before = clauses.drop_last();
        assert(all_valid(before));
        variable_count_is_running_maximum(state, before);
        valid_clause_is_accepted(after_clauses(state, before), clauses.last());
        assert forall|i: int| 0 <= i < clauses.len() implies (#[trigger] after_clauses(
            state,
            clauses.take(i),
        )).add_clause(clauses[i]).1 is Ok by {
            if i < before.len() {
                assert(clauses.take(i) =~= before.take(i));
            }
        }
    }
}

/// A clause without a literal, or with the literal zero, is always refused
/// and never changes the solver; on a configured solver the refusal is an
/// `InvalidClause`.
pub proof fn invalid_clause_is_refused(state: SolverState, literals: Seq<i32>)
    requires
        literals.len() == 0 || literals.contains(0i32),
    ensures
        state.add_clause(literals).0 == state,
        state.add_clause(literals).1 is Err,
        state.configured ==> state.add_clause(literals).1 matches Err(
            ErrorView::InvalidClause(_),
        ),
        !state.configured ==> state.add_clause(literals).1 == Err::<CallView, ErrorView>(
            ErrorView::NotConfigured,
        ),
{
}

/// An assumption list with the literal zero is refused, on a configured
/// solver as an `InvalidClause`; an empty list is accepted.
pub proof fn assumptions_are_validated(state: SolverState, assumptions: Seq<i32>)
    requires
        state.configured,
    ensures
        assumptions.contains(0i32) ==> state.solve_with_assumptions(assumptions) == Err::<
            CallView,
            ErrorView,
        >(ErrorView::InvalidClause(zero_assumption_text())),
        !assumptions.contains(0i32) ==> state.solve_with_assumptions(assumptions) is Ok,
        state.solve_with_assumptions(Seq::empty()) is Ok,
{
}

/// Before a configuration has been applied, every operation that changes
/// the formula, searches or reads the counters fails with `NotConfigured`
/// and leaves the solver as it was.
pub proof fn unconfigured_solver_refuses(
    state: SolverState,
    path: Option<Seq<char>>,
    text: Seq<char>,
    loaded: bool,
    literals: Seq<i32>,
    count: usize,
    code: ParkissatResult,
    raw: ParkissatStatistics,
)
    requires
        !state.configured,
    ensures
        state.load_dimacs(path) == Err::<CallView, ErrorView>(ErrorView::NotConfigured),
        state.load_dimacs_reply(text, loaded) == Err::<(), ErrorView>(ErrorView::NotConfigured),
        state.add_clause(literals) == (
            state,
            Err::<CallView, ErrorView>(ErrorView::NotConfigured),
        ),
        state.set_variable_count(count) == (
            state,
            Err::<CallView, ErrorView>(ErrorView::NotConfigured),
        ),
        state.solve() == Err::<CallView, ErrorView>(ErrorView::NotConfigured),
        state.solve_with_assumptions(literals) == Err::<CallView, ErrorView>(
            ErrorView::NotConfigured,
        ),
        state.solve_reply(code) == (
            state,
            Err::<SolverResult, ErrorView>(ErrorView::NotConfigured),
        ),
        state.get_statistics() == Err::<CallView, ErrorView>(ErrorView::NotConfigured),
        state.get_statistics_reply(raw) == Err::<SolverStatistics, ErrorView>(
            ErrorView::NotConfigured,
        ),
{
}

/// On a solver that owns an engine instance, a thread count that is
/// neither positive nor `-1` is refused as an `InvalidConfiguration`, and
/// the solver stays as it was, unconfigured if it was. The count `-1` is
/// never refused, and neither is a positive one. The engine is then told a
/// positive count, never the sentinel: the number of CPUs for `-1`, else
/// the positive count itself, and the largest 32-bit integer where that
/// number is larger still.
pub proof fn thread_count_is_resolved(state: SolverState, config: SolverConfig, cpus: usize)
    requires
        state.handle != 0,
        cpus >= 1,
    ensures
        config.num_threads <= 0 && config.num_threads != -1 ==> state.configure(config, cpus) == (
            state,
            Err::<CallView, ErrorView>(ErrorView::InvalidConfiguration(thread_count_text())),
        ),
        config.num_threads > 0 || config.num_threads == -1 ==> {
            &&& state.configure(config, cpus).0.configured
            &&& resolved_threads(config.num_threads, cpus) >= 1
            &&& state.configure(config, cpus).1 matches Ok(call)
            &&& call.request matches RequestView::Configure(told)
            &&& told.num_threads >= 1
            &&& config.num_threads == -1 ==> told.num_threads == if cpus > i32::MAX {
                i32::MAX as int
            } else {
                cpus as int
            }
            &&& config.num_threads > 0 ==> told.num_threads == if config.num_threads > i32::MAX {
                i32::MAX as int
            } else {
                config.num_threads as int
            }
        },
{
}

/// The engine's configuration struct holds the seed, the verbosity and the
/// whole seconds of the time limit unchanged where they fit 32 bits, the
/// preprocessing switch as it is, and a positive thread count for a
/// positive one.
pub proof fn configuration_is_carried_over(config: SolverConfig, threads: usize)
    ensures
        engine_config(config, threads).enable_preprocessing == config.enable_preprocessing,
        config.random_seed <= i32::MAX ==> engine_config(config, threads).random_seed
            == config.random_seed,
        config.verbosity <= i32::MAX ==> engine_config(config, threads).verbosity
            == config.verbosity,
        duration_secs(config.timeout) <= i32::MAX ==> engine_config(config, threads).timeout_seconds
            == duration_secs(config.timeout),
        threads <= i32::MAX ==> engine_config(config, threads).num_threads == threads,
        threads >= 1 ==> engine_config(config, threads).num_threads >= 1,
{
}

/// Unless the latest search found a model, none can be read: asking for the
/// model fails with `NoSolution` at every step, and so does asking for the
/// value of any positive variable.
pub proof fn no_model_without_sat(
    state: SolverState,
    variable: i32,
    value: bool,
    size: i32,
    buffer: Seq<i32>,
)
    requires
        state.last_result != Some(SolverResult::Sat),
    ensures
        state.get_model() == Err::<CallView, ErrorView>(ErrorView::NoSolution),
        state.get_model_size_reply(size) == Err::<ModelStepView, ErrorView>(ErrorView::NoSolution),
        state.get_model_reply(buffer) == Err::<Seq<i32>, ErrorView>(ErrorView::NoSolution),
        state.get_model_value(variable) is Err,
        state.get_model_value_reply(variable, value) is Err,
        variable > 0 ==> state.get_model_value(variable) == Err::<CallView, ErrorView>(
            ErrorView::NoSolution,
        ),
        variable > 0 ==> state.get_model_value_reply(variable, value) == Err::<bool, ErrorView>(
            ErrorView::NoSolution,
        ),
{
}

/// A result code other than the one for a model leaves no model to read.
pub proof fn no_model_after_failed_search(state: SolverState, code: ParkissatResult)
    requires
        state.configured,
        SolverResult::from_code(code) != SolverResult::Sat,
    ensures
        !state.solve_reply(code).0.has_model(),
        state.solve_reply(code).0.get_model() == Err::<CallView, ErrorView>(ErrorView::NoSolution),
{
}

/// A variable that is not positive is refused as an `InvalidVariable`
/// whatever state the solver is in.
pub proof fn nonpositive_variable_is_refused(state: SolverState, variable: i32, value: bool)
    requires
        variable <= 0,
    ensures
        state.get_model_value(variable) == Err::<CallView, ErrorView>(
            ErrorView::InvalidVariable(variable),
        ),
        state.get_model_value_reply(variable, value) == Err::<bool, ErrorView>(
            ErrorView::InvalidVariable(variable),
        ),
{
}

/// The solver hands on what the engine says of the model without changing
/// it. So where the engine's truth value for a variable agrees in sign with
/// its entry for that variable in the model buffer, the value and the model
/// that the solver returns agree in the same way.
pub proof fn model_answers_pass_unchanged(
    state: SolverState,
    variable: i32,
    value: bool,
    buffer: Seq<i32>,
)
    requires
        state.has_model(),
        1 <= variable <= buffer.len(),
        value == (buffer[variable - 1] > 0),
    ensures
        state.get_model_value_reply(variable, value) == Ok::<bool, ErrorView>(value),
        state.get_model_reply(buffer) == Ok::<Seq<i32>, ErrorView>(buffer),
        state.get_model_value_reply(variable, value) matches Ok(truth) && state.get_model_reply(
            buffer,
        ) matches Ok(model) && truth == (model[variable - 1] > 0),
{
}

/// A configured solver can search again and again: no search is refused,
/// every result code is accepted, and the recorded result is always that of
/// the latest search.
pub proof fn solving_again_overwrites(
    state: SolverState,
    first: ParkissatResult,
    second: ParkissatResult,
)
    requires
        state.configured,
    ensures
        state.solve() is Ok,
        state.solve_reply(first).1 == Ok::<SolverResult, ErrorView>(SolverResult::from_code(first)),
        state.solve_reply(first).0.last_result == Some(SolverResult::from_code(first)),
        state.solve_reply(first).0.solve() is Ok,
        state.solve_reply(first).0.solve_reply(second).1 == Ok::<SolverResult, ErrorView>(
            SolverResult::from_code(second),
        ),
        state.solve_reply(first).0.solve_reply(second).0.last_result == Some(
            SolverResult::from_code(second),
        ),
        state.solve_reply(first).0.solve_reply(second).0 == state.solve_reply(second).0,
{
}

/// An explicit variable count replaces the recorded one, also where it is
/// lower; a count of zero is refused and changes nothing.
pub proof fn variable_count_is_overridden(state: SolverState, count: usize)
    requires
        state.configured,
    ensures
        count == 0 ==> state.set_variable_count(count) == (
            state,
            Err::<CallView, ErrorView>(ErrorView::InvalidConfiguration(variable_count_text())),
        ),
        count > 0 ==> state.set_variable_count(count).0.variable_count == count
            && state.set_variable_count(count).1 is Ok,
        0 < count <= i32::MAX ==> state.set_variable_count(count).1 == Ok::<CallView, ErrorView>(
            state.call(RequestView::SetVariableCount(count as i32)),
        ) && count as i32 == count,
{
}

} // verus!
