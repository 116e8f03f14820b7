//! Whole sessions: what holds of the calls that reach the engine, whatever
//! is done with a solver and in whatever order.
//!
//! A session is any sequence of operations on one solver, from the moment
//! it took ownership of an engine instance. [`run`] gives the calls that
//! the session issues, in order. The theorems below say that these calls
//! use the engine safely: they go to the owned instance and to no other,
//! nothing follows its destruction, the engine is configured before it is
//! used, and no clause that the solver would refuse reaches it.

use crate::ffi::{CallView, ParkissatResult, ParkissatStatistics, RequestView};
use crate::protocol::{ModelStepView, SolverState};
use crate::wrapper::SolverConfig;
use vstd::prelude::*;

verus! {

/// One operation on a solver, with its arguments. An operation that takes
/// an answer of the engine holds that answer.
pub enum Operation {
    Configure { config: SolverConfig, cpus: usize },
    LoadDimacs { path: Option<Seq<char>> },
    LoadDimacsReply { text: Seq<char>, loaded: bool },
    AddClause { literals: Seq<i32> },
    SetVariableCount { count: usize },
    Solve,
    SolveWithAssumptions { assumptions: Seq<i32> },
    SolveReply { code: ParkissatResult },
    GetModelValue { variable: i32 },
    GetModelValueReply { variable: i32, value: bool },
    GetModel,
    GetModelSizeReply { size: i32 },
    GetModelReply { buffer: Seq<i32> },
    GetStatistics,
    GetStatisticsReply { raw: ParkissatStatistics },
    Interrupt,
    ClearInterrupt,
    Release,
}

/// The call of an outcome, if it holds one.
pub open spec fn call_of<E>(outcome: Result<CallView, E>) -> Option<CallView> {
    match outcome {
        Ok(call) => Some(call),
        Err(_) => None,
    }
}

/// The state after `operation` on a solver in `state`.
pub open spec fn state_after(state: SolverState, operation: Operation) -> SolverState {
    match operation {
        Operation::Configure { config, cpus } => state.configure(config, cpus).0,
        Operation::AddClause { literals } => state.add_clause(literals).0,
        Operation::SetVariableCount { count } => state.set_variable_count(count).0,
        Operation::SolveReply { code } => state.solve_reply(code).0,
        Operation::Release => state.release().0,
        _ => state,
    }
}

/// The call that `operation` issues on a solver in `state`, if any.
pub open spec fn call_issued(state: SolverState, operation: Operation) -> Option<CallView> {
    match operation {
        Operation::Configure { config, cpus } => call_of(state.configure(config, cpus).1),
        Operation::LoadDimacs { path } => call_of(state.load_dimacs(path)),
        Operation::AddClause { literals } => call_of(state.add_clause(literals).1),
        Operation::SetVariableCount { count } => call_of(state.set_variable_count(count).1),
        Operation::Solve => call_of(state.solve()),
        Operation::SolveWithAssumptions { assumptions } => call_of(
            state.solve_with_assumptions(assumptions),
        ),
        Operation::GetModelValue { variable } => call_of(state.get_model_value(variable)),
        Operation::GetModel => call_of(state.get_model()),
        Operation::GetModelSizeReply { size } => match state.get_model_size_reply(size) {
            Ok(ModelStepView::Fill(call)) => Some(call),
            _ => None,
        },
        Operation::GetStatistics => call_of(state.get_statistics()),
        Operation::Interrupt => state.signal(RequestView::Interrupt),
        Operation::ClearInterrupt => state.signal(RequestView::ClearInterrupt),
        Operation::Release => state.release().1,
        _ => None,
    }
}

/// Where a session stands: the solver's state and the calls issued so far.
pub struct Session {
    pub state: SolverState,
    pub calls: Seq<CallView>,
}

/// The session of a solver that took ownership of `handle` and then went
/// through `operations`, one after the other.
pub open spec fn run(handle: usize, operations: Seq<Operation>) -> Session
    decreases operations.len(),
{
    if operations.len() == 0 {
        Session { state: SolverState::fresh(handle), calls: Seq::empty() }
    } else {
        let before = run(handle, operations.drop_last());
        Session {
            state: state_after(before.state, operations.last()),
            calls: match call_issued(before.state, operations.last()) {
                Some(call) => before.calls.push(call),
                None => before.calls,
            },
        }
    }
}

/// Whether the engine must have been configured before it takes `request`.
pub open spec fn needs_configuration(request: RequestView) -> bool {
    !(request is Configure || request is Interrupt || request is ClearInterrupt
        || request is Delete)
}

/// Whether `request` hands the engine literals that a solver refuses: a
/// clause without a literal, or a clause or assumptions with the literal
/// zero.
pub open spec fn is_malformed(request: RequestView) -> bool {
    match request {
        RequestView::AddClause { literals, .. } => literals.len() == 0 || literals.contains(0i32),
        RequestView::SolveWithAssumptions { assumptions, .. } => assumptions.contains(0i32),
        RequestView::GetModelValue(variable) => variable <= 0,
        RequestView::GetModel { buffer, size } => size <= 0 || buffer.len() != size,
        _ => false,
    }
}

/// What holds of a session at every point, and carries the theorems.
spec fn is_safe(handle: usize, session: Session) -> bool {
    let state = session.state;
    let calls = session.calls;
    &&& state.well_formed()
    &&& state.handle == handle || state.handle == 0
    &&& state.handle == 0 <==> calls.len() > 0 && calls.last().request is Delete
    &&& state.configured ==> exists|j: int|
        0 <= j < calls.len() && (#[trigger] calls[j]).request is Configure
    &&& forall|i: int| 0 <= i < calls.len() ==> (#[trigger] calls[i]).handle == handle
    &&& forall|i: int|
        0 <= i < calls.len() && (#[trigger] calls[i]).request is Delete ==> i == calls.len() - 1
    &&& forall|i: int|
        0 <= i < calls.len() && needs_configuration((#[trigger] calls[i]).request) ==> exists|
            j: int,
        |
            0 <= j < i && (#[trigger] calls[j]).request is Configure
    &&& forall|i: int| 0 <= i < calls.len() ==> !is_malformed((#[trigger] calls[i]).request)
}

proof fn every_session_is_safe(handle: usize, operations: Seq<Operation>)
    requires
        handle != 0,
    ensures
        is_safe(handle, run(handle, operations)),
    decreases operations.len(),
{
    if operations.len() > 0 {
        let earlier = operations.drop_last();
        every_session_is_safe(handle, earlier);
        let before = run(handle, earlier);
        let after = run(handle, operations);
        match call_issued(before.state, operations.last()) {
            None => {
                assert(after.calls == before.calls);
            },
            Some(call) => {
                // The earlier calls keep their places and the new call
                // comes last. It is issued by a solver that still owns the
                // engine, and unless it needs no configuration, by one that
                // is configured: a configuration came before.
                let last = before.calls.len() as int;
                assert(after.calls == before.calls.push(call));
                assert(forall|i: int| 0 <= i < last ==> after.calls[i] == before.calls[i]);
                assert(before.state.handle == handle);
                assert forall|i: int|
                    0 <= i < after.calls.len() && needs_configuration(
                        (#[trigger] after.calls[i]).request,
                    ) implies exists|j: int|
                    0 <= j < i && (#[trigger] after.calls[j]).request is Configure by {
                    let j = if i < last {
                        choose|j: int|
                            0 <= j < i && (#[trigger] before.calls[j]).request is Configure
                    } else {
                        assert(before.state.configured);
                        choose|j: int|
                            0 <= j < last && (#[trigger] before.calls[j]).request is Configure
                    };
                    assert(after.calls[j].request is Configure);
                }
                if after.state.configured {
                    let j = if call.request is Configure {
                        last
                    } else {
                        choose|j: int|
                            0 <= j < last && (#[trigger] before.calls[j]).request is Configure
                    };
                    assert(after.calls[j].request is Configure);
                }
            },
        }
    }
}

/// Every call of a session goes to the engine instance that the solver
/// took ownership of, which is never the null handle.
pub proof fn calls_go_to_the_owned_engine(handle: usize, operations: Seq<Operation>)
    requires
        handle != 0,
    ensures
        forall|i: int|
            0 <= i < run(handle, operations).calls.len() ==> (#[trigger] run(
                handle,
                operations,
            ).calls[i]).handle == handle,
{
    every_session_is_safe(handle, operations);
}

/// The engine instance is destroyed at most once, and no call follows its
/// destruction: the call that destroys it can only be the last of a
/// session. It is the last exactly when the solver has given up its
/// handle.
pub proof fn nothing_follows_the_destruction(handle: usize, operations: Seq<Operation>)
    requires
        handle != 0,
    ensures
        forall|i: int|
            0 <= i < run(handle, operations).calls.len() && (#[trigger] run(
                handle,
                operations,
            ).calls[i]).request is Delete ==> i == run(handle, operations).calls.len() - 1,
        run(handle, operations).state.handle == 0 <==> run(handle, operations).calls.len() > 0
            && run(handle, operations).calls.last().request is Delete,
        run(handle, operations).state.handle != 0 ==> run(handle, operations).state.handle
            == handle,
{
    every_session_is_safe(handle, operations);
}

/// The engine is configured before it is used: every call but a
/// configuration, an interrupt signal or the destruction comes after a
/// call that configures the engine.
pub proof fn configuration_comes_first(handle: usize, operations: Seq<Operation>)
    requires
        handle != 0,
    ensures
        forall|i: int|
            0 <= i < run(handle, operations).calls.len() && needs_configuration(
                (#[trigger] run(handle, operations).calls[i]).request,
            ) ==> exists|j: int|
                0 <= j < i && (#[trigger] run(handle, operations).calls[j]).request is Configure,
{
    every_session_is_safe(handle, operations);
}

/// Nothing that a solver refuses reaches the engine: no empty clause, no
/// literal zero in a clause or among assumptions, no variable that is not
/// positive, and no model buffer whose length is not the size it is handed
/// with.
pub proof fn refused_input_never_crosses(handle: usize, operations: Seq<Operation>)
    requires
        handle != 0,
    ensures
        forall|i: int|
            0 <= i < run(handle, operations).calls.len() ==> !is_malformed(
                (#[trigger] run(handle, operations).calls[i]).request,
            ),
{
    every_session_is_safe(handle, operations);
}

/// The thread count that the engine is told is positive: the sentinel
/// `-1` never reaches it, and neither does zero or any other negative
/// number. This holds of every session in which the platform reports at
/// least one CPU.
pub proof fn thread_counts_are_positive(handle: usize, operations: Seq<Operation>)
    requires
        handle != 0,
        forall|k: int|
            0 <= k < operations.len() ==> (#[trigger] operations[k] matches Operation::Configure {
                cpus,
                ..
            } ==> cpus >= 1),
    ensures
        forall|i: int|
            0 <= i < run(handle, operations).calls.len() ==> ((#[trigger] run(
                handle,
                operations,
            ).calls[i]).request matches RequestView::Configure(told) ==> told.num_threads >= 1),
    decreases operations.len(),
{
    if operations.len() > 0 {
        thread_counts_are_positive(handle, operations.drop_last());
    }
}

} // verus!
