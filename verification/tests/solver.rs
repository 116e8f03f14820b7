//! The solver driven end to end, with a small exhaustive engine standing
//! where the real one would be.

use parkissat_sys::ffi::{
    EngineCall, EngineRequest, ParkissatConfig, ParkissatStatistics, PARKISSAT_SAT,
    PARKISSAT_UNKNOWN, PARKISSAT_UNSAT,
};
use parkissat_sys::wrapper::ModelStep;
use parkissat_sys::{
    ParkissatError, ParkissatSolver, SolverConfig, SolverResult, SolverStatistics,
};
use std::time::Duration;

/// What the engine hands back for one call.
#[derive(Debug)]
enum Reply {
    Nothing,
    Loaded(bool),
    Code(u32),
    Flag(bool),
    Size(i32),
    Model(Vec<i32>),
    Statistics(ParkissatStatistics),
}

/// An engine that tries every assignment. It keeps the calls it served.
struct Engine {
    handle: usize,
    alive: bool,
    config: Option<ParkissatConfig>,
    clauses: Vec<Vec<i32>>,
    variables: usize,
    model: Vec<i32>,
    decisions: u64,
    propagations: u64,
    conflicts: u64,
    interrupted: bool,
    served: usize,
}

impl Engine {
    fn new(handle: usize) -> Engine {
        Engine {
            handle,
            alive: true,
            config: None,
            clauses: Vec::new(),
            variables: 0,
            model: Vec::new(),
            decisions: 0,
            propagations: 0,
            conflicts: 0,
            interrupted: false,
            served: 0,
        }
    }

    fn note(&mut self, literals: &[i32]) {
        for literal in literals {
            let variable: usize = literal.unsigned_abs() as usize;
            if variable > self.variables {
                self.variables = variable;
            }
        }
    }

    fn falsified(&mut self, values: &[Option<bool>], extra: &[i32]) -> bool {
        for literal in extra {
            let index: usize = literal.unsigned_abs() as usize;
            if values[index] == Some(*literal < 0) {
                return true;
            }
        }
        for clause in &self.clauses {
            self.propagations += 1;
            let open = clause.iter().any(|literal| {
                let index: usize = literal.unsigned_abs() as usize;
                values[index] != Some(*literal < 0)
            });
            if !open {
                return true;
            }
        }
        false
    }

    fn search(&mut self, values: &mut Vec<Option<bool>>, next: usize, extra: &[i32]) -> bool {
        if self.falsified(values, extra) {
            self.conflicts += 1;
            return false;
        }
        if next > self.variables {
            return true;
        }
        for choice in [true, false] {
            self.decisions += 1;
            values[next] = Some(choice);
            if self.search(values, next + 1, extra) {
                return true;
            }
        }
        values[next] = None;
        false
    }

    fn run(&mut self, assumptions: &[i32]) -> u32 {
        if self.interrupted {
            return PARKISSAT_UNKNOWN;
        }
        self.note(assumptions);
        let mut values: Vec<Option<bool>> = vec![None; self.variables + 1];
        if self.search(&mut values, 1, assumptions) {
            self.model = (1..=self.variables)
                .map(|variable| {
                    let number: i32 = variable as i32;
                    if values[variable] == Some(true) {
                        number
                    } else {
                        -number
                    }
                })
                .collect();
            PARKISSAT_SAT
        } else {
            self.model.clear();
            PARKISSAT_UNSAT
        }
    }

    fn perform(&mut self, call: EngineCall) -> Reply {
        assert!(self.alive, "a call reached a destroyed engine");
        assert_ne!(call.handle, 0, "a call was addressed to the null handle");
        assert_eq!(call.handle, self.handle, "a call was addressed to another engine");
        self.served += 1;
        let free = matches!(
            call.request,
            EngineRequest::Configure(_)
                | EngineRequest::Interrupt
                | EngineRequest::ClearInterrupt
                | EngineRequest::Delete
        );
        assert!(free || self.config.is_some(), "the engine was used before it was configured");
        match call.request {
            EngineRequest::Configure(config) => {
                self.config = Some(config);
                Reply::Nothing
            }
            EngineRequest::LoadDimacs(path) => Reply::Loaded(path == "known.cnf"),
            EngineRequest::AddClause { literals, length } => {
                assert_eq!(length as usize, literals.len());
                assert!(!literals.is_empty());
                assert!(!literals.contains(&0));
                self.note(literals);
                self.clauses.push(literals.to_vec());
                Reply::Nothing
            }
            EngineRequest::SetVariableCount(count) => {
                assert!(count > 0);
                self.variables = self.variables.max(count as usize);
                Reply::Nothing
            }
            EngineRequest::Solve => Reply::Code(self.run(&[])),
            EngineRequest::SolveWithAssumptions { assumptions, length } => {
                assert_eq!(length as usize, assumptions.len());
                assert!(!assumptions.contains(&0));
                Reply::Code(self.run(assumptions))
            }
            EngineRequest::GetModelValue(variable) => {
                assert!(variable > 0);
                let index: usize = variable as usize - 1;
                Reply::Flag(self.model.get(index).is_some_and(|entry| *entry > 0))
            }
            EngineRequest::GetModelSize => Reply::Size(self.model.len() as i32),
            EngineRequest::GetModel { mut buffer, size } => {
                assert_eq!(buffer.len(), size as usize);
                assert!(buffer.iter().all(|entry| *entry == 0));
                for (slot, entry) in buffer.iter_mut().zip(self.model.iter()) {
                    *slot = *entry;
                }
                Reply::Model(buffer)
            }
            EngineRequest::GetStatistics => Reply::Statistics(ParkissatStatistics {
                decisions: self.decisions,
                propagations: self.propagations,
                conflicts: self.conflicts,
                restarts: 0,
                mem_peak_bits: 0x4090_0000_0000_0000,
            }),
            EngineRequest::Interrupt => {
                self.interrupted = true;
                Reply::Nothing
            }
            EngineRequest::ClearInterrupt => {
                self.interrupted = false;
                Reply::Nothing
            }
            EngineRequest::Delete => {
                self.alive = false;
                Reply::Nothing
            }
        }
    }
}

/// A solver and its engine, tied together call by call.
struct Solver {
    state: ParkissatSolver,
    engine: Engine,
}

impl Solver {
    fn new() -> Result<Solver, ParkissatError> {
        let engine = Engine::new(0x5a7);
        let state = ParkissatSolver::new(engine.handle)?;
        Ok(Solver { state, engine })
    }

    fn configure(&mut self, config: &SolverConfig) -> Result<(), ParkissatError> {
        let call = self.state.configure(config)?;
        self.engine.perform(call);
        Ok(())
    }

    fn load_dimacs(&mut self, path: &str) -> Result<(), ParkissatError> {
        let call = self.state.load_dimacs(Some(path))?;
        match self.engine.perform(call) {
            Reply::Loaded(loaded) => self.state.load_dimacs_reply(path, loaded),
            other => panic!("unexpected reply {:?}", other),
        }
    }

    fn add_clause(&mut self, literals: &[i32]) -> Result<(), ParkissatError> {
        let call = self.state.add_clause(literals)?;
        self.engine.perform(call);
        Ok(())
    }

    fn set_variable_count(&mut self, count: usize) -> Result<(), ParkissatError> {
        let call = self.state.set_variable_count(count)?;
        self.engine.perform(call);
        Ok(())
    }

    fn solve(&mut self) -> Result<SolverResult, ParkissatError> {
        let call = self.state.solve()?;
        match self.engine.perform(call) {
            Reply::Code(code) => self.state.solve_reply(code),
            other => panic!("unexpected reply {:?}", other),
        }
    }

    fn solve_with_assumptions(
        &mut self,
        assumptions: &[i32],
    ) -> Result<SolverResult, ParkissatError> {
        let call = self.state.solve_with_assumptions(assumptions)?;
        match self.engine.perform(call) {
            Reply::Code(code) => self.state.solve_reply(code),
            other => panic!("unexpected reply {:?}", other),
        }
    }

    fn get_model_value(&mut self, variable: i32) -> Result<bool, ParkissatError> {
        let call = self.state.get_model_value(variable)?;
        match self.engine.perform(call) {
            Reply::Flag(value) => self.state.get_model_value_reply(variable, value),
            other => panic!("unexpected reply {:?}", other),
        }
    }

    fn get_model(&mut self) -> Result<Vec<i32>, ParkissatError> {
        let call = self.state.get_model()?;
        let size: i32 = match self.engine.perform(call) {
            Reply::Size(size) => size,
            other => panic!("unexpected reply {:?}", other),
        };
        match self.state.get_model_size_reply(size)? {
            ModelStep::Done(model) => Ok(model),
            ModelStep::Fill(call) => match self.engine.perform(call) {
                Reply::Model(buffer) => self.state.get_model_reply(buffer),
                other => panic!("unexpected reply {:?}", other),
            },
        }
    }

    fn get_statistics(&mut self) -> Result<SolverStatistics, ParkissatError> {
        let call = self.state.get_statistics()?;
        match self.engine.perform(call) {
            Reply::Statistics(raw) => self.state.get_statistics_reply(raw),
            other => panic!("unexpected reply {:?}", other),
        }
    }

    fn interrupt(&mut self) {
        if let Some(call) = self.state.interrupt() {
            self.engine.perform(call);
        }
    }

    fn clear_interrupt(&mut self) {
        if let Some(call) = self.state.clear_interrupt() {
            self.engine.perform(call);
        }
    }

    fn release(&mut self) {
        if let Some(call) = self.state.release() {
            self.engine.perform(call);
        }
    }

    fn variable_count(&self) -> usize {
        self.state.variable_count()
    }

    fn is_configured(&self) -> bool {
        self.state.is_configured()
    }

    fn last_result(&self) -> Option<SolverResult> {
        self.state.last_result()
    }
}

fn configured() -> Solver {
    let mut solver = Solver::new().expect("Failed to create solver");
    solver.configure(&SolverConfig::default()).expect("Failed to configure solver");
    solver
}

#[test]
fn test_solver_creation() {
    let solver = Solver::new();
    assert!(solver.is_ok());
}

#[test]
fn test_simple_satisfiable() {
    let mut solver = Solver::new().unwrap();

    let config = SolverConfig::default();
    solver.configure(&config).unwrap();

    solver.add_clause(&[1, 2]).unwrap();
    solver.add_clause(&[-1, 2]).unwrap();

    let result = solver.solve().unwrap();
    assert_eq!(result, SolverResult::Sat);

    assert_eq!(solver.get_model_value(2).unwrap(), true);
}

#[test]
fn test_unsatisfiable() {
    let mut solver = Solver::new().unwrap();

    let config = SolverConfig::default();
    solver.configure(&config).unwrap();

    solver.add_clause(&[1]).unwrap();
    solver.add_clause(&[-1]).unwrap();

    let result = solver.solve().unwrap();
    assert_eq!(result, SolverResult::Unsat);
}

#[test]
fn lib_test_solver_statistics() {
    let mut solver = Solver::new().unwrap();

    let config = SolverConfig::default();
    solver.configure(&config).unwrap();

    solver.add_clause(&[1, 2]).unwrap();
    let _ = solver.solve();

    let stats = solver.get_statistics().unwrap();
    assert!(stats.decisions > 0 || stats.propagations > 0);
}

#[test]
fn test_invalid_configuration() {
    let mut solver = Solver::new().unwrap();

    let mut config = SolverConfig::default();
    config.num_threads = 0;

    let result = solver.configure(&config);
    assert!(result.is_err());
    assert!(matches!(result.unwrap_err(), ParkissatError::InvalidConfiguration(_)));
}

#[test]
fn test_not_configured_error() {
    let mut solver = Solver::new().unwrap();

    let result = solver.add_clause(&[1, 2]);
    assert!(result.is_err());
    assert_eq!(result.unwrap_err(), ParkissatError::NotConfigured);
}

#[test]
fn test_empty_clause_error() {
    let mut solver = Solver::new().unwrap();
    let config = SolverConfig::default();
    solver.configure(&config).unwrap();

    let result = solver.add_clause(&[]);
    assert!(result.is_err());
    assert!(matches!(result.unwrap_err(), ParkissatError::InvalidClause(_)));
}

#[test]
fn test_zero_literal_error() {
    let mut solver = Solver::new().unwrap();
    let config = SolverConfig::default();
    solver.configure(&config).unwrap();

    let result = solver.add_clause(&[1, 0, 2]);
    assert!(result.is_err());
    assert!(matches!(result.unwrap_err(), ParkissatError::InvalidClause(_)));
}

#[test]
fn test_basic_solver_functionality() {
    let mut solver = Solver::new().expect("Failed to create solver");

    let config = SolverConfig::default();
    solver.configure(&config).expect("Failed to configure solver");

    solver.add_clause(&[1, 2]).expect("Failed to add clause");
    solver.add_clause(&[-1, 2]).expect("Failed to add clause");

    let result = solver.solve().expect("Failed to solve");
    assert_eq!(result, SolverResult::Sat);

    let x2_value = solver.get_model_value(2).expect("Failed to get model value");
    assert!(x2_value);
}

#[test]
fn test_unsatisfiable_formula() {
    let mut solver = Solver::new().expect("Failed to create solver");

    let config = SolverConfig::default();
    solver.configure(&config).expect("Failed to configure solver");

    solver.add_clause(&[1]).expect("Failed to add clause");
    solver.add_clause(&[-1]).expect("Failed to add clause");

    let result = solver.solve().expect("Failed to solve");
    assert_eq!(result, SolverResult::Unsat);
}

#[test]
fn integration_test_solver_statistics() {
    let mut solver = Solver::new().expect("Failed to create solver");

    let config = SolverConfig::default();
    solver.configure(&config).expect("Failed to configure solver");

    solver.add_clause(&[1, 2, 3]).expect("Failed to add clause");
    solver.add_clause(&[-1, -2]).expect("Failed to add clause");
    solver.add_clause(&[-1, -3]).expect("Failed to add clause");

    let _ = solver.solve();

    let stats = solver.get_statistics().expect("Failed to get statistics");

    assert!(stats.decisions > 0 || stats.propagations > 0);
}

#[test]
fn test_multiple_solutions() {
    let mut solver = Solver::new().expect("Failed to create solver");

    let config = SolverConfig::default();
    solver.configure(&config).expect("Failed to configure solver");

    solver.add_clause(&[1, 2]).expect("Failed to add clause");

    let result = solver.solve().expect("Failed to solve");
    assert_eq!(result, SolverResult::Sat);

    let model = solver.get_model().expect("Failed to get model");
    assert!(!model.is_empty());

    let x1_value = solver.get_model_value(1).unwrap_or(false);
    let x2_value = solver.get_model_value(2).unwrap_or(false);
    assert!(x1_value || x2_value);
}

#[test]
fn test_solver_with_assumptions() {
    let mut solver = Solver::new().expect("Failed to create solver");

    let config = SolverConfig::default();
    solver.configure(&config).expect("Failed to configure solver");

    solver.add_clause(&[1, 2]).expect("Failed to add clause");

    let result = solver.solve_with_assumptions(&[-1]).expect("Failed to solve with assumptions");
    assert_eq!(result, SolverResult::Sat);

    let x2_value = solver.get_model_value(2).expect("Failed to get model value");
    assert!(x2_value);
}

#[test]
fn test_configuration_options() {
    let mut solver = Solver::new().expect("Failed to create solver");

    let config = SolverConfig {
        num_threads: 2,
        timeout: Duration::from_secs(10),
        random_seed: 42,
        enable_preprocessing: true,
        verbosity: 1,
    };

    solver.configure(&config).expect("Failed to configure solver");

    assert!(solver.is_configured());

    solver.add_clause(&[1]).expect("Failed to add clause");
    let result = solver.solve().expect("Failed to solve");
    assert_eq!(result, SolverResult::Sat);
}

#[test]
fn test_variable_count_tracking() {
    let mut solver = Solver::new().expect("Failed to create solver");

    let config = SolverConfig::default();
    solver.configure(&config).expect("Failed to configure solver");

    assert_eq!(solver.variable_count(), 0);

    solver.add_clause(&[1, -5, 3]).expect("Failed to add clause");
    assert_eq!(solver.variable_count(), 5);

    solver.add_clause(&[2, -7]).expect("Failed to add clause");
    assert_eq!(solver.variable_count(), 7);
}

#[test]
fn test_explicit_variable_count() {
    let mut solver = Solver::new().expect("Failed to create solver");

    let config = SolverConfig::default();
    solver.configure(&config).expect("Failed to configure solver");

    solver.set_variable_count(10).expect("Failed to set variable count");
    assert_eq!(solver.variable_count(), 10);

    solver.add_clause(&[1, 2]).expect("Failed to add clause");
    assert_eq!(solver.variable_count(), 10);
}

#[test]
fn engine_receives_the_configuration_as_given() {
    let mut solver = Solver::new().unwrap();
    let config = SolverConfig {
        num_threads: 2,
        timeout: Duration::from_secs(10),
        random_seed: 42,
        enable_preprocessing: true,
        verbosity: 1,
    };
    solver.configure(&config).unwrap();
    assert_eq!(
        solver.engine.config,
        Some(ParkissatConfig {
            num_threads: 2,
            timeout_seconds: 10,
            random_seed: 42,
            enable_preprocessing: true,
            verbosity: 1,
        })
    );
}

#[test]
fn refused_operations_never_reach_the_engine() {
    let mut solver = Solver::new().unwrap();
    assert_eq!(solver.add_clause(&[1]), Err(ParkissatError::NotConfigured));
    assert_eq!(solver.set_variable_count(3), Err(ParkissatError::NotConfigured));
    assert_eq!(solver.solve(), Err(ParkissatError::NotConfigured));
    assert_eq!(solver.solve_with_assumptions(&[1]), Err(ParkissatError::NotConfigured));
    assert_eq!(solver.load_dimacs("known.cnf"), Err(ParkissatError::NotConfigured));
    assert!(matches!(solver.get_statistics(), Err(ParkissatError::NotConfigured)));
    assert_eq!(solver.get_model(), Err(ParkissatError::NoSolution));
    assert_eq!(solver.get_model_value(1), Err(ParkissatError::NoSolution));
    let mut bad = SolverConfig::default();
    bad.num_threads = -2;
    assert!(solver.configure(&bad).is_err());
    assert_eq!(solver.engine.served, 0);
    assert!(!solver.is_configured());

    solver.configure(&SolverConfig::default()).unwrap();
    assert_eq!(solver.engine.served, 1);
    assert!(solver.add_clause(&[]).is_err());
    assert!(solver.add_clause(&[3, 0]).is_err());
    assert!(solver.solve_with_assumptions(&[0]).is_err());
    assert!(solver.set_variable_count(0).is_err());
    assert!(solver.get_model_value(0).is_err());
    assert_eq!(solver.engine.served, 1);
    assert_eq!(solver.variable_count(), 0);
    assert!(solver.engine.clauses.is_empty());
}

#[test]
fn every_operation_makes_exactly_one_call() {
    let mut solver = configured();
    assert_eq!(solver.engine.served, 1);
    solver.add_clause(&[1, 2]).unwrap();
    assert_eq!(solver.engine.served, 2);
    solver.set_variable_count(2).unwrap();
    assert_eq!(solver.engine.served, 3);
    solver.solve().unwrap();
    assert_eq!(solver.engine.served, 4);
    solver.solve_with_assumptions(&[]).unwrap();
    assert_eq!(solver.engine.served, 5);
    solver.get_model_value(1).unwrap();
    assert_eq!(solver.engine.served, 6);
    solver.get_statistics().unwrap();
    assert_eq!(solver.engine.served, 7);
    solver.interrupt();
    assert_eq!(solver.engine.served, 8);
    solver.clear_interrupt();
    assert_eq!(solver.engine.served, 9);
    solver.get_model().unwrap();
    assert_eq!(solver.engine.served, 11);
}

#[test]
fn model_values_agree_with_the_model() {
    let mut solver = configured();
    solver.add_clause(&[1, -2, 3]).unwrap();
    solver.add_clause(&[-1, 4]).unwrap();
    solver.add_clause(&[2, -4, 5]).unwrap();
    solver.add_clause(&[-3, -5]).unwrap();
    solver.add_clause(&[-1, -6]).unwrap();
    assert_eq!(solver.solve(), Ok(SolverResult::Sat));
    let model = solver.get_model().unwrap();
    let count: usize = solver.variable_count();
    assert_eq!(count, 6);
    assert_eq!(model.len(), count);
    for variable in 1..=count {
        let entry: i32 = model[variable - 1];
        assert_eq!(entry.unsigned_abs() as usize, variable);
        assert_eq!(solver.get_model_value(variable as i32), Ok(entry > 0));
    }
    for clause in &solver.engine.clauses {
        assert!(clause.iter().any(|literal| model.contains(literal)));
    }
}

#[test]
fn no_model_after_unsat_or_unknown() {
    let mut solver = configured();
    solver.add_clause(&[1]).unwrap();
    solver.add_clause(&[-1]).unwrap();
    assert_eq!(solver.solve(), Ok(SolverResult::Unsat));
    assert_eq!(solver.last_result(), Some(SolverResult::Unsat));
    assert_eq!(solver.get_model(), Err(ParkissatError::NoSolution));
    assert_eq!(solver.get_model_value(1), Err(ParkissatError::NoSolution));
    assert_eq!(solver.get_model_value(1000), Err(ParkissatError::NoSolution));

    let mut solver = configured();
    solver.add_clause(&[1]).unwrap();
    solver.interrupt();
    assert_eq!(solver.solve(), Ok(SolverResult::Unknown));
    assert_eq!(solver.last_result(), Some(SolverResult::Unknown));
    assert_eq!(solver.get_model(), Err(ParkissatError::NoSolution));
    assert_eq!(solver.get_model_value(1), Err(ParkissatError::NoSolution));
    assert_eq!(solver.engine.served, 4);
}

#[test]
fn nonpositive_variables_are_refused_in_every_state() {
    let mut solver = Solver::new().unwrap();
    assert_eq!(solver.get_model_value(0), Err(ParkissatError::InvalidVariable(0)));
    assert_eq!(solver.get_model_value(-3), Err(ParkissatError::InvalidVariable(-3)));
    solver.configure(&SolverConfig::default()).unwrap();
    assert_eq!(solver.get_model_value(0), Err(ParkissatError::InvalidVariable(0)));
    assert_eq!(solver.get_model_value(-3), Err(ParkissatError::InvalidVariable(-3)));
    solver.add_clause(&[1]).unwrap();
    assert_eq!(solver.solve(), Ok(SolverResult::Sat));
    assert_eq!(solver.get_model_value(0), Err(ParkissatError::InvalidVariable(0)));
    assert_eq!(solver.get_model_value(-3), Err(ParkissatError::InvalidVariable(-3)));
    assert_eq!(
        solver.get_model_value(i32::MIN),
        Err(ParkissatError::InvalidVariable(i32::MIN))
    );
    solver.add_clause(&[-1]).unwrap();
    assert_eq!(solver.solve(), Ok(SolverResult::Unsat));
    assert_eq!(solver.get_model_value(0), Err(ParkissatError::InvalidVariable(0)));
    assert_eq!(solver.get_model_value(-3), Err(ParkissatError::InvalidVariable(-3)));
}

#[test]
fn solving_again_overwrites_the_result() {
    let mut solver = configured();
    solver.add_clause(&[1, 2]).unwrap();
    assert_eq!(solver.solve(), Ok(SolverResult::Sat));
    assert_eq!(solver.solve(), Ok(SolverResult::Sat));
    assert_eq!(solver.last_result(), Some(SolverResult::Sat));
    solver.add_clause(&[-1]).unwrap();
    solver.add_clause(&[-2]).unwrap();
    assert_eq!(solver.solve(), Ok(SolverResult::Unsat));
    assert_eq!(solver.last_result(), Some(SolverResult::Unsat));
    assert_eq!(solver.get_model(), Err(ParkissatError::NoSolution));
    solver.interrupt();
    assert_eq!(solver.solve(), Ok(SolverResult::Unknown));
    assert_eq!(solver.last_result(), Some(SolverResult::Unknown));
    solver.clear_interrupt();
    assert_eq!(solver.solve(), Ok(SolverResult::Unsat));
    assert_eq!(solver.last_result(), Some(SolverResult::Unsat));
}

#[test]
fn assumptions_do_not_stay() {
    let mut solver = configured();
    solver.add_clause(&[1, 2]).unwrap();
    assert_eq!(solver.solve_with_assumptions(&[-1, -2]), Ok(SolverResult::Unsat));
    assert_eq!(solver.solve_with_assumptions(&[]), Ok(SolverResult::Sat));
    assert_eq!(solver.solve(), Ok(SolverResult::Sat));
    assert_eq!(solver.variable_count(), 2);
}

#[test]
fn loading_reports_what_the_engine_said() {
    let mut solver = configured();
    assert_eq!(solver.load_dimacs("known.cnf"), Ok(()));
    assert_eq!(
        solver.load_dimacs("missing.cnf"),
        Err(ParkissatError::IoError("Failed to load DIMACS file: missing.cnf".to_string()))
    );
    assert_eq!(solver.engine.served, 3);
    assert_eq!(solver.variable_count(), 0);
}

#[test]
fn statistics_keep_every_counter_under_its_name() {
    let mut solver = configured();
    solver.add_clause(&[1, 2]).unwrap();
    solver.add_clause(&[-1, -2]).unwrap();
    solver.add_clause(&[1, -2]).unwrap();
    solver.add_clause(&[-1, 2]).unwrap();
    assert_eq!(solver.solve(), Ok(SolverResult::Unsat));
    let stats = solver.get_statistics().unwrap();
    assert_eq!(stats.decisions, solver.engine.decisions);
    assert_eq!(stats.propagations, solver.engine.propagations);
    assert_eq!(stats.conflicts, solver.engine.conflicts);
    assert_eq!(stats.restarts, 0);
    assert_eq!(f64::from_bits(stats.memory_peak_kb_bits), 1024.0);
    assert!(stats.conflicts > 0);
}

#[test]
fn fresh_configured_solver_has_quiet_statistics() {
    let mut solver = configured();
    let stats = solver.get_statistics().unwrap();
    assert_eq!(stats.decisions, 0);
    assert_eq!(stats.propagations, 0);
    assert_eq!(stats.conflicts, 0);
    assert_eq!(stats.restarts, 0);
}

#[test]
fn engine_is_destroyed_exactly_once() {
    let mut solver = configured();
    solver.add_clause(&[1]).unwrap();
    assert_eq!(solver.solve(), Ok(SolverResult::Sat));
    let before: usize = solver.engine.served;
    solver.release();
    assert!(!solver.engine.alive);
    assert_eq!(solver.engine.served, before + 1);
    solver.release();
    solver.interrupt();
    solver.clear_interrupt();
    assert!(solver.add_clause(&[1]).is_err());
    assert!(solver.solve().is_err());
    assert!(solver.get_model().is_err());
    assert!(solver.get_model_value(1).is_err());
    assert!(solver.get_statistics().is_err());
    assert_eq!(
        solver.configure(&SolverConfig::default()),
        Err(ParkissatError::SolverCreationFailed)
    );
    assert_eq!(solver.engine.served, before + 1);
}

#[test]
fn release_after_a_failed_configuration_still_destroys() {
    let mut solver = Solver::new().unwrap();
    let mut bad = SolverConfig::default();
    bad.num_threads = 0;
    assert!(solver.configure(&bad).is_err());
    solver.release();
    assert!(!solver.engine.alive);
    assert_eq!(solver.engine.served, 1);
}

#[test]
fn any_order_of_operations_uses_the_engine_safely() {
    let clauses: [&[i32]; 6] = [&[1, 2], &[-1, 3], &[], &[2, 0], &[-3, -2, 4], &[-4]];
    for seed in 1u64..=40 {
        let mut solver = Solver::new().unwrap();
        let mut state: u64 = seed.wrapping_mul(0x9e37_79b9_7f4a_7c15);
        let mut released = false;
        for _ in 0..60 {
            state = state.wrapping_mul(6364136223846793005).wrapping_add(1442695040888963407);
            let pick: usize = (state >> 33) as usize;
            match pick % 14 {
                0 => {
                    let mut config = SolverConfig::default();
                    config.num_threads = (pick / 14 % 5) as isize - 2;
                    let _ = solver.configure(&config);
                }
                1 | 2 => {
                    let _ = solver.add_clause(clauses[pick / 14 % clauses.len()]);
                }
                3 => {
                    let _ = solver.set_variable_count(pick / 14 % 6);
                }
                4 | 5 => {
                    let _ = solver.solve();
                }
                6 => {
                    let _ = solver.solve_with_assumptions(clauses[pick / 14 % clauses.len()]);
                }
                7 => {
                    let _ = solver.get_model_value((pick / 14 % 7) as i32 - 1);
                }
                8 => {
                    let _ = solver.get_model();
                }
                9 => {
                    let _ = solver.get_statistics();
                }
                10 => solver.interrupt(),
                11 => solver.clear_interrupt(),
                12 => {
                    let _ = solver.load_dimacs("known.cnf");
                }
                _ => {
                    if pick / 14 % 8 == 0 {
                        solver.release();
                        released = true;
                    }
                }
            }
            assert_eq!(released, !solver.engine.alive);
            if released {
                assert!(!solver.is_configured());
                assert_eq!(solver.last_result(), None);
            }
            if solver.last_result().is_some() {
                assert!(solver.is_configured());
            }
            if solver.is_configured() {
                assert!(solver.engine.config.is_some_and(|config| config.num_threads >= 1));
            }
        }
        let served: usize = solver.engine.served;
        solver.release();
        assert!(!solver.engine.alive);
        assert_eq!(solver.engine.served, if released { served } else { served + 1 });
    }
}
