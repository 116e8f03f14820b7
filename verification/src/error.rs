//! The failures that solver operations report.

use crate::text::{append_decimal, append_signed_decimal, decimal, decimal_nat};
use vstd::prelude::*;
use vstd::string::*;

verus! {

/// Everything that can go wrong when driving the solver.
#[derive(Debug, Clone, PartialEq, Eq)]
pub enum ParkissatError {
    /// The engine's factory returned no usable handle.
    SolverCreationFailed,
    /// A configuration value was rejected; the text says which.
    InvalidConfiguration(String),
    /// A clause or an assumption list was rejected; the text says why.
    InvalidClause(String),
    /// A variable number that is not positive.
    InvalidVariable(i32),
    /// The operation needs a configured solver.
    NotConfigured,
    /// No model can be read: the last result is absent or not satisfiable.
    NoSolution,
    /// A file could not be loaded, or its path could not be used.
    IoError(String),
    /// The solver was interrupted.
    Interrupted,
    /// A failure of the engine that fits no other kind.
    InternalError(String),
}

/// A [`ParkissatError`] with each text taken as a sequence of characters.
pub enum ErrorView {
    SolverCreationFailed,
    InvalidConfiguration(Seq<char>),
    InvalidClause(Seq<char>),
    InvalidVariable(i32),
    NotConfigured,
    NoSolution,
    IoError(Seq<char>),
    Interrupted,
    InternalError(Seq<char>),
}

impl View for ParkissatError {
    type V = ErrorView;

    open spec fn view(&self) -> ErrorView {
        match self {
            ParkissatError::SolverCreationFailed => ErrorView::SolverCreationFailed,
            ParkissatError::InvalidConfiguration(text) => ErrorView::InvalidConfiguration(text@),
            ParkissatError::InvalidClause(text) => ErrorView::InvalidClause(text@),
            ParkissatError::InvalidVariable(variable) => ErrorView::InvalidVariable(*variable),
            ParkissatError::NotConfigured => ErrorView::NotConfigured,
            ParkissatError::NoSolution => ErrorView::NoSolution,
            ParkissatError::IoError(text) => ErrorView::IoError(text@),
            ParkissatError::Interrupted => ErrorView::Interrupted,
            ParkissatError::InternalError(text) => ErrorView::InternalError(text@),
        }
    }
}

/// The reason given for a string that cannot be handed to the engine
/// because it holds a NUL byte at byte offset `position`.
pub open spec fn nul_byte_text(position: nat) -> Seq<char> {
    "String contains null byte: nul byte found in provided data at position: "@ + decimal_nat(
        position,
    )
}

impl ErrorView {
    /// The line of text that describes the error to a person.
    pub open spec fn message(self) -> Seq<char> {
        match self {
            ErrorView::SolverCreationFailed => "Failed to create ParKissat solver instance"@,
            ErrorView::InvalidConfiguration(text) => "Invalid solver configuration: "@ + text,
            ErrorView::InvalidClause(text) => "Invalid clause: "@ + text,
            ErrorView::InvalidVariable(variable) => "Invalid variable number: "@ + decimal(
                variable as int,
            ),
            ErrorView::NotConfigured => "Solver is not configured"@,
            ErrorView::NoSolution => "No solution available"@,
            ErrorView::IoError(text) => "I/O error: "@ + text,
            ErrorView::Interrupted => "Solver was interrupted"@,
            ErrorView::InternalError(text) => "Internal solver error: "@ + text,
        }
    }
}

impl ParkissatError {
    /// Renders the error as one line of text.
    pub fn to_string(&self) -> (text: String)
        ensures
            text@ == self@.message(),
    {
        match self {
            ParkissatError::SolverCreationFailed => String::from_str(
                "Failed to create ParKissat solver instance",
            ),
            ParkissatError::InvalidConfiguration(detail) => String::from_str(
                "Invalid solver configuration: ",
            ).concat(detail.as_str()),
            ParkissatError::InvalidClause(detail) => String::from_str("Invalid clause: ").concat(
                detail.as_str(),
            ),
            ParkissatError::InvalidVariable(variable) => {
                let mut text = String::from_str("Invalid variable number: ");
                append_signed_decimal(&mut text, *variable);
                text
            },
            ParkissatError::NotConfigured => String::from_str("Solver is not configured"),
            ParkissatError::NoSolution => String::from_str("No solution available"),
            ParkissatError::IoError(detail) => String::from_str("I/O error: ").concat(
                detail.as_str(),
            ),
            ParkissatError::Interrupted => String::from_str("Solver was interrupted"),
            ParkissatError::InternalError(detail) => String::from_str(
                "Internal solver error: ",
            ).concat(detail.as_str()),
        }
    }

    /// The error for a string that cannot be handed to the engine because
    /// it holds a NUL byte at byte offset `position`.
    pub fn nul_byte(position: usize) -> (error: ParkissatError)
        ensures
            error@ == ErrorView::InvalidConfiguration(nul_byte_text(position as nat)),
    {
        let mut reason = String::from_str(
            "String contains null byte: nul byte found in provided data at position: ",
        );
        append_decimal(&mut reason, position as u64);
        ParkissatError::InvalidConfiguration(reason)
    }

    /// The `IoError` with `detail` as its text.
    pub fn io(detail: String) -> (error: ParkissatError)
        ensures
            error == ParkissatError::IoError(detail),
            error@ == ErrorView::IoError(detail@),
    {
        ParkissatError::IoError(detail)
    }

    /// The `IoError` whose text is `error` as its `Display` impl renders
    /// it.
    pub fn from_io(error: &std::io::Error) -> (converted: ParkissatError)
        ensures
            converted matches ParkissatError::IoError(text) && to_string_from_display_ensures::<
                std::io::Error,
            >(error, text),
    {
        ParkissatError::io(error.to_string())
    }
}

impl From<std::io::Error> for ParkissatError {
    /// The `IoError` whose text is `error` as its `Display` impl renders
    /// it.
    fn from(error: std::io::Error) -> (converted: ParkissatError)
        ensures
            converted matches ParkissatError::IoError(text) && to_string_from_display_ensures::<
                std::io::Error,
            >(&error, text),
    {
        ParkissatError::from_io(&error)
    }
}

/// The text of an I/O error is what its `Display` impl writes, which is
/// a relation between the error and the text and no function of the error
/// that could be written here. So the conversion has no specification
/// function to obey; its own `ensures` states the relation.
impl vstd::std_specs::convert::FromSpecImpl<std::io::Error> for ParkissatError {
    open spec fn obeys_from_spec() -> bool {
        false
    }

    open spec fn from_spec(error: std::io::Error) -> ParkissatError {
        ParkissatError::IoError(arbitrary())
    }
}

} // verus!
