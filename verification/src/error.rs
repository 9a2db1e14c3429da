//! The typed failures that the operations return.

use vstd::prelude::*;

verus! {

/// Why an operation failed.
#[derive(Debug, Clone, PartialEq, Eq)]
pub enum ToolError {
    /// The arguments do not have the shape that the operation asks for.
    InvalidParameters(String),
    /// The engine refused the statement, while preparing or while running it.
    ExecutionError(String),
    /// No operation has the name.
    NotFound(String),
}

/// What a failure is: its kind and its message.
pub enum FailureModel {
    InvalidParameters(Seq<char>),
    ExecutionError(Seq<char>),
    NotFound(Seq<char>),
}

/// Why a resource could not be read.
#[derive(Debug, Clone, PartialEq, Eq)]
pub enum ResourceError {
    ExecutionError(String),
    NotFound(String),
}

/// Why a prompt could not be had.
#[derive(Debug, Clone, PartialEq, Eq)]
pub enum PromptError {
    InvalidParameters(String),
    InternalError(String),
    NotFound(String),
}

impl ResourceError {
    /// The message of the failure.
    pub open spec fn message(&self) -> Seq<char> {
        match self {
            ResourceError::ExecutionError(m) => m@,
            ResourceError::NotFound(m) => m@,
        }
    }
}

impl PromptError {
    /// The message of the failure.
    pub open spec fn message(&self) -> Seq<char> {
        match self {
            PromptError::InvalidParameters(m) => m@,
            PromptError::InternalError(m) => m@,
            PromptError::NotFound(m) => m@,
        }
    }
}

impl ToolError {
    pub open spec fn model(&self) -> FailureModel {
        match self {
            ToolError::InvalidParameters(m) => FailureModel::InvalidParameters(m@),
            ToolError::ExecutionError(m) => FailureModel::ExecutionError(m@),
            ToolError::NotFound(m) => FailureModel::NotFound(m@),
        }
    }

    /// The message of the failure.
    pub fn message(&self) -> (r: &String)
        ensures
            r@ == failure_message(self.model()),
    {
        match self {
            ToolError::InvalidParameters(m) => m,
            ToolError::ExecutionError(m) => m,
            ToolError::NotFound(m) => m,
        }
    }
}

/// The message of a failure.
pub open spec fn failure_message(f: FailureModel) -> Seq<char> {
    match f {
        FailureModel::InvalidParameters(m) => m,
        FailureModel::ExecutionError(m) => m,
        FailureModel::NotFound(m) => m,
    }
}

/// The execution failures whose message begins with `context`: the engine's
/// own words follow it.
pub open spec fn engine_failure(f: FailureModel, context: Seq<char>) -> bool {
    f matches FailureModel::ExecutionError(m) && exists|detail: Seq<char>| m == context + detail
}

/// The failure for arguments of the wrong shape, with its message.
pub fn invalid_parameters(message: &str) -> (r: ToolError)
    ensures
        r.model() == FailureModel::InvalidParameters(message@),
{
    ToolError::InvalidParameters(String::from_str(message))
}

/// The execution failure whose message is `context` and then `detail`.
pub fn execution_failure(context: &str, detail: &str) -> (r: ToolError)
    ensures
        r.model() == FailureModel::ExecutionError(context@ + detail@),
        engine_failure(r.model(), context@),
{
    let mut message = String::from_str(context);
    message.append(detail);
    ToolError::ExecutionError(message)
}

/// The failure for a name that no operation has.
pub fn unknown_tool(tool_name: &str) -> (r: ToolError)
    ensures
        r.model() == FailureModel::NotFound("Unknown tool: "@ + tool_name@),
{
    let mut message = String::from_str("Unknown tool: ");
    message.append(tool_name);
    ToolError::NotFound(message)
}

} // verus!
