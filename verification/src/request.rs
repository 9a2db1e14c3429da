//! The requests that the four operations take, and the validation of the
//! arguments that comes before any of them reaches the database.

use crate::error::{invalid_parameters, unknown_tool, FailureModel, ToolError};
use crate::order::same_text;
use crate::value::{items_model, lookup, JsonModel, JsonValue};
use vstd::prelude::*;

verus! {

/// A request whose arguments have the right shape.
#[derive(Debug, PartialEq)]
pub enum Request<'a> {
    /// Run a query and give back its rows. No list of values stands for
    /// none to bind.
    Query { sql: &'a String, bound: Option<&'a Vec<JsonValue>> },
    /// Run one statement that changes rows.
    Execute { sql: &'a String, bound: Option<&'a Vec<JsonValue>> },
    /// Run one statement once for each set of values.
    ExecuteMany { sql: &'a String, sets: &'a Vec<JsonValue> },
    /// Run a script of several statements.
    ExecuteScript { script: &'a String },
}

/// What a request is.
pub enum RequestModel {
    Query { sql: Seq<char>, bound: Seq<JsonModel> },
    Execute { sql: Seq<char>, bound: Seq<JsonModel> },
    ExecuteMany { sql: Seq<char>, sets: Seq<JsonModel> },
    ExecuteScript { script: Seq<char> },
}

/// The values to bind: those of the list, or none without a list.
pub open spec fn bound_model(bound: Option<&Vec<JsonValue>>) -> Seq<JsonModel> {
    match bound {
        Some(values) => items_model(values),
        None => Seq::empty(),
    }
}

impl<'a> Request<'a> {
    pub open spec fn model(&self) -> RequestModel {
        match self {
            Request::Query { sql, bound } => RequestModel::Query {
                sql: sql@,
                bound: bound_model(*bound),
            },
            Request::Execute { sql, bound } => RequestModel::Execute {
                sql: sql@,
                bound: bound_model(*bound),
            },
            Request::ExecuteMany { sql, sets } => RequestModel::ExecuteMany {
                sql: sql@,
                sets: items_model(sets),
            },
            Request::ExecuteScript { script } => RequestModel::ExecuteScript { script: script@ },
        }
    }
}

/// The argument under `name`: arguments that are no object have none.
pub open spec fn field(arguments: JsonModel, name: Seq<char>) -> Option<JsonModel> {
    match arguments {
        JsonModel::Object(entries) => lookup(entries, name),
        _ => None,
    }
}

/// The failure for a required argument that is missing or of another type.
pub open spec fn missing(name: Seq<char>) -> FailureModel {
    FailureModel::InvalidParameters("Missing required parameter: "@ + name)
}

/// The failure for `params` that is no array.
pub open spec fn params_no_array() -> FailureModel {
    FailureModel::InvalidParameters("params must be an array"@)
}

/// The text under `name`, which is required.
pub open spec fn text_field(arguments: JsonModel, name: Seq<char>) -> Result<
    Seq<char>,
    FailureModel,
> {
    match field(arguments, name) {
        Some(JsonModel::String(s)) => Ok(s),
        _ => Err(missing(name)),
    }
}

/// The array under `name`, which is required.
pub open spec fn array_field(arguments: JsonModel, name: Seq<char>) -> Result<
    Seq<JsonModel>,
    FailureModel,
> {
    match field(arguments, name) {
        Some(JsonModel::Array(items)) => Ok(items),
        _ => Err(missing(name)),
    }
}

/// The values under `params`: none where the argument is absent.
pub open spec fn bound_field(arguments: JsonModel) -> Result<Seq<JsonModel>, FailureModel> {
    match field(arguments, "params"@) {
        None => Ok(Seq::empty()),
        Some(JsonModel::Array(items)) => Ok(items),
        Some(_) => Err(params_no_array()),
    }
}

/// The request of a `query`: its text under `query`, its values under
/// `params`.
pub open spec fn planned_query(arguments: JsonModel) -> Result<RequestModel, FailureModel> {
    match text_field(arguments, "query"@) {
        Err(f) => Err(f),
        Ok(sql) => match bound_field(arguments) {
            Err(f) => Err(f),
            Ok(bound) => Ok(RequestModel::Query { sql, bound }),
        },
    }
}

/// The request of an `execute`: its text under `statement`, its values under
/// `params`.
pub open spec fn planned_execute(arguments: JsonModel) -> Result<RequestModel, FailureModel> {
    match text_field(arguments, "statement"@) {
        Err(f) => Err(f),
        Ok(sql) => match bound_field(arguments) {
            Err(f) => Err(f),
            Ok(bound) => Ok(RequestModel::Execute { sql, bound }),
        },
    }
}

/// The request of an `executemany`: its text under `statement`, its sets of
/// values under `params_list`.
pub open spec fn planned_executemany(arguments: JsonModel) -> Result<RequestModel, FailureModel> {
    match text_field(arguments, "statement"@) {
        Err(f) => Err(f),
        Ok(sql) => match array_field(arguments, "params_list"@) {
            Err(f) => Err(f),
            Ok(sets) => Ok(RequestModel::ExecuteMany { sql, sets }),
        },
    }
}

/// The request of an `executescript`: its text under `script`.
pub open spec fn planned_executescript(arguments: JsonModel) -> Result<
    RequestModel,
    FailureModel,
> {
    match text_field(arguments, "script"@) {
        Err(f) => Err(f),
        Ok(script) => Ok(RequestModel::ExecuteScript { script }),
    }
}

/// The request that an operation name and its arguments make, or the
/// failure that they meet: no operation of that name, or arguments of the
/// wrong shape.
pub open spec fn planned(tool_name: Seq<char>, arguments: JsonModel) -> Result<
    RequestModel,
    FailureModel,
> {
    if tool_name == "query"@ {
        planned_query(arguments)
    } else if tool_name == "execute"@ {
        planned_execute(arguments)
    } else if tool_name == "executemany"@ {
        planned_executemany(arguments)
    } else if tool_name == "executescript"@ {
        planned_executescript(arguments)
    } else {
        Err(FailureModel::NotFound("Unknown tool: "@ + tool_name))
    }
}

/// The result of planning is what the rules give.
pub open spec fn plan_is(
    r: Result<Request<'_>, ToolError>,
    expected: Result<RequestModel, FailureModel>,
) -> bool {
    match (r, expected) {
        (Ok(request), Ok(model)) => request.model() == model,
        (Err(e), Err(f)) => e.model() == f,
        _ => false,
    }
}

/// The text under `name`, or the failure for a missing argument.
pub fn required_text<'a>(arguments: &'a JsonValue, name: &str) -> (r: Result<&'a String, ToolError>)
    ensures
        match text_field(arguments.model(), name@) {
            Ok(s) => r matches Ok(found) && found@ == s,
            Err(f) => r matches Err(e) && e.model() == f,
        },
{
    match arguments.get(name) {
        Some(JsonValue::String(s)) => Ok(s),
        _ => {
            let mut message = String::from_str("Missing required parameter: ");
            message.append(name);
            Err(ToolError::InvalidParameters(message))
        },
    }
}

/// The array under `name`, or the failure for a missing argument.
pub fn required_array<'a>(arguments: &'a JsonValue, name: &str) -> (r: Result<
    &'a Vec<JsonValue>,
    ToolError,
>)
    ensures
        match array_field(arguments.model(), name@) {
            Ok(items) => r matches Ok(found) && items_model(found) == items,
            Err(f) => r matches Err(e) && e.model() == f,
        },
{
    match arguments.get(name) {
        Some(JsonValue::Array(items)) => Ok(items),
        _ => {
            let mut message = String::from_str("Missing required parameter: ");
            message.append(name);
            Err(ToolError::InvalidParameters(message))
        },
    }
}

/// The values under `params`: none where the argument is absent, and a
/// failure where it is no array.
pub fn bound_values<'a>(arguments: &'a JsonValue) -> (r: Result<
    Option<&'a Vec<JsonValue>>,
    ToolError,
>)
    ensures
        match bound_field(arguments.model()) {
            Ok(items) => r matches Ok(found) && bound_model(found) == items,
            Err(f) => r matches Err(e) && e.model() == f,
        },
{
    match arguments.get("params") {
        None => Ok(None),
        Some(JsonValue::Array(items)) => Ok(Some(items)),
        Some(_) => Err(invalid_parameters("params must be an array")),
    }
}

/// Validates the arguments of a `query`.
pub fn plan_query<'a>(arguments: &'a JsonValue) -> (r: Result<Request<'a>, ToolError>)
    ensures
        plan_is(r, planned_query(arguments.model())),
{
    let sql = match required_text(arguments, "query") {
        Ok(sql) => sql,
        Err(e) => {
            return Err(e);
        },
    };
    match bound_values(arguments) {
        Ok(bound) => Ok(Request::Query { sql, bound }),
        Err(e) => Err(e),
    }
}

/// Validates the arguments of an `execute`.
pub fn plan_execute<'a>(arguments: &'a JsonValue) -> (r: Result<Request<'a>, ToolError>)
    ensures
        plan_is(r, planned_execute(arguments.model())),
{
    let sql = match required_text(arguments, "statement") {
        Ok(sql) => sql,
        Err(e) => {
            return Err(e);
        },
    };
    match bound_values(arguments) {
        Ok(bound) => Ok(Request::Execute { sql, bound }),
        Err(e) => Err(e),
    }
}

/// Validates the arguments of an `executemany`. That each set of values is
/// an array is seen when its turn comes.
pub fn plan_executemany<'a>(arguments: &'a JsonValue) -> (r: Result<Request<'a>, ToolError>)
    ensures
        plan_is(r, planned_executemany(arguments.model())),
{
    let sql = match required_text(arguments, "statement") {
        Ok(sql) => sql,
        Err(e) => {
            return Err(e);
        },
    };
    match required_array(arguments, "params_list") {
        Ok(sets) => Ok(Request::ExecuteMany { sql, sets }),
        Err(e) => Err(e),
    }
}

/// Validates the arguments of an `executescript`.
pub fn plan_executescript<'a>(arguments: &'a JsonValue) -> (r: Result<Request<'a>, ToolError>)
    ensures
        plan_is(r, planned_executescript(arguments.model())),
{
    match required_text(arguments, "script") {
        Ok(script) => Ok(Request::ExecuteScript { script }),
        Err(e) => Err(e),
    }
}

/// Finds the operation of the name and validates its arguments. Nothing here
/// can reach a database: a name that no operation has leads to a failure
/// and to nothing else.
pub fn plan<'a>(tool_name: &str, arguments: &'a JsonValue) -> (r: Result<Request<'a>, ToolError>)
    ensures
        plan_is(r, planned(tool_name@, arguments.model())),
{
    if same_text(tool_name, "query") {
        plan_query(arguments)
    } else if same_text(tool_name, "execute") {
        plan_execute(arguments)
    } else if same_text(tool_name, "executemany") {
        plan_executemany(arguments)
    } else if same_text(tool_name, "executescript") {
        plan_executescript(arguments)
    } else {
        Err(unknown_tool(tool_name))
    }
}

} // verus!
