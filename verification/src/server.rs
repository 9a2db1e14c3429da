//! The router: one connection to the database, and the operations that run
//! on it.

use crate::catalog::{
    capabilities, catalog, get_prompt, list_prompts, list_resources, list_tools, read_resource,
    tools_model, Capabilities, PromptDescriptor, ResourceDescriptor, ToolDescriptor,
};
use crate::convert::{
    json_value_to_sql, parameter_of, BindParameter, CellModel, NativeCell, ParameterModel,
};
use crate::engine::{
    error_text, execute_batch, execute_once, execute_prepared, last_insert_rowid,
    native_parameter, next_row, open_connection, prepare, read_cell, start_query,
};
use crate::error::{
    engine_failure, execution_failure, invalid_parameters, FailureModel, PromptError,
    ResourceError, ToolError,
};
use crate::request::{
    plan, plan_execute, plan_executemany, plan_executescript, plan_query, planned,
    planned_execute, planned_executemany, planned_executescript, planned_query, Request,
    RequestModel,
};
use crate::rows::{
    cells_fit, fetched_fit, fetched_model, materialize, outcome_value, result_set_of,
    result_set_value, texts, ExecutionOutcome, ResultSet, ResultSetModel,
};
use crate::text::{canonical_text, to_text};
use crate::value::{items_model, JsonModel, JsonValue};
use vstd::prelude::*;

verus! {

/// The router of the database service. It owns the one connection on which
/// every operation runs.
///
/// The names of the columns of a query are read by a function that the
/// router is made with. It gives the names in the order of the statement,
/// or none where it cannot read them: the engine's own call for the names
/// does not return on a name that is not UTF-8, so the call is not made
/// here.
pub struct SQLiteRouter<F: Fn(&rusqlite::Statement<'_>) -> Option<Vec<String>>> {
    conn: rusqlite::Connection,
    read_names: F,
}

/// What the values of a list are bound as, one by one.
pub open spec fn parameters_of(values: Seq<JsonModel>) -> Seq<ParameterModel> {
    values.map_values(|v: JsonModel| parameter_of(v))
}

/// What bind parameters are, one by one.
pub open spec fn parameters_model(parameters: Seq<BindParameter>) -> Seq<ParameterModel> {
    parameters.map_values(|p: BindParameter| p.model())
}

/// Converts each value of a list to the parameter that is bound for it.
pub fn bind_parameters(values: &Vec<JsonValue>) -> (r: Vec<BindParameter>)
    ensures
        parameters_model(r@) == parameters_of(items_model(values)),
{
    let mut parameters: Vec<BindParameter> = Vec::new();
    let mut i: usize = 0;
    while i < values.len()
        invariant
            0 <= i <= values@.len(),
            parameters@.len() == i,
            forall|j: int|
                0 <= j < i ==> (#[trigger] parameters[j]).model() == parameter_of(
                    values[j].model(),
                ),
        decreases values@.len() - i,
    {
        parameters.push(json_value_to_sql(&values[i]));
        i = i + 1;
    }
    assert(parameters_model(parameters@) =~= parameters_of(items_model(values)));
    parameters
}

/// The values of the engine for bind parameters, one for each.
fn native_parameters(parameters: &Vec<BindParameter>) -> (r: Vec<rusqlite::types::Value>)
    ensures
        r@.len() == parameters@.len(),
{
    let mut values: Vec<rusqlite::types::Value> = Vec::new();
    let mut i: usize = 0;
    while i < parameters.len()
        invariant
            0 <= i <= parameters@.len(),
            values@.len() == i,
        decreases parameters@.len() - i,
    {
        values.push(native_parameter(&parameters[i]));
        i = i + 1;
    }
    values
}

/// Reads the cells of a row, one for each of `width` columns. A column that
/// the row cannot give reads as a null cell.
fn read_cells(row: &rusqlite::Row<'_>, width: usize) -> (r: Vec<NativeCell>)
    ensures
        r@.len() == width,
        cells_fit(r@),
{
    let mut cells: Vec<NativeCell> = Vec::new();
    let mut i: usize = 0;
    while i < width
        invariant
            0 <= i <= width,
            cells@.len() == i,
            cells_fit(cells@),
        decreases width - i,
    {
        let cell = match read_cell(row, i) {
            Some(cell) => cell,
            None => NativeCell::Null,
        };
        cells.push(cell);
        i = i + 1;
    }
    cells
}

/// A result set is that of some query: each of its rows is the object of
/// some cells under the names of its columns.
pub open spec fn is_result_set(rs: ResultSetModel) -> bool {
    exists|fetched: Seq<Seq<CellModel>>| rs == result_set_of(rs.columns, fetched)
}

/// What a query gives when fetching has ended: with no failure, the result
/// set of the columns and of all the rows fetched; with a failure, that
/// failure and none of the rows.
pub open spec fn fetch_outcome(
    columns: Seq<Seq<char>>,
    fetched: Seq<Seq<CellModel>>,
    failure: Option<Seq<char>>,
) -> Result<ResultSetModel, FailureModel> {
    match failure {
        None => Ok(result_set_of(columns, fetched)),
        Some(detail) => Err(FailureModel::ExecutionError("Failed to execute query: "@ + detail)),
    }
}

/// Ends a query after its rows were fetched. Where fetching failed, the
/// failure is the result, with the engine's words, and the rows read before
/// it are dropped.
pub fn conclude_fetch(
    columns: Vec<String>,
    fetched: &Vec<Vec<NativeCell>>,
    failure: Option<&str>,
) -> (r: Result<ResultSet, ToolError>)
    requires
        fetched_fit(fetched@),
    ensures
        match fetch_outcome(
            texts(columns@),
            fetched_model(fetched@),
            match failure {
                Some(detail) => Some(detail@),
                None => None,
            },
        ) {
            Ok(rs) => r matches Ok(found) && found.model() == rs,
            Err(f) => r matches Err(e) && e.model() == f,
        },
        query_answer(
            match r {
                Ok(rs) => Ok(rs.model()),
                Err(e) => Err(e.model()),
            },
        ),
{
    match failure {
        None => {
            let result = materialize(columns, fetched);
            assert(result.model() == result_set_of(
                result.model().columns,
                fetched_model(fetched@),
            ));
            Ok(result)
        },
        Some(detail) => Err(execution_failure("Failed to execute query: ", detail)),
    }
}

/// The parameters of one set of a batch, or the failure for a set that is
/// no array.
pub open spec fn set_parameters(set: JsonModel) -> Result<Seq<ParameterModel>, FailureModel> {
    match set {
        JsonModel::Array(items) => Ok(parameters_of(items)),
        _ => Err(set_no_array()),
    }
}

/// Converts one set of values of a batch to the parameters that are bound
/// for it. A set that is no array is refused as invalid, whatever it
/// holds: a value alone is not taken as a set of one.
pub fn bind_set(set: &JsonValue) -> (r: Result<Vec<BindParameter>, ToolError>)
    ensures
        match set_parameters(set.model()) {
            Ok(parameters) => r matches Ok(found) && parameters_model(found@) == parameters,
            Err(f) => r matches Err(e) && e.model() == f,
        },
{
    match set {
        JsonValue::Array(items) => Ok(bind_parameters(items)),
        _ => Err(invalid_parameters("params_list must contain arrays")),
    }
}

/// The count after one more run: the sum, or the greatest count where the
/// sum is beyond it.
pub open spec fn count_after(total: int, count: int) -> int {
    if total + count > u64::MAX {
        u64::MAX as int
    } else {
        total + count
    }
}

/// The count after a run for each of `counts`, starting from none.
pub open spec fn total_count(counts: Seq<usize>) -> int
    decreases counts.len(),
{
    if counts.len() == 0 {
        0
    } else {
        count_after(total_count(counts.drop_last()), counts.last() as int)
    }
}

/// Adds the rows of one run to the count of a batch.
pub fn add_count(total: u64, count: usize) -> (r: u64)
    ensures
        r == count_after(total as int, count as int),
{
    let count: u64 = count as u64;
    if count <= u64::MAX - total {
        total + count
    } else {
        u64::MAX
    }
}

/// Every set of values is an array.
pub open spec fn all_arrays(sets: Seq<JsonModel>) -> bool {
    forall|i: int| 0 <= i < sets.len() ==> (#[trigger] sets[i]) is Array
}

/// The failure for a set of values that is no array.
pub open spec fn set_no_array() -> FailureModel {
    FailureModel::InvalidParameters("params_list must contain arrays"@)
}

/// What can come back from a query: a result set, or a failure of the
/// engine while preparing or while running.
pub open spec fn query_answer(r: Result<ResultSetModel, FailureModel>) -> bool {
    match r {
        Ok(rs) => is_result_set(rs),
        Err(f) => engine_failure(f, "Failed to prepare query: "@) || engine_failure(
            f,
            "Failed to execute query: "@,
        ),
    }
}

/// What can come back from one statement: a count with the last row
/// identifier, or a failure of the engine.
pub open spec fn statement_answer(r: Result<ExecutionOutcome, FailureModel>) -> bool {
    match r {
        Ok(outcome) => outcome.last_insert_id is Some,
        Err(f) => engine_failure(f, "Failed to execute statement: "@),
    }
}

/// What can come back from a batch: where every set is an array, the count
/// over one run for each set, or a failure of the engine; where some set is
/// no array, the failure for it, or a failure of the engine before its turn
/// came.
pub open spec fn batch_answer(
    sets: Seq<JsonModel>,
    r: Result<ExecutionOutcome, FailureModel>,
) -> bool {
    match r {
        Ok(outcome) => {
            &&& all_arrays(sets)
            &&& outcome.last_insert_id is None
            &&& exists|counts: Seq<usize>|
                counts.len() == sets.len() && outcome.rows_affected == total_count(counts)
        },
        Err(f) => {
            ||| engine_failure(f, "Failed to prepare statement: "@)
            ||| engine_failure(f, "Failed to execute statement: "@)
            ||| (f == set_no_array() && !all_arrays(sets))
        },
    }
}

/// What can come back from a script: the fixed count of none, or a failure
/// of the engine.
pub open spec fn script_answer(r: Result<ExecutionOutcome, FailureModel>) -> bool {
    match r {
        Ok(outcome) => outcome == (ExecutionOutcome { rows_affected: 0, last_insert_id: None }),
        Err(f) => engine_failure(f, "Failed to execute script: "@),
    }
}

/// What can come back from a request, as a structured value.
pub open spec fn answers(request: RequestModel, r: Result<JsonModel, FailureModel>) -> bool {
    match request {
        RequestModel::Query { .. } => match r {
            Ok(v) => exists|rs: ResultSetModel| is_result_set(rs) && v == result_set_value(rs),
            Err(f) => query_answer(Err(f)),
        },
        RequestModel::Execute { .. } => match r {
            Ok(v) => exists|outcome: ExecutionOutcome|
                statement_answer(Ok(outcome)) && v == outcome_value(outcome),
            Err(f) => statement_answer(Err(f)),
        },
        RequestModel::ExecuteMany { sets, .. } => match r {
            Ok(v) => exists|outcome: ExecutionOutcome|
                batch_answer(sets, Ok(outcome)) && v == outcome_value(outcome),
            Err(f) => batch_answer(sets, Err(f)),
        },
        RequestModel::ExecuteScript { .. } => match r {
            Ok(v) => exists|outcome: ExecutionOutcome|
                script_answer(Ok(outcome)) && v == outcome_value(outcome),
            Err(f) => script_answer(Err(f)),
        },
    }
}

/// What can come back from an operation on its arguments: the failure of the
/// validation where the arguments are not valid, and else an answer to the
/// request.
pub open spec fn operation_answer(
    planned: Result<RequestModel, FailureModel>,
    r: Result<JsonModel, FailureModel>,
) -> bool {
    match planned {
        Err(f) => r == Err::<JsonModel, FailureModel>(f),
        Ok(request) => answers(request, r),
    }
}

/// A result as models.
pub open spec fn value_result(r: Result<JsonValue, ToolError>) -> Result<JsonModel, FailureModel> {
    match r {
        Ok(v) => Ok(v.model()),
        Err(e) => Err(e.model()),
    }
}

/// What can come back from a call by name: as from the operation, with the
/// canonical text of the value in place of the value.
pub open spec fn call_answer(
    planned: Result<RequestModel, FailureModel>,
    r: Result<Seq<char>, FailureModel>,
) -> bool {
    match r {
        Ok(text) => exists|v: JsonModel|
            operation_answer(planned, Ok(v)) && text == canonical_text(v),
        Err(f) => operation_answer(planned, Err(f)),
    }
}

impl<F: Fn(&rusqlite::Statement<'_>) -> Option<Vec<String>>> SQLiteRouter<F> {
    #[verifier::type_invariant]
    spec fn reader_takes_every_statement(&self) -> bool {
        forall|stmt: &rusqlite::Statement<'_>| call_requires(self.read_names, (stmt,))
    }

    /// Opens the database at `db_path`; `:memory:` stands for a database in
    /// memory. A path that holds a NUL character is refused; of any other
    /// path the engine decides. `read_names` reads the names of the columns
    /// of a statement, whatever the statement is.
    pub fn new(db_path: &str, read_names: F) -> (r: Result<Self, rusqlite::Error>)
        requires
            forall|stmt: &rusqlite::Statement<'_>| call_requires(read_names, (stmt,)),
        ensures
            db_path@.contains('\0') ==> r is Err,
    {
        match open_connection(db_path) {
            Ok(conn) => Ok(SQLiteRouter { conn, read_names }),
            Err(e) => Err(e),
        }
    }

    /// The name of the service.
    pub fn name(&self) -> (r: String)
        ensures
            r@ == "sqlite"@,
    {
        String::from_str("sqlite")
    }

    /// What the service is for, in words for its users.
    pub fn instructions(&self) -> (r: String)
        ensures
            r@ == "SQLite数据库访问服务，提供执行SQL查询和语句的能力。"@,
    {
        String::from_str("SQLite数据库访问服务，提供执行SQL查询和语句的能力。")
    }

    /// The service has operations, and tells when their list changes; it has
    /// neither prompts nor resources.
    pub fn capabilities(&self) -> (r: Capabilities)
        ensures
            r == (Capabilities {
                tools: true,
                tools_list_changed: true,
                prompts: false,
                resources: false,
            }),
    {
        capabilities()
    }

    /// The operations that the service offers.
    pub fn list_tools(&self) -> (r: Vec<ToolDescriptor>)
        ensures
            tools_model(r@) == catalog(),
    {
        list_tools()
    }

    /// The resources of the service: none.
    pub fn list_resources(&self) -> (r: Vec<ResourceDescriptor>)
        ensures
            r@.len() == 0,
    {
        list_resources()
    }

    /// No resource can be read: every address is unknown.
    pub fn read_resource(&self, uri: &str) -> (r: Result<String, ResourceError>)
        ensures
            r matches Err(ResourceError::NotFound(message)) && message@ == "Resource not found"@,
    {
        read_resource(uri)
    }

    /// The prompts of the service: none.
    pub fn list_prompts(&self) -> (r: Vec<PromptDescriptor>)
        ensures
            r@.len() == 0,
    {
        list_prompts()
    }

    /// No prompt can be had: every name is unknown.
    pub fn get_prompt(&self, prompt_name: &str) -> (r: Result<String, PromptError>)
        ensures
            r matches Err(PromptError::NotFound(message)) && message@ == "Prompt not found"@,
    {
        get_prompt(prompt_name)
    }

    /// Runs a query with the values bound to its placeholders, in their
    /// order, and collects all its rows. A failure of the engine at any
    /// point, while fetching too, is the result: no rows are given then.
    pub fn run_query(&self, sql: &str, bound_values: &Vec<JsonValue>) -> (r: Result<
        ResultSet,
        ToolError,
    >)
        ensures
            query_answer(
                match r {
                    Ok(rs) => Ok(rs.model()),
                    Err(e) => Err(e.model()),
                },
            ),
    {
        proof {
            use_type_invariant(self);
        }
        let parameters = bind_parameters(bound_values);
        let values = native_parameters(&parameters);
        let mut stmt = match prepare(&self.conn, sql) {
            Ok(stmt) => stmt,
            Err(e) => {
                return Err(execution_failure("Failed to prepare query: ", error_text(&e).as_str()));
            },
        };
        let columns = match (self.read_names)(&stmt) {
            Some(columns) => columns,
            None => {
                return Err(
                    execution_failure("Failed to prepare query: ", "a column name is not text"),
                );
            },
        };
        let mut rows = match start_query(&mut stmt, &values) {
            Ok(rows) => rows,
            Err(e) => {
                return Err(execution_failure("Failed to execute query: ", error_text(&e).as_str()));
            },
        };
        let mut fetched: Vec<Vec<NativeCell>> = Vec::new();
        while fetched.len() < usize::MAX
            invariant
                fetched_fit(fetched@),
            decreases usize::MAX - fetched@.len(),
        {
            match next_row(&mut rows) {
                Ok(Some(row)) => {
                    let cells = read_cells(row, columns.len());
                    fetched.push(cells);
                },
                Ok(None) => {
                    return conclude_fetch(columns, &fetched, None);
                },
                Err(e) => {
                    return conclude_fetch(columns, &fetched, Some(error_text(&e).as_str()));
                },
            }
        }
        conclude_fetch(columns, &fetched, Some("more rows than can be held"))
    }

    /// Runs one statement with the values bound to its placeholders, in
    /// their order.
    pub fn run_statement(&self, sql: &str, bound_values: &Vec<JsonValue>) -> (r: Result<
        ExecutionOutcome,
        ToolError,
    >)
        ensures
            statement_answer(
                match r {
                    Ok(outcome) => Ok(outcome),
                    Err(e) => Err(e.model()),
                },
            ),
    {
        let parameters = bind_parameters(bound_values);
        let values = native_parameters(&parameters);
        match execute_once(&self.conn, sql, &values) {
            Ok(count) => {
                let id = last_insert_rowid(&self.conn);
                Ok(ExecutionOutcome { rows_affected: count as u64, last_insert_id: Some(id) })
            },
            Err(e) => Err(
                execution_failure("Failed to execute statement: ", error_text(&e).as_str()),
            ),
        }
    }

    /// Prepares one statement and runs it once for each set of values, in
    /// their order, until a set is no array or the engine refuses one. What
    /// ran before that stays done.
    pub fn run_many(&self, sql: &str, parameter_sets: &Vec<JsonValue>) -> (r: Result<
        ExecutionOutcome,
        ToolError,
    >)
        ensures
            batch_answer(
                items_model(parameter_sets),
                match r {
                    Ok(outcome) => Ok(outcome),
                    Err(e) => Err(e.model()),
                },
            ),
    {
        let mut stmt = match prepare(&self.conn, sql) {
            Ok(stmt) => stmt,
            Err(e) => {
                return Err(
                    execution_failure("Failed to prepare statement: ", error_text(&e).as_str()),
                );
            },
        };
        let mut total: u64 = 0;
        let ghost mut counts: Seq<usize> = Seq::empty();
        let mut i: usize = 0;
        while i < parameter_sets.len()
            invariant
                0 <= i <= parameter_sets@.len(),
                counts.len() == i,
                total == total_count(counts),
                forall|j: int| 0 <= j < i ==> (#[trigger] items_model(parameter_sets)[j]) is Array,
            decreases parameter_sets@.len() - i,
        {
            let parameters = match bind_set(&parameter_sets[i]) {
                Ok(parameters) => parameters,
                Err(e) => {
                    assert(!(items_model(parameter_sets)[i as int] is Array));
                    return Err(e);
                },
            };
            let values = native_parameters(&parameters);
            match execute_prepared(&mut stmt, &values) {
                Ok(count) => {
                    total = add_count(total, count);
                    proof {
                        assert(counts.push(count).drop_last() =~= counts);
                        counts = counts.push(count);
                    }
                },
                Err(e) => {
                    return Err(
                        execution_failure("Failed to execute statement: ", error_text(&e).as_str()),
                    );
                },
            }
            i = i + 1;
        }
        Ok(ExecutionOutcome { rows_affected: total, last_insert_id: None })
    }

    /// Runs a script of several statements. The engine does not count the
    /// rows that a script changes: the count is always none.
    pub fn run_script(&self, script: &str) -> (r: Result<ExecutionOutcome, ToolError>)
        ensures
            script_answer(
                match r {
                    Ok(outcome) => Ok(outcome),
                    Err(e) => Err(e.model()),
                },
            ),
    {
        match execute_batch(&self.conn, script) {
            Ok(()) => Ok(ExecutionOutcome { rows_affected: 0, last_insert_id: None }),
            Err(e) => Err(execution_failure("Failed to execute script: ", error_text(&e).as_str())),
        }
    }

    /// Runs a request on the connection and gives the result as a structured
    /// value.
    pub fn run(&self, request: &Request<'_>) -> (r: Result<JsonValue, ToolError>)
        ensures
            answers(request.model(), value_result(r)),
    {
        let none: Vec<JsonValue> = Vec::new();
        assert(items_model(&none) =~= Seq::<JsonModel>::empty());
        match request {
            Request::Query { sql, bound } => {
                let values = match bound {
                    Some(values) => *values,
                    None => &none,
                };
                match self.run_query(sql.as_str(), values) {
                    Ok(rs) => {
                        let ghost model = rs.model();
                        let value = rs.into_value();
                        assert(is_result_set(model) && value.model() == result_set_value(model));
                        Ok(value)
                    },
                    Err(e) => Err(e),
                }
            },
            Request::Execute { sql, bound } => {
                let values = match bound {
                    Some(values) => *values,
                    None => &none,
                };
                match self.run_statement(sql.as_str(), values) {
                    Ok(outcome) => {
                        assert(statement_answer(Ok(outcome)));
                        Ok(outcome.into_value())
                    },
                    Err(e) => Err(e),
                }
            },
            Request::ExecuteMany { sql, sets } => {
                match self.run_many(sql.as_str(), sets) {
                    Ok(outcome) => {
                        assert(batch_answer(items_model(sets), Ok(outcome)));
                        Ok(outcome.into_value())
                    },
                    Err(e) => Err(e),
                }
            },
            Request::ExecuteScript { script } => {
                match self.run_script(script.as_str()) {
                    Ok(outcome) => {
                        assert(script_answer(Ok(outcome)));
                        Ok(outcome.into_value())
                    },
                    Err(e) => Err(e),
                }
            },
        }
    }

    /// Runs the request where the arguments were valid, and hands on the
    /// failure where they were not.
    fn finish(&self, planned: Result<Request<'_>, ToolError>) -> (r: Result<JsonValue, ToolError>)
        ensures
            match planned {
                Ok(request) => answers(request.model(), value_result(r)),
                Err(e) => value_result(r) == Err::<JsonModel, FailureModel>(e.model()),
            },
    {
        match planned {
            Ok(request) => self.run(&request),
            Err(e) => Err(e),
        }
    }

    /// The operation `query`: runs the text under `query` with the values
    /// under `params`, and gives the columns and the rows.
    pub fn query(&self, params: &JsonValue) -> (r: Result<JsonValue, ToolError>)
        ensures
            operation_answer(planned_query(params.model()), value_result(r)),
    {
        self.finish(plan_query(params))
    }

    /// The operation `execute`: runs the statement under `statement` with
    /// the values under `params`, and gives the count of changed rows and the
    /// last row identifier.
    pub fn execute(&self, params: &JsonValue) -> (r: Result<JsonValue, ToolError>)
        ensures
            operation_answer(planned_execute(params.model()), value_result(r)),
    {
        self.finish(plan_execute(params))
    }

    /// The operation `executemany`: runs the statement under `statement`
    /// once for each set of values under `params_list`, and gives the count
    /// of changed rows.
    pub fn executemany(&self, params: &JsonValue) -> (r: Result<JsonValue, ToolError>)
        ensures
            operation_answer(planned_executemany(params.model()), value_result(r)),
    {
        self.finish(plan_executemany(params))
    }

    /// The operation `executescript`: runs the script under `script`.
    pub fn executescript(&self, params: &JsonValue) -> (r: Result<JsonValue, ToolError>)
        ensures
            operation_answer(planned_executescript(params.model()), value_result(r)),
    {
        self.finish(plan_executescript(params))
    }

    /// Calls the operation of the name on the arguments, and gives the
    /// result as its canonical text.
    pub fn call_tool(&self, tool_name: &str, arguments: &JsonValue) -> (r: Result<
        String,
        ToolError,
    >)
        ensures
            call_answer(
                planned(tool_name@, arguments.model()),
                match r {
                    Ok(text) => Ok(text@),
                    Err(e) => Err(e.model()),
                },
            ),
    {
        match self.finish(plan(tool_name, arguments)) {
            Ok(value) => {
                let text = to_text(&value);
                assert(operation_answer(planned(tool_name@, arguments.model()), Ok(value.model())));
                Ok(text)
            },
            Err(e) => Err(e),
        }
    }
}

} // verus!
