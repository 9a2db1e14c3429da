//! Result rows and result sets: what a query gives back, and what a
//! statement that changes rows reports.

use crate::convert::{from_cell, value_of, CellModel, NativeCell};
use crate::value::{items_model, put, JsonModel, JsonObject, JsonValue, NumberModel};
use vstd::prelude::*;

verus! {

/// The texts of strings, one by one.
pub open spec fn texts(strings: Seq<String>) -> Seq<Seq<char>> {
    strings.map_values(|s: String| s@)
}

/// What cells are, one by one.
pub open spec fn cells_model(cells: Seq<NativeCell>) -> Seq<CellModel> {
    cells.map_values(|c: NativeCell| c.model())
}

/// What fetched rows are, row by row and cell by cell.
pub open spec fn fetched_model(fetched: Seq<Vec<NativeCell>>) -> Seq<Seq<CellModel>> {
    fetched.map_values(|cells: Vec<NativeCell>| cells_model(cells@))
}

/// Every blob among the cells is short enough to be encoded.
pub open spec fn cells_fit(cells: Seq<NativeCell>) -> bool {
    forall|i: int| 0 <= i < cells.len() ==> (#[trigger] cells[i]).fits()
}

/// Every blob among the fetched rows is short enough to be encoded.
pub open spec fn fetched_fit(fetched: Seq<Vec<NativeCell>>) -> bool {
    forall|i: int| 0 <= i < fetched.len() ==> cells_fit((#[trigger] fetched[i])@)
}

/// The value in column `i` of a row: that of the cell there, and null where
/// the row has no such cell.
pub open spec fn cell_value_at(cells: Seq<CellModel>, i: int) -> JsonModel {
    if 0 <= i < cells.len() {
        value_of(cells[i])
    } else {
        JsonModel::Null
    }
}

/// The entries that the first `n` columns of a row give: each column's value
/// under the column's name, put in one after the other. Of two columns with
/// one name, the later one stays.
pub open spec fn row_entries(names: Seq<Seq<char>>, cells: Seq<CellModel>, n: nat) -> Seq<
    (Seq<char>, JsonModel),
>
    decreases n,
{
    if n == 0 || n > names.len() {
        Seq::empty()
    } else {
        put(row_entries(names, cells, (n - 1) as nat), names[n - 1], cell_value_at(cells, n - 1))
    }
}

/// The object that a row becomes.
pub open spec fn row_object(names: Seq<Seq<char>>, cells: Seq<CellModel>) -> JsonModel {
    JsonModel::Object(row_entries(names, cells, names.len()))
}

/// Builds the object of one row: the value of each cell under the name of
/// its column.
pub fn extract_row_values(cells: &Vec<NativeCell>, column_names: &Vec<String>) -> (r: JsonValue)
    requires
        cells_fit(cells@),
    ensures
        r.model() == row_object(texts(column_names@), cells_model(cells@)),
{
    let mut values = JsonObject::new();
    let mut i: usize = 0;
    while i < column_names.len()
        invariant
            0 <= i <= column_names@.len(),
            cells_fit(cells@),
            values.model() == row_entries(texts(column_names@), cells_model(cells@), i as nat),
        decreases column_names@.len() - i,
    {
        let value = if i < cells.len() {
            from_cell(&cells[i])
        } else {
            JsonValue::Null
        };
        values.insert(column_names[i].clone(), value);
        i = i + 1;
    }
    JsonValue::Object(values)
}

/// The names of the columns of a query, in the order of the statement, and
/// its rows, in the order in which the engine gave them.
#[derive(Debug, PartialEq)]
pub struct ResultSet {
    pub columns: Vec<String>,
    pub rows: Vec<JsonValue>,
}

/// What a result set is.
pub struct ResultSetModel {
    pub columns: Seq<Seq<char>>,
    pub rows: Seq<JsonModel>,
}

/// The result set of a query with these columns that fetched these rows.
pub open spec fn result_set_of(
    columns: Seq<Seq<char>>,
    fetched: Seq<Seq<CellModel>>,
) -> ResultSetModel {
    ResultSetModel {
        columns,
        rows: Seq::new(fetched.len(), |i: int| row_object(columns, fetched[i])),
    }
}

/// The array of the texts as string values.
pub open spec fn text_values(strings: Seq<Seq<char>>) -> Seq<JsonModel> {
    strings.map_values(|s: Seq<char>| JsonModel::String(s))
}

/// The structured value of a result set: its columns under `columns`, its
/// rows under `rows`.
pub open spec fn result_set_value(rs: ResultSetModel) -> JsonModel {
    JsonModel::Object(
        put(
            put(Seq::empty(), "columns"@, JsonModel::Array(text_values(rs.columns))),
            "rows"@,
            JsonModel::Array(rs.rows),
        ),
    )
}

impl ResultSet {
    pub open spec fn model(&self) -> ResultSetModel {
        ResultSetModel { columns: texts(self.columns@), rows: items_model(&self.rows) }
    }

    /// The structured value of the result set.
    pub fn into_value(self) -> (r: JsonValue)
        ensures
            r.model() == result_set_value(self.model()),
    {
        let mut names: Vec<JsonValue> = Vec::new();
        let mut i: usize = 0;
        while i < self.columns.len()
            invariant
                0 <= i <= self.columns@.len(),
                names@.len() == i,
                forall|j: int|
                    0 <= j < i ==> (#[trigger] names[j]).model() == JsonModel::String(
                        self.columns[j]@,
                    ),
            decreases self.columns@.len() - i,
        {
            names.push(JsonValue::String(self.columns[i].clone()));
            i = i + 1;
        }
        assert(items_model(&names) =~= text_values(texts(self.columns@)));
        let mut value = JsonObject::new();
        value.insert(String::from_str("columns"), JsonValue::Array(names));
        value.insert(String::from_str("rows"), JsonValue::Array(self.rows));
        JsonValue::Object(value)
    }
}

/// Builds the result set of a query from the names of its columns and the
/// rows that were fetched.
pub fn materialize(column_names: Vec<String>, fetched: &Vec<Vec<NativeCell>>) -> (r: ResultSet)
    requires
        fetched_fit(fetched@),
    ensures
        r.model() == result_set_of(texts(column_names@), fetched_model(fetched@)),
{
    let mut rows: Vec<JsonValue> = Vec::new();
    let mut i: usize = 0;
    while i < fetched.len()
        invariant
            0 <= i <= fetched@.len(),
            fetched_fit(fetched@),
            rows@.len() == i,
            forall|j: int|
                0 <= j < i ==> (#[trigger] rows[j]).model() == row_object(
                    texts(column_names@),
                    cells_model(fetched[j]@),
                ),
        decreases fetched@.len() - i,
    {
        rows.push(extract_row_values(&fetched[i], &column_names));
        i = i + 1;
    }
    let r = ResultSet { columns: column_names, rows };
    assert(r.model().rows =~= result_set_of(
        texts(column_names@),
        fetched_model(fetched@),
    ).rows);
    r
}

/// What a statement that changes rows reports: how many rows it changed,
/// and, for a single statement, the row identifier that the connection
/// generated last.
#[derive(Debug, Clone, Copy, PartialEq, Eq)]
pub struct ExecutionOutcome {
    pub rows_affected: u64,
    pub last_insert_id: Option<i64>,
}

/// The entries of an outcome with this count alone.
pub open spec fn count_entries(rows_affected: int) -> Seq<(Seq<char>, JsonModel)> {
    put(Seq::empty(), "rowsAffected"@, JsonModel::Number(NumberModel::Int(rows_affected)))
}

/// The structured value of an outcome: the count under `rowsAffected` and,
/// where there is one, the identifier under `lastInsertId`.
pub open spec fn outcome_value(outcome: ExecutionOutcome) -> JsonModel {
    match outcome.last_insert_id {
        Some(id) => JsonModel::Object(
            put(
                count_entries(outcome.rows_affected as int),
                "lastInsertId"@,
                JsonModel::Number(NumberModel::Int(id as int)),
            ),
        ),
        None => JsonModel::Object(count_entries(outcome.rows_affected as int)),
    }
}

impl ExecutionOutcome {
    /// The structured value of the outcome.
    pub fn into_value(self) -> (r: JsonValue)
        ensures
            r.model() == outcome_value(self),
    {
        let mut value = JsonObject::new();
        value.insert(String::from_str("rowsAffected"), JsonValue::from_u64(self.rows_affected));
        match self.last_insert_id {
            Some(id) => {
                value.insert(String::from_str("lastInsertId"), JsonValue::from_i64(id));
            },
            None => {},
        }
        JsonValue::Object(value)
    }
}

} // verus!
