//! What holds of the conversions, of the rows and of the catalog, whatever
//! the values are.

use crate::catalog::{
    catalog, execute_tool, executemany_tool, executescript_tool, query_tool, ArgumentKind,
    ArgumentModel, ToolModel,
};
use crate::convert::{parameter_of, value_of, CellModel, ParameterModel};
use crate::error::FailureModel;
use crate::request::{
    field, missing, params_no_array, planned, planned_execute, planned_executemany,
    planned_executescript, planned_query, RequestModel,
};
use crate::rows::{
    cell_value_at, result_set_of, result_set_value, row_entries, row_object, ResultSetModel,
};
use crate::text::canonical_text;
use crate::value::{
    has_key, keys_sorted, lemma_entries_determined_by_lookup, lemma_put_lookup, lemma_put_sorted,
    lookup, put, JsonModel, NumberModel,
};
use vstd::prelude::*;

verus! {

/// An integer that fits in 64 signed bits is bound as that integer, and a
/// cell that holds that integer comes back as the number it was.
pub proof fn law_integer_round_trip(i: int)
    requires
        i64::MIN <= i <= i64::MAX,
    ensures
        parameter_of(JsonModel::Number(NumberModel::Int(i))) == ParameterModel::Integer(i),
        value_of(CellModel::Integer(i)) == JsonModel::Number(NumberModel::Int(i)),
{
}

/// An integer from 2^63 up to 2^64 is bound as the signed integer with the
/// same 64 bits, which is below zero.
pub proof fn law_large_integer_wraps(i: int)
    requires
        i64::MAX < i <= u64::MAX,
    ensures
        parameter_of(JsonModel::Number(NumberModel::Int(i))) == ParameterModel::Integer(
            i - 0x1_0000_0000_0000_0000,
        ),
        i64::MIN <= i - 0x1_0000_0000_0000_0000 < 0,
{
}

/// A number that is no integer is bound as it is, and a real cell that has
/// its number comes back as that number: neither conversion touches it.
pub proof fn law_real_is_carried(n: serde_json::Number)
    ensures
        parameter_of(JsonModel::Number(NumberModel::Float(n))) == ParameterModel::Real(n),
        value_of(CellModel::Real(Some(n))) == JsonModel::Number(NumberModel::Float(n)),
{
}

/// No cell becomes a number that is not finite: a real cell without a finite
/// number becomes null, and every other cell becomes what its kind gives.
pub proof fn law_not_finite_becomes_null(cell: CellModel)
    ensures
        cell == CellModel::Real(None::<serde_json::Number>) ==> value_of(cell) == JsonModel::Null,
        value_of(cell) is Number ==> (cell is Integer || cell matches CellModel::Real(Some(_))),
{
}

/// A value is bound as text exactly when it is a text, an array or an
/// object; arrays and objects are bound as their canonical text.
pub proof fn law_text_parameters(v: JsonModel)
    ensures
        parameter_of(v) is Text <==> (v is String || v is Array || v is Object),
        (v is Array || v is Object) ==> parameter_of(v) == ParameterModel::Text(canonical_text(v)),
{
}

/// Of two values put under one key, the later one stays, as if the earlier
/// had never been put.
pub proof fn law_later_value_replaces(
    entries: Seq<(Seq<char>, JsonModel)>,
    key: Seq<char>,
    earlier: JsonModel,
    later: JsonModel,
)
    requires
        keys_sorted(entries),
    ensures
        put(put(entries, key, earlier), key, later) == put(entries, key, later),
{
    let once = put(entries, key, earlier);
    lemma_put_sorted(entries, key, earlier);
    lemma_put_sorted(once, key, later);
    lemma_put_sorted(entries, key, later);
    assert forall|other: Seq<char>|
        lookup(put(once, key, later), other) == lookup(put(entries, key, later), other) by {
        lemma_put_lookup(entries, key, earlier, other);
        lemma_put_lookup(once, key, later, other);
        lemma_put_lookup(entries, key, later, other);
    }
    lemma_entries_determined_by_lookup(put(once, key, later), put(entries, key, later));
}

/// Values put under two different keys can be put in either order.
pub proof fn law_order_of_keys_is_free(
    entries: Seq<(Seq<char>, JsonModel)>,
    first: Seq<char>,
    first_value: JsonModel,
    second: Seq<char>,
    second_value: JsonModel,
)
    requires
        keys_sorted(entries),
        first != second,
    ensures
        put(put(entries, first, first_value), second, second_value) == put(
            put(entries, second, second_value),
            first,
            first_value,
        ),
{
    let one = put(entries, first, first_value);
    let other = put(entries, second, second_value);
    lemma_put_sorted(entries, first, first_value);
    lemma_put_sorted(entries, second, second_value);
    lemma_put_sorted(one, second, second_value);
    lemma_put_sorted(other, first, first_value);
    assert forall|key: Seq<char>|
        lookup(put(one, second, second_value), key) == lookup(
            put(other, first, first_value),
            key,
        ) by {
        lemma_put_lookup(entries, first, first_value, key);
        lemma_put_lookup(entries, second, second_value, key);
        lemma_put_lookup(one, second, second_value, key);
        lemma_put_lookup(other, first, first_value, key);
    }
    lemma_entries_determined_by_lookup(
        put(one, second, second_value),
        put(other, first, first_value),
    );
}

/// The entries of a row stand in the order of their keys.
pub proof fn lemma_row_entries_sorted(names: Seq<Seq<char>>, cells: Seq<CellModel>, n: nat)
    ensures
        keys_sorted(row_entries(names, cells, n)),
    decreases n,
{
    if n == 0 || n > names.len() {
    } else {
        lemma_row_entries_sorted(names, cells, (n - 1) as nat);
        lemma_put_sorted(
            row_entries(names, cells, (n - 1) as nat),
            names[n - 1],
            cell_value_at(cells, n - 1),
        );
    }
}

/// Among the first `n` columns, the last one of a name is the one whose
/// value the row holds under that name.
pub proof fn lemma_row_lookup(names: Seq<Seq<char>>, cells: Seq<CellModel>, j: int, n: nat)
    requires
        0 <= j < n <= names.len(),
        forall|k: int| j < k < n ==> names[k] != names[j],
    ensures
        lookup(row_entries(names, cells, n), names[j]) == Some(cell_value_at(cells, j)),
    decreases n,
{
    let before = row_entries(names, cells, (n - 1) as nat);
    lemma_row_entries_sorted(names, cells, (n - 1) as nat);
    lemma_put_lookup(before, names[n - 1], cell_value_at(cells, n - 1), names[j]);
    if j < n - 1 {
        lemma_row_lookup(names, cells, j, (n - 1) as nat);
    }
}

/// The object of a row holds, under the name of a column, the value of the
/// cell of that column; where several columns have one name, that of the
/// last of them.
pub proof fn law_later_column_wins(names: Seq<Seq<char>>, cells: Seq<CellModel>, j: int)
    requires
        0 <= j < names.len(),
        forall|k: int| j < k < names.len() ==> names[k] != names[j],
    ensures
        row_object(names, cells) matches JsonModel::Object(entries) && lookup(entries, names[j])
            == Some(cell_value_at(cells, j)),
{
    lemma_row_lookup(names, cells, j, names.len());
}

/// The keys of the first `n` columns' entries are the names of those
/// columns.
pub proof fn lemma_row_keys(names: Seq<Seq<char>>, cells: Seq<CellModel>, n: nat, key: Seq<char>)
    requires
        n <= names.len(),
    ensures
        has_key(row_entries(names, cells, n), key) <==> exists|i: int|
            0 <= i < n && #[trigger] names[i] == key,
    decreases n,
{
    if n > 0 {
        let before = row_entries(names, cells, (n - 1) as nat);
        lemma_row_keys(names, cells, (n - 1) as nat, key);
        lemma_row_entries_sorted(names, cells, (n - 1) as nat);
        lemma_put_lookup(before, names[n - 1], cell_value_at(cells, n - 1), key);
        if key == names[n - 1] {
            assert(names[n - 1] == key);
        } else if has_key(before, key) {
            let i = choose|i: int| 0 <= i < n - 1 && #[trigger] names[i] == key;
            assert(names[i] == key);
        } else {
            if exists|i: int| 0 <= i < n && #[trigger] names[i] == key {
                let i = choose|i: int| 0 <= i < n && #[trigger] names[i] == key;
                assert(0 <= i < n - 1 && names[i] == key);
            }
        }
    }
}

/// The object of a row has the names of the columns as its keys, and no
/// others.
pub proof fn law_row_keys_are_column_names(
    names: Seq<Seq<char>>,
    cells: Seq<CellModel>,
    key: Seq<char>,
)
    ensures
        row_object(names, cells) matches JsonModel::Object(entries) && (has_key(entries, key)
            <==> names.contains(key)),
{
    lemma_row_keys(names, cells, names.len(), key);
    if names.contains(key) {
        let i = choose|i: int| 0 <= i < names.len() && names[i] == key;
        assert(names[i] == key);
    }
}

/// A query that fetched no rows has its columns all the same, and no rows.
pub proof fn law_no_rows_keep_columns(columns: Seq<Seq<char>>)
    ensures
        result_set_of(columns, Seq::empty()).columns == columns,
        result_set_of(columns, Seq::empty()).rows == Seq::<JsonModel>::empty(),
{
    assert(result_set_of(columns, Seq::empty()).rows =~= Seq::<JsonModel>::empty());
}

/// A result set has the columns of the statement and one row for each row
/// fetched, in the order in which they were fetched.
pub proof fn law_rows_in_order(columns: Seq<Seq<char>>, fetched: Seq<Seq<CellModel>>, i: int)
    requires
        0 <= i < fetched.len(),
    ensures
        result_set_of(columns, fetched).columns == columns,
        result_set_of(columns, fetched).rows.len() == fetched.len(),
        result_set_of(columns, fetched).rows[i] == row_object(columns, fetched[i]),
{
}

/// Two runs of a query that find the same columns and fetch the same rows
/// give the same result set, the same structured value and the same text.
pub proof fn law_same_data_same_result(
    columns: Seq<Seq<char>>,
    fetched: Seq<Seq<CellModel>>,
    first: ResultSetModel,
    second: ResultSetModel,
)
    requires
        first == result_set_of(columns, fetched),
        second == result_set_of(columns, fetched),
    ensures
        first == second,
        result_set_value(first) == result_set_value(second),
        canonical_text(result_set_value(first)) == canonical_text(result_set_value(second)),
{
}

/// The four names of the catalog are four different names.
pub proof fn lemma_names_differ()
    ensures
        "query"@ != "execute"@,
        "query"@ != "executemany"@,
        "query"@ != "executescript"@,
        "execute"@ != "executemany"@,
        "execute"@ != "executescript"@,
        "executemany"@ != "executescript"@,
{
    reveal_strlit("query");
    reveal_strlit("execute");
    reveal_strlit("executemany");
    reveal_strlit("executescript");
    assert("query"@.len() == 5);
    assert("execute"@.len() == 7);
    assert("executemany"@.len() == 11);
    assert("executescript"@.len() == 13);
}

/// A name that no operation has leads to the failure for it, whatever the
/// arguments are: no request is made.
pub proof fn law_unknown_name_is_not_found(tool_name: Seq<char>, arguments: JsonModel)
    requires
        forall|i: int| 0 <= i < catalog().len() ==> (#[trigger] catalog()[i]).name != tool_name,
    ensures
        planned(tool_name, arguments) == Err::<RequestModel, FailureModel>(
            FailureModel::NotFound("Unknown tool: "@ + tool_name),
        ),
{
    assert(catalog()[0].name == "query"@);
    assert(catalog()[1].name == "execute"@);
    assert(catalog()[2].name == "executemany"@);
    assert(catalog()[3].name == "executescript"@);
}

/// Whether a value has the type that the kind asks for.
pub open spec fn kind_accepts(kind: ArgumentKind, v: JsonModel) -> bool {
    match kind {
        ArgumentKind::Text => v is String,
        ArgumentKind::Array => v is Array,
    }
}

/// Whether the arguments meet what the catalog says of one argument: it
/// is there with the right type, or it is not required and not there.
pub open spec fn argument_accepts(argument: ArgumentModel, arguments: JsonModel) -> bool {
    match field(arguments, argument.name) {
        None => !argument.required,
        Some(v) => kind_accepts(argument.kind, v),
    }
}

/// Whether the arguments meet what the catalog says of an operation.
pub open spec fn conforms(tool: ToolModel, arguments: JsonModel) -> bool {
    forall|i: int|
        0 <= i < tool.arguments.len() ==> argument_accepts(#[trigger] tool.arguments[i], arguments)
}

/// The catalog and the validation of the arguments agree: the arguments of
/// an operation are valid exactly when they meet what the catalog says of
/// that operation.
pub proof fn law_catalog_matches_validation(index: int, arguments: JsonModel)
    requires
        0 <= index < catalog().len(),
    ensures
        planned(catalog()[index].name, arguments) is Ok <==> conforms(catalog()[index], arguments),
{
    lemma_names_differ();
    let tool = catalog()[index];
    if index == 0 {
        assert(tool == query_tool());
        assert(planned(tool.name, arguments) == planned_query(arguments));
        assert(tool.arguments[0].name == "query"@ && tool.arguments[1].name == "params"@);
        if conforms(tool, arguments) {
            assert(argument_accepts(tool.arguments[0], arguments));
            assert(argument_accepts(tool.arguments[1], arguments));
        }
    } else if index == 1 {
        assert(tool == execute_tool());
        assert(planned(tool.name, arguments) == planned_execute(arguments));
        assert(tool.arguments[0].name == "statement"@ && tool.arguments[1].name == "params"@);
        if conforms(tool, arguments) {
            assert(argument_accepts(tool.arguments[0], arguments));
            assert(argument_accepts(tool.arguments[1], arguments));
        }
    } else if index == 2 {
        assert(tool == executemany_tool());
        assert(planned(tool.name, arguments) == planned_executemany(arguments));
        assert(tool.arguments[0].name == "statement"@ && tool.arguments[1].name
            == "params_list"@);
        if conforms(tool, arguments) {
            assert(argument_accepts(tool.arguments[0], arguments));
            assert(argument_accepts(tool.arguments[1], arguments));
        }
    } else {
        assert(tool == executescript_tool());
        assert(planned(tool.name, arguments) == planned_executescript(arguments));
        assert(tool.arguments[0].name == "script"@);
        if conforms(tool, arguments) {
            assert(argument_accepts(tool.arguments[0], arguments));
        }
    }
}

/// Arguments that are not valid for an operation of the catalog meet one of
/// two failures: that for a required argument of the operation which is
/// missing or of another type, or that for `params` which is no array.
pub proof fn law_validation_failures(index: int, arguments: JsonModel)
    requires
        0 <= index < catalog().len(),
    ensures
        planned(catalog()[index].name, arguments) matches Err(f) ==> (f == params_no_array()
            || exists|i: int|
            {
                &&& 0 <= i < catalog()[index].arguments.len()
                &&& (#[trigger] catalog()[index].arguments[i]).required
                &&& f == missing(catalog()[index].arguments[i].name)
            }),
{
    lemma_names_differ();
    let tool = catalog()[index];
    if planned(tool.name, arguments) is Err {
        let f = planned(tool.name, arguments)->Err_0;
        if f != params_no_array() {
            if f == missing(tool.arguments[0].name) {
                assert(tool.arguments[0].required);
            } else {
                assert(index == 2);
                assert(tool.arguments[1].required && f == missing(tool.arguments[1].name));
            }
        }
    }
}

} // verus!
