use mcp_sqlite::server::{add_count, bind_parameters, bind_set, conclude_fetch};
use mcp_sqlite::{
    BindParameter, Capabilities, ExecutionOutcome, NativeCell, ResultSet, JsonNumber, JsonObject, JsonValue, PromptError,
    ResourceError, SQLiteRouter, ToolError,
};

type Reader = fn(&rusqlite::Statement<'_>) -> Option<Vec<String>>;

fn names(stmt: &rusqlite::Statement<'_>) -> Option<Vec<String>> {
    Some(stmt.column_names().into_iter().map(String::from).collect())
}

fn no_names(_stmt: &rusqlite::Statement<'_>) -> Option<Vec<String>> {
    None
}

fn open(path: &str) -> Result<SQLiteRouter<Reader>, rusqlite::Error> {
    SQLiteRouter::new(path, names as Reader)
}

fn object(entries: Vec<(&str, JsonValue)>) -> JsonValue {
    let mut o = JsonObject::new();
    for (k, v) in entries {
        o.insert(k.to_string(), v);
    }
    JsonValue::Object(o)
}

fn string(s: &str) -> JsonValue {
    JsonValue::String(s.to_string())
}

fn whole(i: i64) -> JsonValue {
    JsonValue::from_i64(i)
}

fn list(items: Vec<JsonValue>) -> JsonValue {
    JsonValue::Array(items)
}

fn router_with_table() -> SQLiteRouter<Reader> {
    let router = open(":memory:").unwrap();
    router
        .execute(&object(vec![(
            "statement",
            string("CREATE TABLE t(id INTEGER PRIMARY KEY, name TEXT)"),
        )]))
        .unwrap();
    router
}

fn execution_message(r: Result<JsonValue, ToolError>) -> String {
    match r {
        Err(ToolError::ExecutionError(message)) => message,
        other => panic!("no execution failure: {:?}", other),
    }
}

#[test]
fn create_table_then_insert() {
    let router = open(":memory:").unwrap();
    let created = router
        .execute(&object(vec![(
            "statement",
            string("CREATE TABLE t(id INTEGER PRIMARY KEY, name TEXT)"),
        )]))
        .unwrap();
    assert_eq!(created, object(vec![("rowsAffected", whole(0)), ("lastInsertId", whole(0))]));
    let inserted = router
        .execute(&object(vec![
            ("statement", string("INSERT INTO t(name) VALUES (?)")),
            ("params", list(vec![string("a")])),
        ]))
        .unwrap();
    assert_eq!(inserted, object(vec![("rowsAffected", whole(1)), ("lastInsertId", whole(1))]));
}

#[test]
fn create_table_then_insert_by_name() {
    let router = open(":memory:").unwrap();
    let created = router
        .call_tool(
            "execute",
            &object(vec![(
                "statement",
                string("CREATE TABLE t(id INTEGER PRIMARY KEY, name TEXT)"),
            )]),
        )
        .unwrap();
    assert_eq!(created, "{\"lastInsertId\":0,\"rowsAffected\":0}");
    let inserted = router
        .call_tool(
            "execute",
            &object(vec![
                ("statement", string("INSERT INTO t(name) VALUES (?)")),
                ("params", list(vec![string("a")])),
            ]),
        )
        .unwrap();
    assert_eq!(inserted, "{\"lastInsertId\":1,\"rowsAffected\":1}");
}

#[test]
fn executemany_then_query() {
    let router = router_with_table();
    router
        .execute(&object(vec![
            ("statement", string("INSERT INTO t(name) VALUES (?)")),
            ("params", list(vec![string("a")])),
        ]))
        .unwrap();
    let many = router
        .executemany(&object(vec![
            ("statement", string("INSERT INTO t(name) VALUES (?)")),
            ("params_list", list(vec![list(vec![string("b")]), list(vec![string("c")])])),
        ]))
        .unwrap();
    assert_eq!(many, object(vec![("rowsAffected", whole(2))]));
    let result = router.query(&object(vec![("query", string("SELECT * FROM t"))])).unwrap();
    assert_eq!(result.get("columns"), Some(&list(vec![string("id"), string("name")])));
    assert_eq!(
        result.get("rows"),
        Some(&list(vec![
            object(vec![("id", whole(1)), ("name", string("a"))]),
            object(vec![("id", whole(2)), ("name", string("b"))]),
            object(vec![("id", whole(3)), ("name", string("c"))]),
        ]))
    );
}

#[test]
fn executemany_then_query_by_name() {
    let router = router_with_table();
    let many = router
        .call_tool(
            "executemany",
            &object(vec![
                ("statement", string("INSERT INTO t(name) VALUES (?)")),
                ("params_list", list(vec![list(vec![string("b")]), list(vec![string("c")])])),
            ]),
        )
        .unwrap();
    assert_eq!(many, "{\"rowsAffected\":2}");
    let text = router.call_tool("query", &object(vec![("query", string("SELECT * FROM t"))]));
    assert_eq!(
        text.unwrap(),
        "{\"columns\":[\"id\",\"name\"],\"rows\":[{\"id\":1,\"name\":\"b\"},{\"id\":2,\"name\":\"c\"}]}"
    );
}

#[test]
fn query_of_a_table_that_is_not_there() {
    let router = open(":memory:").unwrap();
    let message =
        execution_message(router.query(&object(vec![("query", string("SELECT * FROM nosuchtable"))])));
    assert!(message.starts_with("Failed to prepare query: "), "{}", message);
    assert!(message.contains("nosuchtable"), "{}", message);
}

#[test]
fn unknown_operation_is_not_found_and_touches_nothing() {
    let router = router_with_table();
    let r = router.call_tool(
        "drop",
        &object(vec![
            ("statement", string("DROP TABLE t")),
            ("query", string("DROP TABLE t")),
            ("script", string("DROP TABLE t")),
        ]),
    );
    assert_eq!(r, Err(ToolError::NotFound("Unknown tool: drop".to_string())));
    let still = router.query(&object(vec![("query", string("SELECT * FROM t"))]));
    assert!(still.is_ok());
}

#[test]
fn invalid_arguments_reach_no_statement() {
    let router = router_with_table();
    let r = router.execute(&object(vec![
        ("statement", string("INSERT INTO t(name) VALUES ('x')")),
        ("params", string("none")),
    ]));
    assert_eq!(r, Err(ToolError::InvalidParameters("params must be an array".to_string())));
    let r = router.query(&object(vec![]));
    assert_eq!(r, Err(ToolError::InvalidParameters("Missing required parameter: query".to_string())));
    let r = router.executescript(&object(vec![]));
    assert_eq!(r, Err(ToolError::InvalidParameters("Missing required parameter: script".to_string())));
    let rows = router.run_query("SELECT * FROM t", &vec![]).unwrap();
    assert_eq!(rows.rows.len(), 0);
}

#[test]
fn query_without_rows_has_its_columns() {
    let router = router_with_table();
    let result = router.run_query("SELECT id, name AS label FROM t WHERE id > ?", &vec![whole(5)]);
    let result = result.unwrap();
    assert_eq!(result.columns, vec!["id".to_string(), "label".to_string()]);
    assert_eq!(result.rows, Vec::<JsonValue>::new());
    let text = router.call_tool("query", &object(vec![("query", string("SELECT * FROM t"))]));
    assert_eq!(text.unwrap(), "{\"columns\":[\"id\",\"name\"],\"rows\":[]}");
}

#[test]
fn same_query_twice_gives_the_same_result() {
    let router = router_with_table();
    router
        .run_many(
            "INSERT INTO t(name) VALUES (?)",
            &vec![list(vec![string("x")]), list(vec![JsonValue::Null]), list(vec![whole(3)])],
        )
        .unwrap();
    let first = router.run_query("SELECT * FROM t ORDER BY id DESC", &vec![]).unwrap();
    let second = router.run_query("SELECT * FROM t ORDER BY id DESC", &vec![]).unwrap();
    assert_eq!(first, second);
    assert_eq!(first.rows.len(), 3);
    assert_eq!(first.rows[0].get("id"), Some(&whole(3)));
}

#[test]
fn values_come_back_as_they_were_bound() {
    let router = open(":memory:").unwrap();
    let numbers = [0i64, 1, -1, 42, i64::MAX, i64::MIN];
    for i in numbers {
        let result = router.run_query("SELECT ? AS v", &vec![whole(i)]).unwrap();
        assert_eq!(result.columns, vec!["v".to_string()]);
        assert_eq!(result.rows, vec![object(vec![("v", whole(i))])]);
    }
}

#[test]
fn kinds_of_bound_values() {
    let router = open(":memory:").unwrap();
    let float = JsonValue::Number(JsonNumber::Float(serde_json::Number::from_f64(2.5).unwrap()));
    let bound = vec![
        JsonValue::Null,
        JsonValue::Bool(true),
        JsonValue::Bool(false),
        JsonValue::from_u64(u64::MAX),
        JsonValue::Number(JsonNumber::Float(serde_json::Number::from_f64(2.5).unwrap())),
        string("it's"),
        list(vec![whole(1), string("b")]),
        object(vec![("k", JsonValue::Null)]),
    ];
    let result = router
        .run_query("SELECT ? AS a, ? AS b, ? AS c, ? AS d, ? AS e, ? AS f, ? AS g, ? AS h", &bound)
        .unwrap();
    assert_eq!(
        result.rows,
        vec![object(vec![
            ("a", JsonValue::Null),
            ("b", whole(1)),
            ("c", whole(0)),
            ("d", whole(-1)),
            ("e", float),
            ("f", string("it's")),
            ("g", string("[1,\"b\"]")),
            ("h", string("{\"k\":null}")),
        ])]
    );
}

#[test]
fn kinds_of_cells() {
    let router = open(":memory:").unwrap();
    let result = router
        .run_query("SELECT x'68656c6c6f' AS b, 1.5 AS r, NULL AS n, 'é' AS t, -7 AS i", &vec![])
        .unwrap();
    assert_eq!(
        result.columns,
        vec!["b".to_string(), "r".to_string(), "n".to_string(), "t".to_string(), "i".to_string()]
    );
    assert_eq!(
        result.rows,
        vec![object(vec![
            ("b", string("aGVsbG8=")),
            ("r", JsonValue::Number(JsonNumber::Float(serde_json::Number::from_f64(1.5).unwrap()))),
            ("n", JsonValue::Null),
            ("t", string("é")),
            ("i", whole(-7)),
        ])]
    );
}

#[test]
fn real_that_is_not_finite_comes_back_as_null() {
    let router = open(":memory:").unwrap();
    let result = router.run_query("SELECT 9e999 AS big, -9e999 AS small", &vec![]).unwrap();
    assert_eq!(
        result.rows,
        vec![object(vec![("big", JsonValue::Null), ("small", JsonValue::Null)])]
    );
}

#[test]
fn text_cell_with_bad_bytes() {
    let router = open(":memory:").unwrap();
    let result = router.run_query("SELECT CAST(x'61ff62' AS TEXT) AS t", &vec![]).unwrap();
    assert_eq!(result.rows, vec![object(vec![("t", string("a\u{fffd}b"))])]);
}

#[test]
fn columns_of_one_name() {
    let router = open(":memory:").unwrap();
    let result = router.run_query("SELECT 1 AS x, 2 AS x", &vec![]).unwrap();
    assert_eq!(result.columns, vec!["x".to_string(), "x".to_string()]);
    assert_eq!(result.rows, vec![object(vec![("x", whole(2))])]);
}

#[test]
fn wrong_number_of_values_is_an_execution_failure() {
    let router = router_with_table();
    let message = execution_message(router.query(&object(vec![
        ("query", string("SELECT * FROM t WHERE id = ?")),
        ("params", list(vec![])),
    ])));
    assert!(message.starts_with("Failed to execute query: "), "{}", message);
    let message = execution_message(router.execute(&object(vec![
        ("statement", string("INSERT INTO t(name) VALUES (?)")),
        ("params", list(vec![string("a"), string("b")])),
    ])));
    assert!(message.starts_with("Failed to execute statement: "), "{}", message);
}

#[test]
fn statement_that_breaks_a_constraint() {
    let router = router_with_table();
    router.run_statement("INSERT INTO t(id, name) VALUES (1, 'a')", &vec![]).unwrap();
    let r = router.run_statement("INSERT INTO t(id, name) VALUES (1, 'b')", &vec![]);
    match r {
        Err(ToolError::ExecutionError(message)) => {
            assert!(message.starts_with("Failed to execute statement: "), "{}", message)
        }
        other => panic!("no execution failure: {:?}", other),
    }
}

#[test]
fn statement_reports_count_and_last_identifier() {
    let router = router_with_table();
    let first = router.run_statement("INSERT INTO t(name) VALUES ('a'), ('b'), ('c')", &vec![]);
    assert_eq!(first, Ok(ExecutionOutcome { rows_affected: 3, last_insert_id: Some(3) }));
    let updated = router.run_statement("UPDATE t SET name = ? WHERE id >= ?", &vec![string("z"), whole(2)]);
    assert_eq!(updated, Ok(ExecutionOutcome { rows_affected: 2, last_insert_id: Some(3) }));
    let deleted = router.run_statement("DELETE FROM t", &vec![]);
    assert_eq!(deleted, Ok(ExecutionOutcome { rows_affected: 3, last_insert_id: Some(3) }));
}

#[test]
fn batch_counts_the_rows_of_every_run() {
    let router = router_with_table();
    let sets = vec![list(vec![string("a")]), list(vec![string("b")]), list(vec![string("c")])];
    let r = router.run_many("INSERT INTO t(name) VALUES (?)", &sets);
    assert_eq!(r, Ok(ExecutionOutcome { rows_affected: 3, last_insert_id: None }));
    let none = router.run_many("INSERT INTO t(name) VALUES (?)", &vec![]);
    assert_eq!(none, Ok(ExecutionOutcome { rows_affected: 0, last_insert_id: None }));
    let all = router.run_many("UPDATE t SET name = ?", &vec![list(vec![string("x")]), list(vec![string("y")])]);
    assert_eq!(all, Ok(ExecutionOutcome { rows_affected: 6, last_insert_id: None }));
}

#[test]
fn batch_stops_at_a_set_that_is_no_array() {
    let router = router_with_table();
    let sets = vec![list(vec![string("a")]), string("b"), list(vec![string("c")])];
    let r = router.run_many("INSERT INTO t(name) VALUES (?)", &sets);
    assert_eq!(r, Err(ToolError::InvalidParameters("params_list must contain arrays".to_string())));
    let rows = router.run_query("SELECT name FROM t", &vec![]).unwrap();
    assert_eq!(rows.rows, vec![object(vec![("name", string("a"))])]);
}

#[test]
fn batch_stops_at_a_set_that_the_engine_refuses() {
    let router = router_with_table();
    let sets = vec![
        list(vec![whole(1), string("a")]),
        list(vec![whole(1), string("b")]),
        list(vec![whole(2), string("c")]),
    ];
    let r = router.executemany(&object(vec![
        ("statement", string("INSERT INTO t(id, name) VALUES (?, ?)")),
        ("params_list", list(sets)),
    ]));
    let message = execution_message(r);
    assert!(message.starts_with("Failed to execute statement: "), "{}", message);
    let rows = router.run_query("SELECT id, name FROM t", &vec![]).unwrap();
    assert_eq!(rows.rows, vec![object(vec![("id", whole(1)), ("name", string("a"))])]);
}

#[test]
fn batch_with_a_statement_that_cannot_be_prepared() {
    let router = open(":memory:").unwrap();
    let r = router.executemany(&object(vec![
        ("statement", string("INSERT INTO nowhere VALUES (?)")),
        ("params_list", list(vec![string("not an array")])),
    ]));
    let message = execution_message(r);
    assert!(message.starts_with("Failed to prepare statement: "), "{}", message);
}

#[test]
fn script_runs_every_statement_and_reports_no_count() {
    let router = open(":memory:").unwrap();
    let r = router.executescript(&object(vec![(
        "script",
        string(
            "CREATE TABLE p(id INTEGER PRIMARY KEY, name TEXT, price REAL);
             INSERT INTO p(name, price) VALUES ('a', 99.5);
             INSERT INTO p(name, price) VALUES ('b', 199.25);",
        ),
    )]));
    assert_eq!(r, Ok(object(vec![("rowsAffected", whole(0))])));
    let rows = router.run_query("SELECT count(*) AS n FROM p", &vec![]).unwrap();
    assert_eq!(rows.rows, vec![object(vec![("n", whole(2))])]);
    assert_eq!(
        router.run_script("DELETE FROM p"),
        Ok(ExecutionOutcome { rows_affected: 0, last_insert_id: None })
    );
}

#[test]
fn script_that_fails() {
    let router = open(":memory:").unwrap();
    let r = router.call_tool(
        "executescript",
        &object(vec![("script", string("CREATE TABLE a(x); INSERT INTO b VALUES (1);"))]),
    );
    match r {
        Err(ToolError::ExecutionError(message)) => {
            assert!(message.starts_with("Failed to execute script: "), "{}", message)
        }
        other => panic!("no execution failure: {:?}", other),
    }
}

#[test]
fn failure_while_fetching_is_surfaced() {
    let router = router_with_table();
    router.run_statement("INSERT INTO t(id, name) VALUES (1, 'a')", &vec![]).unwrap();
    let r = router.run_query("INSERT INTO t(id, name) VALUES (1, 'b')", &vec![]);
    match r {
        Err(ToolError::ExecutionError(message)) => {
            assert!(message.starts_with("Failed to execute query: "), "{}", message)
        }
        other => panic!("no execution failure: {:?}", other),
    }
}

#[test]
fn path_with_a_nul_character_is_refused() {
    assert!(open("a\0b").is_err());
    assert!(open("\0").is_err());
    assert!(open(":memory:\0").is_err());
    assert!(open(":memory:").is_ok());
}

#[test]
fn database_that_cannot_be_opened() {
    assert!(open("/nonexistent-directory/sub/file.db").is_err());
}

#[test]
fn name_instructions_and_capabilities() {
    let router = open(":memory:").unwrap();
    assert_eq!(router.name(), "sqlite");
    assert_eq!(router.instructions(), "SQLite数据库访问服务，提供执行SQL查询和语句的能力。");
    assert_eq!(
        router.capabilities(),
        Capabilities { tools: true, tools_list_changed: true, prompts: false, resources: false }
    );
}

#[test]
fn resources_and_prompts_are_not_found() {
    let router = open(":memory:").unwrap();
    assert!(router.list_resources().is_empty());
    assert!(router.list_prompts().is_empty());
    assert_eq!(
        router.read_resource("sqlite://t"),
        Err(ResourceError::NotFound("Resource not found".to_string()))
    );
    assert_eq!(
        router.get_prompt("any"),
        Err(PromptError::NotFound("Prompt not found".to_string()))
    );
}

#[test]
fn count_of_a_batch_adds_up() {
    assert_eq!(add_count(0, 0), 0);
    assert_eq!(add_count(2, 3), 5);
    assert_eq!(add_count(u64::MAX - 5, 5), u64::MAX);
}

#[test]
fn count_of_a_batch_stops_at_the_greatest_count() {
    assert_eq!(add_count(u64::MAX - 1, 5), u64::MAX);
    assert_eq!(add_count(u64::MAX, 1), u64::MAX);
    assert_eq!(add_count(u64::MAX, 0), u64::MAX);
}

#[test]
fn values_of_a_list_are_bound_one_by_one() {
    let bound = bind_parameters(&vec![
        whole(1),
        string("a"),
        JsonValue::Null,
        list(vec![JsonValue::Bool(false)]),
    ]);
    assert_eq!(
        bound,
        vec![
            BindParameter::Integer(1),
            BindParameter::Text("a".to_string()),
            BindParameter::Null,
            BindParameter::Text("[false]".to_string()),
        ]
    );
    assert_eq!(bind_parameters(&vec![]), Vec::<BindParameter>::new());
}

#[test]
fn set_that_is_a_value_alone_is_refused_as_invalid() {
    let router = router_with_table();
    let r = router.executemany(&object(vec![
        ("statement", string("INSERT INTO t(name) VALUES (?)")),
        ("params_list", list(vec![list(vec![string("b")]), string("c")])),
    ]));
    assert_eq!(r, Err(ToolError::InvalidParameters("params_list must contain arrays".to_string())));
    let rows = router.run_query("SELECT name FROM t", &vec![]).unwrap();
    assert_eq!(rows.rows, vec![object(vec![("name", string("b"))])]);
}

#[test]
fn failure_of_the_engine_while_fetching_a_row() {
    let router = open(":memory:").unwrap();
    let r = router.query(&object(vec![
        ("query", string("SELECT abs(?) AS x")),
        ("params", list(vec![whole(i64::MIN)])),
    ]));
    let message = execution_message(r);
    assert!(message.starts_with("Failed to execute query: "), "{}", message);
    assert!(message.len() > "Failed to execute query: ".len(), "{}", message);
}

#[test]
fn failure_after_rows_were_fetched_drops_the_rows() {
    let router = router_with_table();
    router
        .run_many(
            "INSERT INTO t(id, name) VALUES (?, ?)",
            &vec![list(vec![whole(1), string("a")]), list(vec![whole(i64::MIN), string("b")])],
        )
        .unwrap();
    let r = router.run_query("SELECT abs(id) AS x FROM t ORDER BY id DESC", &vec![]);
    match r {
        Err(ToolError::ExecutionError(message)) => {
            assert!(message.starts_with("Failed to execute query: "), "{}", message)
        }
        other => panic!("no execution failure: {:?}", other),
    }
}

#[test]
fn fetch_that_ended_without_failure() {
    let fetched = vec![vec![NativeCell::Integer(1)], vec![NativeCell::Null]];
    let r = conclude_fetch(vec!["x".to_string()], &fetched, None);
    assert_eq!(
        r,
        Ok(ResultSet {
            columns: vec!["x".to_string()],
            rows: vec![object(vec![("x", whole(1))]), object(vec![("x", JsonValue::Null)])],
        })
    );
    let none = conclude_fetch(vec!["x".to_string()], &vec![], None);
    assert_eq!(none, Ok(ResultSet { columns: vec!["x".to_string()], rows: vec![] }));
}

#[test]
fn fetch_that_ended_with_a_failure() {
    let fetched = vec![vec![NativeCell::Integer(1)]];
    let r = conclude_fetch(vec!["x".to_string()], &fetched, Some("integer overflow"));
    assert_eq!(
        r,
        Err(ToolError::ExecutionError("Failed to execute query: integer overflow".to_string()))
    );
    let r = conclude_fetch(vec![], &vec![], Some(""));
    assert_eq!(r, Err(ToolError::ExecutionError("Failed to execute query: ".to_string())));
}

#[test]
fn one_set_of_a_batch() {
    assert_eq!(
        bind_set(&list(vec![whole(1), string("a")])),
        Ok(vec![BindParameter::Integer(1), BindParameter::Text("a".to_string())])
    );
    assert_eq!(bind_set(&list(vec![])), Ok(vec![]));
    let refused = Err(ToolError::InvalidParameters("params_list must contain arrays".to_string()));
    assert_eq!(bind_set(&string("c")), refused);
    assert_eq!(bind_set(&whole(1)), refused);
    assert_eq!(bind_set(&JsonValue::Null), refused);
    assert_eq!(bind_set(&object(vec![("a", list(vec![]))])), refused);
}

#[test]
fn names_that_cannot_be_read_fail_the_query() {
    let router = SQLiteRouter::new(":memory:", no_names as Reader).unwrap();
    let r = router.run_query("SELECT 1 AS x", &vec![]);
    assert_eq!(
        r,
        Err(ToolError::ExecutionError(
            "Failed to prepare query: a column name is not text".to_string()
        ))
    );
    let done = router.run_statement("CREATE TABLE t(x)", &vec![]);
    assert_eq!(done, Ok(ExecutionOutcome { rows_affected: 0, last_insert_id: Some(0) }));
}
