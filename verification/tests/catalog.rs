use mcp_sqlite::catalog::{kind_name, list_tools};
use mcp_sqlite::{plan, to_text, ArgumentKind, JsonObject, JsonValue, SQLiteRouter, ToolError};

fn schema(required: &[&str], properties: &[(&str, &str, &str)]) -> String {
    let mut map = serde_json::Map::new();
    for (name, kind, description) in properties {
        let mut property = serde_json::Map::new();
        property.insert("type".to_string(), serde_json::Value::from(*kind));
        property.insert("description".to_string(), serde_json::Value::from(*description));
        map.insert(name.to_string(), serde_json::Value::Object(property));
    }
    let mut schema = serde_json::Map::new();
    schema.insert("type".to_string(), serde_json::Value::from("object"));
    schema.insert(
        "required".to_string(),
        serde_json::Value::Array(required.iter().map(|r| serde_json::Value::from(*r)).collect()),
    );
    schema.insert("properties".to_string(), serde_json::Value::Object(map));
    serde_json::Value::Object(schema).to_string()
}

#[test]
fn catalog_lists_four_operations_in_order() {
    let tools = list_tools();
    let names: Vec<&str> = tools.iter().map(|t| t.name.as_str()).collect();
    assert_eq!(names, vec!["query", "execute", "executemany", "executescript"]);
}

#[test]
fn catalog_descriptions() {
    let tools = list_tools();
    assert_eq!(tools[0].description, "执行SQL查询并返回结果");
    assert_eq!(tools[1].description, "执行SQL语句");
    assert_eq!(tools[2].description, "使用不同参数多次执行SQL语句");
    assert_eq!(tools[3].description, "执行SQL脚本");
}

#[test]
fn catalog_arguments() {
    let tools = list_tools();
    let shape: Vec<Vec<(&str, ArgumentKind, bool)>> = tools
        .iter()
        .map(|t| t.arguments.iter().map(|a| (a.name.as_str(), a.kind, a.required)).collect())
        .collect();
    assert_eq!(
        shape,
        vec![
            vec![("query", ArgumentKind::Text, true), ("params", ArgumentKind::Array, false)],
            vec![("statement", ArgumentKind::Text, true), ("params", ArgumentKind::Array, false)],
            vec![
                ("statement", ArgumentKind::Text, true),
                ("params_list", ArgumentKind::Array, true)
            ],
            vec![("script", ArgumentKind::Text, true)],
        ]
    );
}

#[test]
fn schema_of_query() {
    let tools = list_tools();
    assert_eq!(
        to_text(&tools[0].input_schema()),
        schema(
            &["query"],
            &[("query", "string", "要执行的SQL查询"), ("params", "array", "绑定到查询的参数")]
        )
    );
}

#[test]
fn schema_of_execute() {
    let tools = list_tools();
    assert_eq!(
        to_text(&tools[1].input_schema()),
        schema(
            &["statement"],
            &[("statement", "string", "要执行的SQL语句"), ("params", "array", "绑定到语句的参数")]
        )
    );
}

#[test]
fn schema_of_executemany() {
    let tools = list_tools();
    assert_eq!(
        to_text(&tools[2].input_schema()),
        schema(
            &["statement", "params_list"],
            &[
                ("statement", "string", "要执行的SQL语句"),
                ("params_list", "array", "绑定到语句的参数列表")
            ]
        )
    );
}

#[test]
fn schema_of_executescript() {
    let tools = list_tools();
    let value = tools[3].input_schema();
    assert_eq!(
        to_text(&value),
        schema(&["script"], &[("script", "string", "要执行的SQL脚本")])
    );
    assert_eq!(value.get("type"), Some(&JsonValue::String("object".to_string())));
    assert_eq!(
        value.get("required"),
        Some(&JsonValue::Array(vec![JsonValue::String("script".to_string())]))
    );
}

#[test]
fn names_of_kinds() {
    assert_eq!(kind_name(ArgumentKind::Text), "string");
    assert_eq!(kind_name(ArgumentKind::Array), "array");
}

#[test]
fn arguments_without_a_required_one_are_not_valid() {
    for tool in list_tools() {
        for argument in tool.arguments.iter().filter(|a| a.required) {
            let mut arguments = JsonObject::new();
            for other in tool.arguments.iter().filter(|a| a.required && a.name != argument.name) {
                let value = match other.kind {
                    ArgumentKind::Text => JsonValue::String("x".to_string()),
                    ArgumentKind::Array => JsonValue::Array(vec![]),
                };
                arguments.insert(other.name.clone(), value);
            }
            match plan(&tool.name, &JsonValue::Object(arguments)) {
                Err(ToolError::InvalidParameters(message)) => assert_eq!(
                    message,
                    format!("Missing required parameter: {}", argument.name)
                ),
                _ => panic!("valid without {}", argument.name),
            }
        }
    }
}

#[test]
fn arguments_that_meet_the_catalog_are_valid() {
    for tool in list_tools() {
        let mut arguments = JsonObject::new();
        for argument in tool.arguments.iter() {
            let value = match argument.kind {
                ArgumentKind::Text => JsonValue::String("x".to_string()),
                ArgumentKind::Array => JsonValue::Array(vec![]),
            };
            arguments.insert(argument.name.clone(), value);
        }
        assert!(plan(&tool.name, &JsonValue::Object(arguments)).is_ok());
    }
}

#[test]
fn router_lists_the_catalog() {
    let router = SQLiteRouter::new(":memory:", |_: &rusqlite::Statement<'_>| None).unwrap();
    assert_eq!(router.list_tools(), list_tools());
}
