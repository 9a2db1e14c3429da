//! The catalog of the operations: for each its name, what it does, and the
//! arguments that it takes, from which its schema is made.

use crate::error::{PromptError, ResourceError};
use crate::value::{items_model, put, JsonModel, JsonObject, JsonValue};
use vstd::prelude::*;

verus! {

/// The type that an argument must have.
#[derive(Debug, Clone, Copy, PartialEq, Eq)]
pub enum ArgumentKind {
    /// A text; in a schema, `string`.
    Text,
    /// An array; in a schema, `array`.
    Array,
}

/// One argument of an operation.
#[derive(Debug, PartialEq, Eq)]
pub struct ArgumentDescriptor {
    pub name: String,
    pub kind: ArgumentKind,
    pub description: String,
    pub required: bool,
}

/// One operation of the catalog.
#[derive(Debug, PartialEq, Eq)]
pub struct ToolDescriptor {
    pub name: String,
    pub description: String,
    pub arguments: Vec<ArgumentDescriptor>,
}

/// What the service can do besides answering: whether it has operations,
/// prompts and resources to list, and whether it tells when the list of its
/// operations changes.
#[derive(Debug, Clone, Copy, PartialEq, Eq)]
pub struct Capabilities {
    pub tools: bool,
    pub tools_list_changed: bool,
    pub prompts: bool,
    pub resources: bool,
}

/// A resource that the service has to read. It has none.
#[derive(Debug, PartialEq, Eq)]
pub struct ResourceDescriptor {
    pub uri: String,
    pub name: String,
}

/// A prompt that the service has to give. It has none.
#[derive(Debug, PartialEq, Eq)]
pub struct PromptDescriptor {
    pub name: String,
}

/// What an argument of an operation is.
pub struct ArgumentModel {
    pub name: Seq<char>,
    pub kind: ArgumentKind,
    pub description: Seq<char>,
    pub required: bool,
}

/// What an operation of the catalog is.
pub struct ToolModel {
    pub name: Seq<char>,
    pub description: Seq<char>,
    pub arguments: Seq<ArgumentModel>,
}

impl ArgumentDescriptor {
    pub open spec fn model(&self) -> ArgumentModel {
        ArgumentModel {
            name: self.name@,
            kind: self.kind,
            description: self.description@,
            required: self.required,
        }
    }
}

/// What arguments are, one by one.
pub open spec fn arguments_model(arguments: Seq<ArgumentDescriptor>) -> Seq<ArgumentModel> {
    arguments.map_values(|a: ArgumentDescriptor| a.model())
}

impl ToolDescriptor {
    pub open spec fn model(&self) -> ToolModel {
        ToolModel {
            name: self.name@,
            description: self.description@,
            arguments: arguments_model(self.arguments@),
        }
    }

    /// The schema of the arguments, as a structured value.
    pub fn input_schema(&self) -> (r: JsonValue)
        ensures
            r.model() == schema_of(self.model().arguments),
    {
        let ghost rules = arguments_model(self.arguments@);
        let mut required: Vec<JsonValue> = Vec::new();
        let mut properties = JsonObject::new();
        let mut i: usize = 0;
        while i < self.arguments.len()
            invariant
                0 <= i <= self.arguments@.len(),
                rules == arguments_model(self.arguments@),
                items_model(&required) == required_names(rules, i as nat),
                properties.model() == properties_of(rules, i as nat),
            decreases self.arguments@.len() - i,
        {
            let argument = &self.arguments[i];
            assert(rules[i as int] == argument.model());
            if argument.required {
                let ghost before = items_model(&required);
                required.push(JsonValue::String(argument.name.clone()));
                assert(items_model(&required) =~= before.push(JsonModel::String(argument.name@)));
            }
            let mut property = JsonObject::new();
            property.insert(String::from_str("type"), JsonValue::text(kind_name(argument.kind)));
            property.insert(
                String::from_str("description"),
                JsonValue::String(argument.description.clone()),
            );
            properties.insert(argument.name.clone(), JsonValue::Object(property));
            i = i + 1;
        }
        let mut schema = JsonObject::new();
        schema.insert(String::from_str("type"), JsonValue::text("object"));
        schema.insert(String::from_str("required"), JsonValue::Array(required));
        schema.insert(String::from_str("properties"), JsonValue::Object(properties));
        JsonValue::Object(schema)
    }
}

/// The name of a kind in a schema.
pub open spec fn kind_text(kind: ArgumentKind) -> Seq<char> {
    match kind {
        ArgumentKind::Text => "string"@,
        ArgumentKind::Array => "array"@,
    }
}

/// The name of a kind in a schema.
pub fn kind_name(kind: ArgumentKind) -> (r: &'static str)
    ensures
        r@ == kind_text(kind),
{
    match kind {
        ArgumentKind::Text => "string",
        ArgumentKind::Array => "array",
    }
}

/// The names of the required ones among the first `n` arguments, in their
/// order, as string values.
pub open spec fn required_names(arguments: Seq<ArgumentModel>, n: nat) -> Seq<JsonModel>
    decreases n,
{
    if n == 0 || n > arguments.len() {
        Seq::empty()
    } else if arguments[n - 1].required {
        required_names(arguments, (n - 1) as nat).push(JsonModel::String(arguments[n - 1].name))
    } else {
        required_names(arguments, (n - 1) as nat)
    }
}

/// What a schema says of one argument: its type and what it is for.
pub open spec fn property_of(argument: ArgumentModel) -> JsonModel {
    JsonModel::Object(
        put(
            put(Seq::empty(), "type"@, JsonModel::String(kind_text(argument.kind))),
            "description"@,
            JsonModel::String(argument.description),
        ),
    )
}

/// The properties of the first `n` arguments, each under its name.
pub open spec fn properties_of(arguments: Seq<ArgumentModel>, n: nat) -> Seq<
    (Seq<char>, JsonModel),
>
    decreases n,
{
    if n == 0 || n > arguments.len() {
        Seq::empty()
    } else {
        put(
            properties_of(arguments, (n - 1) as nat),
            arguments[n - 1].name,
            property_of(arguments[n - 1]),
        )
    }
}

/// The schema of arguments: an object type, with the names of the required
/// arguments and the properties of all.
pub open spec fn schema_of(arguments: Seq<ArgumentModel>) -> JsonModel {
    JsonModel::Object(
        put(
            put(
                put(Seq::empty(), "type"@, JsonModel::String("object"@)),
                "required"@,
                JsonModel::Array(required_names(arguments, arguments.len())),
            ),
            "properties"@,
            JsonModel::Object(properties_of(arguments, arguments.len())),
        ),
    )
}

/// The argument of an operation with this name, kind and description.
pub open spec fn argument(
    name: Seq<char>,
    kind: ArgumentKind,
    description: Seq<char>,
    required: bool,
) -> ArgumentModel {
    ArgumentModel { name, kind, description, required }
}

/// The operation `query` in the catalog.
pub open spec fn query_tool() -> ToolModel {
    ToolModel {
        name: "query"@,
        description: "执行SQL查询并返回结果"@,
        arguments: seq![
            argument("query"@, ArgumentKind::Text, "要执行的SQL查询"@, true),
            argument("params"@, ArgumentKind::Array, "绑定到查询的参数"@, false),
        ],
    }
}

/// The operation `execute` in the catalog.
pub open spec fn execute_tool() -> ToolModel {
    ToolModel {
        name: "execute"@,
        description: "执行SQL语句"@,
        arguments: seq![
            argument("statement"@, ArgumentKind::Text, "要执行的SQL语句"@, true),
            argument("params"@, ArgumentKind::Array, "绑定到语句的参数"@, false),
        ],
    }
}

/// The operation `executemany` in the catalog.
pub open spec fn executemany_tool() -> ToolModel {
    ToolModel {
        name: "executemany"@,
        description: "使用不同参数多次执行SQL语句"@,
        arguments: seq![
            argument("statement"@, ArgumentKind::Text, "要执行的SQL语句"@, true),
            argument("params_list"@, ArgumentKind::Array, "绑定到语句的参数列表"@, true),
        ],
    }
}

/// The operation `executescript` in the catalog.
pub open spec fn executescript_tool() -> ToolModel {
    ToolModel {
        name: "executescript"@,
        description: "执行SQL脚本"@,
        arguments: seq![argument("script"@, ArgumentKind::Text, "要执行的SQL脚本"@, true)],
    }
}

/// The catalog: the four operations, in the order in which they are listed.
pub open spec fn catalog() -> Seq<ToolModel> {
    seq![query_tool(), execute_tool(), executemany_tool(), executescript_tool()]
}

/// What the operations of a list are, one by one.
pub open spec fn tools_model(tools: Seq<ToolDescriptor>) -> Seq<ToolModel> {
    tools.map_values(|t: ToolDescriptor| t.model())
}

/// Makes the descriptor of one argument.
fn describe_argument(name: &str, kind: ArgumentKind, description: &str, required: bool) -> (r:
    ArgumentDescriptor)
    ensures
        r.model() == argument(name@, kind, description@, required),
{
    ArgumentDescriptor {
        name: String::from_str(name),
        kind,
        description: String::from_str(description),
        required,
    }
}

/// Makes the descriptor of an operation with one argument or two.
fn describe_tool(
    name: &str,
    description: &str,
    first: ArgumentDescriptor,
    second: Option<ArgumentDescriptor>,
) -> (r: ToolDescriptor)
    ensures
        r.model() == (ToolModel {
            name: name@,
            description: description@,
            arguments: match second {
                Some(second) => seq![first.model(), second.model()],
                None => seq![first.model()],
            },
        }),
{
    let mut arguments: Vec<ArgumentDescriptor> = Vec::new();
    arguments.push(first);
    match second {
        Some(second) => {
            arguments.push(second);
            assert(arguments_model(arguments@) =~= seq![first.model(), second.model()]);
        },
        None => {
            assert(arguments_model(arguments@) =~= seq![first.model()]);
        },
    }
    ToolDescriptor {
        name: String::from_str(name),
        description: String::from_str(description),
        arguments,
    }
}

/// What the service can do: it has operations, and tells when their list
/// changes; it has neither prompts nor resources.
pub fn capabilities() -> (r: Capabilities)
    ensures
        r == (Capabilities {
            tools: true,
            tools_list_changed: true,
            prompts: false,
            resources: false,
        }),
{
    Capabilities { tools: true, tools_list_changed: true, prompts: false, resources: false }
}

/// The resources of the service: none.
pub fn list_resources() -> (r: Vec<ResourceDescriptor>)
    ensures
        r@.len() == 0,
{
    Vec::new()
}

/// No resource can be read: every address is unknown.
pub fn read_resource(uri: &str) -> (r: Result<String, ResourceError>)
    ensures
        r matches Err(ResourceError::NotFound(message)) && message@ == "Resource not found"@,
{
    Err(ResourceError::NotFound(String::from_str("Resource not found")))
}

/// The prompts of the service: none.
pub fn list_prompts() -> (r: Vec<PromptDescriptor>)
    ensures
        r@.len() == 0,
{
    Vec::new()
}

/// No prompt can be had: every name is unknown.
pub fn get_prompt(prompt_name: &str) -> (r: Result<String, PromptError>)
    ensures
        r matches Err(PromptError::NotFound(message)) && message@ == "Prompt not found"@,
{
    Err(PromptError::NotFound(String::from_str("Prompt not found")))
}

/// The operations that the service offers.
pub fn list_tools() -> (r: Vec<ToolDescriptor>)
    ensures
        tools_model(r@) == catalog(),
{
    let mut tools: Vec<ToolDescriptor> = Vec::new();
    tools.push(
        describe_tool(
            "query",
            "执行SQL查询并返回结果",
            describe_argument("query", ArgumentKind::Text, "要执行的SQL查询", true),
            Some(describe_argument("params", ArgumentKind::Array, "绑定到查询的参数", false)),
        ),
    );
    tools.push(
        describe_tool(
            "execute",
            "执行SQL语句",
            describe_argument("statement", ArgumentKind::Text, "要执行的SQL语句", true),
            Some(describe_argument("params", ArgumentKind::Array, "绑定到语句的参数", false)),
        ),
    );
    tools.push(
        describe_tool(
            "executemany",
            "使用不同参数多次执行SQL语句",
            describe_argument("statement", ArgumentKind::Text, "要执行的SQL语句", true),
            Some(
                describe_argument("params_list", ArgumentKind::Array, "绑定到语句的参数列表", true),
            ),
        ),
    );
    tools.push(
        describe_tool(
            "executescript",
            "执行SQL脚本",
            describe_argument("script", ArgumentKind::Text, "要执行的SQL脚本", true),
            None,
        ),
    );
    assert(tools_model(tools@) =~= catalog());
    tools
}

} // verus!
