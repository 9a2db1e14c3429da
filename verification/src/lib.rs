//! A relational database served through four named operations: `query`,
//! `execute`, `executemany` and `executescript`.
//!
//! The crate converts between dynamically typed structured values and the
//! engine's typed parameters and cells, runs statements on one connection,
//! and packages each outcome as a structured result or a typed failure.

pub mod catalog;
pub mod convert;
pub mod engine;
pub mod error;
pub mod laws;
pub mod order;
pub mod request;
pub mod rows;
pub mod server;
pub mod text;
pub mod value;

pub use catalog::{
    ArgumentDescriptor, ArgumentKind, Capabilities, PromptDescriptor, ResourceDescriptor,
    ToolDescriptor,
};
pub use convert::{from_cell, json_value_to_sql, BindParameter, NativeCell};
pub use error::{PromptError, ResourceError, ToolError};
pub use request::{plan, Request};
pub use rows::{extract_row_values, materialize, ExecutionOutcome, ResultSet};
pub use server::SQLiteRouter;
pub use text::to_text;
pub use value::{JsonNumber, JsonObject, JsonValue};
