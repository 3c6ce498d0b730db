use vstd::prelude::*;

pub mod agent_tools;
pub mod app_list;
pub mod app_server;
pub mod toolset;
pub mod toolset_laws;
pub mod builders;
pub mod builtin;
pub mod command_exec;
pub mod code_mode;
pub mod code_mode_runtime;
pub mod code_mode_session;
pub mod config;
pub mod discoverable;
pub mod json;
pub mod mcp;
pub mod misc_tools;
pub mod project_doc;
pub mod registry;
pub mod sanitize;
pub mod sanitize_laws;
pub mod schema;
pub mod schema_json;
pub mod sorting;
pub mod strings;
pub mod text;
pub mod texts;
pub mod threads;
pub mod tool;
pub mod tool_json;
pub mod typescript;

verus! {
}
