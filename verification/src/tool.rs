use vstd::prelude::*;

use crate::json::{clone_json, Json, JsonValue};
use crate::schema::{clone_opt_string, clone_schema, clone_strings, opt_str, opt_strs, JsonSchema, Schema};
use crate::text::owned;

verus! {

/// A function tool as the Responses API describes it.
#[derive(Debug, PartialEq)]
pub struct ResponsesApiTool {
    pub name: String,
    pub description: String,
    /// Whether the model must follow the schema exactly.
    pub strict: bool,
    pub defer_loading: Option<bool>,
    pub parameters: JsonSchema,
    /// The shape of the tool's output; not sent to the model.
    pub output_schema: Option<JsonValue>,
}

/// How a freeform tool's input is constrained.
#[derive(Debug, PartialEq)]
pub struct FreeformToolFormat {
    /// Sent as `type`.
    pub format_type: String,
    pub syntax: String,
    pub definition: String,
}

/// A tool whose input is free text under a grammar.
#[derive(Debug, PartialEq)]
pub struct FreeformTool {
    pub name: String,
    pub description: String,
    pub format: FreeformToolFormat,
}

/// Search-context size for the hosted web search tool.
#[derive(Debug, Clone, Copy, PartialEq, Eq, Structural)]
pub enum WebSearchContextSize {
    Low,
    Medium,
    High,
}

/// Which domains the hosted web search may use.
#[derive(Debug, PartialEq)]
pub struct WebSearchFilters {
    pub allowed_domains: Option<Vec<String>>,
}

/// The user's approximate location, handed to web search.
#[derive(Debug, PartialEq)]
pub struct WebSearchUserLocation {
    pub country: Option<String>,
    pub region: Option<String>,
    pub city: Option<String>,
    pub timezone: Option<String>,
}

/// One tool as it is offered to the model.
#[derive(Debug, PartialEq)]
pub enum ToolSpec {
    Function(ResponsesApiTool),
    ToolSearch { execution: String, description: String, parameters: JsonSchema },
    LocalShell,
    ImageGeneration { output_format: String },
    WebSearch {
        external_web_access: Option<bool>,
        filters: Option<WebSearchFilters>,
        user_location: Option<WebSearchUserLocation>,
        search_context_size: Option<WebSearchContextSize>,
        search_content_types: Option<Vec<String>>,
    },
    Freeform(FreeformTool),
}

/// The content of a [`ResponsesApiTool`].
pub struct FunctionView {
    pub name: Seq<char>,
    pub description: Seq<char>,
    pub strict: bool,
    pub defer_loading: Option<bool>,
    pub parameters: Schema,
    pub output_schema: Option<Json>,
}

/// The content of a [`FreeformTool`].
pub struct FreeformView {
    pub name: Seq<char>,
    pub description: Seq<char>,
    pub format_type: Seq<char>,
    pub syntax: Seq<char>,
    pub definition: Seq<char>,
}

/// The content of a [`WebSearchUserLocation`].
pub struct LocationView {
    pub country: Option<Seq<char>>,
    pub region: Option<Seq<char>>,
    pub city: Option<Seq<char>>,
    pub timezone: Option<Seq<char>>,
}

/// The content of a [`ToolSpec`].
pub enum Tool {
    Function(FunctionView),
    ToolSearch { execution: Seq<char>, description: Seq<char>, parameters: Schema },
    LocalShell,
    ImageGeneration { output_format: Seq<char> },
    WebSearch {
        external_web_access: Option<bool>,
        filters: Option<Option<Seq<Seq<char>>>>,
        user_location: Option<LocationView>,
        search_context_size: Option<WebSearchContextSize>,
        search_content_types: Option<Seq<Seq<char>>>,
    },
    Freeform(FreeformView),
}

impl View for ResponsesApiTool {
    type V = FunctionView;

    open spec fn view(&self) -> FunctionView {
        FunctionView {
            name: self.name@,
            description: self.description@,
            strict: self.strict,
            defer_loading: self.defer_loading,
            parameters: self.parameters@,
            output_schema: match self.output_schema {
                Some(j) => Some(j@),
                None => None,
            },
        }
    }
}

impl View for FreeformTool {
    type V = FreeformView;

    open spec fn view(&self) -> FreeformView {
        FreeformView {
            name: self.name@,
            description: self.description@,
            format_type: self.format.format_type@,
            syntax: self.format.syntax@,
            definition: self.format.definition@,
        }
    }
}

impl View for WebSearchUserLocation {
    type V = LocationView;

    open spec fn view(&self) -> LocationView {
        LocationView {
            country: opt_str(self.country),
            region: opt_str(self.region),
            city: opt_str(self.city),
            timezone: opt_str(self.timezone),
        }
    }
}

impl View for ToolSpec {
    type V = Tool;

    open spec fn view(&self) -> Tool {
        match self {
            ToolSpec::Function(t) => Tool::Function(t@),
            ToolSpec::ToolSearch { execution, description, parameters } => Tool::ToolSearch {
                execution: execution@,
                description: description@,
                parameters: parameters@,
            },
            ToolSpec::LocalShell => Tool::LocalShell,
            ToolSpec::ImageGeneration { output_format } => Tool::ImageGeneration {
                output_format: output_format@,
            },
            ToolSpec::WebSearch {
                external_web_access,
                filters,
                user_location,
                search_context_size,
                search_content_types,
            } => Tool::WebSearch {
                external_web_access: *external_web_access,
                filters: match filters {
                    Some(f) => Some(opt_strs(f.allowed_domains)),
                    None => None,
                },
                user_location: match user_location {
                    Some(l) => Some(l@),
                    None => None,
                },
                search_context_size: *search_context_size,
                search_content_types: opt_strs(*search_content_types),
            },
            ToolSpec::Freeform(t) => Tool::Freeform(t@),
        }
    }
}

pub const TOOL_SEARCH_NAME: &'static str = "tool_search";
pub const LOCAL_SHELL_NAME: &'static str = "local_shell";
pub const IMAGE_GENERATION_NAME: &'static str = "image_generation";
pub const WEB_SEARCH_NAME: &'static str = "web_search";

/// The name under which a tool is offered.
pub open spec fn tool_name(t: Tool) -> Seq<char> {
    match t {
        Tool::Function(f) => f.name,
        Tool::ToolSearch { .. } => TOOL_SEARCH_NAME@,
        Tool::LocalShell => LOCAL_SHELL_NAME@,
        Tool::ImageGeneration { .. } => IMAGE_GENERATION_NAME@,
        Tool::WebSearch { .. } => WEB_SEARCH_NAME@,
        Tool::Freeform(f) => f.name,
    }
}

impl ToolSpec {
    /// The name under which this tool is offered.
    pub fn name(&self) -> (r: &str)
        ensures
            r@ == tool_name(self@),
    {
        match self {
            ToolSpec::Function(t) => t.name.as_str(),
            ToolSpec::ToolSearch { .. } => TOOL_SEARCH_NAME,
            ToolSpec::LocalShell => LOCAL_SHELL_NAME,
            ToolSpec::ImageGeneration { .. } => IMAGE_GENERATION_NAME,
            ToolSpec::WebSearch { .. } => WEB_SEARCH_NAME,
            ToolSpec::Freeform(t) => t.name.as_str(),
        }
    }
}


/// An app (connector) tool as the search tool knows it.
#[derive(Debug)]
pub struct ToolInfo {
    pub server_name: String,
    pub tool_name: String,
    pub tool_namespace: String,
    pub connector_id: Option<String>,
    pub connector_name: Option<String>,
    pub connector_description: Option<String>,
}

/// Texts and tools that come from elsewhere in the agent: tool descriptions kept in
/// templates, limits of other tools, and the plan and patch tools.
pub struct ToolTexts {
    pub request_user_input_description: String,
    pub request_user_input_default_mode_description: String,
    pub request_permissions_description: String,
    /// Holds `{{app_names}}`.
    pub tool_search_template: String,
    /// Holds `{{discoverable_tools}}`.
    pub tool_suggest_template: String,
    pub code_mode_description_template: String,
    pub code_mode_wait_description: String,
    /// Describes the agent roles that `spawn_agent` may use.
    pub agent_type_description: String,
    pub plan_tool: ToolSpec,
    pub apply_patch_freeform_tool: ToolSpec,
    pub apply_patch_json_tool: ToolSpec,
    pub default_wait_timeout_ms: u64,
    pub min_wait_timeout_ms: u64,
    pub max_wait_timeout_ms: u64,
    pub tool_search_default_limit: u64,
}


/// A copy of a tool with the same content.
pub fn clone_tool_spec(t: &ToolSpec) -> (r: ToolSpec)
    ensures
        r@ == t@,
{
    match t {
        ToolSpec::Function(f) => ToolSpec::Function(ResponsesApiTool {
            name: owned(f.name.as_str()),
            description: owned(f.description.as_str()),
            strict: f.strict,
            defer_loading: f.defer_loading,
            parameters: clone_schema(&f.parameters),
            output_schema: match &f.output_schema {
                Some(j) => Some(clone_json(j)),
                None => None,
            },
        }),
        ToolSpec::ToolSearch { execution, description, parameters } => ToolSpec::ToolSearch {
            execution: owned(execution.as_str()),
            description: owned(description.as_str()),
            parameters: clone_schema(parameters),
        },
        ToolSpec::LocalShell => ToolSpec::LocalShell,
        ToolSpec::ImageGeneration { output_format } => ToolSpec::ImageGeneration {
            output_format: owned(output_format.as_str()),
        },
        ToolSpec::WebSearch {
            external_web_access,
            filters,
            user_location,
            search_context_size,
            search_content_types,
        } => ToolSpec::WebSearch {
            external_web_access: *external_web_access,
            filters: match filters {
                Some(f) => Some(WebSearchFilters {
                    allowed_domains: match &f.allowed_domains {
                        Some(d) => Some(clone_strings(d)),
                        None => None,
                    },
                }),
                None => None,
            },
            user_location: match user_location {
                Some(l) => Some(WebSearchUserLocation {
                    country: clone_opt_string(&l.country),
                    region: clone_opt_string(&l.region),
                    city: clone_opt_string(&l.city),
                    timezone: clone_opt_string(&l.timezone),
                }),
                None => None,
            },
            search_context_size: *search_context_size,
            search_content_types: match search_content_types {
                Some(v) => Some(clone_strings(v)),
                None => None,
            },
        },
        ToolSpec::Freeform(f) => ToolSpec::Freeform(FreeformTool {
            name: owned(f.name.as_str()),
            description: owned(f.description.as_str()),
            format: FreeformToolFormat {
                format_type: owned(f.format.format_type.as_str()),
                syntax: owned(f.format.syntax.as_str()),
                definition: owned(f.format.definition.as_str()),
            },
        }),
    }
}

}
