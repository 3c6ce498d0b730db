use vstd::prelude::*;

use crate::code_mode_runtime::{
    build_nested_tool_payload, first_named, function_arguments, not_enabled_message, opt_json,
    serialize_function_tool_arguments, tools_of, PayloadView, ToolPayload, EXPECTS_STRING, TOOL_HEAD,
};
use crate::json::{Json, JsonValue};
use crate::strings::{decimal, decimal_string};
use crate::text::{owned, str_eq};
use crate::texts;
use crate::tool::{Tool, ToolSpec};

verus! {

pub const SELF_INVOKE_ERROR: &'static str = " cannot invoke itself";

/// The payload of a call that a code mode script makes of a tool, or the text the
/// script gets back instead: code mode may not call itself; a tool of an MCP server
/// (`mcp_target` names the server and its tool) gets the JSON arguments; any other
/// tool is called as its kind asks.
pub open spec fn nested_call(
    specs: Seq<Tool>,
    tool_name: Seq<char>,
    mcp_target: Option<(Seq<char>, Seq<char>)>,
    input: Option<Json>,
) -> Result<PayloadView, Seq<char>> {
    if tool_name == texts::PUBLIC_TOOL_NAME@ {
        Err(texts::PUBLIC_TOOL_NAME@ + SELF_INVOKE_ERROR@)
    } else {
        match mcp_target {
            Some((server, tool)) => match function_arguments(tool_name, input) {
                Ok(a) => Ok(PayloadView::Mcp { server, tool, raw_arguments: a }),
                Err(e) => Err(e),
            },
            None => match first_named(specs, tool_name) {
                None => Err(not_enabled_message(tool_name)),
                Some(Tool::Freeform(_)) => match input {
                    Some(Json::Str(s)) => Ok(PayloadView::Custom { input: s }),
                    _ => Err(TOOL_HEAD@ + tool_name + EXPECTS_STRING@),
                },
                Some(_) => match function_arguments(tool_name, input) {
                    Ok(a) => Ok(PayloadView::Function { arguments: a }),
                    Err(e) => Err(e),
                },
            },
        }
    }
}

/// The payload of a call that a code mode script makes of a tool: see
/// [`nested_call`]. Whether the name is that of an MCP tool, and which, the
/// session tells.
pub fn nested_call_payload(
    specs: &Vec<ToolSpec>,
    tool_name: &str,
    mcp_target: Option<(String, String)>,
    input: Option<JsonValue>,
) -> (r: Result<ToolPayload, String>)
    ensures
        match r {
            Ok(p) => nested_call(
                tools_of(specs@),
                tool_name@,
                match mcp_target {
                    Some((s, t)) => Some((s@, t@)),
                    None => None,
                },
                opt_json(input),
            ) == Ok::<PayloadView, Seq<char>>(p@),
            Err(e) => nested_call(
                tools_of(specs@),
                tool_name@,
                match mcp_target {
                    Some((s, t)) => Some((s@, t@)),
                    None => None,
                },
                opt_json(input),
            ) == Err::<PayloadView, Seq<char>>(e@),
        },
{
    if str_eq(tool_name, texts::PUBLIC_TOOL_NAME) {
        let mut e = owned(texts::PUBLIC_TOOL_NAME);
        e.append(SELF_INVOKE_ERROR);
        return Err(e);
    }
    match mcp_target {
        Some((server, tool)) => {
            let raw_arguments = serialize_function_tool_arguments(tool_name, input)?;
            Ok(ToolPayload::Mcp { server, tool, raw_arguments })
        },
        None => build_nested_tool_payload(specs, tool_name, input),
    }
}

/// How a code mode script stands when the runner reports on it.
#[derive(Debug, PartialEq)]
pub enum ExecutionStatus {
    Completed,
    Failed,
    Running(String),
    Terminated,
}

/// The content of an [`ExecutionStatus`].
pub enum StatusView {
    Completed,
    Failed,
    Running(Seq<char>),
    Terminated,
}

impl View for ExecutionStatus {
    type V = StatusView;

    open spec fn view(&self) -> StatusView {
        match self {
            ExecutionStatus::Completed => StatusView::Completed,
            ExecutionStatus::Failed => StatusView::Failed,
            ExecutionStatus::Running(c) => StatusView::Running(c@),
            ExecutionStatus::Terminated => StatusView::Terminated,
        }
    }
}

/// What the script runner reports on a cell.
pub enum NodeMessage {
    /// The script asks to call a tool, which the runner reports elsewhere.
    ToolCall,
    /// The script yielded before finishing.
    Yielded,
    /// The script was ended on request.
    Terminated,
    /// The script finished, with the error it raised, if any, and the output budget
    /// it was started with.
    Result { error_text: Option<String>, max_output_tokens_per_exec_call: Option<u64> },
}

/// What becomes of a runner's report: the status shown above the output, whether
/// the cell is done, whether the call succeeded, the text added after the script's
/// own output, and the token budget the output is cut to.
#[derive(Debug, PartialEq)]
pub struct NodeOutcome {
    pub status: ExecutionStatus,
    pub finished: bool,
    pub success: bool,
    pub error_item: Option<String>,
    pub max_output_tokens: Option<u64>,
}

/// The content of a [`NodeOutcome`].
pub struct OutcomeView {
    pub status: StatusView,
    pub finished: bool,
    pub success: bool,
    pub error_item: Option<Seq<char>>,
    pub max_output_tokens: Option<u64>,
}

impl View for NodeOutcome {
    type V = OutcomeView;

    open spec fn view(&self) -> OutcomeView {
        OutcomeView {
            status: self.status@,
            finished: self.finished,
            success: self.success,
            error_item: match self.error_item {
                Some(e) => Some(e@),
                None => None,
            },
            max_output_tokens: self.max_output_tokens,
        }
    }
}

pub const SCRIPT_ERROR_HEAD: &'static str = "Script error:\n";

/// What becomes of a runner's report on `cell_id`: none for a tool call, which is
/// not expected here; a yield keeps the cell running, an end on request or a result
/// finishes it; a result fails when the script raised an error, which is added to the
/// output. The output budget of a wait call overrides the script's own; a yield or
/// an end on request has only the wait call's.
pub open spec fn node_outcome(
    cell_id: Seq<char>,
    message: NodeMessage,
    poll_max_output_tokens: Option<Option<u64>>,
) -> Option<OutcomeView> {
    let poll = match poll_max_output_tokens {
        Some(m) => m,
        None => None,
    };
    match message {
        NodeMessage::ToolCall => None,
        NodeMessage::Yielded => Some(
            OutcomeView {
                status: StatusView::Running(cell_id),
                finished: false,
                success: true,
                error_item: None,
                max_output_tokens: poll,
            },
        ),
        NodeMessage::Terminated => Some(
            OutcomeView {
                status: StatusView::Terminated,
                finished: true,
                success: true,
                error_item: None,
                max_output_tokens: poll,
            },
        ),
        NodeMessage::Result { error_text, max_output_tokens_per_exec_call } => Some(
            OutcomeView {
                status: if error_text is None {
                    StatusView::Completed
                } else {
                    StatusView::Failed
                },
                finished: true,
                success: error_text is None,
                error_item: match error_text {
                    Some(e) => Some(SCRIPT_ERROR_HEAD@ + e@),
                    None => None,
                },
                max_output_tokens: match poll_max_output_tokens {
                    Some(m) => m,
                    None => max_output_tokens_per_exec_call,
                },
            },
        ),
    }
}

/// What becomes of a runner's report on a cell: see [`node_outcome`].
pub fn node_message_outcome(
    cell_id: String,
    message: NodeMessage,
    poll_max_output_tokens: Option<Option<u64>>,
) -> (r: Option<NodeOutcome>)
    ensures
        match r {
            Some(o) => node_outcome(cell_id@, message, poll_max_output_tokens) == Some(o@),
            None => node_outcome(cell_id@, message, poll_max_output_tokens) is None,
        },
{
    let poll = match poll_max_output_tokens {
        Some(m) => m,
        None => None,
    };
    match message {
        NodeMessage::ToolCall => None,
        NodeMessage::Yielded => Some(
            NodeOutcome {
                status: ExecutionStatus::Running(cell_id),
                finished: false,
                success: true,
                error_item: None,
                max_output_tokens: poll,
            },
        ),
        NodeMessage::Terminated => Some(
            NodeOutcome {
                status: ExecutionStatus::Terminated,
                finished: true,
                success: true,
                error_item: None,
                max_output_tokens: poll,
            },
        ),
        NodeMessage::Result { error_text, max_output_tokens_per_exec_call } => {
            let max_output_tokens = match poll_max_output_tokens {
                Some(m) => m,
                None => max_output_tokens_per_exec_call,
            };
            match error_text {
                Some(e) => {
                    let mut item = owned(SCRIPT_ERROR_HEAD);
                    item.append(e.as_str());
                    Some(
                        NodeOutcome {
                            status: ExecutionStatus::Failed,
                            finished: true,
                            success: false,
                            error_item: Some(item),
                            max_output_tokens,
                        },
                    )
                },
                None => Some(
                    NodeOutcome {
                        status: ExecutionStatus::Completed,
                        finished: true,
                        success: true,
                        error_item: None,
                        max_output_tokens,
                    },
                ),
            }
        },
    }
}

pub const COMPLETED_TEXT: &'static str = "Script completed";
pub const FAILED_TEXT: &'static str = "Script failed";
pub const RUNNING_TEXT: &'static str = "Script running with cell ID ";
pub const TERMINATED_TEXT: &'static str = "Script terminated";
pub const WALL_TIME_HEAD: &'static str = "\nWall time ";
pub const WALL_TIME_TAIL: &'static str = " seconds\nOutput:\n";

/// How a status reads above a script's output.
pub open spec fn status_text(s: StatusView) -> Seq<char> {
    match s {
        StatusView::Completed => COMPLETED_TEXT@,
        StatusView::Failed => FAILED_TEXT@,
        StatusView::Running(c) => RUNNING_TEXT@ + c,
        StatusView::Terminated => TERMINATED_TEXT@,
    }
}

/// The line put above a script's output: its status, then how long the call took,
/// in seconds with one decimal, given in tenths of a second.
pub open spec fn script_status_header(s: StatusView, wall_time_tenths: nat) -> Seq<char> {
    status_text(s) + WALL_TIME_HEAD@ + decimal(wall_time_tenths / 10) + "."@ + decimal(wall_time_tenths % 10)
        + WALL_TIME_TAIL@
}

/// The line put above a script's output: see [`script_status_header`].
pub fn script_status_text(status: &ExecutionStatus, wall_time_tenths: u64) -> (r: String)
    ensures
        r@ == script_status_header(status@, wall_time_tenths as nat),
{
    let mut r = match status {
        ExecutionStatus::Completed => owned(COMPLETED_TEXT),
        ExecutionStatus::Failed => owned(FAILED_TEXT),
        ExecutionStatus::Running(c) => {
            let mut t = owned(RUNNING_TEXT);
            t.append(c.as_str());
            t
        },
        ExecutionStatus::Terminated => owned(TERMINATED_TEXT),
    };
    r.append(WALL_TIME_HEAD);
    r.append(decimal_string(wall_time_tenths / 10).as_str());
    r.append(".");
    r.append(decimal_string(wall_time_tenths % 10).as_str());
    r.append(WALL_TIME_TAIL);
    r
}

}
