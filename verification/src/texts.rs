use vstd::prelude::*;

verus! {

pub const D_ENABLED_NETWORK: &'static str = "Set to true to request network access.";
pub const D_READ_PATHS: &'static str = "Absolute paths to grant read access to.";
pub const D_WRITE_PATHS: &'static str = "Absolute paths to grant write access to.";
pub const D_MACOS_PREFERENCES: &'static str = "macOS preferences access. Supported values: `none`, `read_only`, or `read_write`.";
pub const D_MACOS_AUTOMATIONS: &'static str = "macOS automation access as app bundle identifiers.";
pub const D_MACOS_ACCESSIBILITY: &'static str = "Whether to request macOS accessibility access.";
pub const D_MACOS_CALENDAR: &'static str = "Whether to request macOS calendar access.";
pub const D_SANDBOX_PERMISSIONS_EXTENDED: &'static str = "Sandbox permissions for the command. Use \"with_additional_permissions\" to request additional sandboxed filesystem, network, or macOS permissions (preferred), or \"require_escalated\" to request running without sandbox restrictions; defaults to \"use_default\".";
pub const D_SANDBOX_PERMISSIONS: &'static str = "Sandbox permissions for the command. Set to \"require_escalated\" to request running without sandbox restrictions; defaults to \"use_default\".";
pub const D_JUSTIFICATION: &'static str = r#"Only set if sandbox_permissions is \"require_escalated\".
                    Request approval from the user to run this command outside the sandbox.
                    Phrased as a simple question that summarizes the purpose of the
                    command as it relates to the task at hand - e.g. 'Do you want to
                    fetch and pull the latest version of this git branch?'"#;
pub const D_PREFIX_RULE: &'static str = r#"Only specify when sandbox_permissions is `require_escalated`.
                        Suggest a prefix command pattern that will allow you to fulfill similar requests from the user in the future.
                        Should be a short but reasonable prefix, e.g. [\"git\", \"pull\"] or [\"uv\", \"run\"] or [\"pytest\"]."#;
pub const D_CMD: &'static str = "Shell command to execute.";
pub const D_EXEC_WORKDIR: &'static str = "Optional working directory to run the command in; defaults to the turn cwd.";
pub const D_SHELL_BINARY: &'static str = "Shell binary to launch. Defaults to the user's default shell.";
pub const D_TTY: &'static str = "Whether to allocate a TTY for the command. Defaults to false (plain pipes); set to true to open a PTY and access TTY process.";
pub const D_YIELD_TIME: &'static str = "How long to wait (in milliseconds) for output before yielding.";
pub const D_MAX_OUTPUT_TOKENS: &'static str = "Maximum number of tokens to return. Excess output will be truncated.";
pub const D_EXEC_LOGIN: &'static str = "Whether to run the shell with -l/-i semantics. Defaults to true.";
pub const EXEC_COMMAND_DESCRIPTION: &'static str = "Runs a command in a PTY, returning output or a session ID for ongoing interaction.";
pub const D_SESSION_ID: &'static str = "Identifier of the running unified exec session.";
pub const D_CHARS: &'static str = "Bytes to write to stdin (may be empty to poll).";
pub const WRITE_STDIN_DESCRIPTION: &'static str = "Writes characters to an existing unified exec session and returns recent output.";
pub const D_CELL_ID: &'static str = "Identifier of the running exec cell.";
pub const D_WAIT_YIELD_TIME: &'static str = "How long to wait (in milliseconds) for more output before yielding again.";
pub const D_WAIT_MAX_TOKENS: &'static str = "Maximum number of output tokens to return for this wait call.";
pub const D_TERMINATE: &'static str = "Whether to terminate the running exec cell.";
pub const D_SHELL_COMMAND_ARRAY: &'static str = "The command to execute";
pub const D_WORKDIR: &'static str = "The working directory to execute the command in";
pub const D_TIMEOUT_MS: &'static str = "The timeout for the command in milliseconds";
pub const SHELL_DESCRIPTION_WINDOWS: &'static str = r#"Runs a Powershell command (Windows) and returns its output. Arguments to `shell` will be passed to CreateProcessW(). Most commands should be prefixed with ["powershell.exe", "-Command"].

Examples of valid command strings:

- ls -a (show hidden): ["powershell.exe", "-Command", "Get-ChildItem -Force"]
- recursive find by name: ["powershell.exe", "-Command", "Get-ChildItem -Recurse -Filter *.py"]
- recursive grep: ["powershell.exe", "-Command", "Get-ChildItem -Path C:\\myrepo -Recurse | Select-String -Pattern 'TODO' -CaseSensitive"]
- ps aux | grep python: ["powershell.exe", "-Command", "Get-Process | Where-Object { $_.ProcessName -like '*python*' }"]
- setting an env var: ["powershell.exe", "-Command", "$env:FOO='bar'; echo $env:FOO"]
- running an inline Python script: ["powershell.exe", "-Command", "@'\\nprint('Hello, world!')\\n'@ | python -"]"#;
pub const SHELL_DESCRIPTION: &'static str = r#"Runs a shell command and returns its output.
- The arguments to `shell` will be passed to execvp(). Most terminal commands should be prefixed with ["bash", "-lc"].
- Always set the `workdir` param when using the shell function. Do not use `cd` unless absolutely necessary."#;
pub const D_SHELL_SCRIPT: &'static str = "The shell script to execute in the user's default shell";
pub const D_SHELL_COMMAND_LOGIN: &'static str = "Whether to run the shell with login shell semantics. Defaults to true.";
pub const SHELL_COMMAND_DESCRIPTION_WINDOWS: &'static str = r#"Runs a Powershell command (Windows) and returns its output.

Examples of valid command strings:

- ls -a (show hidden): "Get-ChildItem -Force"
- recursive find by name: "Get-ChildItem -Recurse -Filter *.py"
- recursive grep: "Get-ChildItem -Path C:\\myrepo -Recurse | Select-String -Pattern 'TODO' -CaseSensitive"
- ps aux | grep python: "Get-Process | Where-Object { $_.ProcessName -like '*python*' }"
- setting an env var: "$env:FOO='bar'; echo $env:FOO"
- running an inline Python script: "@'\\nprint('Hello, world!')\\n'@ | python -"#;
pub const SHELL_COMMAND_DESCRIPTION: &'static str = r#"Runs a shell command and returns its output.
- Always set the `workdir` param when using the shell_command function. Do not use `cd` unless absolutely necessary."#;
pub const D_IMAGE_PATH: &'static str = "Local filesystem path to an image file";
pub const D_IMAGE_DETAIL: &'static str = "Optional detail override. The only supported value is `original`; omit this field for default resized behavior. Use `original` to preserve the file's original resolution instead of resizing to fit. This is important when high-fidelity image perception or precise localization is needed, especially for CUA agents.";
pub const VIEW_IMAGE_DESCRIPTION: &'static str = "View a local image from the filesystem (only use if given a full filepath by the user, and the image isn't already attached to the thread context within <image ...> tags).";

pub const D_ITEM_TYPE: &'static str = "Input item type: text, image, local_image, skill, or mention.";
pub const D_ITEM_TEXT: &'static str = "Text content when type is text.";
pub const D_ITEM_IMAGE_URL: &'static str = "Image URL when type is image.";
pub const D_ITEM_PATH: &'static str = "Path when type is local_image/skill, or structured mention target such as app://<connector-id> or plugin://<plugin-name>@<marketplace-name> when type is mention.";
pub const D_ITEM_NAME: &'static str = "Display name when type is skill or mention.";
pub const D_ITEMS: &'static str = "Structured input items. Use this to pass explicit mentions (for example app:// connector paths).";
pub const D_SPAWN_MESSAGE: &'static str = "Initial plain-text task for the new agent. Use either message or items.";
pub const D_FORK_CONTEXT: &'static str = "When true, fork the current thread history into the new agent before sending the initial prompt. This must be used when you want the new agent to have exactly the same context as you.";
pub const D_SPAWN_MODEL: &'static str = "Optional model override for the new agent. Replaces the inherited model.";
pub const D_SPAWN_REASONING: &'static str = "Optional reasoning effort override for the new agent. Replaces the inherited reasoning effort.";
pub const NO_PICKER_MODELS: &'static str = "No picker-visible models are currently loaded.";
pub const D_CSV_PATH: &'static str = "Path to the CSV file containing input rows.";
pub const D_CSV_INSTRUCTION: &'static str = "Instruction template to apply to each CSV row. Use {column_name} placeholders to inject values from the row.";
pub const D_ID_COLUMN: &'static str = "Optional column name to use as stable item id.";
pub const D_OUTPUT_CSV_PATH: &'static str = "Optional output CSV path for exported results.";
pub const D_MAX_CONCURRENCY: &'static str = "Maximum concurrent workers for this job. Defaults to 16 and is capped by config.";
pub const D_MAX_WORKERS: &'static str = "Alias for max_concurrency. Set to 1 to run sequentially.";
pub const D_MAX_RUNTIME: &'static str = "Maximum runtime per worker before it is failed. Defaults to 1800 seconds.";
pub const SPAWN_AGENTS_ON_CSV_DESCRIPTION: &'static str = "Process a CSV by spawning one worker sub-agent per row. The instruction string is a template where `{column}` placeholders are replaced with row values. Each worker must call `report_agent_job_result` with a JSON object (matching `output_schema` when provided); missing reports are treated as failures. This call blocks until all rows finish and automatically exports results to `output_csv_path` (or a default path).";
pub const D_JOB_ID: &'static str = "Identifier of the job.";
pub const D_ITEM_ID: &'static str = "Identifier of the job item.";
pub const D_STOP: &'static str = "Optional. When true, cancels the remaining job items after this result is recorded.";
pub const REPORT_AGENT_JOB_RESULT_DESCRIPTION: &'static str = "Worker-only tool to report a result for an agent job item. Main agents should not call this.";
pub const D_SEND_ID: &'static str = "Agent id to message (from spawn_agent).";
pub const D_SEND_MESSAGE: &'static str = "Legacy plain-text message to send to the agent. Use either message or items.";
pub const D_INTERRUPT: &'static str = "When true, stop the agent's current task and handle this immediately. When false (default), queue this message.";
pub const SEND_INPUT_DESCRIPTION: &'static str = "Send a message to an existing agent. Use interrupt=true to redirect work immediately. You should reuse the agent by send_input if you believe your assigned task is highly dependent on the context of a previous task.";
pub const D_RESUME_ID: &'static str = "Agent id to resume.";
pub const RESUME_AGENT_DESCRIPTION: &'static str = "Resume a previously closed agent by id so it can receive send_input and wait calls.";
pub const D_WAIT_IDS: &'static str = "Agent ids to wait on. Pass multiple ids to wait for whichever finishes first.";
pub const WAIT_DESCRIPTION: &'static str = "Wait for agents to reach a final status. Completed statuses may include the agent's final message. Returns empty status when timed out. Once the agent reaches a final status, a notification message will be received containing the same completed status.";
pub const D_OPTION_LABEL: &'static str = "User-facing label (1-5 words).";
pub const D_OPTION_DESCRIPTION: &'static str = "One short sentence explaining impact/tradeoff if selected.";
pub const D_OPTIONS: &'static str = "Provide 2-3 mutually exclusive choices. Put the recommended option first and suffix its label with \"(Recommended)\". Do not include an \"Other\" option in this list; the client will add a free-form \"Other\" option automatically.";
pub const D_QUESTION_ID: &'static str = "Stable identifier for mapping answers (snake_case).";
pub const D_QUESTION_HEADER: &'static str = "Short header label shown in the UI (12 or fewer chars).";
pub const D_QUESTION: &'static str = "Single-sentence prompt shown to the user.";
pub const D_QUESTIONS: &'static str = "Questions to show the user. Prefer 1 and do not exceed 3";
pub const D_REASON: &'static str = "Optional short explanation for why additional permissions are needed.";
pub const D_CLOSE_ID: &'static str = "Agent id to close (from spawn_agent).";
pub const CLOSE_AGENT_DESCRIPTION: &'static str = "Close an agent when it is no longer needed and return its last known status. Don't keep agents open for too long if they are not needed anymore.";
pub const D_BARRIER_ID: &'static str = "Identifier shared by concurrent calls that should rendezvous";
pub const D_PARTICIPANTS: &'static str = "Number of tool calls that must arrive before the barrier opens";
pub const D_BARRIER_TIMEOUT: &'static str = "Maximum time in milliseconds to wait at the barrier";
pub const D_SLEEP_BEFORE: &'static str = "Optional delay in milliseconds before any other action";
pub const D_SLEEP_AFTER: &'static str = "Optional delay in milliseconds after completing the barrier";
pub const TEST_SYNC_DESCRIPTION: &'static str = "Internal synchronization helper used by Codex integration tests.";
pub const D_PATTERN: &'static str = "Regular expression pattern to search for.";
pub const D_INCLUDE: &'static str = "Optional glob that limits which files are searched (e.g. \"*.rs\" or \
                     \"*.{ts,tsx}\").";
pub const D_GREP_PATH: &'static str = "Directory or file path to search. Defaults to the session's working directory.";
pub const D_GREP_LIMIT: &'static str = "Maximum number of file paths to return (defaults to 100).";
pub const GREP_FILES_DESCRIPTION: &'static str = "Finds files whose contents match the pattern and lists them by modification \
                      time.";
pub const D_SEARCH_QUERY: &'static str = "Search query for apps tools.";
pub const NO_APPS_PATTERN: &'static str = "({{app_names}})";
pub const NO_APPS_REPLACEMENT: &'static str = "(None currently enabled)";
pub const APP_NAMES_PLACEHOLDER: &'static str = "{{app_names}}";
pub const AVAILABLE_APPS: &'static str = "available apps";
pub const D_TOOL_TYPE: &'static str = "Type of discoverable tool to suggest. Use \"connector\" or \"plugin\".";
pub const D_ACTION_TYPE: &'static str = "Suggested action for the tool. Use \"install\" or \"enable\".";
pub const D_SUGGEST_REASON: &'static str = "Concise one-line user-facing reason why this tool can help with the current request.";
pub const DISCOVERABLE_TOOLS_PLACEHOLDER: &'static str = "{{discoverable_tools}}";
pub const NO_DESCRIPTION: &'static str = "No description provided.";
pub const D_ANCHOR_LINE: &'static str = "Anchor line to center the indentation lookup on (defaults to offset).";
pub const D_MAX_LEVELS: &'static str = "How many parent indentation levels (smaller indents) to include.";
pub const D_INCLUDE_SIBLINGS: &'static str = "When true, include additional blocks that share the anchor indentation.";
pub const D_INCLUDE_HEADER: &'static str = "Include doc comments or attributes directly above the selected block.";
pub const D_MAX_LINES: &'static str = "Hard cap on the number of lines returned when using indentation mode.";
pub const D_FILE_PATH: &'static str = "Absolute path to the file";
pub const D_OFFSET: &'static str = "The line number to start reading from. Must be 1 or greater.";
pub const D_LIMIT: &'static str = "The maximum number of lines to return.";
pub const D_MODE: &'static str = "Optional mode selector: \"slice\" for simple ranges (default) or \"indentation\" \
                     to expand around an anchor line.";
pub const READ_FILE_DESCRIPTION: &'static str = "Reads a local file with 1-indexed line numbers, supporting slice and indentation-aware block modes.";
pub const D_DIR_PATH: &'static str = "Absolute path to the directory to list.";
pub const D_DIR_OFFSET: &'static str = "The entry number to start listing from. Must be 1 or greater.";
pub const D_DIR_LIMIT: &'static str = "The maximum number of entries to return.";
pub const D_DEPTH: &'static str = "The maximum directory depth to traverse. Must be 1 or greater.";
pub const LIST_DIR_DESCRIPTION: &'static str = "Lists entries in a local directory with 1-indexed entry numbers and simple type labels.";
pub const JS_REPL_GRAMMAR: &'static str = r#"
start: pragma_source | plain_source

pragma_source: PRAGMA_LINE NEWLINE js_source
plain_source: PLAIN_JS_SOURCE

js_source: JS_SOURCE

PRAGMA_LINE: /[ \t]*\/\/ codex-js-repl:[^\r\n]*/
NEWLINE: /\r?\n/
PLAIN_JS_SOURCE: /(?:\s*)(?:[^\s{\"`]|`[^`]|``[^`])[\s\S]*/
JS_SOURCE: /(?:\s*)(?:[^\s{\"`]|`[^`]|``[^`])[\s\S]*/
"#;
pub const JS_REPL_DESCRIPTION: &'static str = "Runs JavaScript in a persistent Node kernel with top-level await. This is a freeform tool: send raw JavaScript source text, optionally with a first-line pragma like `// codex-js-repl: timeout_ms=15000`; do not send JSON/quotes/markdown fences.";
pub const ARTIFACTS_GRAMMAR: &'static str = r#"
start: pragma_source | plain_source

pragma_source: PRAGMA_LINE NEWLINE js_source
plain_source: PLAIN_JS_SOURCE

js_source: JS_SOURCE

PRAGMA_LINE: /[ \t]*\/\/ codex-artifacts:[^\r\n]*/ | /[ \t]*\/\/ codex-artifact-tool:[^\r\n]*/
NEWLINE: /\r?\n/
PLAIN_JS_SOURCE: /(?:\s*)(?:[^\s{\"`]|`[^`]|``[^`])[\s\S]*/
JS_SOURCE: /(?:\s*)(?:[^\s{\"`]|`[^`]|``[^`])[\s\S]*/
"#;
pub const ARTIFACTS_DESCRIPTION: &'static str = "Runs raw JavaScript against the preinstalled Codex @oai/artifact-tool runtime for creating presentations or spreadsheets. This is plain JavaScript executed by a local Node-compatible runtime with top-level await, not TypeScript: do not use type annotations, `interface`, `type`, or `import type`. Author code the same way you would for `import { Presentation, Workbook, PresentationFile, SpreadsheetFile, FileBlob, ... } from \"@oai/artifact-tool\"`, but omit that import line because the package surface is already preloaded. Named exports are available directly on `globalThis`, and the full module is available as `globalThis.artifactTool` (also aliased as `globalThis.artifacts` and `globalThis.codexArtifacts`). Node built-ins such as `node:fs/promises` may still be imported when needed for saving preview bytes. This is a freeform tool: send raw JavaScript source text, optionally with a first-line pragma like `// codex-artifacts: timeout_ms=15000` or `// codex-artifact-tool: timeout_ms=15000`; do not send JSON/quotes/markdown fences.";
pub const JS_REPL_RESET_DESCRIPTION: &'static str = "Restarts the js_repl kernel for this run and clears persisted top-level bindings.";
pub const CODE_MODE_GRAMMAR: &'static str = r#"
start: source
source: /[\s\S]+/
"#;
pub const D_MCP_SERVER_LIST: &'static str = "Optional MCP server name. When omitted, lists resources from every configured server.";
pub const D_MCP_CURSOR: &'static str = "Opaque cursor returned by a previous list_mcp_resources call for the same server.";
pub const LIST_MCP_RESOURCES_DESCRIPTION: &'static str = "Lists resources provided by MCP servers. Resources allow servers to share data that provides context to language models, such as files, database schemas, or application-specific information. Prefer resources over web search when possible.";
pub const D_MCP_SERVER_TEMPLATES: &'static str = "Optional MCP server name. When omitted, lists resource templates from all configured servers.";
pub const D_MCP_TEMPLATES_CURSOR: &'static str = "Opaque cursor returned by a previous list_mcp_resource_templates call for the same server.";
pub const LIST_MCP_RESOURCE_TEMPLATES_DESCRIPTION: &'static str = "Lists resource templates provided by MCP servers. Parameterized resource templates allow servers to share data that takes parameters and provides context to language models, such as files, database schemas, or application-specific information. Prefer resource templates over web search when possible.";
pub const D_MCP_SERVER_READ: &'static str = "MCP server name exactly as configured. Must match the 'server' field returned by list_mcp_resources.";
pub const D_MCP_URI: &'static str = "Resource URI to read. Must be one of the URIs returned by list_mcp_resources.";
pub const READ_MCP_RESOURCE_DESCRIPTION: &'static str = "Read a specific resource from an MCP server given the server name and resource URI.";

pub const SPAWN_AGENT_DESCRIPTION_HEAD: &'static str = r#"
        Only use `spawn_agent` if and only if the user explicitly asks for sub-agents, delegation, or parallel agent work.
        Requests for depth, thoroughness, research, investigation, or detailed codebase analysis do not count as permission to spawn.
        Agent-role guidance below only helps choose which agent to use after spawning is already authorized; it never authorizes spawning by itself.
        Spawn a sub-agent for a well-scoped task. Returns the agent id (and user-facing nickname when available) to use to communicate with this agent. This spawn_agent tool provides you access to smaller but more efficient sub-agents. A mini model can solve many tasks faster than the main model. You should follow the rules and guidelines below to use this tool.

"#;
pub const SPAWN_AGENT_DESCRIPTION_TAIL: &'static str = r#"
### When to delegate vs. do the subtask yourself
- First, quickly analyze the overall user task and form a succinct high-level plan. Identify which tasks are immediate blockers on the critical path, and which tasks are sidecar tasks that are needed but can run in parallel without blocking the next local step. As part of that plan, explicitly decide what immediate task you should do locally right now. Do this planning step before delegating to agents so you do not hand off the immediate blocking task to a submodel and then waste time waiting on it.
- Use the smaller subagent when a subtask is easy enough for it to handle and can run in parallel with your local work. Prefer delegating concrete, bounded sidecar tasks that materially advance the main task without blocking your immediate next local step.
- Do not delegate urgent blocking work when your immediate next step depends on that result. If the very next action is blocked on that task, the main rollout should usually do it locally to keep the critical path moving.
- Keep work local when the subtask is too difficult to delegate well and when it is tightly coupled, urgent, or likely to block your immediate next step.

### Designing delegated subtasks
- Subtasks must be concrete, well-defined, and self-contained.
- Delegated subtasks must materially advance the main task.
- Do not duplicate work between the main rollout and delegated subtasks.
- Avoid issuing multiple delegate calls on the same unresolved thread unless the new delegated task is genuinely different and necessary.
- Narrow the delegated ask to the concrete output you need next.
- For coding tasks, prefer delegating concrete code-change worker subtasks over read-only explorer analysis when the subagent can make a bounded patch in a clear write scope.
- When delegating coding work, instruct the submodel to edit files directly in its forked workspace and list the file paths it changed in the final answer.
- For code-edit subtasks, decompose work so each delegated task has a disjoint write set.

### After you delegate
- Call wait very sparingly. Only call wait when you need the result immediately for the next critical-path step and you are blocked until it returns.
- Do not redo delegated subagent tasks yourself; focus on integrating results or tackling non-overlapping work.
- While the subagent is running in the background, do meaningful non-overlapping work immediately.
- Do not repeatedly wait by reflex.
- When a delegated coding task returns, quickly review the uploaded changes, then integrate or refine them.

### Parallel delegation patterns
- Run multiple independent information-seeking subtasks in parallel when you have distinct questions that can be answered independently.
- Split implementation into disjoint codebase slices and spawn multiple agents for them in parallel when the write scopes do not overlap.
- Delegate verification only when it can run in parallel with ongoing implementation and is likely to catch a concrete risk before final integration.
- The key is to find opportunities to spawn multiple independent subtasks in parallel within the same round, while ensuring each subtask is well-defined, self-contained, and materially advances the main task."#;

pub const EXEC_COMMAND_NAME: &'static str = "exec_command";
pub const WRITE_STDIN_NAME: &'static str = "write_stdin";
pub const SHELL_NAME: &'static str = "shell";
pub const SHELL_COMMAND_NAME: &'static str = "shell_command";
pub const VIEW_IMAGE_NAME: &'static str = "view_image";
pub const SPAWN_AGENT_NAME: &'static str = "spawn_agent";
pub const SPAWN_AGENTS_ON_CSV_NAME: &'static str = "spawn_agents_on_csv";
pub const REPORT_AGENT_JOB_RESULT_NAME: &'static str = "report_agent_job_result";
pub const SEND_INPUT_NAME: &'static str = "send_input";
pub const RESUME_AGENT_NAME: &'static str = "resume_agent";
pub const WAIT_NAME: &'static str = "wait";
pub const CLOSE_AGENT_NAME: &'static str = "close_agent";
pub const REQUEST_USER_INPUT_NAME: &'static str = "request_user_input";
pub const REQUEST_PERMISSIONS_NAME: &'static str = "request_permissions";
pub const TEST_SYNC_NAME: &'static str = "test_sync_tool";
pub const GREP_FILES_NAME: &'static str = "grep_files";
pub const READ_FILE_NAME: &'static str = "read_file";
pub const LIST_DIR_NAME: &'static str = "list_dir";
pub const JS_REPL_NAME: &'static str = "js_repl";
pub const JS_REPL_RESET_NAME: &'static str = "js_repl_reset";
pub const ARTIFACTS_NAME: &'static str = "artifacts";
pub const LIST_MCP_RESOURCES_NAME: &'static str = "list_mcp_resources";
pub const LIST_MCP_RESOURCE_TEMPLATES_NAME: &'static str = "list_mcp_resource_templates";
pub const READ_MCP_RESOURCE_NAME: &'static str = "read_mcp_resource";
pub const TOOL_SUGGEST_NAME: &'static str = "tool_suggest";
pub const UPDATE_PLAN_NAME: &'static str = "update_plan";
pub const APPLY_PATCH_NAME: &'static str = "apply_patch";
/// The code-mode tool.
pub const PUBLIC_TOOL_NAME: &'static str = "exec";
/// The tool that waits on a yielded code-mode cell.
pub const WAIT_TOOL_NAME: &'static str = "exec_wait";

pub const GRAMMAR_FORMAT: &'static str = "grammar";
pub const LARK_SYNTAX: &'static str = "lark";
pub const CLIENT_EXECUTION: &'static str = "client";
pub const PNG_FORMAT: &'static str = "png";
pub const TEXT_CONTENT_TYPE: &'static str = "text";
pub const IMAGE_CONTENT_TYPE: &'static str = "image";

pub const EXEC_WAIT_DESCRIPTION_HEAD: &'static str = "Waits on a yielded `exec` cell and returns new output or completion.\n";
pub const D_WAIT_TIMEOUT_HEAD: &'static str = "Optional timeout in milliseconds. Defaults to ";
pub const D_WAIT_TIMEOUT_MIN: &'static str = ", min ";
pub const D_WAIT_TIMEOUT_MAX: &'static str = ", max ";
pub const D_WAIT_TIMEOUT_TAIL: &'static str = ". Prefer longer waits (minutes) to avoid busy polling.";
pub const D_SEARCH_LIMIT_HEAD: &'static str = "Maximum number of tools to return (defaults to ";
pub const D_SEARCH_LIMIT_TAIL: &'static str = ").";
pub const D_TOOL_ID_HEAD: &'static str = "Connector or plugin id to suggest. Must be one of: ";
pub const D_TOOL_ID_TAIL: &'static str = ".";
pub const LIST_SEPARATOR: &'static str = ", ";
pub const DETAIL_SEPARATOR: &'static str = "; ";
pub const LINE_SEPARATOR: &'static str = "\n";
pub const BULLET: &'static str = "- ";
pub const TOOL_ID_OPEN: &'static str = " (id: `";
pub const TOOL_TYPE_LABEL: &'static str = "`, type: ";
pub const TOOL_ACTION_LABEL: &'static str = ", action: ";
pub const TOOL_DESCRIPTION_LABEL: &'static str = "): ";
pub const SKILLS_DETAIL: &'static str = "skills";
pub const MCP_SERVERS_DETAIL: &'static str = "MCP servers: ";
pub const APP_CONNECTORS_DETAIL: &'static str = "app connectors: ";
pub const MODEL_SLUG_OPEN: &'static str = " (`";
pub const MODEL_SLUG_CLOSE: &'static str = "`): ";
pub const DEFAULT_EFFORT_LABEL: &'static str = " Default reasoning effort: ";
pub const SUPPORTED_EFFORTS_LABEL: &'static str = ". Supported reasoning efforts: ";
pub const SENTENCE_END: &'static str = ".";
pub const PAREN_OPEN: &'static str = " (";
pub const PAREN_CLOSE: &'static str = ")";


pub const D_CHUNK_ID: &'static str = "Chunk identifier included when the response reports one.";
pub const D_WALL_TIME: &'static str = "Elapsed wall time spent waiting for output in seconds.";
pub const D_EXIT_CODE: &'static str = "Process exit code when the command finished during this call.";
pub const D_OUT_SESSION_ID: &'static str = "Session identifier to pass to write_stdin when the process is still running.";
pub const D_ORIGINAL_TOKEN_COUNT: &'static str = "Approximate token count before output truncation.";
pub const D_OUTPUT: &'static str = "Command output text, possibly truncated.";

pub const K_TYPE: &'static str = "type";
pub const K_DESCRIPTION: &'static str = "description";
pub const K_PROPERTIES: &'static str = "properties";
pub const K_REQUIRED: &'static str = "required";
pub const K_ADDITIONAL_PROPERTIES: &'static str = "additionalProperties";
pub const K_ITEMS: &'static str = "items";
pub const K_CONTENT: &'static str = "content";
pub const K_STRUCTURED_CONTENT: &'static str = "structuredContent";
pub const K_IS_ERROR: &'static str = "isError";
pub const K_META: &'static str = "_meta";
pub const T_OBJECT: &'static str = "object";
pub const T_ARRAY: &'static str = "array";
pub const T_STRING: &'static str = "string";
pub const T_NUMBER: &'static str = "number";
pub const T_INTEGER: &'static str = "integer";
pub const T_BOOLEAN: &'static str = "boolean";
pub const T_NULL: &'static str = "null";


pub const ENABLED_NESTED_TOOLS_HEAD: &'static str = "\n- Enabled nested tools: ";
pub const NO_NESTED_TOOLS: &'static str = "none";

}
