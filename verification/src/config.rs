use vstd::prelude::*;

use crate::schema::{clone_opt_string, clone_strings, opt_str, opt_strs, strs};
use crate::text::{owned, str_eq};
use crate::tool::{LocationView, WebSearchContextSize, WebSearchFilters, WebSearchUserLocation};

verus! {

/// A switch that turns a part of the agent on or off.
#[derive(Debug, Clone, Copy, PartialEq, Eq, Structural)]
pub enum Feature {
    ShellTool,
    UnifiedExec,
    ShellZshFork,
    ApplyPatchFreeform,
    CodeMode,
    JsRepl,
    JsReplToolsOnly,
    Collab,
    SpawnCsv,
    DefaultModeRequestUserInput,
    Apps,
    ToolSuggest,
    Artifact,
    ImageGeneration,
    ImageDetailOriginal,
    RequestPermissions,
    RequestPermissionsTool,
    ChildAgentsMd,
    MemoryTool,
    Sqlite,
}

/// The set of enabled features.
#[derive(Debug)]
pub struct Features {
    enabled: Vec<Feature>,
}

impl Features {
    /// Whether `f` is on.
    pub closed spec fn has(&self, f: Feature) -> bool {
        self.enabled@.contains(f)
    }

    /// No feature enabled.
    pub fn empty() -> (r: Features)
        ensures
            forall|f: Feature| !r.has(f),
    {
        Features { enabled: Vec::new() }
    }

    /// The features that are on unless configured otherwise: the shell tool.
    pub fn with_defaults() -> (r: Features)
        ensures
            forall|f: Feature| r.has(f) <==> f == Feature::ShellTool,
    {
        let mut r = Features::empty();
        r.enable(Feature::ShellTool);
        r
    }

    /// Whether `f` is on.
    pub fn enabled(&self, f: Feature) -> (r: bool)
        ensures
            r == self.has(f),
    {
        let mut i: usize = 0;
        while i < self.enabled.len()
            invariant
                i <= self.enabled.len(),
                forall|j: int| 0 <= j < i ==> self.enabled@[j] != f,
            decreases self.enabled.len() - i,
        {
            if self.enabled[i] == f {
                return true;
            }
            i = i + 1;
        }
        false
    }

    /// Turns `f` on.
    pub fn enable(&mut self, f: Feature)
        ensures
            forall|g: Feature| final(self).has(g) == (old(self).has(g) || g == f),
    {
        if !self.enabled(f) {
            self.enabled.push(f);
        }
        assert forall|g: Feature| self.has(g) == (old(self).has(g) || g == f) by {
            if old(self).has(g) {
                let k = choose|k: int| 0 <= k < old(self).enabled@.len() && old(self).enabled@[k] == g;
                assert(self.enabled@[k] == g);
            }
            if g == f && !old(self).has(g) {
                assert(self.enabled@[self.enabled@.len() - 1] == g);
            }
        }
    }

    /// Turns `f` off.
    pub fn disable(&mut self, f: Feature)
        ensures
            forall|g: Feature| final(self).has(g) == (old(self).has(g) && g != f),
    {
        let mut kept: Vec<Feature> = Vec::new();
        let mut i: usize = 0;
        while i < self.enabled.len()
            invariant
                i <= self.enabled.len(),
                forall|k: int| 0 <= k < kept@.len() ==> (exists|m: int| 0 <= m < i && #[trigger] self.enabled@[m] == kept@[k]) && kept@[k] != f,
                forall|m: int| 0 <= m < i && self.enabled@[m] != f ==> #[trigger] kept@.contains(self.enabled@[m]),
            decreases self.enabled.len() - i,
        {
            let g = self.enabled[i];
            let ghost before = kept@;
            if g != f {
                kept.push(g);
                assert(kept@[kept@.len() - 1] == g);
            }
            assert forall|m: int| 0 <= m < i + 1 && self.enabled@[m] != f implies #[trigger] kept@.contains(self.enabled@[m]) by {
                if m < i {
                    assert(before.contains(self.enabled@[m]));
                    let k = choose|k: int| 0 <= k < before.len() && before[k] == self.enabled@[m];
                    assert(kept@[k] == self.enabled@[m]);
                } else {
                    assert(kept@[kept@.len() - 1] == g);
                }
            }
            i = i + 1;
        }
        assert forall|g: Feature| kept@.contains(g) == (self.enabled@.contains(g) && g != f) by {
            if kept@.contains(g) {
                let k = choose|k: int| 0 <= k < kept@.len() && kept@[k] == g;
                let m = choose|m: int| 0 <= m < i && #[trigger] self.enabled@[m] == kept@[k];
            }
            if self.enabled@.contains(g) && g != f {
                let m = choose|m: int| 0 <= m < self.enabled@.len() && self.enabled@[m] == g;
            }
        }
        self.enabled = kept;
    }

    /// Turns on what enabled features depend on: agent jobs need collaboration tools.
    pub fn normalize_dependencies(&mut self)
        ensures
            forall|g: Feature|
                final(self).has(g) == (old(self).has(g) || (g == Feature::Collab && old(self).has(
                    Feature::SpawnCsv,
                ))),
    {
        if self.enabled(Feature::SpawnCsv) {
            self.enable(Feature::Collab);
        }
    }
}

/// Which shell tool a model is given.
#[derive(Debug, Clone, Copy, PartialEq, Eq, Structural)]
pub enum ConfigShellToolType {
    Default,
    Local,
    UnifiedExec,
    Disabled,
    ShellCommand,
}

/// How the model edits files.
#[derive(Debug, Clone, Copy, PartialEq, Eq, Structural)]
pub enum ApplyPatchToolType {
    Freeform,
    Function,
}

/// What the hosted web search tool returns.
#[derive(Debug, Clone, Copy, PartialEq, Eq, Structural)]
pub enum WebSearchToolType {
    Text,
    TextAndImage,
}

/// Whether web search is offered, and against what.
#[derive(Debug, Clone, Copy, PartialEq, Eq, Structural)]
pub enum WebSearchMode {
    Disabled,
    Cached,
    Live,
}

/// Kinds of input a model accepts.
#[derive(Debug, Clone, Copy, PartialEq, Eq, Structural)]
pub enum InputModality {
    Text,
    Image,
}

/// A reasoning-effort level.
#[derive(Debug, Clone, Copy, PartialEq, Eq, Structural)]
pub enum ReasoningEffort {
    /// Shown as `none`.
    NoEffort,
    Minimal,
    Low,
    Medium,
    High,
    XHigh,
}

/// How the sandbox confines commands.
#[derive(Debug, Clone, Copy, PartialEq, Eq, Structural)]
pub enum SandboxPolicy {
    DangerFullAccess,
    ReadOnly,
    ExternalSandbox,
    WorkspaceWrite,
}

impl SandboxPolicy {
    pub fn new_read_only_policy() -> (r: SandboxPolicy)
        ensures
            r == SandboxPolicy::ReadOnly,
    {
        SandboxPolicy::ReadOnly
    }

    pub fn new_workspace_write_policy() -> (r: SandboxPolicy)
        ensures
            r == SandboxPolicy::WorkspaceWrite,
    {
        SandboxPolicy::WorkspaceWrite
    }
}

/// The Windows sandbox in force.
#[derive(Debug, Clone, Copy, PartialEq, Eq, Structural)]
pub enum WindowsSandboxLevel {
    Disabled,
    RestrictedToken,
    Elevated,
}

/// Which shell backs `shell_command`.
#[derive(Debug, Clone, Copy, PartialEq, Eq, Structural)]
pub enum ShellCommandBackendConfig {
    Classic,
    ZshFork,
}

/// Which process backend unified exec uses.
#[derive(Debug, Clone, Copy, PartialEq, Eq, Structural)]
pub enum UnifiedExecBackendConfig {
    Direct,
    ZshFork,
}

/// What started a sub-agent.
#[derive(Debug, PartialEq)]
pub enum SubAgentSource {
    Review,
    Compact,
    ThreadSpawn,
    Other(String),
}

/// What started a session.
#[derive(Debug, PartialEq)]
pub enum SessionSource {
    Cli,
    VSCode,
    Exec,
    Mcp,
    SubAgent(SubAgentSource),
    Unknown,
}

/// The model properties that decide the tool set.
#[derive(Debug)]
pub struct ModelInfo {
    pub slug: String,
    pub shell_type: ConfigShellToolType,
    pub apply_patch_tool_type: Option<ApplyPatchToolType>,
    pub web_search_tool_type: WebSearchToolType,
    pub input_modalities: Vec<InputModality>,
    pub experimental_supported_tools: Vec<String>,
    pub supports_image_detail_original: bool,
}

/// A supported reasoning effort of a model, with what it is for.
#[derive(Debug)]
pub struct ReasoningEffortPreset {
    pub effort: ReasoningEffort,
    pub description: String,
}

/// A model offered in the picker.
#[derive(Debug)]
pub struct ModelPreset {
    pub model: String,
    pub display_name: String,
    pub description: String,
    pub default_reasoning_effort: ReasoningEffort,
    pub supported_reasoning_efforts: Vec<ReasoningEffortPreset>,
    pub show_in_picker: bool,
}

/// The content of a [`ModelPreset`].
pub struct PresetView {
    pub model: Seq<char>,
    pub display_name: Seq<char>,
    pub description: Seq<char>,
    pub default_reasoning_effort: ReasoningEffort,
    pub supported_reasoning_efforts: Seq<(ReasoningEffort, Seq<char>)>,
    pub show_in_picker: bool,
}

impl View for ModelPreset {
    type V = PresetView;

    open spec fn view(&self) -> PresetView {
        PresetView {
            model: self.model@,
            display_name: self.display_name@,
            description: self.description@,
            default_reasoning_effort: self.default_reasoning_effort,
            supported_reasoning_efforts: self.supported_reasoning_efforts@.map_values(
                |p: ReasoningEffortPreset| (p.effort, p.description@),
            ),
            show_in_picker: self.show_in_picker,
        }
    }
}

pub open spec fn presets_view(v: Seq<ModelPreset>) -> Seq<PresetView> {
    v.map_values(|p: ModelPreset| p@)
}

/// A configured agent role.
#[derive(Debug)]
pub struct AgentRoleConfig {
    pub description: Option<String>,
    pub config_file: Option<String>,
}

/// Web search settings from configuration.
#[derive(Debug)]
pub struct WebSearchConfig {
    pub filters: Option<WebSearchFilters>,
    pub user_location: Option<WebSearchUserLocation>,
    pub search_context_size: Option<WebSearchContextSize>,
}

/// What a session's tool set is computed from.
pub struct ToolsConfigParams<'a> {
    pub model_info: &'a ModelInfo,
    pub available_models: &'a Vec<ModelPreset>,
    pub features: &'a Features,
    pub web_search_mode: Option<WebSearchMode>,
    pub session_source: &'a SessionSource,
    pub sandbox_policy: &'a SandboxPolicy,
    pub windows_sandbox_level: WindowsSandboxLevel,
    /// Whether the host runs Windows.
    pub windows_host: bool,
    /// Whether the host terminal supports ConPTY.
    pub conpty_supported: bool,
    /// Whether the artifact runtime can be managed on this host.
    pub artifact_runtime_available: bool,
}

/// Which tools a session offers, and how.
#[derive(Debug)]
pub struct ToolsConfig {
    pub available_models: Vec<ModelPreset>,
    pub shell_type: ConfigShellToolType,
    pub shell_command_backend: ShellCommandBackendConfig,
    pub unified_exec_backend: UnifiedExecBackendConfig,
    pub allow_login_shell: bool,
    pub apply_patch_tool_type: Option<ApplyPatchToolType>,
    pub web_search_mode: Option<WebSearchMode>,
    pub web_search_config: Option<WebSearchConfig>,
    pub web_search_tool_type: WebSearchToolType,
    pub image_gen_tool: bool,
    pub agent_roles: Vec<(String, AgentRoleConfig)>,
    pub search_tool: bool,
    pub tool_suggest: bool,
    pub request_permission_enabled: bool,
    pub request_permissions_tool_enabled: bool,
    pub code_mode_enabled: bool,
    pub js_repl_enabled: bool,
    pub js_repl_tools_only: bool,
    pub can_request_original_image_detail: bool,
    pub collab_tools: bool,
    pub artifact_tools: bool,
    pub request_user_input: bool,
    pub default_mode_request_user_input: bool,
    pub experimental_supported_tools: Vec<String>,
    pub agent_jobs_tools: bool,
    pub agent_jobs_worker_tools: bool,
    /// Whether the host runs Windows (shell tool descriptions differ there).
    pub windows_host: bool,
}

/// Unified exec may run unless Windows sandboxes a restricted policy.
pub open spec fn unified_exec_allowed(
    is_windows: bool,
    sandbox_policy: SandboxPolicy,
    level: WindowsSandboxLevel,
) -> bool {
    !(is_windows && level != WindowsSandboxLevel::Disabled && !(sandbox_policy
        == SandboxPolicy::DangerFullAccess || sandbox_policy == SandboxPolicy::ExternalSandbox))
}

/// Whether unified exec may run here.
pub fn unified_exec_allowed_in_environment(
    is_windows: bool,
    sandbox_policy: &SandboxPolicy,
    windows_sandbox_level: WindowsSandboxLevel,
) -> (r: bool)
    ensures
        r == unified_exec_allowed(is_windows, *sandbox_policy, windows_sandbox_level),
{
    !(is_windows && windows_sandbox_level != WindowsSandboxLevel::Disabled && !(match sandbox_policy {
        SandboxPolicy::DangerFullAccess | SandboxPolicy::ExternalSandbox => true,
        _ => false,
    }))
}

/// The shell tool a session gets.
pub open spec fn shell_type_for(
    features: Features,
    model_shell_type: ConfigShellToolType,
    unified_exec_allowed: bool,
    conpty_supported: bool,
) -> ConfigShellToolType {
    if !features.has(Feature::ShellTool) {
        ConfigShellToolType::Disabled
    } else if features.has(Feature::ShellZshFork) {
        ConfigShellToolType::ShellCommand
    } else if features.has(Feature::UnifiedExec) && unified_exec_allowed {
        if conpty_supported {
            ConfigShellToolType::UnifiedExec
        } else {
            ConfigShellToolType::ShellCommand
        }
    } else if model_shell_type == ConfigShellToolType::UnifiedExec && !unified_exec_allowed {
        ConfigShellToolType::ShellCommand
    } else {
        model_shell_type
    }
}

/// The apply-patch tool a session gets: the model's choice, else freeform when enabled.
pub open spec fn apply_patch_for(
    model: Option<ApplyPatchToolType>,
    freeform_feature: bool,
) -> Option<ApplyPatchToolType> {
    match model {
        Some(t) => Some(t),
        None => if freeform_feature {
            Some(ApplyPatchToolType::Freeform)
        } else {
            None
        },
    }
}

pub const AGENT_JOB_LABEL_PREFIX: &'static str = "agent_job:";

/// Whether the session is an agent-job worker.
pub open spec fn is_agent_job_worker(source: SessionSource) -> bool {
    match source {
        SessionSource::SubAgent(SubAgentSource::Other(label)) => AGENT_JOB_LABEL_PREFIX@.is_prefix_of(label@),
        _ => false,
    }
}

pub open spec fn is_sub_agent(source: SessionSource) -> bool {
    source is SubAgent
}

pub open spec fn has_image_input(m: ModelInfo) -> bool {
    m.input_modalities@.contains(InputModality::Image)
}

/// Whether `s` begins with `prefix`.
pub fn starts_with(s: &str, prefix: &str) -> (r: bool)
    ensures
        r == prefix@.is_prefix_of(s@),
{
    let lp = prefix.unicode_len();
    let ls = s.unicode_len();
    if lp > ls {
        return false;
    }
    let mut i: usize = 0;
    while i < lp
        invariant
            lp == prefix@.len(),
            ls == s@.len(),
            lp <= ls,
            i <= lp,
            forall|j: int| 0 <= j < i ==> prefix@[j] == s@[j],
        decreases lp - i,
    {
        if prefix.get_char(i) != s.get_char(i) {
            return false;
        }
        i = i + 1;
    }
    true
}

fn supports_image_generation(model_info: &ModelInfo) -> (r: bool)
    ensures
        r == has_image_input(*model_info),
{
    let mut i: usize = 0;
    while i < model_info.input_modalities.len()
        invariant
            i <= model_info.input_modalities.len(),
            forall|j: int| 0 <= j < i ==> model_info.input_modalities@[j] != InputModality::Image,
        decreases model_info.input_modalities.len() - i,
    {
        if model_info.input_modalities[i] == InputModality::Image {
            return true;
        }
        i = i + 1;
    }
    false
}

/// Whether the model may be asked for images at their original resolution.
pub fn can_request_original_image_detail(features: &Features, model_info: &ModelInfo) -> (r: bool)
    ensures
        r == (features.has(Feature::ImageDetailOriginal) && model_info.supports_image_detail_original),
{
    features.enabled(Feature::ImageDetailOriginal) && model_info.supports_image_detail_original
}

pub fn clone_preset(p: &ModelPreset) -> (r: ModelPreset)
    ensures
        r@ == p@,
{
    let mut efforts: Vec<ReasoningEffortPreset> = Vec::new();
    let mut i: usize = 0;
    while i < p.supported_reasoning_efforts.len()
        invariant
            i <= p.supported_reasoning_efforts.len(),
            efforts.len() == i,
            forall|j: int|
                0 <= j < i ==> #[trigger] efforts@[j].effort == p.supported_reasoning_efforts@[j].effort
                    && efforts@[j].description@ == p.supported_reasoning_efforts@[j].description@,
        decreases p.supported_reasoning_efforts.len() - i,
    {
        let e = &p.supported_reasoning_efforts[i];
        efforts.push(ReasoningEffortPreset { effort: e.effort, description: owned(e.description.as_str()) });
        i = i + 1;
    }
    let r = ModelPreset {
        model: owned(p.model.as_str()),
        display_name: owned(p.display_name.as_str()),
        description: owned(p.description.as_str()),
        default_reasoning_effort: p.default_reasoning_effort,
        supported_reasoning_efforts: efforts,
        show_in_picker: p.show_in_picker,
    };
    assert(r@.supported_reasoning_efforts =~= p@.supported_reasoning_efforts);
    r
}

pub fn clone_presets(v: &Vec<ModelPreset>) -> (r: Vec<ModelPreset>)
    ensures
        presets_view(r@) == presets_view(v@),
{
    let mut r: Vec<ModelPreset> = Vec::new();
    let mut i: usize = 0;
    while i < v.len()
        invariant
            i <= v.len(),
            r.len() == i,
            forall|j: int| 0 <= j < i ==> #[trigger] r@[j]@ == v@[j]@,
        decreases v.len() - i,
    {
        r.push(clone_preset(&v[i]));
        i = i + 1;
    }
    assert(presets_view(r@) =~= presets_view(v@));
    r
}

pub open spec fn filters_view(f: Option<WebSearchFilters>) -> Option<Option<Seq<Seq<char>>>> {
    match f {
        Some(f) => Some(opt_strs(f.allowed_domains)),
        None => None,
    }
}

pub open spec fn location_view(l: Option<WebSearchUserLocation>) -> Option<LocationView> {
    match l {
        Some(l) => Some(l@),
        None => None,
    }
}

pub fn clone_filters(f: &Option<WebSearchFilters>) -> (r: Option<WebSearchFilters>)
    ensures
        filters_view(r) == filters_view(*f),
{
    match f {
        Some(f) => Some(WebSearchFilters {
            allowed_domains: match &f.allowed_domains {
                Some(d) => Some(clone_strings(d)),
                None => None,
            },
        }),
        None => None,
    }
}

pub fn clone_location(l: &Option<WebSearchUserLocation>) -> (r: Option<WebSearchUserLocation>)
    ensures
        location_view(r) == location_view(*l),
{
    match l {
        Some(l) => Some(WebSearchUserLocation {
            country: clone_opt_string(&l.country),
            region: clone_opt_string(&l.region),
            city: clone_opt_string(&l.city),
            timezone: clone_opt_string(&l.timezone),
        }),
        None => None,
    }
}

pub open spec fn web_search_config_view(c: Option<WebSearchConfig>) -> Option<
    (Option<Option<Seq<Seq<char>>>>, Option<LocationView>, Option<WebSearchContextSize>),
> {
    match c {
        Some(c) => Some((filters_view(c.filters), location_view(c.user_location), c.search_context_size)),
        None => None,
    }
}

pub open spec fn roles_view(r: Seq<(String, AgentRoleConfig)>) -> Seq<(Seq<char>, Option<Seq<char>>, Option<Seq<char>>)> {
    r.map_values(|e: (String, AgentRoleConfig)| (e.0@, opt_str(e.1.description), opt_str(e.1.config_file)))
}

/// Everything a [`ToolsConfig`] says but whether code mode is on.
pub struct ToolsConfigBase {
    pub available_models: Seq<PresetView>,
    pub shell_type: ConfigShellToolType,
    pub shell_command_backend: ShellCommandBackendConfig,
    pub unified_exec_backend: UnifiedExecBackendConfig,
    pub allow_login_shell: bool,
    pub apply_patch_tool_type: Option<ApplyPatchToolType>,
    pub web_search_mode: Option<WebSearchMode>,
    pub web_search_config: Option<
        (Option<Option<Seq<Seq<char>>>>, Option<LocationView>, Option<WebSearchContextSize>),
    >,
    pub web_search_tool_type: WebSearchToolType,
    pub image_gen_tool: bool,
    pub agent_roles: Seq<(Seq<char>, Option<Seq<char>>, Option<Seq<char>>)>,
    pub search_tool: bool,
    pub tool_suggest: bool,
    pub request_permission_enabled: bool,
    pub request_permissions_tool_enabled: bool,
    pub js_repl_enabled: bool,
    pub js_repl_tools_only: bool,
    pub can_request_original_image_detail: bool,
    pub collab_tools: bool,
    pub artifact_tools: bool,
    pub request_user_input: bool,
    pub default_mode_request_user_input: bool,
    pub experimental_supported_tools: Seq<Seq<char>>,
    pub agent_jobs_tools: bool,
    pub agent_jobs_worker_tools: bool,
    pub windows_host: bool,
}

pub open spec fn config_base(c: ToolsConfig) -> ToolsConfigBase {
    ToolsConfigBase {
        available_models: presets_view(c.available_models@),
        shell_type: c.shell_type,
        shell_command_backend: c.shell_command_backend,
        unified_exec_backend: c.unified_exec_backend,
        allow_login_shell: c.allow_login_shell,
        apply_patch_tool_type: c.apply_patch_tool_type,
        web_search_mode: c.web_search_mode,
        web_search_config: web_search_config_view(c.web_search_config),
        web_search_tool_type: c.web_search_tool_type,
        image_gen_tool: c.image_gen_tool,
        agent_roles: roles_view(c.agent_roles@),
        search_tool: c.search_tool,
        tool_suggest: c.tool_suggest,
        request_permission_enabled: c.request_permission_enabled,
        request_permissions_tool_enabled: c.request_permissions_tool_enabled,
        js_repl_enabled: c.js_repl_enabled,
        js_repl_tools_only: c.js_repl_tools_only,
        can_request_original_image_detail: c.can_request_original_image_detail,
        collab_tools: c.collab_tools,
        artifact_tools: c.artifact_tools,
        request_user_input: c.request_user_input,
        default_mode_request_user_input: c.default_mode_request_user_input,
        experimental_supported_tools: strs(c.experimental_supported_tools@),
        agent_jobs_tools: c.agent_jobs_tools,
        agent_jobs_worker_tools: c.agent_jobs_worker_tools,
        windows_host: c.windows_host,
    }
}

impl ToolsConfig {
    /// The tool configuration for a model, a feature set and a session.
    pub fn new(params: &ToolsConfigParams) -> (r: ToolsConfig)
        ensures
            ({
                let f = *params.features;
                let m = *params.model_info;
                let allowed = unified_exec_allowed(
                    params.windows_host,
                    *params.sandbox_policy,
                    params.windows_sandbox_level,
                );
                let zsh = f.has(Feature::ShellTool) && f.has(Feature::ShellZshFork);
                let request_user_input = !is_sub_agent(*params.session_source);
                &&& presets_view(r.available_models@) == presets_view(params.available_models@)
                &&& r.shell_type == shell_type_for(f, m.shell_type, allowed, params.conpty_supported)
                &&& r.shell_command_backend == (if zsh {
                    ShellCommandBackendConfig::ZshFork
                } else {
                    ShellCommandBackendConfig::Classic
                })
                &&& r.unified_exec_backend == (if zsh {
                    UnifiedExecBackendConfig::ZshFork
                } else {
                    UnifiedExecBackendConfig::Direct
                })
                &&& r.allow_login_shell
                &&& r.apply_patch_tool_type == apply_patch_for(
                    m.apply_patch_tool_type,
                    f.has(Feature::ApplyPatchFreeform),
                )
                &&& r.web_search_mode == params.web_search_mode
                &&& r.web_search_config is None
                &&& r.web_search_tool_type == m.web_search_tool_type
                &&& r.image_gen_tool == (f.has(Feature::ImageGeneration) && has_image_input(m))
                &&& r.agent_roles@.len() == 0
                &&& r.search_tool == f.has(Feature::Apps)
                &&& r.tool_suggest == (f.has(Feature::Apps) && f.has(Feature::ToolSuggest))
                &&& r.request_permission_enabled == f.has(Feature::RequestPermissions)
                &&& r.request_permissions_tool_enabled == f.has(Feature::RequestPermissionsTool)
                &&& r.code_mode_enabled == f.has(Feature::CodeMode)
                &&& r.js_repl_enabled == f.has(Feature::JsRepl)
                &&& r.js_repl_tools_only == (f.has(Feature::JsRepl) && f.has(Feature::JsReplToolsOnly))
                &&& r.can_request_original_image_detail == (f.has(Feature::ImageDetailOriginal)
                    && m.supports_image_detail_original)
                &&& r.collab_tools == f.has(Feature::Collab)
                &&& r.artifact_tools == (f.has(Feature::Artifact) && params.artifact_runtime_available)
                &&& r.request_user_input == request_user_input
                &&& r.default_mode_request_user_input == (request_user_input && f.has(
                    Feature::DefaultModeRequestUserInput,
                ))
                &&& strs(r.experimental_supported_tools@) == strs(m.experimental_supported_tools@)
                &&& r.agent_jobs_tools == f.has(Feature::SpawnCsv)
                &&& r.agent_jobs_worker_tools == (f.has(Feature::SpawnCsv) && is_agent_job_worker(
                    *params.session_source,
                ))
                &&& r.windows_host == params.windows_host
            }),
    {
        let features = params.features;
        let model_info = params.model_info;
        let include_apply_patch_tool = features.enabled(Feature::ApplyPatchFreeform);
        let include_code_mode = features.enabled(Feature::CodeMode);
        let include_js_repl = features.enabled(Feature::JsRepl);
        let include_js_repl_tools_only = include_js_repl && features.enabled(Feature::JsReplToolsOnly);
        let include_collab_tools = features.enabled(Feature::Collab);
        let include_agent_jobs = features.enabled(Feature::SpawnCsv);
        let include_request_user_input = match params.session_source {
            SessionSource::SubAgent(_) => false,
            _ => true,
        };
        let include_default_mode_request_user_input = include_request_user_input
            && features.enabled(Feature::DefaultModeRequestUserInput);
        let include_search_tool = features.enabled(Feature::Apps);
        let include_tool_suggest = include_search_tool && features.enabled(Feature::ToolSuggest);
        let include_original_image_detail = can_request_original_image_detail(features, model_info);
        let include_artifact_tools = features.enabled(Feature::Artifact)
            && params.artifact_runtime_available;
        let include_image_gen_tool = features.enabled(Feature::ImageGeneration)
            && supports_image_generation(model_info);
        let request_permission_enabled = features.enabled(Feature::RequestPermissions);
        let request_permissions_tool_enabled = features.enabled(Feature::RequestPermissionsTool);
        let zsh_fork = features.enabled(Feature::ShellTool) && features.enabled(Feature::ShellZshFork);
        let shell_command_backend = if zsh_fork {
            ShellCommandBackendConfig::ZshFork
        } else {
            ShellCommandBackendConfig::Classic
        };
        let unified_exec_backend = if zsh_fork {
            UnifiedExecBackendConfig::ZshFork
        } else {
            UnifiedExecBackendConfig::Direct
        };
        let unified_exec_allowed = unified_exec_allowed_in_environment(
            params.windows_host,
            params.sandbox_policy,
            params.windows_sandbox_level,
        );
        let shell_type = if !features.enabled(Feature::ShellTool) {
            ConfigShellToolType::Disabled
        } else if features.enabled(Feature::ShellZshFork) {
            ConfigShellToolType::ShellCommand
        } else if features.enabled(Feature::UnifiedExec) && unified_exec_allowed {
            if params.conpty_supported {
                ConfigShellToolType::UnifiedExec
            } else {
                ConfigShellToolType::ShellCommand
            }
        } else if model_info.shell_type == ConfigShellToolType::UnifiedExec && !unified_exec_allowed {
            ConfigShellToolType::ShellCommand
        } else {
            model_info.shell_type
        };
        let apply_patch_tool_type = match model_info.apply_patch_tool_type {
            Some(ApplyPatchToolType::Freeform) => Some(ApplyPatchToolType::Freeform),
            Some(ApplyPatchToolType::Function) => Some(ApplyPatchToolType::Function),
            None => if include_apply_patch_tool {
                Some(ApplyPatchToolType::Freeform)
            } else {
                None
            },
        };
        let agent_jobs_worker_tools = include_agent_jobs && match params.session_source {
            SessionSource::SubAgent(SubAgentSource::Other(label)) => starts_with(
                label.as_str(),
                AGENT_JOB_LABEL_PREFIX,
            ),
            _ => false,
        };
        ToolsConfig {
            available_models: clone_presets(params.available_models),
            shell_type,
            shell_command_backend,
            unified_exec_backend,
            allow_login_shell: true,
            apply_patch_tool_type,
            web_search_mode: params.web_search_mode,
            web_search_config: None,
            web_search_tool_type: model_info.web_search_tool_type,
            image_gen_tool: include_image_gen_tool,
            agent_roles: Vec::new(),
            search_tool: include_search_tool,
            tool_suggest: include_tool_suggest,
            request_permission_enabled,
            request_permissions_tool_enabled,
            code_mode_enabled: include_code_mode,
            js_repl_enabled: include_js_repl,
            js_repl_tools_only: include_js_repl_tools_only,
            can_request_original_image_detail: include_original_image_detail,
            collab_tools: include_collab_tools,
            artifact_tools: include_artifact_tools,
            request_user_input: include_request_user_input,
            default_mode_request_user_input: include_default_mode_request_user_input,
            experimental_supported_tools: clone_strings(&model_info.experimental_supported_tools),
            agent_jobs_tools: include_agent_jobs,
            agent_jobs_worker_tools,
            windows_host: params.windows_host,
        }
    }

    /// The same configuration with these agent roles.
    pub fn with_agent_roles(self, agent_roles: Vec<(String, AgentRoleConfig)>) -> (r: ToolsConfig)
        ensures
            r == (ToolsConfig { agent_roles, ..self }),
    {
        let mut s = self;
        s.agent_roles = agent_roles;
        s
    }

    /// The same configuration with login shells allowed or not.
    pub fn with_allow_login_shell(self, allow_login_shell: bool) -> (r: ToolsConfig)
        ensures
            r == (ToolsConfig { allow_login_shell, ..self }),
    {
        let mut s = self;
        s.allow_login_shell = allow_login_shell;
        s
    }

    /// The same configuration with these web search settings.
    pub fn with_web_search_config(self, web_search_config: Option<WebSearchConfig>) -> (r: ToolsConfig)
        ensures
            r == (ToolsConfig { web_search_config, ..self }),
    {
        let mut s = self;
        s.web_search_config = web_search_config;
        s
    }

    /// The configuration for the tools nested inside code mode: the same, without code mode.
    pub fn for_code_mode_nested_tools(&self) -> (r: ToolsConfig)
        ensures
            config_base(r) == config_base(*self),
            !r.code_mode_enabled,
    {
        let mut roles: Vec<(String, AgentRoleConfig)> = Vec::new();
        let mut i: usize = 0;
        while i < self.agent_roles.len()
            invariant
                i <= self.agent_roles.len(),
                roles.len() == i,
                forall|j: int|
                    0 <= j < i ==> #[trigger] roles@[j].0@ == self.agent_roles@[j].0@
                        && opt_str(roles@[j].1.description) == opt_str(self.agent_roles@[j].1.description)
                        && opt_str(roles@[j].1.config_file) == opt_str(self.agent_roles@[j].1.config_file),
            decreases self.agent_roles.len() - i,
        {
            let e = &self.agent_roles[i];
            roles.push((
                owned(e.0.as_str()),
                AgentRoleConfig {
                    description: clone_opt_string(&e.1.description),
                    config_file: clone_opt_string(&e.1.config_file),
                },
            ));
            i = i + 1;
        }
        assert(roles_view(roles@) =~= roles_view(self.agent_roles@));
        let web_search_config = match &self.web_search_config {
            Some(c) => Some(WebSearchConfig {
                filters: clone_filters(&c.filters),
                user_location: clone_location(&c.user_location),
                search_context_size: c.search_context_size,
            }),
            None => None,
        };
        ToolsConfig {
            available_models: clone_presets(&self.available_models),
            shell_type: self.shell_type,
            shell_command_backend: self.shell_command_backend,
            unified_exec_backend: self.unified_exec_backend,
            allow_login_shell: self.allow_login_shell,
            apply_patch_tool_type: self.apply_patch_tool_type,
            web_search_mode: self.web_search_mode,
            web_search_config,
            web_search_tool_type: self.web_search_tool_type,
            image_gen_tool: self.image_gen_tool,
            agent_roles: roles,
            search_tool: self.search_tool,
            tool_suggest: self.tool_suggest,
            request_permission_enabled: self.request_permission_enabled,
            request_permissions_tool_enabled: self.request_permissions_tool_enabled,
            code_mode_enabled: false,
            js_repl_enabled: self.js_repl_enabled,
            js_repl_tools_only: self.js_repl_tools_only,
            can_request_original_image_detail: self.can_request_original_image_detail,
            collab_tools: self.collab_tools,
            artifact_tools: self.artifact_tools,
            request_user_input: self.request_user_input,
            default_mode_request_user_input: self.default_mode_request_user_input,
            experimental_supported_tools: clone_strings(&self.experimental_supported_tools),
            agent_jobs_tools: self.agent_jobs_tools,
            agent_jobs_worker_tools: self.agent_jobs_worker_tools,
            windows_host: self.windows_host,
        }
    }
}

}
