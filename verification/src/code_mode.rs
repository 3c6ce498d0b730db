use vstd::prelude::*;

use crate::config::starts_with;
use crate::schema_json::{schema_json, schema_to_json};
use crate::text::{owned, str_eq};
use crate::texts;
use crate::tool::{FreeformView, FunctionView, Tool, ToolSpec};
use crate::typescript::{render_json_schema_to_typescript, ts_type, TS_STRING, TS_UNKNOWN};

verus! {

pub const MCP_TOOL_PREFIX: &'static str = "mcp__";
pub const MCP_NAMESPACE: &'static str = "mcp";
pub const TOOLS_MODULE: &'static str = "tools.js";
pub const TOOLS_DIR: &'static str = "tools/";
pub const MODULE_EXTENSION: &'static str = ".js";
pub const PATH_SEPARATOR: &'static str = "/";

/// The first place where `__` occurs in `s`.
pub open spec fn first_separator(s: Seq<char>) -> Option<int>
    decreases s.len(),
{
    if s.len() < 2 {
        None
    } else if s[0] == '_' && s[1] == '_' {
        Some(0)
    } else {
        match first_separator(s.drop_first()) {
            Some(i) => Some(i + 1),
            None => None,
        }
    }
}

/// The server and tool of a qualified MCP tool name `mcp__{server}__{tool}`: the
/// server runs up to the first `__` after the prefix, the tool (which must not be
/// empty) is all that follows.
pub open spec fn split_qualified(name: Seq<char>) -> Option<(Seq<char>, Seq<char>)> {
    if MCP_TOOL_PREFIX@.is_prefix_of(name) {
        let rest = name.skip(5);
        match first_separator(rest) {
            Some(i) => if rest.skip(i + 2).len() > 0 {
                Some((rest.take(i), rest.skip(i + 2)))
            } else {
                None
            },
            None => None,
        }
    } else {
        None
    }
}

proof fn lemma_first_separator(s: Seq<char>, i: int)
    requires
        0 <= i <= s.len(),
        forall|j: int| 0 <= j < i && j + 1 < s.len() ==> !(#[trigger] s[j] == '_' && s[j + 1] == '_'),
    ensures
        i + 1 < s.len() && s[i] == '_' && s[i + 1] == '_' ==> first_separator(s) == Some(i),
        i + 1 >= s.len() ==> first_separator(s) is None,
    decreases s.len(),
{
    if s.len() >= 2 && i > 0 {
        let rest = s.drop_first();
        assert forall|j: int| 0 <= j < i - 1 && j + 1 < rest.len() implies !(#[trigger] rest[j] == '_' && rest[j + 1] == '_') by {
            assert(rest[j] == s[j + 1]);
            assert(rest[j + 1] == s[j + 2]);
        }
        assert(!(s[0] == '_' && s[1] == '_'));
        lemma_first_separator(rest, i - 1);
    }
}

/// Splits a qualified MCP tool name into its server and tool: see [`split_qualified`].
pub fn split_qualified_tool_name(qualified_name: &str) -> (r: Option<(String, String)>)
    ensures
        match r {
            Some((server, tool)) => split_qualified(qualified_name@) == Some((server@, tool@)),
            None => split_qualified(qualified_name@) is None,
        },
{
    proof {
        reveal_strlit("mcp__");
    }
    if !starts_with(qualified_name, MCP_TOOL_PREFIX) {
        return None;
    }
    let n = qualified_name.unicode_len();
    let ghost rest = qualified_name@.skip(5);
    let mut i: usize = 5;
    while i < n - 1
        invariant
            n == qualified_name@.len(),
            n >= 5,
            MCP_TOOL_PREFIX@.is_prefix_of(qualified_name@),
            5 <= i <= n,
            rest == qualified_name@.skip(5),
            forall|j: int| 0 <= j < i - 5 && j + 1 < rest.len() ==> !(#[trigger] rest[j] == '_' && rest[j + 1] == '_'),
        decreases n - i,
    {
        if qualified_name.get_char(i) == '_' && qualified_name.get_char(i + 1) == '_' {
            proof {
                lemma_first_separator(rest, i - 5);
            }
            if i + 2 == n {
                assert(rest.skip(i - 5 + 2).len() == 0);
                return None;
            }
            let server = qualified_name.substring_char(5, i);
            let tool = qualified_name.substring_char(i + 2, n);
            assert(server@ =~= rest.take(i - 5));
            assert(tool@ =~= rest.skip(i - 5 + 2));
            return Some((owned(server), owned(tool)));
        }
        assert(rest[i - 5] == qualified_name@[i as int]);
        assert(rest[i - 5 + 1] == qualified_name@[i + 1]);
        i = i + 1;
    }
    proof {
        if n >= 5 {
            assert forall|j: int| 0 <= j < rest.len() - 1 && j + 1 < rest.len() implies !(#[trigger] rest[j] == '_' && rest[j + 1] == '_') by {
                assert(j < i - 5);
            }
            lemma_first_separator(rest, if rest.len() == 0 { 0 } else { rest.len() - 1 });
        }
    }
    None
}

/// Where code mode finds a tool: the module that exports it, its namespace, and its key.
pub struct CodeModeToolReference {
    pub module_file: String,
    pub namespace: Vec<String>,
    pub tool_key: String,
}

/// `tools/mcp/{server}.js`.
pub open spec fn mcp_module_file(server: Seq<char>) -> Seq<char> {
    TOOLS_DIR@ + MCP_NAMESPACE@ + PATH_SEPARATOR@ + server + MODULE_EXTENSION@
}

/// How code mode refers to a tool: an MCP tool lives in `tools/mcp/{server}.js`
/// under namespace `mcp`, `{server}`, with its own name as key; any other tool
/// lives in `tools.js` under its full name.
pub fn code_mode_tool_reference(tool_name: &str) -> (r: CodeModeToolReference)
    ensures
        match split_qualified(tool_name@) {
            Some((server, key)) => {
                &&& r.module_file@ == mcp_module_file(server)
                &&& r.namespace@.len() == 2
                &&& r.namespace@[0]@ == MCP_NAMESPACE@
                &&& r.namespace@[1]@ == server
                &&& r.tool_key@ == key
            },
            None => {
                &&& r.module_file@ == TOOLS_MODULE@
                &&& r.namespace@.len() == 0
                &&& r.tool_key@ == tool_name@
            },
        },
{
    match split_qualified_tool_name(tool_name) {
        Some((server_name, tool_key)) => {
            let mut module_file = owned(TOOLS_DIR);
            module_file.append(MCP_NAMESPACE);
            module_file.append(PATH_SEPARATOR);
            module_file.append(server_name.as_str());
            module_file.append(MODULE_EXTENSION);
            let mut namespace: Vec<String> = Vec::new();
            namespace.push(owned(MCP_NAMESPACE));
            namespace.push(server_name);
            CodeModeToolReference { module_file, namespace, tool_key }
        },
        None => CodeModeToolReference {
            module_file: owned(TOOLS_MODULE),
            namespace: Vec::new(),
            tool_key: owned(tool_name),
        },
    }
}

pub open spec fn is_ascii_alpha(c: char) -> bool {
    ('a' <= c && c <= 'z') || ('A' <= c && c <= 'Z')
}

pub open spec fn is_ascii_digit(c: char) -> bool {
    '0' <= c && c <= '9'
}

/// Whether `c` may stand at position `index` of a JavaScript identifier (ASCII only).
pub open spec fn identifier_char(c: char, index: int) -> bool {
    c == '_' || c == '$' || is_ascii_alpha(c) || (index > 0 && is_ascii_digit(c))
}

/// A tool key made into a JavaScript identifier: each character that may not stand
/// where it stands becomes `_`; an empty key becomes `_`.
pub open spec fn normalized_identifier(key: Seq<char>) -> Seq<char> {
    if key.len() == 0 {
        seq!['_']
    } else {
        Seq::new(key.len(), |i: int| if identifier_char(key[i], i) { key[i] } else { '_' })
    }
}

/// Makes a tool key into a JavaScript identifier: see [`normalized_identifier`].
pub fn normalize_code_mode_identifier(tool_key: &str) -> (r: String)
    ensures
        r@ == normalized_identifier(tool_key@),
{
    let n = tool_key.unicode_len();
    let mut identifier = String::new();
    let mut i: usize = 0;
    while i < n
        invariant
            n == tool_key@.len(),
            i <= n,
            identifier@ =~= Seq::new(i as nat, |j: int| if identifier_char(tool_key@[j], j) { tool_key@[j] } else { '_' }),
        decreases n - i,
    {
        let ch = tool_key.get_char(i);
        let is_alpha = ('a' <= ch && ch <= 'z') || ('A' <= ch && ch <= 'Z');
        let is_valid = if i == 0 {
            ch == '_' || ch == '$' || is_alpha
        } else {
            ch == '_' || ch == '$' || is_alpha || ('0' <= ch && ch <= '9')
        };
        if is_valid {
            let c = tool_key.substring_char(i, i + 1);
            identifier.append(c);
        } else {
            identifier.append("_");
            proof {
                reveal_strlit("_");
            }
        }
        i = i + 1;
    }
    if n == 0 {
        proof {
            reveal_strlit("_");
        }
        owned("_")
    } else {
        identifier
    }
}

/// `description` followed by the TypeScript declaration of the tool as code mode
/// sees it.
pub open spec fn code_mode_sample(
    description: Seq<char>,
    tool_name: Seq<char>,
    input_name: Seq<char>,
    input_type: Seq<char>,
    output_type: Seq<char>,
) -> Seq<char> {
    let (module_file, key) = match split_qualified(tool_name) {
        Some((server, key)) => (mcp_module_file(server), key),
        None => (TOOLS_MODULE@, tool_name),
    };
    let local_name = normalized_identifier(key);
    description + SAMPLE_HEAD@ + IMPORT_OPEN@ + local_name + IMPORT_FROM@ + module_file + IMPORT_CLOSE@
        + DECLARE_OPEN@ + local_name + "("@ + input_name + ": "@ + input_type + DECLARE_PROMISE@
        + output_type + DECLARE_CLOSE@ + SAMPLE_TAIL@
}

pub const SAMPLE_HEAD: &'static str = "\n\nCode mode declaration:\n```ts\n";
pub const IMPORT_OPEN: &'static str = "import { ";
pub const IMPORT_FROM: &'static str = " } from \"";
pub const IMPORT_CLOSE: &'static str = "\";\n";
pub const DECLARE_OPEN: &'static str = "declare function ";
pub const DECLARE_PROMISE: &'static str = "): Promise<";
pub const DECLARE_CLOSE: &'static str = ">;";
pub const SAMPLE_TAIL: &'static str = "\n```";

/// Appends the code mode declaration of a tool to its description: see [`code_mode_sample`].
pub fn append_code_mode_sample(
    description: &str,
    tool_name: &str,
    input_name: &str,
    input_type: String,
    output_type: String,
) -> (r: String)
    ensures
        r@ == code_mode_sample(description@, tool_name@, input_name@, input_type@, output_type@),
{
    let reference = code_mode_tool_reference(tool_name);
    let local_name = normalize_code_mode_identifier(reference.tool_key.as_str());
    let mut r = owned(description);
    r.append(SAMPLE_HEAD);
    r.append(IMPORT_OPEN);
    r.append(local_name.as_str());
    r.append(IMPORT_FROM);
    r.append(reference.module_file.as_str());
    r.append(IMPORT_CLOSE);
    r.append(DECLARE_OPEN);
    r.append(local_name.as_str());
    r.append("(");
    r.append(input_name);
    r.append(": ");
    r.append(input_type.as_str());
    r.append(DECLARE_PROMISE);
    r.append(output_type.as_str());
    r.append(DECLARE_CLOSE);
    r.append(SAMPLE_TAIL);
    r
}


pub const ARGS_INPUT: &'static str = "args";
pub const FREEFORM_INPUT: &'static str = "input";

/// What code mode makes of a tool offered next to it: every tool but `exec` itself
/// gets its TypeScript declaration appended to its description; a function tool is
/// declared with its parameters and output schema as types, a freeform tool as
/// taking a string.
pub open spec fn augmented(t: Tool, code_mode_enabled: bool) -> Tool {
    if !code_mode_enabled {
        t
    } else {
        match t {
            Tool::Function(f) => if f.name == texts::PUBLIC_TOOL_NAME@ {
                t
            } else {
                Tool::Function(
                    FunctionView {
                        description: code_mode_sample(
                            f.description,
                            f.name,
                            ARGS_INPUT@,
                            ts_type(schema_json(f.parameters), 0),
                            match f.output_schema {
                                Some(j) => ts_type(j, 0),
                                None => TS_UNKNOWN@,
                            },
                        ),
                        ..f
                    },
                )
            },
            Tool::Freeform(f) => if f.name == texts::PUBLIC_TOOL_NAME@ {
                t
            } else {
                Tool::Freeform(
                    FreeformView {
                        description: code_mode_sample(
                            f.description,
                            f.name,
                            FREEFORM_INPUT@,
                            TS_STRING@,
                            TS_UNKNOWN@,
                        ),
                        ..f
                    },
                )
            },
            _ => t,
        }
    }
}

/// Adds the code mode declaration to a tool's description: see [`augmented`].
pub fn augment_tool_spec_for_code_mode(spec: ToolSpec, code_mode_enabled: bool) -> (r: ToolSpec)
    ensures
        r@ == augmented(spec@, code_mode_enabled),
{
    if !code_mode_enabled {
        return spec;
    }
    match spec {
        ToolSpec::Function(mut tool) => {
            if !str_eq(tool.name.as_str(), texts::PUBLIC_TOOL_NAME) {
                let parameters = schema_to_json(&tool.parameters);
                let input_type = render_json_schema_to_typescript(&parameters);
                let output_type = match &tool.output_schema {
                    Some(j) => render_json_schema_to_typescript(j),
                    None => owned(TS_UNKNOWN),
                };
                let description = append_code_mode_sample(
                    tool.description.as_str(),
                    tool.name.as_str(),
                    ARGS_INPUT,
                    input_type,
                    output_type,
                );
                tool.description = description;
            }
            ToolSpec::Function(tool)
        },
        ToolSpec::Freeform(mut tool) => {
            if !str_eq(tool.name.as_str(), texts::PUBLIC_TOOL_NAME) {
                let description = append_code_mode_sample(
                    tool.description.as_str(),
                    tool.name.as_str(),
                    FREEFORM_INPUT,
                    owned(TS_STRING),
                    owned(TS_UNKNOWN),
                );
                tool.description = description;
            }
            ToolSpec::Freeform(tool)
        },
        other => other,
    }
}


proof fn lemma_sample_extends(d: Seq<char>, n: Seq<char>, i: Seq<char>, it: Seq<char>, ot: Seq<char>)
    ensures
        d.is_prefix_of(code_mode_sample(d, n, i, it, ot)),
{
    let s = code_mode_sample(d, n, i, it, ot);
    assert(s.subrange(0, d.len() as int) =~= d);
}

/// Code mode changes nothing of a tool but its description: with code mode off, for
/// `exec` itself, and for tools that are neither function nor freeform tools, the
/// tool is unchanged; otherwise the description gains the tool's declaration after
/// its own text.
#[verifier::rlimit(30)]
pub proof fn lemma_augment_only_describes(t: Tool, code_mode_enabled: bool)
    ensures
        crate::tool::tool_name(augmented(t, code_mode_enabled)) == crate::tool::tool_name(t),
        !code_mode_enabled || crate::tool::tool_name(t) == texts::PUBLIC_TOOL_NAME@ || !(t is Function || t is Freeform)
            ==> augmented(t, code_mode_enabled) == t,
        t matches Tool::Function(f) ==> augmented(t, code_mode_enabled) matches Tool::Function(g) && g.name == f.name
            && g.parameters == f.parameters && g.output_schema == f.output_schema && g.strict == f.strict
            && g.defer_loading == f.defer_loading && f.description.is_prefix_of(g.description),
        t matches Tool::Freeform(f) ==> augmented(t, code_mode_enabled) matches Tool::Freeform(g) && g.name == f.name
            && g.format_type == f.format_type && g.syntax == f.syntax && g.definition == f.definition
            && f.description.is_prefix_of(g.description),
{
    match t {
        Tool::Function(f) => {
            let ot = match f.output_schema {
                Some(j) => ts_type(j, 0),
                None => TS_UNKNOWN@,
            };
            lemma_sample_extends(f.description, f.name, ARGS_INPUT@, ts_type(schema_json(f.parameters), 0), ot);
        },
        Tool::Freeform(f) => {
            lemma_sample_extends(f.description, f.name, FREEFORM_INPUT@, TS_STRING@, TS_UNKNOWN@);
        },
        _ => {},
    }
}

}
