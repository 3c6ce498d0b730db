use vstd::prelude::*;

use crate::config::ShellCommandBackendConfig;
use crate::text::{owned, str_eq};
use crate::tool::{Tool, ToolSpec};

verus! {

/// What handles calls of a registered tool name.
#[derive(Debug, Clone, Copy, PartialEq, Eq, Structural)]
pub enum HandlerKind {
    Shell,
    UnifiedExec,
    ShellCommand(ShellCommandBackendConfig),
    Plan,
    ApplyPatch,
    DynamicTool,
    ViewImage,
    Mcp,
    McpResource,
    RequestPermissions,
    /// Whether the default collaboration mode may ask the user.
    RequestUserInput(bool),
    ToolSuggest,
    CodeModeExecute,
    CodeModeWait,
    JsRepl,
    JsReplReset,
    Artifacts,
    ToolSearch,
    GrepFiles,
    ReadFile,
    ListDir,
    TestSync,
    MultiAgent,
    AgentJobs,
}

/// A tool offered to the model, and whether calls of it may run in parallel.
#[derive(Debug)]
pub struct ConfiguredToolSpec {
    pub spec: ToolSpec,
    pub supports_parallel_tool_calls: bool,
}

/// The handler of a tool name, if one is registered.
pub open spec fn handler_of(hs: Seq<(Seq<char>, HandlerKind)>, name: Seq<char>) -> Option<HandlerKind>
    decreases hs.len(),
{
    if hs.len() == 0 {
        None
    } else if hs[0].0 == name {
        Some(hs[0].1)
    } else {
        handler_of(hs.drop_first(), name)
    }
}

/// The handler table after registering `kind` under `name`: a handler already
/// registered under that name is replaced in place, else the entry is appended.
pub open spec fn handlers_insert(
    hs: Seq<(Seq<char>, HandlerKind)>,
    name: Seq<char>,
    kind: HandlerKind,
) -> Seq<(Seq<char>, HandlerKind)>
    decreases hs.len(),
{
    if hs.len() == 0 {
        seq![(name, kind)]
    } else if hs[0].0 == name {
        seq![(name, kind)] + hs.drop_first()
    } else {
        seq![hs[0]] + handlers_insert(hs.drop_first(), name, kind)
    }
}

/// The content of a [`ToolRegistryBuilder`]: the tools in the order they were
/// pushed, each with its parallel flag, and the handler table.
pub struct BuilderView {
    pub specs: Seq<(Tool, bool)>,
    pub handlers: Seq<(Seq<char>, HandlerKind)>,
}

pub open spec fn specs_view(v: Seq<ConfiguredToolSpec>) -> Seq<(Tool, bool)> {
    v.map_values(|c: ConfiguredToolSpec| (c.spec@, c.supports_parallel_tool_calls))
}

pub open spec fn handlers_view(v: Seq<(String, HandlerKind)>) -> Seq<(Seq<char>, HandlerKind)> {
    v.map_values(|e: (String, HandlerKind)| (e.0@, e.1))
}

/// Collects the tools offered to the model and the handlers of tool names.
pub struct ToolRegistryBuilder {
    specs: Vec<ConfiguredToolSpec>,
    handlers: Vec<(String, HandlerKind)>,
}

impl View for ToolRegistryBuilder {
    type V = BuilderView;

    closed spec fn view(&self) -> BuilderView {
        BuilderView { specs: specs_view(self.specs@), handlers: handlers_view(self.handlers@) }
    }
}

/// The handlers of the tool names of a session.
pub struct ToolRegistry {
    handlers: Vec<(String, HandlerKind)>,
}

impl View for ToolRegistry {
    type V = Seq<(Seq<char>, HandlerKind)>;

    closed spec fn view(&self) -> Seq<(Seq<char>, HandlerKind)> {
        handlers_view(self.handlers@)
    }
}

/// The key under which a tool is registered: its name behind its namespace.
pub open spec fn handler_key(tool_name: Seq<char>, namespace: Option<Seq<char>>) -> Seq<char> {
    match namespace {
        Some(ns) => ns + tool_name,
        None => tool_name,
    }
}

/// The key under which a tool is registered: see [`handler_key`].
pub fn tool_handler_key(tool_name: &str, namespace: Option<&str>) -> (r: String)
    ensures
        r@ == handler_key(tool_name@, match namespace {
            Some(ns) => Some(ns@),
            None => None,
        }),
{
    match namespace {
        Some(ns) => {
            let mut r = owned(ns);
            r.append(tool_name);
            r
        },
        None => owned(tool_name),
    }
}

impl ToolRegistryBuilder {
    /// A builder with no tools and no handlers.
    pub fn new() -> (r: ToolRegistryBuilder)
        ensures
            r@.specs == Seq::<(Tool, bool)>::empty(),
            r@.handlers == Seq::<(Seq<char>, HandlerKind)>::empty(),
    {
        let r = ToolRegistryBuilder { specs: Vec::new(), handlers: Vec::new() };
        assert(specs_view(r.specs@) =~= Seq::<(Tool, bool)>::empty());
        assert(handlers_view(r.handlers@) =~= Seq::<(Seq<char>, HandlerKind)>::empty());
        r
    }

    /// Offers `spec`, with calls that may not run in parallel.
    pub fn push_spec(&mut self, spec: ToolSpec)
        ensures
            final(self)@.specs == old(self)@.specs.push((spec@, false)),
            final(self)@.handlers == old(self)@.handlers,
    {
        self.push_spec_with_parallel_support(spec, false);
    }

    /// Offers `spec`, saying whether its calls may run in parallel.
    pub fn push_spec_with_parallel_support(&mut self, spec: ToolSpec, supports_parallel_tool_calls: bool)
        ensures
            final(self)@.specs == old(self)@.specs.push((spec@, supports_parallel_tool_calls)),
            final(self)@.handlers == old(self)@.handlers,
    {
        let ghost before = specs_view(self.specs@);
        self.specs.push(ConfiguredToolSpec { spec, supports_parallel_tool_calls });
        assert(specs_view(self.specs@) =~= before.push((spec@, supports_parallel_tool_calls)));
    }

    /// Registers `kind` as the handler of `name`, replacing any handler it had.
    pub fn register_handler(&mut self, name: String, kind: HandlerKind)
        ensures
            final(self)@.handlers == handlers_insert(old(self)@.handlers, name@, kind),
            final(self)@.specs == old(self)@.specs,
    {
        let ghost o = handlers_view(self.handlers@);
        let n = self.handlers.len();
        let mut i: usize = 0;
        assert(o.skip(0) =~= o);
        assert(o.take(0) =~= Seq::<(Seq<char>, HandlerKind)>::empty());
        while i < n
            invariant
                n == self.handlers.len(),
                self.handlers@ == old(self).handlers@,
                self.specs@ == old(self).specs@,
                o == handlers_view(self.handlers@),
                i <= n,
                handlers_insert(o, name@, kind) == o.take(i as int) + handlers_insert(o.skip(i as int), name@, kind),
            decreases n - i,
        {
            let ghost tail = o.skip(i as int);
            assert(tail[0] == (self.handlers@[i as int].0@, self.handlers@[i as int].1));
            if str_eq(self.handlers[i].0.as_str(), name.as_str()) {
                let ghost nv = name@;
                self.handlers.set(i, (name, kind));
                assert(handlers_view(self.handlers@) =~= o.take(i as int) + (seq![(nv, kind)] + tail.drop_first()));
                return;
            }
            assert(tail.drop_first() =~= o.skip(i + 1));
            assert(o.take(i + 1) =~= o.take(i as int) + seq![tail[0]]);
            i = i + 1;
        }
        let ghost nv = name@;
        self.handlers.push((name, kind));
        assert(handlers_view(self.handlers@) =~= o.take(n as int) + seq![(nv, kind)]);
        assert(o.take(n as int) =~= o);
    }

    /// The tools offered, and the registry of their handlers.
    pub fn build(self) -> (r: (Vec<ConfiguredToolSpec>, ToolRegistry))
        ensures
            specs_view(r.0@) == self@.specs,
            r.1@ == self@.handlers,
    {
        (self.specs, ToolRegistry { handlers: self.handlers })
    }
}

impl ToolRegistry {
    /// The handler registered for `name` in `namespace`, if any.
    pub fn handler(&self, name: &str, namespace: Option<&str>) -> (r: Option<HandlerKind>)
        ensures
            r == handler_of(self@, handler_key(name@, match namespace {
                Some(ns) => Some(ns@),
                None => None,
            })),
    {
        let key = tool_handler_key(name, namespace);
        let ghost hs = handlers_view(self.handlers@);
        let n = self.handlers.len();
        let mut i: usize = 0;
        assert(hs.skip(0) =~= hs);
        assert(self@ == hs);
        while i < n
            invariant
                n == self.handlers.len(),
                hs == handlers_view(self.handlers@),
                self@ == hs,
                key@ == handler_key(name@, match namespace {
                    Some(ns) => Some(ns@),
                    None => None,
                }),
                i <= n,
                handler_of(hs, key@) == handler_of(hs.skip(i as int), key@),
            decreases n - i,
        {
            let ghost tail = hs.skip(i as int);
            assert(tail[0] == (self.handlers@[i as int].0@, self.handlers@[i as int].1));
            if str_eq(self.handlers[i].0.as_str(), key.as_str()) {
                assert(handler_of(tail, key@) == Some(self.handlers@[i as int].1));
                return Some(self.handlers[i].1);
            }
            assert(tail.drop_first() =~= hs.skip(i + 1));
            i = i + 1;
        }
        None
    }

    /// Whether a handler is registered for `name` in `namespace`.
    pub fn has_handler(&self, name: &str, namespace: Option<&str>) -> (r: bool)
        ensures
            r == handler_of(self@, handler_key(name@, match namespace {
                Some(ns) => Some(ns@),
                None => None,
            })) is Some,
    {
        self.handler(name, namespace).is_some()
    }
}

/// Registering a handler makes the name resolve to it and leaves every other
/// name's handler as it was.
pub proof fn lemma_register_handler(
    hs: Seq<(Seq<char>, HandlerKind)>,
    name: Seq<char>,
    kind: HandlerKind,
    other: Seq<char>,
)
    ensures
        handler_of(handlers_insert(hs, name, kind), name) == Some(kind),
        other != name ==> handler_of(handlers_insert(hs, name, kind), other) == handler_of(hs, other),
    decreases hs.len(),
{
    let w = handlers_insert(hs, name, kind);
    if hs.len() == 0 {
        assert(w.drop_first() =~= Seq::<(Seq<char>, HandlerKind)>::empty());
        if other != name {
            assert(handler_of(w, other) == handler_of(w.drop_first(), other));
        }
    } else if hs[0].0 == name {
        assert(w.drop_first() =~= hs.drop_first());
        assert(w[0] == (name, kind));
        if other != name {
            assert(handler_of(w, other) == handler_of(w.drop_first(), other));
            assert(handler_of(hs, other) == handler_of(hs.drop_first(), other));
        }
    } else {
        let rest = hs.drop_first();
        lemma_register_handler(rest, name, kind, other);
        assert(w.drop_first() =~= handlers_insert(rest, name, kind));
        assert(w[0] == hs[0]);
        if other != name && hs[0].0 != other {
            assert(handler_of(w, other) == handler_of(w.drop_first(), other));
            assert(handler_of(hs, other) == handler_of(rest, other));
        }
    }
}

}
