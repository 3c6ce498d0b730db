use vstd::prelude::*;

use crate::config::{Feature, Features};
use crate::strings::{join, join_strings, trim, trim_spec, views};
use crate::text::{owned, str_eq};

verus! {

pub const JS_REPL_HEADING: &'static str = "## JavaScript REPL (Node)\n";
pub const JS_REPL_USE: &'static str = "- Use `js_repl` for Node-backed JavaScript with top-level await in a persistent kernel.\n";
pub const JS_REPL_FREEFORM: &'static str = "- `js_repl` is a freeform/custom tool. Direct `js_repl` calls must send raw JavaScript tool input (optionally with first-line `// codex-js-repl: timeout_ms=15000`). Do not wrap code in JSON (for example `{\"code\":\"...\"}`), quotes, or markdown code fences.\n";
pub const JS_REPL_HELPERS: &'static str = "- Helpers: `codex.cwd`, `codex.homeDir`, `codex.tmpDir`, `codex.tool(name, args?)`, and `codex.emitImage(imageLike)`.\n";
pub const JS_REPL_TOOL: &'static str = "- `codex.tool` executes a normal tool call and resolves to the raw tool output object. Use it for shell and non-shell tools alike. Nested tool outputs stay inside JavaScript unless you emit them explicitly.\n";
pub const JS_REPL_EMIT: &'static str = "- `codex.emitImage(...)` adds one image to the outer `js_repl` function output each time you call it, so you can call it multiple times to emit multiple images. It accepts a data URL, a single `input_image` item, an object like `{ bytes, mimeType }`, or a raw tool response object with exactly one image and no text. It rejects mixed text-and-image content.\n";
pub const JS_REPL_DETAIL: &'static str = "- Request full-resolution image processing with `detail: \"original\"` only when the `view_image` tool schema includes a `detail` argument. The same availability applies to `codex.emitImage(...)`: if `view_image.detail` is present, you may also pass `detail: \"original\"` there. Use this when high-fidelity image perception or precise localization is needed, especially for CUA agents.\n";
pub const JS_REPL_PLAYWRIGHT: &'static str = "- Example of sharing an in-memory Playwright screenshot: `await codex.emitImage({ bytes: await page.screenshot({ type: \"jpeg\", quality: 85 }), mimeType: \"image/jpeg\", detail: \"original\" })`.\n";
pub const JS_REPL_LOCAL_IMAGE: &'static str = "- Example of sharing a local image tool result: `await codex.emitImage(codex.tool(\"view_image\", { path: \"/absolute/path\", detail: \"original\" }))`.\n";
pub const JS_REPL_ENCODING: &'static str = "- When encoding an image to send with `codex.emitImage(...)` or `view_image`, prefer JPEG at about 85 quality when lossy compression is acceptable; use PNG when transparency or lossless detail matters. Smaller uploads are faster and less likely to hit size limits.\n";
pub const JS_REPL_BINDINGS: &'static str = "- Top-level bindings persist across cells. If a cell throws, prior bindings remain available and bindings that finished initializing before the throw often remain usable in later cells. For code you plan to reuse across cells, prefer declaring or assigning it in direct top-level statements before operations that might throw. If you hit `SyntaxError: Identifier 'x' has already been declared`, first reuse the existing binding, reassign a previously declared `let`, or pick a new descriptive name. Use `{ ... }` only for a short temporary block when you specifically need local scratch names; do not wrap an entire cell in block scope if you want those names reusable later. Reset the kernel with `js_repl_reset` only when you need a clean state.\n";
pub const JS_REPL_IMPORTS: &'static str = "- Top-level static import declarations (for example `import x from \"./file.js\"`) are currently unsupported in `js_repl`; use dynamic imports with `await import(\"pkg\")`, `await import(\"./file.js\")`, or `await import(\"/abs/path/file.mjs\")` instead. Imported local files must be ESM `.js`/`.mjs` files and run in the same REPL VM context. Bare package imports always resolve from REPL-global search roots (`CODEX_JS_REPL_NODE_MODULE_DIRS`, then cwd), not relative to the imported file location. Local files may statically import only other local relative/absolute/`file://` `.js`/`.mjs` files; package and builtin imports from local files must stay dynamic. `import.meta.resolve()` returns importable strings such as `file://...`, bare package names, and `node:...` specifiers. Local file modules reload between execs, while top-level bindings persist until `js_repl_reset`.\n";
pub const JS_REPL_TOOLS_ONLY: &'static str = "- Do not call tools directly; use `js_repl` + `codex.tool(...)` for all tool calls, including shell commands.\n";
pub const JS_REPL_MCP: &'static str = "- MCP tools (if any) can also be called by name via `codex.tool(...)`.\n";
pub const JS_REPL_STDIO: &'static str = "- Avoid direct access to `process.stdout` / `process.stderr` / `process.stdin`; it can corrupt the JSON line protocol. Use `console.log`, `codex.tool(...)`, and `codex.emitImage(...)`.";
pub const DEFAULT_PROJECT_DOC_FILENAME: &'static str = "AGENTS.md";
pub const LOCAL_PROJECT_DOC_FILENAME: &'static str = "AGENTS.override.md";

/// Put between the user's instructions and the project docs.
pub const PROJECT_DOC_SEPARATOR: &'static str = "\n\n--- project-doc ---\n\n";
/// Put between the other sections of the instructions, and between project docs.
pub const SECTION_SEPARATOR: &'static str = "\n\n";

/// The guidance on the JavaScript REPL; when the REPL is the only way to call tools,
/// it says so.
pub open spec fn js_repl_section(tools_only: bool) -> Seq<char> {
    JS_REPL_HEADING@ + JS_REPL_USE@ + JS_REPL_FREEFORM@ + JS_REPL_HELPERS@ + JS_REPL_TOOL@ + JS_REPL_EMIT@
        + JS_REPL_DETAIL@ + JS_REPL_PLAYWRIGHT@ + JS_REPL_LOCAL_IMAGE@ + JS_REPL_ENCODING@ + JS_REPL_BINDINGS@
        + JS_REPL_IMPORTS@ + (if tools_only {
        JS_REPL_TOOLS_ONLY@ + JS_REPL_MCP@
    } else {
        Seq::empty()
    }) + JS_REPL_STDIO@
}

/// The JavaScript REPL guidance, when the REPL is on: see [`js_repl_section`].
pub fn render_js_repl_instructions(features: &Features) -> (r: Option<String>)
    ensures
        features.has(Feature::JsRepl) ==> (r matches Some(s) && s@ == js_repl_section(
            features.has(Feature::JsReplToolsOnly),
        )),
        !features.has(Feature::JsRepl) ==> r is None,
{
    if !features.enabled(Feature::JsRepl) {
        return None;
    }
    let mut section = owned(JS_REPL_HEADING);
    section.append(JS_REPL_USE);
    section.append(JS_REPL_FREEFORM);
    section.append(JS_REPL_HELPERS);
    section.append(JS_REPL_TOOL);
    section.append(JS_REPL_EMIT);
    section.append(JS_REPL_DETAIL);
    section.append(JS_REPL_PLAYWRIGHT);
    section.append(JS_REPL_LOCAL_IMAGE);
    section.append(JS_REPL_ENCODING);
    section.append(JS_REPL_BINDINGS);
    section.append(JS_REPL_IMPORTS);
    let ghost before = section@;
    if features.enabled(Feature::JsReplToolsOnly) {
        section.append(JS_REPL_TOOLS_ONLY);
        section.append(JS_REPL_MCP);
    } else {
        assert(before + Seq::<char>::empty() =~= before);
    }
    section.append(JS_REPL_STDIO);
    Some(section)
}

/// The file names looked for in each directory, in order of preference: the local
/// override, the default, then each configured fallback that is not empty and not
/// listed already.
pub open spec fn candidates(fallbacks: Seq<Seq<char>>) -> Seq<Seq<char>>
    decreases fallbacks.len(),
{
    if fallbacks.len() == 0 {
        seq![LOCAL_PROJECT_DOC_FILENAME@, DEFAULT_PROJECT_DOC_FILENAME@]
    } else {
        let names = candidates(fallbacks.drop_last());
        let c = fallbacks.last();
        if c.len() == 0 || names.contains(c) {
            names
        } else {
            names.push(c)
        }
    }
}

/// The file names looked for in each directory: see [`candidates`].
pub fn candidate_filenames(project_doc_fallback_filenames: &Vec<String>) -> (r: Vec<String>)
    ensures
        views(r@) == candidates(views(project_doc_fallback_filenames@)),
{
    let ghost fs = views(project_doc_fallback_filenames@);
    let mut names: Vec<String> = Vec::new();
    names.push(owned(LOCAL_PROJECT_DOC_FILENAME));
    names.push(owned(DEFAULT_PROJECT_DOC_FILENAME));
    assert(views(names@) =~= candidates(fs.take(0)));
    let mut i: usize = 0;
    while i < project_doc_fallback_filenames.len()
        invariant
            i <= project_doc_fallback_filenames.len(),
            fs == views(project_doc_fallback_filenames@),
            views(names@) == candidates(fs.take(i as int)),
        decreases project_doc_fallback_filenames.len() - i,
    {
        assert(fs.take(i + 1).drop_last() =~= fs.take(i as int));
        assert(fs.take(i + 1).last() == project_doc_fallback_filenames@[i as int]@);
        let candidate = project_doc_fallback_filenames[i].as_str();
        if candidate.unicode_len() != 0 {
            let mut present = false;
            let mut k: usize = 0;
            while k < names.len()
                invariant
                    k <= names.len(),
                    present == (exists|j: int| 0 <= j < k && #[trigger] views(names@)[j] == candidate@),
                decreases names.len() - k,
            {
                assert(views(names@)[k as int] == names@[k as int]@);
                let ghost was = present;
                if str_eq(names[k].as_str(), candidate) {
                    present = true;
                }
                proof {
                    if !present {
                        assert forall|j: int| 0 <= j < k + 1 implies #[trigger] views(names@)[j] != candidate@ by {
                            if j < k {
                                assert(!was);
                            }
                        }
                    }
                }
                k = k + 1;
            }
            if !present {
                let ghost before = views(names@);
                names.push(owned(candidate));
                assert(views(names@) =~= before.push(candidate@));
            }
        }
        i = i + 1;
    }
    assert(fs.take(project_doc_fallback_filenames.len() as int) =~= fs);
    names
}

/// The candidate list starts with the local override and the default, holds every
/// non-empty fallback, no empty name and no name twice.
pub proof fn lemma_candidates(fallbacks: Seq<Seq<char>>)
    ensures
        candidates(fallbacks).len() >= 2,
        candidates(fallbacks)[0] == LOCAL_PROJECT_DOC_FILENAME@,
        candidates(fallbacks)[1] == DEFAULT_PROJECT_DOC_FILENAME@,
        forall|i: int| 0 <= i < fallbacks.len() && fallbacks[i].len() > 0 ==> #[trigger] candidates(fallbacks).contains(fallbacks[i]),
        forall|i: int| 0 <= i < candidates(fallbacks).len() ==> #[trigger] candidates(fallbacks)[i].len() > 0,
        forall|i: int, j: int| 0 <= i < j < candidates(fallbacks).len() ==> #[trigger] candidates(fallbacks)[i] != #[trigger] candidates(fallbacks)[j],
    decreases fallbacks.len(),
{
    reveal_strlit("AGENTS.md");
    reveal_strlit("AGENTS.override.md");
    if fallbacks.len() == 0 {
        assert(LOCAL_PROJECT_DOC_FILENAME@.len() != DEFAULT_PROJECT_DOC_FILENAME@.len());
    } else {
        let init = fallbacks.drop_last();
        lemma_candidates(init);
        let names = candidates(init);
        let c = fallbacks.last();
        let r = candidates(fallbacks);
        assert forall|i: int| 0 <= i < fallbacks.len() && fallbacks[i].len() > 0 implies #[trigger] r.contains(fallbacks[i]) by {
            if i < fallbacks.len() - 1 {
                assert(init[i] == fallbacks[i]);
                assert(names.contains(init[i]));
                let k = choose|k: int| 0 <= k < names.len() && names[k] == init[i];
                assert(r[k] == names[k]);
            } else if !names.contains(c) {
                assert(r[names.len() as int] == c);
            }
        }
    }
}

/// Joins what is kept of the sections: `section` after `out`, with `separator`
/// between them when `out` is not empty.
pub open spec fn append_section(out: Seq<char>, separator: Seq<char>, section: Option<Seq<char>>) -> Seq<char> {
    match section {
        Some(s) => if out.len() > 0 {
            out + separator + s
        } else {
            s
        },
        None => out,
    }
}

pub open spec fn opt_view(o: Option<String>) -> Option<Seq<char>> {
    match o {
        Some(s) => Some(s@),
        None => None,
    }
}

/// The instructions for a session: the user's own, then the project docs (after the
/// project-doc separator), then the JavaScript REPL guidance, the plugins, the
/// skills and the message on nested AGENTS.md files, each after a blank line; none
/// when all that is empty.
pub open spec fn user_instructions_text(
    user_instructions: Option<Seq<char>>,
    project_docs: Option<Seq<char>>,
    js_repl: Option<Seq<char>>,
    plugins: Option<Seq<char>>,
    skills: Option<Seq<char>>,
    hierarchical: Option<Seq<char>>,
) -> Option<Seq<char>> {
    let out = match user_instructions {
        Some(u) => u,
        None => Seq::empty(),
    };
    let out = append_section(out, PROJECT_DOC_SEPARATOR@, project_docs);
    let out = append_section(out, SECTION_SEPARATOR@, js_repl);
    let out = append_section(out, SECTION_SEPARATOR@, plugins);
    let out = append_section(out, SECTION_SEPARATOR@, skills);
    let out = append_section(out, SECTION_SEPARATOR@, hierarchical);
    if out.len() > 0 {
        Some(out)
    } else {
        None
    }
}

fn push_section(out: &mut String, separator: &str, section: Option<String>)
    ensures
        final(out)@ == append_section(old(out)@, separator@, opt_view(section)),
{
    match section {
        Some(s) => {
            if out.unicode_len() > 0 {
                out.append(separator);
                out.append(s.as_str());
            } else {
                *out = s;
            }
        },
        None => {},
    }
}

/// Combines the user's instructions with the project docs read for the session and
/// the other sections: see [`user_instructions_text`]. The plugin and skill sections
/// come already rendered; the message on nested AGENTS.md files is added when that
/// feature is on.
pub fn get_user_instructions(
    features: &Features,
    user_instructions: Option<String>,
    project_docs: Option<String>,
    plugins_section: Option<String>,
    skills_section: Option<String>,
    hierarchical_agents_message: &str,
) -> (r: Option<String>)
    ensures
        opt_view(r) == user_instructions_text(
            opt_view(user_instructions),
            opt_view(project_docs),
            if features.has(Feature::JsRepl) {
                Some(js_repl_section(features.has(Feature::JsReplToolsOnly)))
            } else {
                None
            },
            opt_view(plugins_section),
            opt_view(skills_section),
            if features.has(Feature::ChildAgentsMd) {
                Some(hierarchical_agents_message@)
            } else {
                None
            },
        ),
{
    let mut output = match user_instructions {
        Some(u) => u,
        None => String::new(),
    };
    push_section(&mut output, PROJECT_DOC_SEPARATOR, project_docs);
    push_section(&mut output, SECTION_SEPARATOR, render_js_repl_instructions(features));
    push_section(&mut output, SECTION_SEPARATOR, plugins_section);
    push_section(&mut output, SECTION_SEPARATOR, skills_section);
    let hierarchical = if features.enabled(Feature::ChildAgentsMd) {
        Some(owned(hierarchical_agents_message))
    } else {
        None
    };
    push_section(&mut output, SECTION_SEPARATOR, hierarchical);
    if output.unicode_len() > 0 {
        Some(output)
    } else {
        None
    }
}

/// The project docs read so far within the byte budget.
pub struct ProjectDocBudget {
    remaining: u64,
    parts: Vec<String>,
}

impl ProjectDocBudget {
    pub closed spec fn remaining(&self) -> u64 {
        self.remaining
    }

    pub closed spec fn parts(&self) -> Seq<Seq<char>> {
        views(self.parts@)
    }

    /// A budget of `max_total` bytes, with nothing read.
    pub fn new(max_total: usize) -> (r: ProjectDocBudget)
        ensures
            r.remaining() == max_total as u64,
            r.parts() == Seq::<Seq<char>>::empty(),
    {
        let r = ProjectDocBudget { remaining: max_total as u64, parts: Vec::new() };
        assert(r.parts() =~= Seq::<Seq<char>>::empty());
        r
    }

    /// How many more bytes may be read; reading stops at zero.
    pub fn remaining_bytes(&self) -> (r: u64)
        ensures
            r == self.remaining(),
    {
        self.remaining
    }

    /// Takes the text of a doc read with at most the remaining bytes: a doc with more
    /// than whitespace is kept and its bytes are spent; a blank one is dropped.
    pub fn accept(&mut self, text: String, bytes_read: u64)
        requires
            bytes_read <= old(self).remaining(),
        ensures
            if trim_spec(text@).len() > 0 {
                &&& final(self).parts() == old(self).parts().push(text@)
                &&& final(self).remaining() == old(self).remaining() - bytes_read
            } else {
                &&& final(self).parts() == old(self).parts()
                &&& final(self).remaining() == old(self).remaining()
            },
    {
        if trim(text.as_str()).unicode_len() > 0 {
            let ghost before = views(self.parts@);
            self.parts.push(text);
            assert(views(self.parts@) =~= before.push(text@));
            self.remaining = self.remaining - bytes_read;
        }
    }

    /// The docs kept, joined by blank lines; none when no doc was kept.
    pub fn finish(self) -> (r: Option<String>)
        ensures
            self.parts().len() == 0 ==> r is None,
            self.parts().len() > 0 ==> (r matches Some(s) && s@ == join(self.parts(), SECTION_SEPARATOR@)),
    {
        if self.parts.len() == 0 {
            None
        } else {
            Some(join_strings(&self.parts, SECTION_SEPARATOR))
        }
    }
}

/// The directories searched for project docs, from the project root down to the
/// working directory: `ancestors` runs from the working directory upward, and the
/// root is the ancestor at `root`; without a root only the working directory.
pub open spec fn search_dirs(ancestors: Seq<Seq<char>>, root: Option<int>) -> Seq<Seq<char>> {
    match root {
        Some(k) => ancestors.take(k + 1).reverse(),
        None => seq![ancestors[0]],
    }
}

/// The directories searched for project docs: see [`search_dirs`].
pub fn project_search_dirs(ancestors: &Vec<String>, root: Option<usize>) -> (r: Vec<String>)
    requires
        ancestors.len() > 0,
        root matches Some(k) ==> k < ancestors.len(),
    ensures
        views(r@) == search_dirs(views(ancestors@), match root {
            Some(k) => Some(k as int),
            None => None,
        }),
{
    let ghost av = views(ancestors@);
    match root {
        Some(k) => {
            let mut dirs: Vec<String> = Vec::new();
            let mut i: usize = k + 1;
            while i > 0
                invariant
                    i <= k + 1,
                    k < ancestors.len(),
                    av == views(ancestors@),
                    dirs.len() == k + 1 - i,
                    forall|j: int| 0 <= j < dirs.len() ==> #[trigger] dirs@[j]@ == av[k - j],
                decreases i,
            {
                dirs.push(owned(ancestors[i - 1].as_str()));
                i = i - 1;
            }
            assert(views(dirs@) =~= av.take(k + 1).reverse());
            dirs
        },
        None => {
            let mut dirs: Vec<String> = Vec::new();
            dirs.push(owned(ancestors[0].as_str()));
            assert(views(dirs@) =~= seq![av[0]]);
            dirs
        },
    }
}

/// The search runs from the project root down to the working directory, taking
/// each ancestor in between once and none beyond the root; without a root it
/// covers the working directory alone.
pub proof fn lemma_search_dirs(ancestors: Seq<Seq<char>>, root: Option<int>)
    requires
        ancestors.len() > 0,
        root matches Some(k) ==> 0 <= k < ancestors.len(),
    ensures
        match root {
            Some(k) => {
                &&& search_dirs(ancestors, root).len() == k + 1
                &&& search_dirs(ancestors, root)[0] == ancestors[k]
                &&& search_dirs(ancestors, root).last() == ancestors[0]
                &&& forall|i: int| 0 <= i <= k ==> #[trigger] search_dirs(ancestors, root)[i] == ancestors[k - i]
            },
            None => search_dirs(ancestors, root) == seq![ancestors[0]],
        },
{
}

/// The first ancestor in which a project root marker was found.
pub fn project_root_index(marker_found: &Vec<bool>) -> (r: Option<usize>)
    ensures
        match r {
            Some(k) => k < marker_found.len() && marker_found@[k as int] && forall|j: int| 0 <= j < k ==> !marker_found@[j],
            None => forall|j: int| 0 <= j < marker_found.len() ==> !marker_found@[j],
        },
{
    let mut i: usize = 0;
    while i < marker_found.len()
        invariant
            i <= marker_found.len(),
            forall|j: int| 0 <= j < i ==> !marker_found@[j],
        decreases marker_found.len() - i,
    {
        if marker_found[i] {
            return Some(i);
        }
        i = i + 1;
    }
    None
}


/// The JavaScript REPL guidance without its closing line and without the lines for
/// a REPL that is the only way to call tools.
pub open spec fn js_repl_body() -> Seq<char> {
    JS_REPL_HEADING@ + JS_REPL_USE@ + JS_REPL_FREEFORM@ + JS_REPL_HELPERS@ + JS_REPL_TOOL@ + JS_REPL_EMIT@
        + JS_REPL_DETAIL@ + JS_REPL_PLAYWRIGHT@ + JS_REPL_LOCAL_IMAGE@ + JS_REPL_ENCODING@ + JS_REPL_BINDINGS@
        + JS_REPL_IMPORTS@
}

/// The REPL guidance starts with its heading and ends with the line on standard
/// streams; when the REPL is the only way to call tools, the lines saying so stand
/// just before that last line, and otherwise nothing stands there.
pub proof fn lemma_js_repl_section(tools_only: bool)
    ensures
        JS_REPL_HEADING@.is_prefix_of(js_repl_section(tools_only)),
        js_repl_section(tools_only).len() >= JS_REPL_STDIO@.len(),
        js_repl_section(tools_only).subrange(
            js_repl_section(tools_only).len() - JS_REPL_STDIO@.len(),
            js_repl_section(tools_only).len() as int,
        ) == JS_REPL_STDIO@,
        tools_only ==> js_repl_section(tools_only) == js_repl_body() + JS_REPL_TOOLS_ONLY@ + JS_REPL_MCP@ + JS_REPL_STDIO@,
        !tools_only ==> js_repl_section(tools_only) == js_repl_body() + JS_REPL_STDIO@,
{
    let s = js_repl_section(tools_only);
    if tools_only {
        assert(s =~= js_repl_body() + JS_REPL_TOOLS_ONLY@ + JS_REPL_MCP@ + JS_REPL_STDIO@);
    } else {
        assert(s =~= js_repl_body() + JS_REPL_STDIO@);
    }
    assert(s.subrange(0, JS_REPL_HEADING@.len() as int) =~= JS_REPL_HEADING@);
    assert(s.subrange(s.len() - JS_REPL_STDIO@.len(), s.len() as int) =~= JS_REPL_STDIO@);
}

proof fn lemma_append_section_prefix(out: Seq<char>, separator: Seq<char>, section: Option<Seq<char>>)
    ensures
        out.is_prefix_of(append_section(out, separator, section)),
        out.len() > 0 ==> append_section(out, separator, section).len() > 0,
{
    let r = append_section(out, separator, section);
    if section is Some && out.len() > 0 {
        assert(r.subrange(0, out.len() as int) =~= out);
    } else if section is None {
        assert(r.subrange(0, out.len() as int) =~= out);
    }
}

/// The session instructions begin with the user's own followed by the project-doc
/// separator and the project docs, or with the project docs alone when the user gave
/// none; every later section only extends the text, and an empty text is none.
pub proof fn lemma_user_instructions_prefix(
    user_instructions: Option<Seq<char>>,
    project_docs: Option<Seq<char>>,
    js_repl: Option<Seq<char>>,
    plugins: Option<Seq<char>>,
    skills: Option<Seq<char>>,
    hierarchical: Option<Seq<char>>,
)
    ensures
        ({
            let r = user_instructions_text(user_instructions, project_docs, js_repl, plugins, skills, hierarchical);
            let u = match user_instructions {
                Some(x) => x,
                None => Seq::empty(),
            };
            &&& (r matches Some(t) ==> t.len() > 0)
            &&& (u.len() > 0 ==> (r matches Some(t) && u.is_prefix_of(t)))
            &&& (u.len() > 0 && project_docs is Some ==> (r matches Some(t) && (u + PROJECT_DOC_SEPARATOR@
                + project_docs->0).is_prefix_of(t)))
            &&& (u.len() == 0 && project_docs is Some && r is Some ==> project_docs->0.is_prefix_of(r->0))
        }),
{
    let u = match user_instructions {
        Some(x) => x,
        None => Seq::empty(),
    };
    let o1 = append_section(u, PROJECT_DOC_SEPARATOR@, project_docs);
    let o2 = append_section(o1, SECTION_SEPARATOR@, js_repl);
    let o3 = append_section(o2, SECTION_SEPARATOR@, plugins);
    let o4 = append_section(o3, SECTION_SEPARATOR@, skills);
    let o5 = append_section(o4, SECTION_SEPARATOR@, hierarchical);
    lemma_append_section_prefix(u, PROJECT_DOC_SEPARATOR@, project_docs);
    lemma_append_section_prefix(o1, SECTION_SEPARATOR@, js_repl);
    lemma_append_section_prefix(o2, SECTION_SEPARATOR@, plugins);
    lemma_append_section_prefix(o3, SECTION_SEPARATOR@, skills);
    lemma_append_section_prefix(o4, SECTION_SEPARATOR@, hierarchical);
    assert(o1.is_prefix_of(o5)) by {
        assert forall|i: int| 0 <= i < o1.len() implies o5[i] == o1[i] by {
            assert(o2[i] == o1[i]);
            assert(o3[i] == o2[i]);
            assert(o4[i] == o3[i]);
        }
    }
    assert(u.is_prefix_of(o5)) by {
        assert forall|i: int| 0 <= i < u.len() implies o5[i] == u[i] by {
            assert(o1[i] == u[i]);
        }
    }
}


proof fn lemma_no_plus_js_repl_heading()
    ensures
        forall|j: int| 0 <= j < JS_REPL_HEADING@.len() ==> #[trigger] JS_REPL_HEADING@[j] != '+',
{
    reveal_strlit("## JavaScript REPL (Node)\n");
}

proof fn lemma_no_plus_js_repl_use()
    ensures
        forall|j: int| 0 <= j < JS_REPL_USE@.len() ==> #[trigger] JS_REPL_USE@[j] != '+',
{
    reveal_strlit("- Use `js_repl` for Node-backed JavaScript with top-level await in a persistent kernel.\n");
}

proof fn lemma_no_plus_js_repl_freeform()
    ensures
        forall|j: int| 0 <= j < JS_REPL_FREEFORM@.len() ==> #[trigger] JS_REPL_FREEFORM@[j] != '+',
{
    reveal_strlit("- `js_repl` is a freeform/custom tool. Direct `js_repl` calls must send raw JavaScript tool input (optionally with first-line `// codex-js-repl: timeout_ms=15000`). Do not wrap code in JSON (for example `{\"code\":\"...\"}`), quotes, or markdown code fences.\n");
}

proof fn lemma_no_plus_js_repl_helpers()
    ensures
        forall|j: int| 0 <= j < JS_REPL_HELPERS@.len() ==> #[trigger] JS_REPL_HELPERS@[j] != '+',
{
    reveal_strlit("- Helpers: `codex.cwd`, `codex.homeDir`, `codex.tmpDir`, `codex.tool(name, args?)`, and `codex.emitImage(imageLike)`.\n");
}

proof fn lemma_no_plus_js_repl_tool()
    ensures
        forall|j: int| 0 <= j < JS_REPL_TOOL@.len() ==> #[trigger] JS_REPL_TOOL@[j] != '+',
{
    reveal_strlit("- `codex.tool` executes a normal tool call and resolves to the raw tool output object. Use it for shell and non-shell tools alike. Nested tool outputs stay inside JavaScript unless you emit them explicitly.\n");
}

proof fn lemma_no_plus_js_repl_emit()
    ensures
        forall|j: int| 0 <= j < JS_REPL_EMIT@.len() ==> #[trigger] JS_REPL_EMIT@[j] != '+',
{
    reveal_strlit("- `codex.emitImage(...)` adds one image to the outer `js_repl` function output each time you call it, so you can call it multiple times to emit multiple images. It accepts a data URL, a single `input_image` item, an object like `{ bytes, mimeType }`, or a raw tool response object with exactly one image and no text. It rejects mixed text-and-image content.\n");
}

proof fn lemma_no_plus_js_repl_detail()
    ensures
        forall|j: int| 0 <= j < JS_REPL_DETAIL@.len() ==> #[trigger] JS_REPL_DETAIL@[j] != '+',
{
    reveal_strlit("- Request full-resolution image processing with `detail: \"original\"` only when the `view_image` tool schema includes a `detail` argument. The same availability applies to `codex.emitImage(...)`: if `view_image.detail` is present, you may also pass `detail: \"original\"` there. Use this when high-fidelity image perception or precise localization is needed, especially for CUA agents.\n");
}

proof fn lemma_no_plus_js_repl_playwright()
    ensures
        forall|j: int| 0 <= j < JS_REPL_PLAYWRIGHT@.len() ==> #[trigger] JS_REPL_PLAYWRIGHT@[j] != '+',
{
    reveal_strlit("- Example of sharing an in-memory Playwright screenshot: `await codex.emitImage({ bytes: await page.screenshot({ type: \"jpeg\", quality: 85 }), mimeType: \"image/jpeg\", detail: \"original\" })`.\n");
}

proof fn lemma_no_plus_js_repl_local_image()
    ensures
        forall|j: int| 0 <= j < JS_REPL_LOCAL_IMAGE@.len() ==> #[trigger] JS_REPL_LOCAL_IMAGE@[j] != '+',
{
    reveal_strlit("- Example of sharing a local image tool result: `await codex.emitImage(codex.tool(\"view_image\", { path: \"/absolute/path\", detail: \"original\" }))`.\n");
}

proof fn lemma_no_plus_js_repl_encoding()
    ensures
        forall|j: int| 0 <= j < JS_REPL_ENCODING@.len() ==> #[trigger] JS_REPL_ENCODING@[j] != '+',
{
    reveal_strlit("- When encoding an image to send with `codex.emitImage(...)` or `view_image`, prefer JPEG at about 85 quality when lossy compression is acceptable; use PNG when transparency or lossless detail matters. Smaller uploads are faster and less likely to hit size limits.\n");
}

proof fn lemma_no_plus_js_repl_bindings()
    ensures
        forall|j: int| 0 <= j < JS_REPL_BINDINGS@.len() ==> #[trigger] JS_REPL_BINDINGS@[j] != '+',
{
    reveal_strlit("- Top-level bindings persist across cells. If a cell throws, prior bindings remain available and bindings that finished initializing before the throw often remain usable in later cells. For code you plan to reuse across cells, prefer declaring or assigning it in direct top-level statements before operations that might throw. If you hit `SyntaxError: Identifier 'x' has already been declared`, first reuse the existing binding, reassign a previously declared `let`, or pick a new descriptive name. Use `{ ... }` only for a short temporary block when you specifically need local scratch names; do not wrap an entire cell in block scope if you want those names reusable later. Reset the kernel with `js_repl_reset` only when you need a clean state.\n");
}

proof fn lemma_no_plus_js_repl_imports()
    ensures
        forall|j: int| 0 <= j < JS_REPL_IMPORTS@.len() ==> #[trigger] JS_REPL_IMPORTS@[j] != '+',
{
    reveal_strlit("- Top-level static import declarations (for example `import x from \"./file.js\"`) are currently unsupported in `js_repl`; use dynamic imports with `await import(\"pkg\")`, `await import(\"./file.js\")`, or `await import(\"/abs/path/file.mjs\")` instead. Imported local files must be ESM `.js`/`.mjs` files and run in the same REPL VM context. Bare package imports always resolve from REPL-global search roots (`CODEX_JS_REPL_NODE_MODULE_DIRS`, then cwd), not relative to the imported file location. Local files may statically import only other local relative/absolute/`file://` `.js`/`.mjs` files; package and builtin imports from local files must stay dynamic. `import.meta.resolve()` returns importable strings such as `file://...`, bare package names, and `node:...` specifiers. Local file modules reload between execs, while top-level bindings persist until `js_repl_reset`.\n");
}

proof fn lemma_no_plus_js_repl_stdio()
    ensures
        forall|j: int| 0 <= j < JS_REPL_STDIO@.len() ==> #[trigger] JS_REPL_STDIO@[j] != '+',
{
    reveal_strlit("- Avoid direct access to `process.stdout` / `process.stderr` / `process.stdin`; it can corrupt the JSON line protocol. Use `console.log`, `codex.tool(...)`, and `codex.emitImage(...)`.");
}


/// Whether `p` stands somewhere in `s`.
pub open spec fn occurs_in(s: Seq<char>, p: Seq<char>) -> bool {
    exists|i: int| 0 <= i && i + p.len() <= s.len() && #[trigger] s.subrange(i, i + p.len()) == p
}

proof fn lemma_concat_lacks_plus(a: Seq<char>, b: Seq<char>)
    requires
        forall|j: int| 0 <= j < a.len() ==> #[trigger] a[j] != '+',
        forall|j: int| 0 <= j < b.len() ==> #[trigger] b[j] != '+',
    ensures
        forall|j: int| 0 <= j < (a + b).len() ==> #[trigger] (a + b)[j] != '+',
{
    assert forall|j: int| 0 <= j < (a + b).len() implies #[trigger] (a + b)[j] != '+' by {
        if j < a.len() {
            assert((a + b)[j] == a[j]);
        } else {
            assert((a + b)[j] == b[j - a.len()]);
        }
    }
}

/// The line that makes the REPL the only way to call tools stands in the REPL
/// guidance exactly when the REPL is the only way to call tools.
pub proof fn lemma_js_repl_tools_only_line(tools_only: bool)
    ensures
        occurs_in(js_repl_section(tools_only), JS_REPL_TOOLS_ONLY@) == tools_only,
{
    let s = js_repl_section(tools_only);
    let p = JS_REPL_TOOLS_ONLY@;
    lemma_js_repl_section(tools_only);
    if tools_only {
        let i = js_repl_body().len() as int;
        assert(s.subrange(i, i + p.len()) =~= p);
    } else {
    lemma_no_plus_js_repl_heading();
    lemma_no_plus_js_repl_use();
    lemma_no_plus_js_repl_freeform();
    lemma_no_plus_js_repl_helpers();
    lemma_no_plus_js_repl_tool();
    lemma_no_plus_js_repl_emit();
    lemma_no_plus_js_repl_detail();
    lemma_no_plus_js_repl_playwright();
    lemma_no_plus_js_repl_local_image();
    lemma_no_plus_js_repl_encoding();
    lemma_no_plus_js_repl_bindings();
    lemma_no_plus_js_repl_imports();
    lemma_no_plus_js_repl_stdio();
    lemma_concat_lacks_plus(JS_REPL_HEADING@, JS_REPL_USE@);
    lemma_concat_lacks_plus(JS_REPL_HEADING@ + JS_REPL_USE@, JS_REPL_FREEFORM@);
    lemma_concat_lacks_plus(JS_REPL_HEADING@ + JS_REPL_USE@ + JS_REPL_FREEFORM@, JS_REPL_HELPERS@);
    lemma_concat_lacks_plus(JS_REPL_HEADING@ + JS_REPL_USE@ + JS_REPL_FREEFORM@ + JS_REPL_HELPERS@, JS_REPL_TOOL@);
    lemma_concat_lacks_plus(JS_REPL_HEADING@ + JS_REPL_USE@ + JS_REPL_FREEFORM@ + JS_REPL_HELPERS@ + JS_REPL_TOOL@, JS_REPL_EMIT@);
    lemma_concat_lacks_plus(JS_REPL_HEADING@ + JS_REPL_USE@ + JS_REPL_FREEFORM@ + JS_REPL_HELPERS@ + JS_REPL_TOOL@ + JS_REPL_EMIT@, JS_REPL_DETAIL@);
    lemma_concat_lacks_plus(JS_REPL_HEADING@ + JS_REPL_USE@ + JS_REPL_FREEFORM@ + JS_REPL_HELPERS@ + JS_REPL_TOOL@ + JS_REPL_EMIT@ + JS_REPL_DETAIL@, JS_REPL_PLAYWRIGHT@);
    lemma_concat_lacks_plus(JS_REPL_HEADING@ + JS_REPL_USE@ + JS_REPL_FREEFORM@ + JS_REPL_HELPERS@ + JS_REPL_TOOL@ + JS_REPL_EMIT@ + JS_REPL_DETAIL@ + JS_REPL_PLAYWRIGHT@, JS_REPL_LOCAL_IMAGE@);
    lemma_concat_lacks_plus(JS_REPL_HEADING@ + JS_REPL_USE@ + JS_REPL_FREEFORM@ + JS_REPL_HELPERS@ + JS_REPL_TOOL@ + JS_REPL_EMIT@ + JS_REPL_DETAIL@ + JS_REPL_PLAYWRIGHT@ + JS_REPL_LOCAL_IMAGE@, JS_REPL_ENCODING@);
    lemma_concat_lacks_plus(JS_REPL_HEADING@ + JS_REPL_USE@ + JS_REPL_FREEFORM@ + JS_REPL_HELPERS@ + JS_REPL_TOOL@ + JS_REPL_EMIT@ + JS_REPL_DETAIL@ + JS_REPL_PLAYWRIGHT@ + JS_REPL_LOCAL_IMAGE@ + JS_REPL_ENCODING@, JS_REPL_BINDINGS@);
    lemma_concat_lacks_plus(JS_REPL_HEADING@ + JS_REPL_USE@ + JS_REPL_FREEFORM@ + JS_REPL_HELPERS@ + JS_REPL_TOOL@ + JS_REPL_EMIT@ + JS_REPL_DETAIL@ + JS_REPL_PLAYWRIGHT@ + JS_REPL_LOCAL_IMAGE@ + JS_REPL_ENCODING@ + JS_REPL_BINDINGS@, JS_REPL_IMPORTS@);
        lemma_concat_lacks_plus(js_repl_body(), JS_REPL_STDIO@);
        reveal_strlit("- Do not call tools directly; use `js_repl` + `codex.tool(...)` for all tool calls, including shell commands.\n");
        assert(p[44] == '+');
        if occurs_in(s, p) {
            let i = choose|i: int| 0 <= i && i + p.len() <= s.len() && #[trigger] s.subrange(i, i + p.len()) == p;
            assert(s.subrange(i, i + p.len())[44] == s[i + 44]);
            assert(s[i + 44] != '+');
        }
    }
}


/// Whether project docs are looked for at all: not when the byte limit is zero.
pub fn project_docs_enabled(max_bytes: usize) -> (r: bool)
    ensures
        r == (max_bytes > 0),
{
    max_bytes > 0
}

/// The candidate file that a directory contributes: the first one present, in
/// the order of [`candidate_filenames`]; none when none is.
pub fn first_present_candidate(present: &Vec<bool>) -> (r: Option<usize>)
    ensures
        match r {
            Some(i) => i < present.len() && present@[i as int] && forall|j: int| 0 <= j < i ==> !present@[j],
            None => forall|j: int| 0 <= j < present.len() ==> !present@[j],
        },
{
    let mut i: usize = 0;
    while i < present.len()
        invariant
            i <= present.len(),
            forall|j: int| 0 <= j < i ==> !present@[j],
        decreases present.len() - i,
    {
        if present[i] {
            return Some(i);
        }
        i = i + 1;
    }
    None
}

}
