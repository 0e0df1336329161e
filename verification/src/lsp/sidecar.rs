//! Completion items and hover text from the Roslyn sidecar, and the Unity API hover
//! sections built from the core type table.
use vstd::prelude::*;
use crate::lsp::symbols::{FileSummary, ProjectIndex};
use crate::text::{
    chars_of, is_whitespace, is_whitespace_spec, string_from_chars,
    cat2, cat3, contains_char, contains_str, eq_ignore_ascii_case, join_texts, owned, spec_contains_seq,
    spec_eq_ignore_ascii_case, spec_join_with, spec_starts_with, spec_trim, starts_with, str_eq, trim_text,
};
use crate::lsp::{
    canonical_type_ident, core_namespace_for_type, core_type_name_of, spec_canonical_type_ident,
    spec_core_namespace_for_type, spec_core_type_name_of,
};
use crate::lsp::names::{ascii_lowercase, lower_camel_case, spec_ascii_lowercase, spec_lower_camel_case};

verus! {

// ── The sidecar's answers ────────────────────────────────────────

/// What kind of C# member a sidecar completion item is.
#[derive(Debug, Clone, Copy, PartialEq, Eq, Structural)]
pub enum SidecarCompletionItemKind {
    Method,
    Constructor,
    Field,
    Class,
    Property,
    Enum,
    Struct,
    Event,
    Interface,
}

/// What kind of symbol a sidecar hover describes.
#[derive(Debug, Clone, Copy, PartialEq, Eq, Structural)]
pub enum SidecarSymbolKind {
    Class,
}

/// Where the symbol of a sidecar hover comes from.
#[derive(Debug, Clone, Copy, PartialEq, Eq, Structural)]
pub enum SidecarSymbolSource {
    Generated,
}

/// A completion item of a Unity or generated C# member.
pub struct UnityCompletionItem {
    pub label: String,
    pub kind: SidecarCompletionItemKind,
    pub detail: Option<String>,
    pub documentation: Option<String>,
    pub signature: Option<String>,
    pub insert_text: Option<String>,
    pub namespace: Option<String>,
    pub assembly: Option<String>,
    pub is_static: bool,
}

/// What the sidecar knows of a C# symbol.
pub struct UnityHoverResult {
    pub display_name: String,
    pub kind: SidecarSymbolKind,
    pub source: SidecarSymbolSource,
    pub namespace: Option<String>,
    pub signature: Option<String>,
    pub documentation: Option<String>,
    pub assembly: Option<String>,
    pub docs_url: Option<String>,
    pub is_static: bool,
}

/// Views an optional string as optional text.
pub open spec fn opt_text(o: Option<String>) -> Option<Seq<char>> {
    match o {
        Some(s) => Some(s@),
        None => None,
    }
}

/// A copy of an optional string.
fn copy_opt_text(o: &Option<String>) -> (r: Option<String>)
    ensures
        opt_text(r) == opt_text(*o),
{
    match o {
        Some(s) => Some(owned(s.as_str())),
        None => None,
    }
}

// ── Completion items ─────────────────────────────────────────────

/// The LSP completion item kind of a sidecar item kind.
pub open spec fn spec_sidecar_completion_item_kind_number(kind: SidecarCompletionItemKind) -> u32 {
    match kind {
        SidecarCompletionItemKind::Method => 2,
        SidecarCompletionItemKind::Constructor => 2,
        SidecarCompletionItemKind::Field => 5,
        SidecarCompletionItemKind::Class => 7,
        SidecarCompletionItemKind::Property => 10,
        SidecarCompletionItemKind::Enum => 13,
        SidecarCompletionItemKind::Struct => 22,
        SidecarCompletionItemKind::Event => 23,
        SidecarCompletionItemKind::Interface => 8,
    }
}

/// The LSP completion item kind of a sidecar item kind.
pub fn sidecar_completion_item_kind_number(kind: SidecarCompletionItemKind) -> (r: u32)
    ensures
        r == spec_sidecar_completion_item_kind_number(kind),
{
    match kind {
        SidecarCompletionItemKind::Method | SidecarCompletionItemKind::Constructor => 2,
        SidecarCompletionItemKind::Field => 5,
        SidecarCompletionItemKind::Class => 7,
        SidecarCompletionItemKind::Property => 10,
        SidecarCompletionItemKind::Enum => 13,
        SidecarCompletionItemKind::Struct => 22,
        SidecarCompletionItemKind::Event => 23,
        SidecarCompletionItemKind::Interface => 8,
    }
}

/// Type names keep their C# spelling; members are written in lower camel case as PrSM
/// spells them.
pub open spec fn spec_prsm_label(label: Seq<char>, kind: SidecarCompletionItemKind) -> Seq<char> {
    match kind {
        SidecarCompletionItemKind::Class => label,
        SidecarCompletionItemKind::Struct => label,
        SidecarCompletionItemKind::Interface => label,
        SidecarCompletionItemKind::Enum => label,
        _ => spec_lower_camel_case(label),
    }
}

/// The label under which PrSM shows a sidecar item.
pub fn prsm_label_for_sidecar_item(item: &UnityCompletionItem) -> (r: String)
    ensures
        r@ == spec_prsm_label(item.label@, item.kind),
{
    match item.kind {
        SidecarCompletionItemKind::Class | SidecarCompletionItemKind::Struct | SidecarCompletionItemKind::Interface
        | SidecarCompletionItemKind::Enum => owned(item.label.as_str()),
        _ => lower_camel_case(item.label.as_str()),
    }
}

/// The text a completion inserts: the sidecar's own insert text; else for methods and
/// constructors a call, `label()` when the signature takes nothing (`()` occurs in it) and
/// `label($1)` otherwise; else nothing.
pub open spec fn spec_completion_snippet(
    insert_text: Option<Seq<char>>,
    kind: SidecarCompletionItemKind,
    signature: Option<Seq<char>>,
    label: Seq<char>,
) -> Option<Seq<char>> {
    match insert_text {
        Some(t) => Some(t),
        None => match kind {
            SidecarCompletionItemKind::Method | SidecarCompletionItemKind::Constructor => {
                let sig = match signature { Some(s) => s, None => Seq::empty() };
                if spec_contains_seq(sig, "()"@) { Some(label + "()"@) } else { Some(label + "($1)"@) }
            },
            _ => None,
        },
    }
}

/// The snippet that completing `item` (shown as `label`) inserts, if any.
pub fn prsm_completion_snippet_for_sidecar_item(item: &UnityCompletionItem, label: &str) -> (r: Option<String>)
    ensures
        opt_text(r) == spec_completion_snippet(opt_text(item.insert_text), item.kind, opt_text(item.signature), label@),
{
    match &item.insert_text {
        Some(t) => return Some(owned(t.as_str())),
        None => {},
    }
    match item.kind {
        SidecarCompletionItemKind::Method | SidecarCompletionItemKind::Constructor => {
            let takes_nothing = match &item.signature {
                Some(s) => contains_str(s.as_str(), "()"),
                None => {
                    proof {
                        reveal_strlit("()");
                        assert(!spec_contains_seq(Seq::<char>::empty(), "()"@));
                    }
                    false
                },
            };
            if takes_nothing {
                Some(cat2(label, "()"))
            } else {
                Some(cat2(label, "($1)"))
            }
        },
        _ => None,
    }
}

/// The detail line of a completion item: its detail, else its signature.
pub open spec fn spec_completion_detail(detail: Option<Seq<char>>, signature: Option<Seq<char>>) -> Option<Seq<char>> {
    match detail {
        Some(d) => Some(d),
        None => signature,
    }
}

/// The detail line of a sidecar completion item.
pub fn sidecar_completion_detail(item: &UnityCompletionItem) -> (r: Option<String>)
    ensures
        opt_text(r) == spec_completion_detail(opt_text(item.detail), opt_text(item.signature)),
{
    match &item.detail {
        Some(d) => Some(owned(d.as_str())),
        None => copy_opt_text(&item.signature),
    }
}

/// The Markdown documentation of a completion item: the signature as a C# block, then the
/// documentation, whichever are present.
pub open spec fn spec_completion_documentation(signature: Option<Seq<char>>, documentation: Option<Seq<char>>) -> Option<Seq<char>> {
    match (signature, documentation) {
        (Some(s), Some(d)) => Some("```csharp\n"@ + s + "\n```\n\n"@ + d),
        (Some(s), None) => Some("```csharp\n"@ + s + "\n```"@),
        (None, Some(d)) => Some(d),
        (None, None) => None,
    }
}

/// The Markdown documentation of a sidecar completion item.
pub fn sidecar_completion_documentation(item: &UnityCompletionItem) -> (r: Option<String>)
    ensures
        opt_text(r) == spec_completion_documentation(opt_text(item.signature), opt_text(item.documentation)),
{
    match (&item.signature, &item.documentation) {
        (Some(s), Some(d)) => {
            let mut t = cat3("```csharp\n", s.as_str(), "\n```\n\n");
            t.append(d.as_str());
            Some(t)
        },
        (Some(s), None) => Some(cat3("```csharp\n", s.as_str(), "\n```")),
        (None, Some(d)) => Some(owned(d.as_str())),
        (None, None) => None,
    }
}

// ── Hover text ───────────────────────────────────────────────────

/// The parts of a sidecar hover section: a title line, the trimmed signature as a C# block
/// and the trimmed documentation when not blank, a docs link when known; the display name
/// when nothing but the title is left.
pub open spec fn spec_sidecar_hover_parts(
    title: Seq<char>,
    display_name: Seq<char>,
    signature: Option<Seq<char>>,
    documentation: Option<Seq<char>>,
    docs_url: Option<Seq<char>>,
) -> Seq<Seq<char>> {
    let head = seq!["**["@ + title + "]**"@];
    let with_sig = match signature {
        Some(s) => if spec_trim(s).len() > 0 { head.push("```csharp\n"@ + spec_trim(s) + "\n```"@) } else { head },
        None => head,
    };
    let with_doc = match documentation {
        Some(d) => if spec_trim(d).len() > 0 { with_sig.push(spec_trim(d)) } else { with_sig },
        None => with_sig,
    };
    let with_url = match docs_url {
        Some(u) => with_doc.push("[Docs]("@ + u + ")"@),
        None => with_doc,
    };
    if with_url.len() == 1 { with_url.push(display_name) } else { with_url }
}

/// A hover section from the sidecar's answer, titled `title`; its parts are separated by a
/// blank line.
pub fn format_sidecar_hover_section(title: &str, hover: &UnityHoverResult) -> (r: String)
    ensures
        r@ == spec_join_with(spec_sidecar_hover_parts(title@, hover.display_name@, opt_text(hover.signature),
            opt_text(hover.documentation), opt_text(hover.docs_url)), "\n\n"@),
{
    let mut sections: Vec<String> = Vec::new();
    sections.push(cat3("**[", title, "]**"));
    match &hover.signature {
        Some(s) => {
            let t = trim_text(s);
            if !t.as_str().is_empty() {
                sections.push(cat3("```csharp\n", t.as_str(), "\n```"));
            }
        },
        None => {},
    }
    match &hover.documentation {
        Some(d) => {
            let t = trim_text(d);
            if !t.as_str().is_empty() {
                sections.push(t);
            }
        },
        None => {},
    }
    match &hover.docs_url {
        Some(u) => sections.push(cat3("[Docs](", u.as_str(), ")")),
        None => {},
    }
    if sections.len() == 1 {
        sections.push(owned(hover.display_name.as_str()));
    }
    proof {
        assert(sections@.map_values(|p: String| p@) =~= spec_sidecar_hover_parts(title@, hover.display_name@,
            opt_text(hover.signature), opt_text(hover.documentation), opt_text(hover.docs_url)));
    }
    join_texts(&sections, "\n\n")
}

/// A PrSM signature as a fenced `prsm` block.
pub fn format_prsm_hover_signature(signature: &str) -> (r: String)
    ensures
        r@ == "```prsm\n"@ + spec_trim(signature@) + "\n```"@,
{
    let t = trim_text(&owned(signature));
    cat3("```prsm\n", t.as_str(), "\n```")
}

/// The sections that are present and not blank, in order.
pub open spec fn spec_present_sections(sections: Seq<Option<String>>) -> Seq<Seq<char>>
    decreases sections.len(),
{
    if sections.len() == 0 {
        Seq::empty()
    } else {
        let rest = spec_present_sections(sections.drop_last());
        match sections.last() {
            Some(s) => if spec_trim(s@).len() > 0 { rest.push(s@) } else { rest },
            None => rest,
        }
    }
}

/// The present, non-blank hover sections separated by blank lines.
pub fn join_hover_sections(sections: Vec<Option<String>>) -> (r: String)
    ensures
        r@ == spec_join_with(spec_present_sections(sections@), "\n\n"@),
{
    let mut kept: Vec<String> = Vec::new();
    let mut i: usize = 0;
    while i < sections.len()
        invariant
            i <= sections@.len(),
            kept@.map_values(|p: String| p@) == spec_present_sections(sections@.take(i as int)),
        decreases sections@.len() - i,
    {
        proof {
            assert(sections@.take(i + 1).drop_last() =~= sections@.take(i as int));
            assert(sections@.take(i + 1).last() == sections@[i as int]);
        }
        match &sections[i] {
            Some(s) => {
                let t = trim_text(s);
                if !t.as_str().is_empty() {
                    let ghost before = kept@;
                    kept.push(owned(s.as_str()));
                    proof {
                        assert(kept@.map_values(|p: String| p@) =~= before.map_values(|p: String| p@).push(s@));
                    }
                }
            },
            None => {},
        }
        i = i + 1;
    }
    proof {
        assert(sections@.take(sections@.len() as int) =~= sections@);
    }
    join_texts(&kept, "\n\n")
}

// ── Unity API sections from the core type table ──────────────────

/// Where Unity's scripting reference lives.
pub open spec fn spec_unity_docs_base() -> Seq<char> {
    "https://docs.unity3d.com/6000.3/Documentation/ScriptReference"@
}

/// The scripting reference page of a core type in a Unity namespace.
pub open spec fn spec_unity_docs_url(ty_name: Seq<char>) -> Option<Seq<char>> {
    match (spec_core_type_name_of(spec_canonical_type_ident(ty_name)), spec_core_namespace_for_type(ty_name)) {
        (Some(name), Some(ns)) => if spec_starts_with(ns, "Unity"@) {
            Some(spec_unity_docs_base() + "/"@ + name + ".html"@)
        } else {
            None
        },
        _ => None,
    }
}

/// The Unity scripting reference URL of a core Unity type.
pub fn unity_docs_url_for_type(ty_name: &str) -> (r: Option<String>)
    ensures
        opt_text(r) == spec_unity_docs_url(ty_name@),
{
    let canonical = canonical_type_ident(ty_name);
    let name = match core_type_name_of(canonical.as_str()) {
        Some(n) => n,
        None => return None,
    };
    let ns = match core_namespace_for_type(ty_name) {
        Some(n) => n,
        None => return None,
    };
    if !starts_with(ns, "Unity") {
        return None;
    }
    let mut url = cat3("https://docs.unity3d.com/6000.3/Documentation/ScriptReference", "/", name);
    url.append(".html");
    Some(url)
}

/// A core type whose namespace is one of Unity's.
pub open spec fn spec_core_type_is_unity(ty_name: Seq<char>) -> bool {
    match spec_core_namespace_for_type(ty_name) {
        Some(ns) => spec_starts_with(ns, "Unity"@),
        None => false,
    }
}

/// Whether `ty_name` names a core Unity type.
pub fn core_type_is_unity(ty_name: &str) -> (r: bool)
    ensures
        r == spec_core_type_is_unity(ty_name@),
{
    match core_namespace_for_type(ty_name) {
        Some(ns) => starts_with(ns, "Unity"),
        None => false,
    }
}

/// The Unity API hover section of a type: title line, the namespace-qualified bare name
/// (with the label in brackets unless the label is `Type`), and the docs link; none for a
/// type without a Unity docs page.
pub open spec fn spec_unity_hover_section(label: Seq<char>, ty_name: Seq<char>) -> Option<Seq<char>> {
    match spec_unity_docs_url(ty_name) {
        None => None,
        Some(url) => {
            let display = spec_canonical_type_ident(ty_name);
            let lookup = match spec_core_namespace_for_type(ty_name) {
                Some(ns) => if ns.len() > 0 { ns + "."@ + display } else { display },
                None => display,
            };
            let middle = if label == "Type"@ { lookup } else { lookup + " ("@ + label + ")"@ };
            Some(spec_join_with(seq!["**[Unity API]**"@, middle, "[Docs]("@ + url + ")"@], "\n\n"@))
        },
    }
}

/// The Unity API hover section of a type, labelled `label`.
pub fn format_unity_hover_section(label: &str, ty_name: &str) -> (r: Option<String>)
    ensures
        opt_text(r) == spec_unity_hover_section(label@, ty_name@),
{
    let url = match unity_docs_url_for_type(ty_name) {
        Some(u) => u,
        None => return None,
    };
    let display = canonical_type_ident(ty_name);
    let lookup = match core_namespace_for_type(ty_name) {
        Some(ns) => if !ns.is_empty() { cat3(ns, ".", display.as_str()) } else { display },
        None => display,
    };
    let middle = if str_eq(label, "Type") {
        lookup
    } else {
        let mut m = cat3(lookup.as_str(), " (", label);
        m.append(")");
        m
    };
    let mut parts: Vec<String> = Vec::new();
    parts.push(owned("**[Unity API]**"));
    parts.push(middle);
    parts.push(cat3("[Docs](", url.as_str(), ")"));
    let ghost want = seq!["**[Unity API]**"@, parts@[1]@, "[Docs]("@ + url@ + ")"@];
    proof {
        assert(parts@.map_values(|p: String| p@) =~= want);
    }
    Some(join_texts(&parts, "\n\n"))
}

/// PrSM's own primitive type names.
pub open spec fn spec_is_primitive_type_name(name: Seq<char>) -> bool {
    ||| name == "Int"@
    ||| name == "Float"@
    ||| name == "Double"@
    ||| name == "Bool"@
    ||| name == "String"@
    ||| name == "Long"@
    ||| name == "Byte"@
    ||| name == "Unit"@
}

/// Whether the sidecar should be asked about a type: not a PrSM primitive; yes for a core
/// Unity type; otherwise only for a qualified name that no declaration of the project
/// bears (by its bare name, in any ASCII case).
pub open spec fn spec_should_query_sidecar_for_type(ty_name: Seq<char>, files: Seq<FileSummary>) -> bool {
    let display = spec_canonical_type_ident(ty_name);
    if spec_is_primitive_type_name(display) {
        false
    } else if spec_core_type_is_unity(display) {
        true
    } else {
        spec_contains_seq(ty_name, "."@)
            && !(exists|i: int| 0 <= i < files.len() && #[trigger] spec_eq_ignore_ascii_case(files[i].declaration.name@, display))
    }
}

/// Whether to ask the sidecar about `ty_name`, given the project's index.
pub fn should_query_sidecar_for_type(ty_name: &str, index: &ProjectIndex) -> (r: bool)
    ensures
        r == spec_should_query_sidecar_for_type(ty_name@, index.files@),
{
    let display = canonical_type_ident(ty_name);
    let d = display.as_str();
    if str_eq(d, "Int") || str_eq(d, "Float") || str_eq(d, "Double") || str_eq(d, "Bool") || str_eq(d, "String")
        || str_eq(d, "Long") || str_eq(d, "Byte") || str_eq(d, "Unit") {
        return false;
    }
    if core_type_is_unity(d) {
        return true;
    }
    if !contains_str(ty_name, ".") {
        return false;
    }
    let mut i: usize = 0;
    while i < index.files.len()
        invariant
            i <= index.files@.len(),
            display@ == spec_canonical_type_ident(ty_name@),
            !spec_is_primitive_type_name(display@),
            !spec_core_type_is_unity(display@),
            spec_contains_seq(ty_name@, "."@),
            forall|k: int| 0 <= k < i ==> !#[trigger] spec_eq_ignore_ascii_case(index.files@[k].declaration.name@, display@),
        decreases index.files@.len() - i,
    {
        if eq_ignore_ascii_case(index.files[i].declaration.name.as_str(), display.as_str()) {
            assert(spec_eq_ignore_ascii_case(index.files@[i as int].declaration.name@, display@));
            return false;
        }
        i = i + 1;
    }
    true
}


// ── Starting the sidecar ─────────────────────────────────────────

/// The environment variable that holds extra arguments for the sidecar.
pub const ROSLYN_SIDECAR_ARGS_ENV: &'static str = "PRISM_ROSLYN_SIDECAR_ARGS";

/// What `serde_json` makes of a text read as a JSON array of strings: the strings, or the
/// text of its error.
pub uninterp spec fn spec_json_string_array(text: Seq<char>) -> Result<Seq<Seq<char>>, Seq<char>>;

/// `serde_json::from_str::<Vec<String>>`, with the error rendered by its `Display`. The
/// outcome depends on the text alone; the contract names it without restating JSON.
#[verifier::external_body]
fn parse_json_string_array(text: &str) -> (r: Result<Vec<String>, String>)
    ensures
        match r {
            Ok(v) => spec_json_string_array(text@) == Ok::<Seq<Seq<char>>, Seq<char>>(v@.map_values(|s: String| s@)),
            Err(e) => spec_json_string_array(text@) == Err::<Seq<Seq<char>>, Seq<char>>(e@),
        },
{
    serde_json::from_str::<Vec<String>>(text).map_err(|error| error.to_string())
}

/// Where the run of non-whitespace characters that ends at `end` begins.
pub open spec fn spec_word_start(s: Seq<char>, end: int) -> int
    decreases end,
{
    if end <= 0 || end > s.len() {
        0
    } else if !is_whitespace_spec(s[end - 1]) {
        spec_word_start(s, end - 1)
    } else {
        end
    }
}

pub proof fn lemma_word_start_bounds(s: Seq<char>, end: int)
    requires
        0 <= end <= s.len(),
    ensures
        0 <= spec_word_start(s, end) <= end,
        forall|k: int| spec_word_start(s, end) <= k < end ==> !is_whitespace_spec(s[k]),
        spec_word_start(s, end) > 0 ==> is_whitespace_spec(s[spec_word_start(s, end) - 1]),
    decreases end,
{
    if end > 0 && !is_whitespace_spec(s[end - 1]) {
        lemma_word_start_bounds(s, end - 1);
    }
}

/// The whitespace-separated words of `s` (std's `str::split_whitespace`).
pub open spec fn spec_split_whitespace(s: Seq<char>) -> Seq<Seq<char>>
    decreases s.len(),
{
    if s.len() == 0 {
        Seq::empty()
    } else if is_whitespace_spec(s.last()) {
        spec_split_whitespace(s.drop_last())
    } else {
        let start = spec_word_start(s, s.len() as int);
        proof {
            lemma_word_start_bounds(s, s.len() as int);
        }
        spec_split_whitespace(s.subrange(0, start)) + seq![s.subrange(start, s.len() as int)]
    }
}

/// The whitespace-separated words of `text`.
pub fn split_whitespace(text: &str) -> (r: Vec<String>)
    ensures
        r@.map_values(|w: String| w@) == spec_split_whitespace(text@),
{
    let chars = chars_of(text);
    let mut words: Vec<String> = Vec::new();
    let mut end = chars.len();
    proof {
        assert(chars@.take(end as int) =~= chars@);
    }
    while end > 0
        invariant
            chars@ == text@,
            end <= chars@.len(),
            spec_split_whitespace(text@) == spec_split_whitespace(chars@.take(end as int)) + words@.map_values(|w: String| w@),
        decreases end,
    {
        let ghost t = chars@.take(end as int);
        if is_whitespace(chars[end - 1]) {
            proof {
                assert(t.drop_last() =~= chars@.take(end - 1));
            }
            end = end - 1;
        } else {
            let mut start = end;
            while start > 0 && !is_whitespace(chars[start - 1])
                invariant
                    start <= end <= chars@.len(),
                    spec_word_start(t, end as int) == spec_word_start(t, start as int),
                    t == chars@.take(end as int),
                decreases start,
            {
                proof {
                    assert(t[start - 1] == chars@[start - 1]);
                }
                start = start - 1;
            }
            proof {
                if start > 0 {
                    assert(t[start - 1] == chars@[start - 1]);
                }
                assert(t.subrange(0, start as int) =~= chars@.take(start as int));
                assert(t.subrange(start as int, t.len() as int) =~= chars@.subrange(start as int, end as int));
            }
            let ghost before = words@;
            words.insert(0, string_from_chars(&chars, start, end));
            proof {
                assert(words@.map_values(|w: String| w@) =~= seq![chars@.subrange(start as int, end as int)]
                    + before.map_values(|w: String| w@));
            }
            end = start;
        }
    }
    proof {
        assert(chars@.take(0) =~= Seq::<char>::empty());
    }
    words
}

/// The sidecar's extra arguments as written in the environment: nothing for a blank value,
/// a JSON array of strings when the trimmed value starts with `[`, else its words.
pub open spec fn spec_sidecar_args(raw: Seq<char>) -> Result<Seq<Seq<char>>, Seq<char>> {
    let trimmed = spec_trim(raw);
    if trimmed.len() == 0 {
        Ok(Seq::empty())
    } else if trimmed[0] == '[' {
        match spec_json_string_array(trimmed) {
            Ok(v) => Ok(v),
            Err(e) => Err("Invalid "@ + "PRISM_ROSLYN_SIDECAR_ARGS"@ + " JSON array: "@ + e),
        }
    } else {
        Ok(spec_split_whitespace(trimmed))
    }
}

/// The sidecar's extra arguments from the raw environment value.
pub fn parse_sidecar_args(raw_args: &str) -> (r: Result<Vec<String>, String>)
    ensures
        match r {
            Ok(v) => spec_sidecar_args(raw_args@) == Ok::<Seq<Seq<char>>, Seq<char>>(v@.map_values(|s: String| s@)),
            Err(e) => spec_sidecar_args(raw_args@) == Err::<Seq<Seq<char>>, Seq<char>>(e@),
        },
{
    let trimmed = trim_text(&owned(raw_args));
    let t = chars_of(trimmed.as_str());
    if t.len() == 0 {
        let empty: Vec<String> = Vec::new();
        proof {
            assert(empty@.map_values(|s: String| s@) =~= Seq::<Seq<char>>::empty());
        }
        return Ok(empty);
    }
    if t[0] == '[' {
        return match parse_json_string_array(trimmed.as_str()) {
            Ok(v) => Ok(v),
            Err(e) => {
                let mut message = cat3("Invalid ", ROSLYN_SIDECAR_ARGS_ENV, " JSON array: ");
                message.append(e.as_str());
                Err(message)
            },
        };
    }
    Ok(split_whitespace(trimmed.as_str()))
}


// ── Merging completion lists ─────────────────────────────────────

/// Which items of a list (given by their labels; an item without a label string has
/// `None`) survive merging: those with a label, each ASCII-case-insensitive label once, the
/// earliest item winning. The result lists their indices in order.
pub open spec fn spec_merged_indices(labels: Seq<Option<String>>) -> Seq<int>
    decreases labels.len(),
{
    if labels.len() == 0 {
        Seq::empty()
    } else {
        let kept = spec_merged_indices(labels.drop_last());
        match labels.last() {
            None => kept,
            Some(l) => if exists|j: int| 0 <= j < kept.len() && #[trigger] spec_label_key(labels, kept[j]) == spec_ascii_lowercase(l@) {
                kept
            } else {
                kept.push(labels.len() - 1)
            },
        }
    }
}

/// The ASCII-lower-case label of item `i`.
pub open spec fn spec_label_key(labels: Seq<Option<String>>, i: int) -> Seq<char> {
    match labels[i] {
        Some(l) => spec_ascii_lowercase(l@),
        None => Seq::empty(),
    }
}

/// Merges completion lists given by their labels (the preferred list first): the indices of
/// the items kept, in order.
pub fn merge_completion_items(labels: &Vec<Option<String>>) -> (r: Vec<usize>)
    ensures
        r@.map_values(|i: usize| i as int) == spec_merged_indices(labels@),
{
    let mut kept: Vec<usize> = Vec::new();
    let mut keys: Vec<String> = Vec::new();
    let mut i: usize = 0;
    while i < labels.len()
        invariant
            i <= labels@.len(),
            kept@.len() == keys@.len(),
            kept@.map_values(|k: usize| k as int) == spec_merged_indices(labels@.take(i as int)),
            forall|j: int| 0 <= j < kept@.len() ==> #[trigger] kept@[j] < i,
            forall|j: int| 0 <= j < kept@.len() ==> keys@[j]@ == #[trigger] spec_label_key(labels@, kept@[j] as int),
        decreases labels@.len() - i,
    {
        let ghost pre = labels@.take(i as int);
        let ghost post = labels@.take(i + 1);
        proof {
            assert(post.drop_last() =~= pre);
            assert(post.last() == labels@[i as int]);
            assert forall|j: int| 0 <= j < kept@.len() implies #[trigger] spec_label_key(post, kept@[j] as int)
                == spec_label_key(labels@, kept@[j] as int) by {
                assert(kept@[j] < i);
                assert(post[kept@[j] as int] == labels@[kept@[j] as int]);
            }
        }
        let ghost old_kept = kept@;
        let ghost old_keys = keys@;
        match &labels[i] {
            None => {},
            Some(l) => {
                let key = ascii_lowercase(l.as_str());
                let mut j: usize = 0;
                let mut seen = false;
                while j < keys.len() && !seen
                    invariant
                        j <= keys@.len(),
                        !seen ==> forall|m: int| 0 <= m < j ==> keys@[m]@ != key@,
                        seen ==> j > 0 && keys@[j - 1]@ == key@,
                    decreases keys@.len() - j, if seen { 0int } else { 1int },
                {
                    if crate::text::str_eq(keys[j].as_str(), key.as_str()) {
                        seen = true;
                    }
                    j = j + 1;
                }
                proof {
                    let m = kept@.map_values(|k: usize| k as int);
                    if seen {
                        assert(spec_label_key(post, m[j - 1]) == spec_ascii_lowercase(l@));
                    } else {
                        assert forall|x: int| 0 <= x < m.len() implies #[trigger] spec_label_key(post, m[x]) != spec_ascii_lowercase(l@) by {
                            assert(keys@[x]@ != key@);
                        }
                    }
                }
                if !seen {
                    proof {
                        assert(labels@[i as int] == Some(*l));
                        assert(key@ == spec_label_key(labels@, i as int));
                    }
                    kept.push(i);
                    keys.push(key);
                }
            },
        }
        proof {
            assert forall|j: int| 0 <= j < kept@.len() implies keys@[j]@ == #[trigger] spec_label_key(labels@, kept@[j] as int) by {
                if j < old_kept.len() {
                    assert(old_keys[j]@ == spec_label_key(labels@, old_kept[j] as int));
                    assert(kept@[j] == old_kept[j] && keys@[j] == old_keys[j]);
                }
            }
            assert forall|j: int| 0 <= j < kept@.len() implies #[trigger] kept@[j] < i + 1 by {
                if j < old_kept.len() {
                    assert(old_kept[j] < i);
                    assert(kept@[j] == old_kept[j]);
                }
            }
        }
        i = i + 1;
    }
    proof {
        assert(labels@.take(labels@.len() as int) =~= labels@);
    }
    kept
}

} // verus!
