//! The hover text of a position: the PrSM signature of what is there, then a Unity API
//! section (from the sidecar when it answered, else from the core type table).
use vstd::prelude::*;

use crate::lsp::search::IndexedSymbol;
use crate::lsp::sidecar::{
    format_prsm_hover_signature, format_unity_hover_section, join_hover_sections, opt_text, spec_present_sections,
    spec_unity_hover_section,
};
use crate::lsp::symbols::{spec_file_index_from, DeclarationSummary, FileSummary, MemberSummary, ProjectIndex};
use crate::text::{cat3, owned, spec_join_with, spec_trim, str_eq};
use crate::token::Span;

verus! {

/// A reference of the project index: the name used, its kind as the index names it
/// (`type`, ...), its file and its source range.
pub struct IndexedReference {
    pub name: String,
    pub kind: String,
    pub file_path: String,
    pub span: Span,
}

/// A definition that the semantic model resolves a position to: its name, qualified name,
/// kind as the model names it, the display name of its type, its file and its range.
pub struct HirDefinition {
    pub name: String,
    pub qualified_name: String,
    pub kind: String,
    pub ty: String,
    pub file_path: String,
    pub span: Span,
}

// ── Finding the summary of a symbol ──────────────────────────────

/// The index of the first member from `i` on named exactly `name`.
pub open spec fn spec_member_exact_from(members: Seq<MemberSummary>, name: Seq<char>, i: int) -> Option<int>
    decreases members.len() - i,
{
    if i < 0 || i >= members.len() {
        None
    } else if members[i].name@ == name {
        Some(i)
    } else {
        spec_member_exact_from(members, name, i + 1)
    }
}

/// Where the index summarizes a symbol: the file at the symbol's path, and, for a symbol
/// inside a declaration, the declaration's first member with the symbol's name (if any).
pub open spec fn spec_symbol_summary(files: Seq<FileSummary>, s: IndexedSymbol) -> Option<(int, Option<int>)> {
    match spec_file_index_from(files, s.file_path@, 0) {
        None => None,
        Some(i) => if s.container_name is None {
            Some((i, None))
        } else {
            Some((i, spec_member_exact_from(files[i].declaration.members@, s.name@, 0)))
        },
    }
}

proof fn lemma_file_index_bounds(files: Seq<FileSummary>, path: Seq<char>, i: int)
    ensures
        spec_file_index_from(files, path, i) matches Some(k) ==> 0 <= k < files.len(),
    decreases files.len() - i,
{
    if 0 <= i < files.len() && files[i].path@ != path {
        lemma_file_index_bounds(files, path, i + 1);
    }
}

proof fn lemma_member_exact_bounds(members: Seq<MemberSummary>, name: Seq<char>, i: int)
    ensures
        spec_member_exact_from(members, name, i) matches Some(k) ==> 0 <= k < members.len(),
    decreases members.len() - i,
{
    if 0 <= i < members.len() && members[i].name@ != name {
        lemma_member_exact_bounds(members, name, i + 1);
    }
}

/// The declaration (and member) that the index holds for a symbol (see
/// `spec_symbol_summary`).
pub fn find_symbol_summary<'a>(index: &'a ProjectIndex, symbol: &IndexedSymbol) -> (r: Option<(&'a DeclarationSummary, Option<&'a MemberSummary>)>)
    ensures
        match spec_symbol_summary(index.files@, *symbol) {
            None => r is None,
            Some((i, m)) => 0 <= i < index.files@.len() && (r matches Some((d, rm)) && {
                &&& *d == index.files@[i].declaration
                &&& match m {
                    Some(k) => 0 <= k < d.members@.len() && (rm matches Some(x) && *x == d.members@[k]),
                    None => rm is None,
                }
            }),
        },
{
    proof {
        lemma_file_index_bounds(index.files@, symbol.file_path@, 0);
    }
    let mut i: usize = 0;
    while i < index.files.len()
        invariant
            i <= index.files@.len(),
            spec_file_index_from(index.files@, symbol.file_path@, 0) == spec_file_index_from(index.files@, symbol.file_path@, i as int),
        decreases index.files@.len() - i,
    {
        if str_eq(index.files[i].path.as_str(), symbol.file_path.as_str()) {
            proof {
                assert(spec_file_index_from(index.files@, symbol.file_path@, i as int) == Some(i as int));
            }
            let d = &index.files[i].declaration;
            if symbol.container_name.is_none() {
                return Some((d, None));
            }
            proof {
                lemma_member_exact_bounds(d.members@, symbol.name@, 0);
            }
            let mut k: usize = 0;
            while k < d.members.len()
                invariant
                    k <= d.members@.len(),
                    i < index.files@.len(),
                    *d == index.files@[i as int].declaration,
                    spec_file_index_from(index.files@, symbol.file_path@, 0) == Some(i as int),
                    symbol.container_name is Some,
                    spec_member_exact_from(d.members@, symbol.name@, 0) == spec_member_exact_from(d.members@, symbol.name@, k as int),
                decreases d.members@.len() - k,
            {
                if str_eq(d.members[k].name.as_str(), symbol.name.as_str()) {
                    proof {
                        assert(spec_member_exact_from(d.members@, symbol.name@, k as int) == Some(k as int));
                    }
                    return Some((d, Some(&d.members[k])));
                }
                k = k + 1;
            }
            return Some((d, None));
        }
        i = i + 1;
    }
    None
}

// ── Sections ─────────────────────────────────────────────────────

/// The hover signature of a definition: its kind and qualified name.
pub fn hover_signature_for_definition(definition: &HirDefinition) -> (r: String)
    ensures
        r@ == definition.kind@ + " "@ + definition.qualified_name@,
{
    cat3(definition.kind.as_str(), " ", definition.qualified_name.as_str())
}

/// The Unity section of a definition: that of its type.
pub fn unity_hover_section_for_definition(definition: &HirDefinition) -> (r: Option<String>)
    ensures
        opt_text(r) == spec_unity_hover_section("Type"@, definition.ty@),
{
    format_unity_hover_section("Type", definition.ty.as_str())
}

/// The Unity section of a reference: only a type reference has one, that of the type.
pub open spec fn spec_reference_section(r: IndexedReference) -> Option<Seq<char>> {
    if r.kind@ == "type"@ {
        spec_unity_hover_section("Type"@, r.name@)
    } else {
        None
    }
}

/// The Unity section of a reference (see `spec_reference_section`).
pub fn unity_hover_section_for_reference(reference: &IndexedReference) -> (r: Option<String>)
    ensures
        opt_text(r) == spec_reference_section(*reference),
{
    if !str_eq(reference.kind.as_str(), "type") {
        return None;
    }
    format_unity_hover_section("Type", reference.name.as_str())
}

/// The Unity section of the definition, if there is one.
pub open spec fn spec_definition_section(definition: Option<HirDefinition>) -> Option<Seq<char>> {
    match definition {
        Some(d) => spec_unity_hover_section("Type"@, d.ty@),
        None => None,
    }
}

/// The Unity section of a symbol: for a declaration the index summarizes, that of its base
/// type when it has one with a section; otherwise that of the definition.
pub open spec fn spec_symbol_section(files: Seq<FileSummary>, s: IndexedSymbol, definition: Option<HirDefinition>) -> Option<Seq<char>> {
    match spec_symbol_summary(files, s) {
        Some((i, None)) => match files[i].declaration.base_type {
            Some(b) => if spec_unity_hover_section("Base Type"@, b@) is Some {
                spec_unity_hover_section("Base Type"@, b@)
            } else {
                spec_definition_section(definition)
            },
            None => spec_definition_section(definition),
        },
        _ => spec_definition_section(definition),
    }
}

/// The file found for a path has that path, and every file before it has another.
proof fn lemma_file_index_found(files: Seq<FileSummary>, path: Seq<char>, i: int)
    requires
        0 <= i,
    ensures
        spec_file_index_from(files, path, i) matches Some(k) ==> i <= k < files.len() && files[k].path@ == path,
        spec_file_index_from(files, path, i) is None ==> forall|k: int| i <= k < files.len() ==> files[k].path@ != path,
    decreases files.len() - i,
{
    if 0 <= i < files.len() && files[i].path@ != path {
        lemma_file_index_found(files, path, i + 1);
    }
}

/// A member named `name` from `i` on is found.
proof fn lemma_member_exact_found(members: Seq<MemberSummary>, name: Seq<char>, i: int, k: int)
    requires
        0 <= i <= k < members.len(),
        members[k].name@ == name,
    ensures
        spec_member_exact_from(members, name, i) is Some,
    decreases k - i,
{
    if members[i].name@ != name {
        lemma_member_exact_found(members, name, i + 1, k);
    }
}

/// The hover of a member takes the Unity section of the member's own type: for a symbol
/// inside a declaration that the index summarizes with a member of that name, the section is
/// that of the definition's type, whatever the declaration's base type is.
pub proof fn lemma_member_hover_uses_its_type(files: Seq<FileSummary>, s: IndexedSymbol, d: HirDefinition)
    requires
        s.container_name is Some,
        forall|i: int| 0 <= i < files.len() && files[i].path@ == s.file_path@ ==> exists|k: int|
            0 <= k < files[i].declaration.members@.len() && #[trigger] files[i].declaration.members@[k].name@ == s.name@,
    ensures
        spec_symbol_section(files, s, Some(d)) == spec_unity_hover_section("Type"@, d.ty@),
{
    lemma_file_index_found(files, s.file_path@, 0);
    match spec_file_index_from(files, s.file_path@, 0) {
        Some(i) => {
            let k = choose|k: int| 0 <= k < files[i].declaration.members@.len()
                && #[trigger] files[i].declaration.members@[k].name@ == s.name@;
            lemma_member_exact_found(files[i].declaration.members@, s.name@, 0, k);
        },
        None => {},
    }
}

/// A symbol of a file the index does not hold takes the Unity section of its definition's
/// type.
pub proof fn lemma_unindexed_hover_uses_its_type(files: Seq<FileSummary>, s: IndexedSymbol, d: HirDefinition)
    requires
        forall|i: int| 0 <= i < files.len() ==> files[i].path@ != s.file_path@,
    ensures
        spec_symbol_section(files, s, Some(d)) == spec_unity_hover_section("Type"@, d.ty@),
{
    lemma_file_index_found(files, s.file_path@, 0);
}

/// A declaration's own hover shows its base type's Unity section when there is one.
pub proof fn lemma_declaration_hover_uses_base_type(files: Seq<FileSummary>, s: IndexedSymbol, i: int,
    definition: Option<HirDefinition>)
    requires
        s.container_name is None,
        0 <= i < files.len(),
        files[i].path@ == s.file_path@,
        forall|j: int| 0 <= j < i ==> files[j].path@ != s.file_path@,
        files[i].declaration.base_type matches Some(b) && spec_unity_hover_section("Base Type"@, b@) is Some,
    ensures
        spec_symbol_section(files, s, definition)
            == spec_unity_hover_section("Base Type"@, files[i].declaration.base_type->0@),
{
    lemma_file_index_found(files, s.file_path@, 0);
    lemma_file_index_first(files, s.file_path@, 0, i);
}

/// The first file with a path, when every file before `k` has another path and file `k` has it.
proof fn lemma_file_index_first(files: Seq<FileSummary>, path: Seq<char>, j: int, k: int)
    requires
        0 <= j <= k < files.len(),
        files[k].path@ == path,
        forall|m: int| j <= m < k ==> files[m].path@ != path,
    ensures
        spec_file_index_from(files, path, j) == Some(k),
    decreases k - j,
{
    if j < k {
        lemma_file_index_first(files, path, j + 1, k);
    }
}

fn definition_section(definition: Option<&HirDefinition>) -> (r: Option<String>)
    ensures
        opt_text(r) == spec_definition_section(match definition { Some(d) => Some(*d), None => None }),
{
    match definition {
        Some(d) => unity_hover_section_for_definition(d),
        None => None,
    }
}

/// The Unity section of a symbol (see `spec_symbol_section`).
pub fn unity_hover_section_for_symbol(symbol: &IndexedSymbol, definition: Option<&HirDefinition>, index: &ProjectIndex) -> (r: Option<String>)
    ensures
        opt_text(r) == spec_symbol_section(index.files@, *symbol, match definition { Some(d) => Some(*d), None => None }),
{
    match find_symbol_summary(index, symbol) {
        Some((declaration, member)) => {
            if member.is_none() {
                match &declaration.base_type {
                    Some(base) => match format_unity_hover_section("Base Type", base.as_str()) {
                        Some(section) => return Some(section),
                        None => {},
                    },
                    None => {},
                }
            }
        },
        None => {},
    }
    definition_section(definition)
}

// ── The hover text ───────────────────────────────────────────────

/// The sections that are present and not blank, in order.
pub open spec fn spec_present_texts(s: Seq<Option<Seq<char>>>) -> Seq<Seq<char>>
    decreases s.len(),
{
    if s.len() == 0 {
        Seq::empty()
    } else {
        let rest = spec_present_texts(s.drop_last());
        match s.last() {
            Some(t) => if spec_trim(t).len() > 0 { rest.push(t) } else { rest },
            None => rest,
        }
    }
}

/// The present sections, separated by blank lines.
pub open spec fn spec_joined_sections(s: Seq<Option<Seq<char>>>) -> Seq<char> {
    spec_join_with(spec_present_texts(s), "\n\n"@)
}

proof fn lemma_present_sections(s: Seq<Option<String>>)
    ensures
        spec_present_sections(s) == spec_present_texts(s.map_values(|o: Option<String>| opt_text(o))),
    decreases s.len(),
{
    if s.len() > 0 {
        lemma_present_sections(s.drop_last());
        assert(s.drop_last().map_values(|o: Option<String>| opt_text(o))
            =~= s.map_values(|o: Option<String>| opt_text(o)).drop_last());
    }
}

/// A PrSM signature as a fenced block.
pub open spec fn spec_signature_block(signature: Seq<char>) -> Seq<char> {
    "```prsm\n"@ + spec_trim(signature) + "\n```"@
}

/// `a` when it is there, else `b`.
pub open spec fn spec_or_else(a: Option<Seq<char>>, b: Option<Seq<char>>) -> Option<Seq<char>> {
    if a is Some { a } else { b }
}

/// What hovering says: for a symbol at the position, its signature and a Unity section
/// (the sidecar's, else the symbol's); for a reference to a known symbol, that symbol's
/// signature and a Unity section (the sidecar's, else the symbol's, else the reference's);
/// for a definition alone, its kind and qualified name and a Unity section (the sidecar's,
/// else its type's); for an unresolved reference, its name, a Unity section (the
/// sidecar's, else the reference's) and, without one, a note that the definition was not
/// found; nothing otherwise.
pub open spec fn spec_hover_markdown(
    files: Seq<FileSummary>,
    symbol_at: Option<IndexedSymbol>,
    reference_at: Option<IndexedReference>,
    resolved: Option<IndexedSymbol>,
    definition: Option<HirDefinition>,
    sidecar: Option<Seq<char>>,
) -> Option<Seq<char>> {
    match symbol_at {
        Some(s) => Some(spec_joined_sections(seq![
            Some(spec_signature_block(s.signature@)),
            spec_or_else(sidecar, spec_symbol_section(files, s, definition)),
        ])),
        None => if reference_at is Some && resolved is Some {
            let s = resolved->0;
            Some(spec_joined_sections(seq![
                Some(spec_signature_block(s.signature@)),
                spec_or_else(sidecar, spec_or_else(spec_symbol_section(files, s, definition), spec_reference_section(reference_at->0))),
            ]))
        } else {
            match definition {
                Some(d) => Some(spec_joined_sections(seq![
                    Some(spec_signature_block(d.kind@ + " "@ + d.qualified_name@)),
                    spec_or_else(sidecar, spec_unity_hover_section("Type"@, d.ty@)),
                ])),
                None => match reference_at {
                    Some(r) => {
                        let supplemental = spec_or_else(sidecar, spec_reference_section(r));
                        Some(spec_joined_sections(seq![
                            Some(spec_signature_block(r.name@)),
                            supplemental,
                            if supplemental is Some { None } else { Some("_Definition not found in the current PrSM project index._"@) },
                        ]))
                    },
                    None => None,
                },
            }
        },
    }
}

fn or_else(a: Option<String>, b: Option<String>) -> (r: Option<String>)
    ensures
        opt_text(r) == spec_or_else(opt_text(a), opt_text(b)),
{
    match a {
        Some(x) => Some(x),
        None => b,
    }
}

fn joined(sections: Vec<Option<String>>) -> (r: String)
    ensures
        r@ == spec_joined_sections(sections@.map_values(|o: Option<String>| opt_text(o))),
{
    proof {
        lemma_present_sections(sections@);
    }
    join_hover_sections(sections)
}

/// The hover text of a position (see `spec_hover_markdown`), from what the index and the
/// semantic model found there and the sidecar's section.
pub fn build_hover_markdown(
    symbol_at: Option<&IndexedSymbol>,
    reference_at: Option<&IndexedReference>,
    resolved_symbol: Option<&IndexedSymbol>,
    definition: Option<&HirDefinition>,
    index: &ProjectIndex,
    sidecar_hover_section: Option<String>,
) -> (r: Option<String>)
    ensures
        opt_text(r) == spec_hover_markdown(
            index.files@,
            match symbol_at { Some(s) => Some(*s), None => None },
            match reference_at { Some(x) => Some(*x), None => None },
            match resolved_symbol { Some(s) => Some(*s), None => None },
            match definition { Some(d) => Some(*d), None => None },
            opt_text(sidecar_hover_section),
        ),
{
    match symbol_at {
        Some(symbol) => {
            let signature = format_prsm_hover_signature(symbol.signature.as_str());
            let section = or_else(sidecar_hover_section, unity_hover_section_for_symbol(symbol, definition, index));
            let sections = vec![Some(signature), section];
            proof {
                assert(sections@.map_values(|o: Option<String>| opt_text(o)) =~= seq![opt_text(sections@[0]), opt_text(sections@[1])]);
            }
            return Some(joined(sections));
        },
        None => {},
    }
    match (reference_at, resolved_symbol) {
        (Some(reference), Some(symbol)) => {
            let signature = format_prsm_hover_signature(symbol.signature.as_str());
            let fallback = or_else(unity_hover_section_for_symbol(symbol, definition, index), unity_hover_section_for_reference(reference));
            let section = or_else(sidecar_hover_section, fallback);
            let sections = vec![Some(signature), section];
            proof {
                assert(sections@.map_values(|o: Option<String>| opt_text(o)) =~= seq![opt_text(sections@[0]), opt_text(sections@[1])]);
            }
            return Some(joined(sections));
        },
        _ => {},
    }
    match definition {
        Some(d) => {
            let signature = format_prsm_hover_signature(hover_signature_for_definition(d).as_str());
            let section = or_else(sidecar_hover_section, unity_hover_section_for_definition(d));
            let sections = vec![Some(signature), section];
            proof {
                assert(sections@.map_values(|o: Option<String>| opt_text(o)) =~= seq![opt_text(sections@[0]), opt_text(sections@[1])]);
            }
            return Some(joined(sections));
        },
        None => {},
    }
    match reference_at {
        Some(reference) => {
            let supplemental = or_else(sidecar_hover_section, unity_hover_section_for_reference(reference));
            let unresolved = if supplemental.is_some() {
                None
            } else {
                Some(owned("_Definition not found in the current PrSM project index._"))
            };
            let signature = format_prsm_hover_signature(reference.name.as_str());
            let sections = vec![Some(signature), supplemental, unresolved];
            proof {
                assert(sections@.map_values(|o: Option<String>| opt_text(o))
                    =~= seq![opt_text(sections@[0]), opt_text(sections@[1]), opt_text(sections@[2])]);
            }
            Some(joined(sections))
        },
        None => None,
    }
}

/// Where a hover shows: at the symbol there, else at the reference there.
pub open spec fn spec_hover_range(symbol_at: Option<IndexedSymbol>, reference_at: Option<IndexedReference>) -> Option<Span> {
    match symbol_at {
        Some(s) => Some(s.span),
        None => match reference_at {
            Some(x) => Some(x.span),
            None => None,
        },
    }
}

/// The hover answer of a position: its text (see `build_hover_markdown`) and where it
/// shows (see `spec_hover_range`); none unless both are there.
pub fn hover_contents(
    symbol_at: Option<&IndexedSymbol>,
    reference_at: Option<&IndexedReference>,
    resolved_symbol: Option<&IndexedSymbol>,
    definition: Option<&HirDefinition>,
    index: &ProjectIndex,
    sidecar_hover_section: Option<String>,
) -> (r: Option<(String, Span)>)
    ensures
        ({
            let sym = match symbol_at { Some(s) => Some(*s), None => None };
            let rf = match reference_at { Some(x) => Some(*x), None => None };
            let text = spec_hover_markdown(
                index.files@,
                sym,
                rf,
                match resolved_symbol { Some(s) => Some(*s), None => None },
                match definition { Some(d) => Some(*d), None => None },
                opt_text(sidecar_hover_section),
            );
            match r {
                Some(h) => text == Some(h.0@) && spec_hover_range(sym, rf) == Some(h.1),
                None => text is None || spec_hover_range(sym, rf) is None,
            }
        }),
{
    let markdown = build_hover_markdown(symbol_at, reference_at, resolved_symbol, definition, index, sidecar_hover_section);
    let range = match symbol_at {
        Some(s) => Some(s.span),
        None => match reference_at {
            Some(x) => Some(x.span),
            None => None,
        },
    };
    match (markdown, range) {
        (Some(m), Some(span)) => Some((m, span)),
        _ => None,
    }
}


} // verus!
