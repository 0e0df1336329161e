//! The document symbols of a file: its indexed declaration with its members, or, for a file
//! the index does not summarize, its top-level symbols with the symbols they contain.
use vstd::prelude::*;

use crate::lsp::context::QueryContext;
use crate::lsp::generated::spec_original_of;
use crate::lsp::members::spec_names;
use crate::lsp::names::{spec_symbol_kind_number, symbol_kind_number};
use crate::lsp::search::{
    lemma_select_bounds, outline_at, spec_children_at, spec_indices, spec_is_child_at, spec_is_top_at, spec_tops_at,
    IndexedSymbol,
};
use crate::lsp::symbols::{
    declaration_kind_name, declaration_range, find_file_summary, member_kind_name, spec_declaration_kind_name,
    spec_declaration_range_end, spec_file_index_from, spec_member_kind_name, DeclarationSummary, FileSummary,
    MemberSummary, ProjectIndex,
};
use crate::text::owned;
use crate::token::Span;

verus! {

/// An entry of a document outline: name, detail (the signature), LSP symbol kind number,
/// the range it covers and the range to select.
pub struct DocumentSymbol {
    pub name: String,
    pub detail: String,
    pub kind: u32,
    pub range: Span,
    pub selection_range: Span,
}

/// An outline entry as plain values.
pub open spec fn spec_doc(d: DocumentSymbol) -> (Seq<char>, Seq<char>, u32, Span, Span) {
    (d.name@, d.detail@, d.kind, d.range, d.selection_range)
}

/// Outline entries as plain values.
pub open spec fn spec_docs(v: Seq<DocumentSymbol>) -> Seq<(Seq<char>, Seq<char>, u32, Span, Span)> {
    v.map_values(|d: DocumentSymbol| spec_doc(d))
}

/// The entry of an indexed symbol: it covers and selects its own range.
pub open spec fn spec_symbol_doc(s: IndexedSymbol) -> (Seq<char>, Seq<char>, u32, Span, Span) {
    (s.name@, s.signature@, spec_symbol_kind_number(s.kind@), s.span, s.span)
}

/// The entry of a declaration's member: it covers and selects its own range.
pub open spec fn spec_member_doc(m: MemberSummary) -> (Seq<char>, Seq<char>, u32, Span, Span) {
    (m.name@, m.signature@, spec_symbol_kind_number(spec_member_kind_name(m.kind)), m.span, m.span)
}

/// The entry of a declaration: it covers the declaration with all its members and
/// selects the declaration's own range.
pub open spec fn spec_declaration_doc(d: DeclarationSummary) -> (Seq<char>, Seq<char>, u32, Span, Span) {
    (
        d.name@,
        d.signature@,
        spec_symbol_kind_number(spec_declaration_kind_name(d.kind)),
        Span { start: d.span.start, end: spec_declaration_range_end(d.span, d.members@) },
        d.span,
    )
}

/// The outline entry of an indexed symbol.
pub fn document_symbol_for(symbol: &IndexedSymbol) -> (r: DocumentSymbol)
    ensures
        spec_doc(r) == spec_symbol_doc(*symbol),
{
    DocumentSymbol {
        name: owned(symbol.name.as_str()),
        detail: owned(symbol.signature.as_str()),
        kind: symbol_kind_number(symbol.kind.as_str()),
        range: symbol.span,
        selection_range: symbol.span,
    }
}

/// The outline of an indexed file: its declaration, with one entry per member in order.
pub fn document_symbol_from_file_summary(file_summary: &FileSummary) -> (r: (DocumentSymbol, Vec<DocumentSymbol>))
    ensures
        spec_doc(r.0) == spec_declaration_doc(file_summary.declaration),
        spec_docs(r.1@) == file_summary.declaration.members@.map_values(|m: MemberSummary| spec_member_doc(m)),
{
    let declaration = &file_summary.declaration;
    let mut children: Vec<DocumentSymbol> = Vec::new();
    let mut i: usize = 0;
    while i < declaration.members.len()
        invariant
            i <= declaration.members@.len(),
            children@.len() == i,
            forall|k: int| 0 <= k < i ==> #[trigger] spec_doc(children@[k]) == spec_member_doc(declaration.members@[k]),
        decreases declaration.members@.len() - i,
    {
        let member = &declaration.members[i];
        children.push(DocumentSymbol {
            name: owned(member.name.as_str()),
            detail: owned(member.signature.as_str()),
            kind: symbol_kind_number(member_kind_name(member.kind)),
            range: member.span,
            selection_range: member.span,
        });
        i = i + 1;
    }
    proof {
        assert(spec_docs(children@) =~= declaration.members@.map_values(|m: MemberSummary| spec_member_doc(m)));
    }
    let range = declaration_range(declaration);
    let top = DocumentSymbol {
        name: owned(declaration.name.as_str()),
        detail: owned(declaration.signature.as_str()),
        kind: symbol_kind_number(declaration_kind_name(declaration.kind)),
        range,
        selection_range: declaration.span,
    };
    (top, children)
}

/// The user files of the symbols, as the context maps them.
pub open spec fn spec_original_paths(context: QueryContext, cwd: Seq<char>, symbols: Seq<IndexedSymbol>) -> Seq<Seq<char>> {
    symbols.map_values(|s: IndexedSymbol| spec_original_of(context, s.file_path@, cwd))
}

/// The document symbols of the file read at `runtime_path`: when the index summarizes that
/// file, its declaration with its members; else each top-level symbol of the same user
/// file, in the order given, with the symbols of that file it contains, in order.
pub open spec fn spec_is_document_outline(
    files: Seq<FileSummary>,
    symbols: Seq<IndexedSymbol>,
    runtime_path: Seq<char>,
    context: QueryContext,
    cwd: Seq<char>,
    r: Seq<(DocumentSymbol, Vec<DocumentSymbol>)>,
) -> bool {
    match spec_file_index_from(files, runtime_path, 0) {
        Some(i) => {
            &&& r.len() == 1
            &&& spec_doc(r[0].0) == spec_declaration_doc(files[i].declaration)
            &&& spec_docs(r[0].1@) == files[i].declaration.members@.map_values(|m: MemberSummary| spec_member_doc(m))
        },
        None => {
            let paths = spec_original_paths(context, cwd, symbols);
            let target = spec_original_of(context, runtime_path, cwd);
            let tops = spec_tops_at(symbols, paths, target);
            &&& r.len() == tops.len()
            &&& forall|k: int| #![trigger r[k]] 0 <= k < r.len() ==> {
                &&& spec_doc(r[k].0) == spec_symbol_doc(symbols[tops[k]])
                &&& spec_docs(r[k].1@) == spec_children_at(symbols, paths, target, symbols[tops[k]].qualified_name@)
                    .map_values(|j: int| spec_symbol_doc(symbols[j]))
            }
        },
    }
}

/// The entries of the symbols at `indices`, in order.
fn documents_at(symbols: &Vec<IndexedSymbol>, indices: &Vec<usize>) -> (r: Vec<DocumentSymbol>)
    requires
        forall|k: int| 0 <= k < indices@.len() ==> #[trigger] indices@[k] < symbols@.len(),
    ensures
        spec_docs(r@) == spec_indices(indices@).map_values(|j: int| spec_symbol_doc(symbols@[j])),
{
    let mut out: Vec<DocumentSymbol> = Vec::new();
    let mut k: usize = 0;
    while k < indices.len()
        invariant
            k <= indices@.len(),
            forall|m: int| 0 <= m < indices@.len() ==> #[trigger] indices@[m] < symbols@.len(),
            out@.len() == k,
            forall|m: int| 0 <= m < k ==> #[trigger] spec_doc(out@[m]) == spec_symbol_doc(symbols@[indices@[m] as int]),
        decreases indices@.len() - k,
    {
        out.push(document_symbol_for(&symbols[indices[k]]));
        k = k + 1;
    }
    proof {
        assert(spec_docs(out@) =~= spec_indices(indices@).map_values(|j: int| spec_symbol_doc(symbols@[j])));
    }
    out
}

proof fn lemma_select_bounds_tops(symbols: Seq<IndexedSymbol>, paths: Seq<Seq<char>>, target: Seq<char>, k: int)
    requires
        0 <= k < spec_tops_at(symbols, paths, target).len(),
    ensures
        0 <= spec_tops_at(symbols, paths, target)[k] < symbols.len(),
{
    lemma_select_bounds(symbols.len() as int, |i: int| spec_is_top_at(symbols, paths, target, i));
}

proof fn lemma_select_bounds_children(
    symbols: Seq<IndexedSymbol>,
    paths: Seq<Seq<char>>,
    target: Seq<char>,
    parent: Seq<char>,
    children: Seq<usize>,
)
    requires
        spec_indices(children) == spec_children_at(symbols, paths, target, parent),
    ensures
        forall|k: int| 0 <= k < children.len() ==> #[trigger] children[k] < symbols.len(),
{
    lemma_select_bounds(symbols.len() as int, |i: int| spec_is_child_at(symbols, paths, target, parent, i));
    assert forall|k: int| 0 <= k < children.len() implies #[trigger] children[k] < symbols.len() by {
        assert(spec_indices(children)[k] == children[k] as int);
    }
}


/// The document symbols of the file read at `runtime_path` (see `spec_is_document_outline`).
pub fn build_document_symbols(
    index: &ProjectIndex,
    symbols: &Vec<IndexedSymbol>,
    runtime_path: &str,
    context: &QueryContext,
    cwd: &str,
) -> (r: Vec<(DocumentSymbol, Vec<DocumentSymbol>)>)
    ensures
        spec_is_document_outline(index.files@, symbols@, runtime_path@, *context, cwd@, r@),
{
    if let Some(file_summary) = find_file_summary(index, runtime_path) {
        let mut out: Vec<(DocumentSymbol, Vec<DocumentSymbol>)> = Vec::new();
        out.push(document_symbol_from_file_summary(file_summary));
        return out;
    }
    let target = context.original_path(runtime_path, cwd);
    let mut paths: Vec<String> = Vec::new();
    let mut i: usize = 0;
    while i < symbols.len()
        invariant
            i <= symbols@.len(),
            paths@.len() == i,
            forall|k: int| 0 <= k < i ==> #[trigger] paths@[k]@ == spec_original_of(*context, symbols@[k].file_path@, cwd@),
        decreases symbols@.len() - i,
    {
        paths.push(context.original_path(symbols[i].file_path.as_str(), cwd));
        i = i + 1;
    }
    proof {
        assert(spec_names(paths@) =~= spec_original_paths(*context, cwd@, symbols@));
    }
    let outline = outline_at(symbols, &paths, target.as_str());
    let ghost paths_v = spec_names(paths@);
    let ghost tops = spec_tops_at(symbols@, paths_v, target@);
    let mut out: Vec<(DocumentSymbol, Vec<DocumentSymbol>)> = Vec::new();
    let mut k: usize = 0;
    while k < outline.len()
        invariant
            k <= outline@.len(),
            outline@.len() == tops.len(),
            paths_v == spec_original_paths(*context, cwd@, symbols@),
            tops == spec_tops_at(symbols@, paths_v, target@),
            forall|m: int| #![trigger outline@[m]] 0 <= m < outline@.len() ==> {
                &&& outline@[m].0 as int == tops[m]
                &&& spec_indices(outline@[m].1@) == spec_children_at(symbols@, paths_v, target@, symbols@[tops[m]].qualified_name@)
            },
            out@.len() == k,
            forall|m: int| #![trigger out@[m]] 0 <= m < k ==> {
                &&& spec_doc(out@[m].0) == spec_symbol_doc(symbols@[tops[m]])
                &&& spec_docs(out@[m].1@) == spec_children_at(symbols@, paths_v, target@, symbols@[tops[m]].qualified_name@)
                    .map_values(|j: int| spec_symbol_doc(symbols@[j]))
            },
        decreases outline@.len() - k,
    {
        let entry = &outline[k];
        proof {
            assert(outline@[k as int].0 as int == tops[k as int]);
            lemma_select_bounds_tops(symbols@, paths_v, target@, k as int);
            lemma_select_bounds_children(symbols@, paths_v, target@, symbols@[tops[k as int]].qualified_name@, entry.1@);
        }
        let top = document_symbol_for(&symbols[entry.0]);
        let children = documents_at(symbols, &entry.1);
        out.push((top, children));
        k = k + 1;
    }
    out
}

} // verus!
