//! The completion entries a request gets: those its context calls for, ranked for the
//! typed prefix; and the question the sidecar is asked instead for a Unity type.
use vstd::prelude::*;

use crate::lsp::catalog::{core_type_completion_entries, spec_is_core_type_entry, spec_offered_core_types};
use crate::lsp::completion::{
    builtin_completion_entries, completion_context_at, is_static_receiver, keyword_completion_entries,
    primitive_type_completion_entries, rank_completion_entries, spec_context_prefix, spec_is_builtin_entry,
    spec_is_context_at, spec_is_keyword_entry, spec_is_primitive_entry, spec_is_ranking, spec_is_static_receiver,
    spec_matching_entries, spec_primitive_type_names, spec_prsm_builtins, spec_prsm_keywords,
    spec_type_prefers_sidecar, type_prefers_sidecar, CompletionContext, CompletionEntry, MemberCompletionContext,
};
use crate::lsp::members::{
    collect_member_completion_entries, opt_str, project_member_completion_entry, project_type_completion_entries,
    resolve_receiver_type, spec_index_counts_fit, spec_is_declaration_entry, spec_is_project_member_entry,
    spec_is_source_entry, spec_member_sources, spec_names, spec_receiver_type,
};
use crate::lsp::sidecar::opt_text;
use crate::lsp::symbols::{find_file_summary, spec_file_index_from, FileSummary, ProjectIndex};
use crate::lsp::{canonical_type_ident, spec_canonical_type_ident};
use crate::text::owned;

verus! {

// ── The entries each context calls for ───────────────────────────

/// `es` are the members offered after a receiver of type `receiver_type`, as
/// `spec_member_sources` lists them from an empty visited list.
pub open spec fn spec_is_member_entries(files: Seq<FileSummary>, receiver_type: Seq<char>, es: Seq<CompletionEntry>) -> bool {
    let srcs = spec_member_sources(files, receiver_type, Seq::empty(), files.len()).0;
    &&& es.len() == srcs.len()
    &&& forall|j: int| 0 <= j < es.len() ==> spec_is_source_entry(files, #[trigger] es[j], srcs[j])
}

/// The entries of a member completion: the members offered for the receiver's type, or none
/// when the receiver's type is not known.
pub open spec fn spec_is_member_context_entries(
    m: MemberCompletionContext,
    text: Seq<char>,
    path: Seq<char>,
    files: Seq<FileSummary>,
    definition: Option<Seq<char>>,
    es: Seq<CompletionEntry>,
) -> bool {
    match spec_receiver_type(m.receiver@, spec_names(m.receiver_chain@), text, path, files, definition) {
        Some(t) => spec_is_member_entries(files, t, es),
        None => es.len() == 0,
    }
}

/// `es` are the entries of a type completion: PrSM's primitive types, the core types that
/// are not primitives, and the project's declarations, in that order.
pub open spec fn spec_is_type_entries(files: Seq<FileSummary>, es: Seq<CompletionEntry>) -> bool {
    let p = spec_primitive_type_names().len();
    let c = spec_offered_core_types().len();
    &&& es.len() == p + c + files.len()
    &&& forall|i: int| 0 <= i < p ==> spec_is_primitive_entry(#[trigger] es[i], spec_primitive_type_names()[i])
    &&& forall|i: int| 0 <= i < c ==> spec_is_core_type_entry(#[trigger] es[p + i], spec_offered_core_types()[i])
    &&& forall|i: int| 0 <= i < files.len() ==> spec_is_declaration_entry(#[trigger] es[p + c + i], files[i].declaration)
}

/// How many members the declaration of the file at `path` has (none without that file).
pub open spec fn spec_this_member_count(files: Seq<FileSummary>, path: Seq<char>) -> int {
    match spec_file_index_from(files, path, 0) {
        Some(i) => files[i].declaration.members@.len() as int,
        None => 0,
    }
}

/// `es` are the entries of a general completion: the keywords, the builtin functions, the
/// type entries, and the members of the document's own declaration, in that order.
pub open spec fn spec_is_general_entries(files: Seq<FileSummary>, path: Seq<char>, es: Seq<CompletionEntry>) -> bool {
    let k = spec_prsm_keywords().len();
    let b = spec_prsm_builtins().len();
    let t = spec_primitive_type_names().len() + spec_offered_core_types().len() + files.len();
    &&& es.len() == k + b + t + spec_this_member_count(files, path)
    &&& forall|i: int| 0 <= i < k ==> spec_is_keyword_entry(#[trigger] es[i], spec_prsm_keywords()[i])
    &&& forall|i: int| 0 <= i < b ==> spec_is_builtin_entry(#[trigger] es[k + i], spec_prsm_builtins()[i])
    &&& spec_is_type_entries(files, es.subrange((k + b) as int, (k + b + t) as int))
    &&& forall|i: int| 0 <= i < spec_this_member_count(files, path) ==> {
        let d = files[spec_file_index_from(files, path, 0)->0].declaration;
        spec_is_project_member_entry(#[trigger] es[k + b + t + i], d.members@[i], d.name@, 0)
    }
}

/// The entries a completion context calls for.
pub open spec fn spec_is_context_entries(
    context: CompletionContext,
    text: Seq<char>,
    path: Seq<char>,
    files: Seq<FileSummary>,
    definition: Option<Seq<char>>,
    es: Seq<CompletionEntry>,
) -> bool {
    match context {
        CompletionContext::Member(m) => spec_is_member_context_entries(m, text, path, files, definition, es),
        CompletionContext::Type(_) => spec_is_type_entries(files, es),
        CompletionContext::General(_) => spec_is_general_entries(files, path, es),
    }
}

/// The members offered after the receiver of a member completion (see
/// `spec_is_member_context_entries`).
pub fn build_member_completion_entries(
    context: &MemberCompletionContext,
    document_text: &str,
    runtime_path: &str,
    index: &ProjectIndex,
    definition_type: Option<&str>,
) -> (r: Vec<CompletionEntry>)
    ensures
        spec_is_member_context_entries(*context, document_text@, runtime_path@, index.files@, opt_str(definition_type), r@),
{
    let receiver_type = match resolve_receiver_type(context, document_text, runtime_path, index, definition_type) {
        Some(t) => t,
        None => return Vec::new(),
    };
    let mut entries: Vec<CompletionEntry> = Vec::new();
    let mut visited: Vec<String> = Vec::new();
    proof {
        assert(spec_names(visited@) =~= Seq::<Seq<char>>::empty());
    }
    collect_member_completion_entries(receiver_type.as_str(), index, &mut visited, &mut entries);
    proof {
        let srcs = spec_member_sources(index.files@, receiver_type@, Seq::empty(), index.files@.len()).0;
        assert forall|j: int| 0 <= j < entries@.len() implies spec_is_source_entry(index.files@, #[trigger] entries@[j], srcs[j]) by {
            assert(entries@[0 + j] == entries@[j]);
        }
    }
    entries
}

/// The entries of a type completion (see `spec_is_type_entries`).
pub fn build_type_completion_entries(index: &ProjectIndex) -> (r: Vec<CompletionEntry>)
    requires
        spec_index_counts_fit(index.files@),
    ensures
        spec_is_type_entries(index.files@, r@),
{
    let mut entries = primitive_type_completion_entries();
    let ghost prim = entries@;
    let mut core = core_type_completion_entries();
    let ghost core_view = core@;
    entries.append(&mut core);
    let mut project = project_type_completion_entries(index);
    let ghost project_view = project@;
    let ghost mid = entries@;
    entries.append(&mut project);
    proof {
        let p = spec_primitive_type_names().len();
        let c = spec_offered_core_types().len();
        assert forall|i: int| 0 <= i < p implies spec_is_primitive_entry(#[trigger] entries@[i], spec_primitive_type_names()[i]) by {
            assert(entries@[i] == mid[i] && mid[i] == prim[i]);
        }
        assert forall|i: int| 0 <= i < c implies spec_is_core_type_entry(#[trigger] entries@[p + i], spec_offered_core_types()[i]) by {
            assert(entries@[p + i] == mid[p + i] && mid[p + i] == core_view[i]);
        }
        assert forall|i: int| 0 <= i < index.files@.len() implies spec_is_declaration_entry(#[trigger] entries@[p + c + i], index.files@[i].declaration) by {
            assert(entries@[p + c + i] == project_view[i]);
        }
    }
    entries
}

/// The entries of a general completion (see `spec_is_general_entries`).
pub fn build_general_completion_entries(index: &ProjectIndex, runtime_path: &str) -> (r: Vec<CompletionEntry>)
    requires
        spec_index_counts_fit(index.files@),
    ensures
        spec_is_general_entries(index.files@, runtime_path@, r@),
{
    let mut entries = keyword_completion_entries();
    let ghost kw = entries@;
    let mut builtins = builtin_completion_entries();
    let ghost bv = builtins@;
    entries.append(&mut builtins);
    let ghost after_builtins = entries@;
    let mut types = build_type_completion_entries(index);
    let ghost tv = types@;
    entries.append(&mut types);
    let ghost after_types = entries@;
    let mut own: Vec<CompletionEntry> = Vec::new();
    match find_file_summary(index, runtime_path) {
        Some(f) => {
            let mut i: usize = 0;
            while i < f.declaration.members.len()
                invariant
                    i <= f.declaration.members@.len(),
                    own@.len() == i,
                    forall|j: int| 0 <= j < i ==> spec_is_project_member_entry(
                        #[trigger] own@[j], f.declaration.members@[j], f.declaration.name@, 0),
                decreases f.declaration.members@.len() - i,
            {
                own.push(project_member_completion_entry(&f.declaration.members[i], f.declaration.name.as_str(), 0));
                i = i + 1;
            }
        },
        None => {},
    }
    let ghost ov = own@;
    entries.append(&mut own);
    proof {
        let k = spec_prsm_keywords().len();
        let b = spec_prsm_builtins().len();
        let t = spec_primitive_type_names().len() + spec_offered_core_types().len() + index.files@.len();
        assert forall|i: int| 0 <= i < k implies spec_is_keyword_entry(#[trigger] entries@[i], spec_prsm_keywords()[i]) by {
            assert(entries@[i] == after_types[i] && after_types[i] == after_builtins[i] && after_builtins[i] == kw[i]);
        }
        assert forall|i: int| 0 <= i < b implies spec_is_builtin_entry(#[trigger] entries@[k + i], spec_prsm_builtins()[i]) by {
            assert(entries@[k + i] == after_types[k + i] && after_types[k + i] == after_builtins[k + i] && after_builtins[k + i] == bv[i]);
        }
        assert(entries@.subrange((k + b) as int, (k + b + t) as int) =~= tv);
        assert forall|i: int| 0 <= i < spec_this_member_count(index.files@, runtime_path@) implies {
            let d = index.files@[spec_file_index_from(index.files@, runtime_path@, 0)->0].declaration;
            spec_is_project_member_entry(#[trigger] entries@[k + b + t + i], d.members@[i], d.name@, 0)
        } by {
            assert(entries@[k + b + t + i] == ov[i]);
        }
    }
    entries
}

/// The entries a completion context calls for (see `spec_is_context_entries`).
pub fn completion_entries_for(
    context: &CompletionContext,
    document_text: &str,
    runtime_path: &str,
    index: &ProjectIndex,
    definition_type: Option<&str>,
) -> (r: Vec<CompletionEntry>)
    requires
        spec_index_counts_fit(index.files@),
    ensures
        spec_is_context_entries(*context, document_text@, runtime_path@, index.files@, opt_str(definition_type), r@),
{
    match context {
        CompletionContext::Member(m) => build_member_completion_entries(m, document_text, runtime_path, index, definition_type),
        CompletionContext::Type(_) => build_type_completion_entries(index),
        CompletionContext::General(_) => build_general_completion_entries(index, runtime_path),
    }
}

fn copy_text(o: &Option<String>) -> (r: Option<String>)
    ensures
        r == *o,
{
    match o {
        Some(s) => Some(s.clone()),
        None => None,
    }
}

fn copy_entry(e: &CompletionEntry) -> (r: CompletionEntry)
    ensures
        r == *e,
{
    CompletionEntry {
        label: e.label.clone(),
        kind: e.kind,
        detail: e.detail.clone(),
        documentation: copy_text(&e.documentation),
        insert_text: copy_text(&e.insert_text),
        sort_group: e.sort_group,
    }
}

/// The completion entries for the caret at (`line`, `col`) of a document: the entries its
/// context calls for, ranked for the typed prefix (`spec_is_ranking`).
pub fn completion_items(
    document_text: &str,
    line: u32,
    col: u32,
    runtime_path: &str,
    index: &ProjectIndex,
    definition_type: Option<&str>,
) -> (r: Vec<CompletionEntry>)
    requires
        spec_index_counts_fit(index.files@),
    ensures
        exists|context: CompletionContext, all: Seq<CompletionEntry>, ranked: Seq<int>| {
            &&& spec_is_context_at(document_text@, line, col, context)
            &&& spec_is_context_entries(context, document_text@, runtime_path@, index.files@, opt_str(definition_type), all)
            &&& spec_is_ranking(all, spec_matching_entries(all, spec_context_prefix(context)), ranked)
            &&& r@.len() == ranked.len()
            &&& forall|i: int| 0 <= i < ranked.len() ==> #[trigger] r@[i] == all[ranked[i]]
        },
{
    let context = completion_context_at(document_text, line, col);
    let entries = completion_entries_for(&context, document_text, runtime_path, index, definition_type);
    let prefix = context.prefix();
    let ranked = rank_completion_entries(&entries, prefix);
    let ghost rv = ranked@.map_values(|i: usize| i as int);
    let mut out: Vec<CompletionEntry> = Vec::new();
    let mut i: usize = 0;
    while i < ranked.len()
        invariant
            i <= ranked@.len(),
            rv == ranked@.map_values(|i: usize| i as int),
            forall|j: int| 0 <= j < ranked@.len() ==> #[trigger] ranked@[j] < entries@.len(),
            out@.len() == i,
            forall|j: int| 0 <= j < i ==> #[trigger] out@[j] == entries@[rv[j]],
        decreases ranked@.len() - i,
    {
        out.push(copy_entry(&entries[ranked[i]]));
        i = i + 1;
    }
    proof {
        assert(spec_context_prefix(context) == prefix@);
        assert(spec_is_context_at(document_text@, line, col, context));
    }
    out
}

// ── Asking the sidecar ───────────────────────────────────────────

/// What the sidecar is asked for a member completion on a Unity type: the type's bare
/// name, the typed prefix, and whether instance or static members are wanted.
pub struct SidecarCompletionQuery {
    pub ty_name: String,
    pub prefix: String,
    pub include_instance_members: bool,
    pub include_static_members: bool,
}

/// The sidecar query of a completion: only for a member completion whose receiver's type
/// resolves and is one the sidecar should complete; static members when the receiver is
/// static, instance members otherwise.
pub open spec fn spec_sidecar_query(
    context: CompletionContext,
    text: Seq<char>,
    path: Seq<char>,
    files: Seq<FileSummary>,
    definition: Option<Seq<char>>,
    q: Option<SidecarCompletionQuery>,
) -> bool {
    match context {
        CompletionContext::Member(m) => match spec_receiver_type(m.receiver@, spec_names(m.receiver_chain@), text, path, files, definition) {
            Some(t) => if spec_type_prefers_sidecar(t, files) {
                q matches Some(query) && {
                    let is_static = spec_is_static_receiver(m.receiver@, t);
                    &&& query.ty_name@ == spec_canonical_type_ident(t)
                    &&& query.prefix@ == m.prefix@
                    &&& query.include_instance_members == !is_static
                    &&& query.include_static_members == is_static
                }
            } else {
                q is None
            },
            None => q is None,
        },
        _ => q is None,
    }
}

/// The sidecar query of a completion at (`line`, `col`) (see `spec_sidecar_query`).
pub fn sidecar_completion_query(
    document_text: &str,
    line: u32,
    col: u32,
    runtime_path: &str,
    index: &ProjectIndex,
    definition_type: Option<&str>,
) -> (r: Option<SidecarCompletionQuery>)
    ensures
        exists|context: CompletionContext| {
            &&& spec_is_context_at(document_text@, line, col, context)
            &&& spec_sidecar_query(context, document_text@, runtime_path@, index.files@, opt_str(definition_type), r)
        },
{
    let context = completion_context_at(document_text, line, col);
    let r = match &context {
        CompletionContext::Member(m) => {
            match resolve_receiver_type(m, document_text, runtime_path, index, definition_type) {
                Some(t) => {
                    if type_prefers_sidecar(t.as_str(), index) {
                        let is_static = is_static_receiver(m.receiver.as_str(), t.as_str());
                        Some(SidecarCompletionQuery {
                            ty_name: canonical_type_ident(t.as_str()),
                            prefix: owned(m.prefix.as_str()),
                            include_instance_members: !is_static,
                            include_static_members: is_static,
                        })
                    } else {
                        None
                    }
                },
                None => None,
            }
        },
        _ => None,
    };
    proof {
        assert(spec_sidecar_query(context, document_text@, runtime_path@, index.files@, opt_str(definition_type), r));
    }
    r
}

} // verus!
