//! What follows a receiver in a member completion: the receiver's type, and the members
//! of that type, its base types and the matching core type.
use vstd::prelude::*;

use crate::lsp::catalog::{
    core_member_completion_entry, core_type_by_name, core_type_model, spec_core_type_by_name,
    spec_core_type_from, spec_core_types, spec_is_core_member_entry,
};
use crate::lsp::completion::{
    builtin_receiver_type, resolve_receiver_type_from_text, spec_builtin_receiver_type, spec_lines,
    spec_receiver_type_in_lines, MemberCompletionContext,
    completion_snippet_for_signature, signature_result_type, spec_completion_snippet_for_signature,
    spec_signature_result_type, CompletionEntry, CompletionEntryKind,
};
use crate::lsp::symbols::{
    declaration_completion_kind, declaration_kind_name, member_completion_kind, spec_declaration_completion_kind,
    spec_declaration_kind_name, spec_member_completion_kind,
};
use crate::text::{cat3, int_text, join_texts, spec_decimal, spec_join_with};
use crate::lsp::sidecar::opt_text;
use crate::lsp::symbols::{
    find_file_summary, spec_file_index_from, DeclarationKind, DeclarationSummary, FileSummary, MemberSummary,
    ProjectIndex,
};
use crate::lsp::{canonical_type_ident, spec_canonical_type_ident};
use crate::text::{eq_ignore_ascii_case, owned, spec_eq_ignore_ascii_case, str_eq};

verus! {

// ── Looking things up by name ────────────────────────────────────

/// The index of the first indexed file from `i` on whose declaration is named `name`.
pub open spec fn spec_declaration_index_from(files: Seq<FileSummary>, name: Seq<char>, i: int) -> Option<int>
    decreases files.len() - i,
{
    if i < 0 || i >= files.len() {
        None
    } else if files[i].declaration.name@ == name {
        Some(i)
    } else {
        spec_declaration_index_from(files, name, i + 1)
    }
}

/// The file whose declaration a type name refers to: the first one named by the type
/// name's bare identifier.
pub open spec fn spec_declaration_by_name(files: Seq<FileSummary>, ty_name: Seq<char>) -> Option<int> {
    spec_declaration_index_from(files, spec_canonical_type_ident(ty_name), 0)
}

proof fn lemma_declaration_index_bounds(files: Seq<FileSummary>, name: Seq<char>, i: int)
    ensures
        spec_declaration_index_from(files, name, i) matches Some(k) ==> 0 <= i <= k < files.len(),
    decreases files.len() - i,
{
    if 0 <= i < files.len() && files[i].declaration.name@ != name {
        lemma_declaration_index_bounds(files, name, i + 1);
    }
}

/// The declaration of the project that a type name refers to (see `spec_declaration_by_name`).
pub fn project_declaration_by_name<'a>(index: &'a ProjectIndex, ty_name: &str) -> (r: Option<&'a DeclarationSummary>)
    ensures
        match spec_declaration_by_name(index.files@, ty_name@) {
            Some(i) => 0 <= i < index.files@.len() && (r matches Some(d) && *d == index.files@[i].declaration),
            None => r is None,
        },
{
    let canonical = canonical_type_ident(ty_name);
    proof {
        lemma_declaration_index_bounds(index.files@, canonical@, 0);
    }
    let mut i: usize = 0;
    while i < index.files.len()
        invariant
            i <= index.files@.len(),
            canonical@ == spec_canonical_type_ident(ty_name@),
            spec_declaration_index_from(index.files@, canonical@, 0) == spec_declaration_index_from(index.files@, canonical@, i as int),
        decreases index.files@.len() - i,
    {
        if str_eq(index.files[i].declaration.name.as_str(), canonical.as_str()) {
            proof {
                assert(spec_declaration_index_from(index.files@, canonical@, i as int) == Some(i as int));
            }
            return Some(&index.files[i].declaration);
        }
        i = i + 1;
    }
    None
}

/// The index of the first member from `i` on named `name` up to ASCII case.
pub open spec fn spec_member_index_from(members: Seq<MemberSummary>, name: Seq<char>, i: int) -> Option<int>
    decreases members.len() - i,
{
    if i < 0 || i >= members.len() {
        None
    } else if spec_eq_ignore_ascii_case(members[i].name@, name) {
        Some(i)
    } else {
        spec_member_index_from(members, name, i + 1)
    }
}

proof fn lemma_member_index_bounds(members: Seq<MemberSummary>, name: Seq<char>, i: int)
    ensures
        spec_member_index_from(members, name, i) matches Some(k) ==> 0 <= i <= k < members.len(),
    decreases members.len() - i,
{
    if 0 <= i < members.len() && !spec_eq_ignore_ascii_case(members[i].name@, name) {
        lemma_member_index_bounds(members, name, i + 1);
    }
}

/// The index of the first core member from `i` on named `name` up to ASCII case.
pub open spec fn spec_core_member_index_from(
    members: Seq<(Seq<char>, CompletionEntryKind, Seq<char>, Seq<char>)>,
    name: Seq<char>,
    i: int,
) -> Option<int>
    decreases members.len() - i,
{
    if i < 0 || i >= members.len() {
        None
    } else if spec_eq_ignore_ascii_case(members[i].0, name) {
        Some(i)
    } else {
        spec_core_member_index_from(members, name, i + 1)
    }
}

proof fn lemma_core_member_index_bounds(members: Seq<(Seq<char>, CompletionEntryKind, Seq<char>, Seq<char>)>, name: Seq<char>, i: int)
    ensures
        spec_core_member_index_from(members, name, i) matches Some(k) ==> 0 <= i <= k < members.len(),
    decreases members.len() - i,
{
    if 0 <= i < members.len() && !spec_eq_ignore_ascii_case(members[i].0, name) {
        lemma_core_member_index_bounds(members, name, i + 1);
    }
}

// ── The result type of a member ──────────────────────────────────

/// The result type of the member of a core type named `member` (ASCII case ignored), read
/// from its signature.
pub open spec fn spec_core_member_result_type(ty_name: Seq<char>, member: Seq<char>) -> Option<Seq<char>> {
    match spec_core_type_by_name(ty_name) {
        Some(t) => match spec_core_member_index_from(t.5, member, 0) {
            Some(k) => spec_signature_result_type(t.5[k].2),
            None => None,
        },
        None => None,
    }
}

/// The result type of member `member` of type `ty`: the project's declaration of the type
/// is asked first (its own member, else its base type's, following at most `fuel` base
/// types), then the core type of that name.
pub open spec fn spec_member_result_type(files: Seq<FileSummary>, ty: Seq<char>, member: Seq<char>, fuel: nat) -> Option<Seq<char>>
    decreases fuel,
{
    let canonical = spec_canonical_type_ident(ty);
    match spec_declaration_by_name(files, canonical) {
        Some(i) => {
            let d = files[i].declaration;
            match spec_member_index_from(d.members@, member, 0) {
                Some(k) => spec_signature_result_type(d.members@[k].signature@),
                None => match d.base_type {
                    Some(base) => if fuel == 0 {
                        None
                    } else {
                        spec_member_result_type(files, base@, member, (fuel - 1) as nat)
                    },
                    None => spec_core_member_result_type(canonical, member),
                },
            }
        },
        None => spec_core_member_result_type(canonical, member),
    }
}

/// The result type named in a project member's signature.
pub fn member_result_type(member: &MemberSummary) -> (r: Option<String>)
    ensures
        opt_text(r) == spec_signature_result_type(member.signature@),
{
    signature_result_type(member.signature.as_str())
}

fn core_member_result_type(ty_name: &str, member_name: &str) -> (r: Option<String>)
    ensures
        opt_text(r) == spec_core_member_result_type(ty_name@, member_name@),
{
    let t = match core_type_by_name(ty_name) {
        Some(t) => t,
        None => return None,
    };
    let ghost model = core_type_model(t);
    proof {
        lemma_core_member_index_bounds(model.5, member_name@, 0);
    }
    let mut k: usize = 0;
    while k < t.members.len()
        invariant
            k <= t.members@.len(),
            model == core_type_model(t),
            spec_core_type_by_name(ty_name@) == Some(model),
            spec_core_member_index_from(model.5, member_name@, 0) == spec_core_member_index_from(model.5, member_name@, k as int),
        decreases t.members@.len() - k,
    {
        proof {
            assert(model.5[k as int] == crate::lsp::catalog::core_member_model(t.members@[k as int]));
        }
        if eq_ignore_ascii_case(t.members[k].name, member_name) {
            proof {
                assert(spec_core_member_index_from(model.5, member_name@, k as int) == Some(k as int));
            }
            return signature_result_type(t.members[k].signature);
        }
        k = k + 1;
    }
    None
}

fn member_result_type_within(ty_name: &str, member_name: &str, index: &ProjectIndex, fuel: usize) -> (r: Option<String>)
    ensures
        opt_text(r) == spec_member_result_type(index.files@, ty_name@, member_name@, fuel as nat),
    decreases fuel,
{
    let canonical = canonical_type_ident(ty_name);
    match project_declaration_by_name(index, canonical.as_str()) {
        Some(d) => {
            proof {
                lemma_member_index_bounds(d.members@, member_name@, 0);
            }
            let mut k: usize = 0;
            while k < d.members.len()
                invariant
                    k <= d.members@.len(),
                    canonical@ == spec_canonical_type_ident(ty_name@),
                    match spec_declaration_by_name(index.files@, canonical@) {
                        Some(i) => 0 <= i < index.files@.len() && *d == index.files@[i].declaration,
                        None => false,
                    },
                    spec_member_index_from(d.members@, member_name@, 0) == spec_member_index_from(d.members@, member_name@, k as int),
                decreases d.members@.len() - k,
            {
                if eq_ignore_ascii_case(d.members[k].name.as_str(), member_name) {
                    proof {
                        assert(spec_member_index_from(d.members@, member_name@, k as int) == Some(k as int));
                    }
                    return member_result_type(&d.members[k]);
                }
                k = k + 1;
            }
            match &d.base_type {
                Some(base) => {
                    if fuel == 0 {
                        return None;
                    }
                    return member_result_type_within(base.as_str(), member_name, index, fuel - 1);
                },
                None => {},
            }
        },
        None => {},
    }
    core_member_result_type(canonical.as_str(), member_name)
}

/// The result type of member `member_name` of type `ty_name` (see `spec_member_result_type`).
/// The chain of base types is followed at most as many steps as the index has files: a
/// longer chain passes some declaration twice, and from there it would never end.
pub fn resolve_member_result_type(ty_name: &str, member_name: &str, index: &ProjectIndex) -> (r: Option<String>)
    ensures
        opt_text(r) == spec_member_result_type(index.files@, ty_name@, member_name@, index.files@.len()),
{
    member_result_type_within(ty_name, member_name, index, index.files.len())
}


// ── Entries of the project's own declarations ────────────────────

/// The documentation of a project member's entry: its signature in a PrSM code block and
/// the declaration it is defined on.
pub open spec fn spec_project_member_doc(signature: Seq<char>, container: Seq<char>) -> Seq<char> {
    "```prsm\n"@ + signature + "\n```\n\nDefined on "@ + container + "."@
}

/// The completion entry of a project member defined on `container`, in sort group `group`.
pub open spec fn spec_is_project_member_entry(e: CompletionEntry, m: MemberSummary, container: Seq<char>, group: u8) -> bool {
    let kind = spec_member_completion_kind(m.kind);
    &&& e.label@ == m.name@
    &&& e.kind == kind
    &&& e.detail@ == m.signature@
    &&& e.documentation matches Some(d) && d@ == spec_project_member_doc(m.signature@, container)
    &&& match (e.insert_text, spec_completion_snippet_for_signature(m.name@, m.signature@, kind)) {
        (Some(a), Some(b)) => a@ == b,
        (None, None) => true,
        _ => false,
    }
    &&& e.sort_group == group
}

/// The completion entry of project member `member`, defined on `container_name`.
pub fn project_member_completion_entry(member: &MemberSummary, container_name: &str, sort_group: u8) -> (r: CompletionEntry)
    ensures
        spec_is_project_member_entry(r, *member, container_name@, sort_group),
{
    let kind = member_completion_kind(member.kind);
    let mut doc = cat3("```prsm\n", member.signature.as_str(), "\n```\n\nDefined on ");
    doc.append(container_name);
    doc.append(".");
    CompletionEntry {
        label: owned(member.name.as_str()),
        kind,
        detail: owned(member.signature.as_str()),
        documentation: Some(doc),
        insert_text: completion_snippet_for_signature(member.name.as_str(), member.signature.as_str(), kind),
        sort_group,
    }
}

/// The documentation parts of a declaration's entry: its signature in a PrSM code block,
/// then what it extends, what it implements and how many members it has, each where there
/// is something to say.
pub open spec fn spec_declaration_doc_parts(d: DeclarationSummary) -> Seq<Seq<char>> {
    let head = seq!["```prsm\n"@ + d.signature@ + "\n```"@];
    let with_base = match d.base_type {
        Some(b) => head.push("Extends "@ + b@),
        None => head,
    };
    let with_interfaces = if d.interfaces@.len() > 0 {
        with_base.push("Implements "@ + spec_join_with(d.interfaces@.map_values(|s: String| s@), ", "@))
    } else {
        with_base
    };
    if d.members@.len() > 0 {
        with_interfaces.push("Members: "@ + spec_decimal(d.members@.len() as int))
    } else {
        with_interfaces
    }
}

/// The completion entry of a project declaration, in the project type group.
pub open spec fn spec_is_declaration_entry(e: CompletionEntry, d: DeclarationSummary) -> bool {
    &&& e.label@ == d.name@
    &&& e.kind == spec_declaration_completion_kind(d.kind)
    &&& e.detail@ == spec_declaration_kind_name(d.kind)
    &&& e.documentation matches Some(doc) && doc@ == spec_join_with(spec_declaration_doc_parts(d), "\n\n"@)
    &&& e.insert_text is None
    &&& e.sort_group == 4
}

/// The completion entry of a project declaration.
pub fn project_declaration_completion_entry(declaration: &DeclarationSummary) -> (r: CompletionEntry)
    requires
        declaration.members@.len() <= i64::MAX,
    ensures
        spec_is_declaration_entry(r, *declaration),
{
    let mut parts: Vec<String> = Vec::new();
    parts.push(cat3("```prsm\n", declaration.signature.as_str(), "\n```"));
    match &declaration.base_type {
        Some(b) => {
            let mut p = owned("Extends ");
            p.append(b.as_str());
            parts.push(p);
        },
        None => {},
    }
    if declaration.interfaces.len() > 0 {
        let joined = join_texts(&declaration.interfaces, ", ");
        let mut p = owned("Implements ");
        p.append(joined.as_str());
        parts.push(p);
    }
    if declaration.members.len() > 0 {
        let count = int_text(declaration.members.len() as i64);
        let mut p = owned("Members: ");
        p.append(count.as_str());
        parts.push(p);
    }
    proof {
        assert(parts@.map_values(|p: String| p@) =~= spec_declaration_doc_parts(*declaration));
    }
    let doc = join_texts(&parts, "\n\n");
    CompletionEntry {
        label: owned(declaration.name.as_str()),
        kind: declaration_completion_kind(declaration.kind),
        detail: owned(declaration_kind_name(declaration.kind)),
        documentation: Some(doc),
        insert_text: None,
        sort_group: 4,
    }
}

/// Every declaration of the index has fewer members than `i64` counts.
pub open spec fn spec_index_counts_fit(files: Seq<FileSummary>) -> bool {
    forall|i: int| 0 <= i < files.len() ==> #[trigger] files[i].declaration.members@.len() <= i64::MAX
}

/// One entry per indexed file's declaration, in index order.
pub fn project_type_completion_entries(index: &ProjectIndex) -> (r: Vec<CompletionEntry>)
    requires
        spec_index_counts_fit(index.files@),
    ensures
        r@.len() == index.files@.len(),
        forall|i: int| 0 <= i < r@.len() ==> spec_is_declaration_entry(#[trigger] r@[i], index.files@[i].declaration),
{
    let mut entries: Vec<CompletionEntry> = Vec::new();
    let mut i: usize = 0;
    while i < index.files.len()
        invariant
            i <= index.files@.len(),
            spec_index_counts_fit(index.files@),
            entries@.len() == i,
            forall|j: int| 0 <= j < i ==> spec_is_declaration_entry(#[trigger] entries@[j], index.files@[j].declaration),
        decreases index.files@.len() - i,
    {
        proof {
            assert(index.files@[i as int].declaration.members@.len() <= i64::MAX);
        }
        entries.push(project_declaration_completion_entry(&index.files[i].declaration));
        i = i + 1;
    }
    entries
}


// ── The members offered after a receiver ─────────────────────────

/// Where an offered member comes from: `(true, i, k)` is member `k` of the declaration of
/// indexed file `i`; `(false, t, k)` is member `k` of core type `t`.
pub open spec fn spec_is_source_entry(files: Seq<FileSummary>, e: CompletionEntry, src: (bool, int, int)) -> bool {
    if src.0 {
        let d = files[src.1].declaration;
        spec_is_project_member_entry(e, d.members@[src.2], d.name@, 0)
    } else {
        let t = spec_core_types()[src.1];
        spec_is_core_member_entry(e, t.5[src.2], t.0)
    }
}

/// The members offered for type `ty`, and the type names visited once they are collected.
/// A type already visited offers nothing. Otherwise its bare identifier is marked visited,
/// then the project's declaration of that name offers what `spec_own_sources` says, and
/// the core type of that name offers its members last.
pub open spec fn spec_member_sources(files: Seq<FileSummary>, ty: Seq<char>, visited: Seq<Seq<char>>, fuel: nat) -> (Seq<(bool, int, int)>, Seq<Seq<char>>)
    decreases fuel, 1nat,
{
    let canonical = spec_canonical_type_ident(ty);
    if visited.contains(canonical) {
        (Seq::empty(), visited)
    } else {
        let own = spec_own_sources(files, canonical, visited.push(canonical), fuel);
        (own.0 + spec_core_sources(canonical), own.1)
    }
}

/// What the project's declaration named by `canonical` offers: its members, then (following
/// at most `fuel` base types) what its base type offers; and the visited names after that.
pub open spec fn spec_own_sources(files: Seq<FileSummary>, canonical: Seq<char>, marked: Seq<Seq<char>>, fuel: nat) -> (Seq<(bool, int, int)>, Seq<Seq<char>>)
    decreases fuel, 0nat,
{
    match spec_declaration_by_name(files, canonical) {
        Some(i) => {
            let d = files[i].declaration;
            let mine = Seq::new(d.members@.len(), |k: int| (true, i, k));
            match d.base_type {
                Some(base) => if fuel == 0 {
                    (mine, marked)
                } else {
                    let inherited = spec_member_sources(files, base@, marked, (fuel - 1) as nat);
                    (mine + inherited.0, inherited.1)
                },
                None => (mine, marked),
            }
        },
        None => (Seq::empty(), marked),
    }
}

/// The members of the core type named by `canonical`, if there is one.
pub open spec fn spec_core_sources(canonical: Seq<char>) -> Seq<(bool, int, int)> {
    match spec_core_type_from(spec_canonical_type_ident(canonical), 0) {
        Some(t) => Seq::new(spec_core_types()[t].5.len(), |k: int| (false, t, k)),
        None => Seq::empty(),
    }
}

/// The views of a list of names.
pub open spec fn spec_names(v: Seq<String>) -> Seq<Seq<char>> {
    v.map_values(|s: String| s@)
}

fn names_contain(names: &Vec<String>, name: &str) -> (r: bool)
    ensures
        r == spec_names(names@).contains(name@),
{
    let mut i: usize = 0;
    while i < names.len()
        invariant
            i <= names@.len(),
            forall|j: int| 0 <= j < i ==> names@[j]@ != name@,
        decreases names@.len() - i,
    {
        if str_eq(names[i].as_str(), name) {
            proof {
                assert(spec_names(names@)[i as int] == name@);
            }
            return true;
        }
        i = i + 1;
    }
    proof {
        assert forall|j: int| 0 <= j < spec_names(names@).len() implies spec_names(names@)[j] != name@ by {
            assert(spec_names(names@)[j] == names@[j]@);
        }
    }
    false
}

fn collect_member_entries_within(
    ty_name: &str,
    index: &ProjectIndex,
    visited: &mut Vec<String>,
    entries: &mut Vec<CompletionEntry>,
    fuel: usize,
)
    ensures
        spec_names(final(visited)@) == spec_member_sources(index.files@, ty_name@, spec_names(old(visited)@), fuel as nat).1,
        final(entries)@.len() == old(entries)@.len() + spec_member_sources(index.files@, ty_name@, spec_names(old(visited)@), fuel as nat).0.len(),
        forall|j: int| 0 <= j < old(entries)@.len() ==> #[trigger] final(entries)@[j] == old(entries)@[j],
        forall|j: int| 0 <= j < spec_member_sources(index.files@, ty_name@, spec_names(old(visited)@), fuel as nat).0.len()
            ==> spec_is_source_entry(
                index.files@,
                #[trigger] final(entries)@[old(entries)@.len() + j],
                spec_member_sources(index.files@, ty_name@, spec_names(old(visited)@), fuel as nat).0[j],
            ),
    decreases fuel,
{
    let ghost files = index.files@;
    let ghost srcs = spec_member_sources(files, ty_name@, spec_names(visited@), fuel as nat);
    let ghost start = entries@.len();
    let ghost first = entries@;
    let canonical = canonical_type_ident(ty_name);
    if names_contain(visited, canonical.as_str()) {
        return;
    }
    let ghost before_mark = spec_names(visited@);
    visited.push(owned(canonical.as_str()));
    proof {
        assert(spec_names(visited@) =~= before_mark.push(canonical@));
    }
    let ghost marked = spec_names(visited@);
    let ghost mut added: Seq<(bool, int, int)> = Seq::empty();
    match project_declaration_by_name(index, canonical.as_str()) {
        Some(d) => {
            let ghost i = spec_declaration_by_name(files, canonical@)->0;
            let mut mine: Vec<CompletionEntry> = Vec::new();
            let mut k: usize = 0;
            while k < d.members.len()
                invariant
                    k <= d.members@.len(),
                    0 <= i < files.len(),
                    *d == files[i].declaration,
                    mine@.len() == k,
                    forall|j: int| 0 <= j < k ==> spec_is_source_entry(files, #[trigger] mine@[j], (true, i, j)),
                decreases d.members@.len() - k,
            {
                let e = project_member_completion_entry(&d.members[k], d.name.as_str(), 0);
                mine.push(e);
                k = k + 1;
            }
            let ghost mine_view = mine@;
            entries.append(&mut mine);
            proof {
                added = Seq::new(d.members@.len(), |k: int| (true, i, k));
                assert forall|j: int| 0 <= j < added.len() implies spec_is_source_entry(files, #[trigger] entries@[start + j], added[j]) by {
                    assert(entries@[start + j] == mine_view[j]);
                }
            }
            match &d.base_type {
                Some(base) => {
                    if fuel > 0 {
                        let ghost mid = entries@;
                        let ghost inherited = spec_member_sources(files, base@, spec_names(visited@), (fuel - 1) as nat);
                        collect_member_entries_within(base.as_str(), index, visited, entries, fuel - 1);
                        proof {
                            let old_added = added;
                            added = added + inherited.0;
                            assert forall|j: int| 0 <= j < added.len() implies spec_is_source_entry(files, #[trigger] entries@[start + j], added[j]) by {
                                if j < old_added.len() {
                                    assert(entries@[start + j] == mid[start + j]);
                                } else {
                                    let q = j - old_added.len();
                                    assert(entries@[mid.len() + q] == entries@[start + j]);
                                }
                            }
                        }
                    }
                },
                None => {},
            }
        },
        None => {},
    }
    let ghost own_end = entries@;
    proof {
        assert(added == spec_own_sources(files, canonical@, marked, fuel as nat).0);
        assert(spec_names(visited@) == spec_own_sources(files, canonical@, marked, fuel as nat).1);
    }
    match core_type_by_name(canonical.as_str()) {
        Some(t) => {
            let ghost model = core_type_model(t);
            let ghost ti = spec_core_type_from(spec_canonical_type_ident(canonical@), 0)->0;
            let mut core: Vec<CompletionEntry> = Vec::new();
            let mut k: usize = 0;
            while k < t.members.len()
                invariant
                    k <= t.members@.len(),
                    model == core_type_model(t),
                    core@.len() == k,
                    forall|j: int| 0 <= j < k ==> spec_is_core_member_entry(#[trigger] core@[j], model.5[j], model.0),
                decreases t.members@.len() - k,
            {
                proof {
                    assert(model.5[k as int] == crate::lsp::catalog::core_member_model(t.members@[k as int]));
                }
                let e = core_member_completion_entry(&t.members[k], &t);
                core.push(e);
                k = k + 1;
            }
            let ghost core_view = core@;
            entries.append(&mut core);
            proof {
                assert(spec_core_sources(canonical@) == Seq::new(model.5.len(), |k: int| (false, ti, k)));
                assert forall|j: int| 0 <= j < spec_core_sources(canonical@).len()
                    implies spec_is_source_entry(files, #[trigger] entries@[own_end.len() + j], spec_core_sources(canonical@)[j]) by {
                    assert(entries@[own_end.len() + j] == core_view[j]);
                }
            }
        },
        None => {},
    }
    proof {
        let core_srcs = spec_core_sources(canonical@);
        assert(srcs.0 =~= added + core_srcs);
        assert forall|j: int| 0 <= j < srcs.0.len()
            implies spec_is_source_entry(files, #[trigger] entries@[start + j], srcs.0[j]) by {
            if j < added.len() {
                assert(entries@[start + j] == own_end[start + j]);
            } else {
                assert(entries@[start + j] == entries@[own_end.len() + (j - added.len())]);
            }
        }
        assert forall|j: int| 0 <= j < start implies #[trigger] entries@[j] == first[j] by {
            assert(entries@[j] == own_end[j]);
        }
    }
}


/// Collects into `entries` the members offered after a receiver of type `ty_name` (see
/// `spec_member_sources`), skipping the type names in `visited` and adding those it visits.
/// Base types are followed at most as many steps as the index has files: a longer chain
/// passes some declaration twice.
pub fn collect_member_completion_entries(
    ty_name: &str,
    index: &ProjectIndex,
    visited: &mut Vec<String>,
    entries: &mut Vec<CompletionEntry>,
)
    ensures
        spec_names(final(visited)@) == spec_member_sources(index.files@, ty_name@, spec_names(old(visited)@), index.files@.len()).1,
        final(entries)@.len() == old(entries)@.len() + spec_member_sources(index.files@, ty_name@, spec_names(old(visited)@), index.files@.len()).0.len(),
        forall|j: int| 0 <= j < old(entries)@.len() ==> #[trigger] final(entries)@[j] == old(entries)@[j],
        forall|j: int| 0 <= j < spec_member_sources(index.files@, ty_name@, spec_names(old(visited)@), index.files@.len()).0.len()
            ==> spec_is_source_entry(
                index.files@,
                #[trigger] final(entries)@[old(entries)@.len() + j],
                spec_member_sources(index.files@, ty_name@, spec_names(old(visited)@), index.files@.len()).0[j],
            ),
{
    collect_member_entries_within(ty_name, index, visited, entries, index.files.len());
}


// ── The type of a receiver ───────────────────────────────────────

/// The view of an optional text.
pub open spec fn opt_str(o: Option<&str>) -> Option<Seq<char>> {
    match o {
        Some(t) => Some(t@),
        None => None,
    }
}

/// The name of the declaration of the file at `path`, if the index has that file.
pub open spec fn spec_this_type(files: Seq<FileSummary>, path: Seq<char>) -> Option<Seq<char>> {
    match spec_file_index_from(files, path, 0) {
        Some(i) => Some(files[i].declaration.name@),
        None => None,
    }
}

/// The type of a receiver named `receiver`: `this` is the document's own declaration;
/// then a receiver PrSM provides by name; then the type of the definition the receiver
/// refers to (`definition`, as the semantic model names it, reduced to its bare
/// identifier); then a type the document text declares for it; then a core type of that
/// name; then an enum of the project of that name.
pub open spec fn spec_identifier_type(
    receiver: Seq<char>,
    text: Seq<char>,
    path: Seq<char>,
    files: Seq<FileSummary>,
    definition: Option<Seq<char>>,
) -> Option<Seq<char>> {
    if receiver == "this"@ {
        spec_this_type(files, path)
    } else if spec_builtin_receiver_type(receiver) is Some {
        spec_builtin_receiver_type(receiver)
    } else if definition is Some {
        Some(spec_canonical_type_ident(definition->0))
    } else if spec_receiver_type_in_lines(spec_lines(text), receiver) is Some {
        spec_receiver_type_in_lines(spec_lines(text), receiver)
    } else if spec_core_type_by_name(receiver) is Some {
        Some((spec_core_type_by_name(receiver)->0).0)
    } else {
        match spec_declaration_by_name(files, receiver) {
            Some(i) => if files[i].declaration.kind == DeclarationKind::Enum {
                Some(files[i].declaration.name@)
            } else {
                None
            },
            None => None,
        }
    }
}

fn this_type(index: &ProjectIndex, runtime_path: &str) -> (r: Option<String>)
    ensures
        opt_text(r) == spec_this_type(index.files@, runtime_path@),
{
    match find_file_summary(index, runtime_path) {
        Some(f) => Some(owned(f.declaration.name.as_str())),
        None => None,
    }
}

/// The type of receiver `receiver` (see `spec_identifier_type`); `definition_type` is the
/// type of the definition the receiver refers to, where the semantic model knows one.
pub fn resolve_identifier_type(
    receiver: &str,
    document_text: &str,
    runtime_path: &str,
    index: &ProjectIndex,
    definition_type: Option<&str>,
) -> (r: Option<String>)
    ensures
        opt_text(r) == spec_identifier_type(receiver@, document_text@, runtime_path@, index.files@, opt_str(definition_type)),
{
    if str_eq(receiver, "this") {
        return this_type(index, runtime_path);
    }
    match builtin_receiver_type(receiver) {
        Some(t) => return Some(owned(t)),
        None => {},
    }
    match definition_type {
        Some(d) => return Some(canonical_type_ident(d)),
        None => {},
    }
    match resolve_receiver_type_from_text(document_text, receiver) {
        Some(t) => return Some(t),
        None => {},
    }
    match core_type_by_name(receiver) {
        Some(t) => return Some(owned(t.name)),
        None => {},
    }
    match project_declaration_by_name(index, receiver) {
        Some(d) => {
            if d.kind == DeclarationKind::Enum {
                Some(owned(d.name.as_str()))
            } else {
                None
            }
        },
        None => None,
    }
}

/// The type of the first name of a receiver chain: `this`, a receiver PrSM provides by
/// name, a type the document text declares for it, or a core type of that name.
pub open spec fn spec_chain_root_type(receiver: Seq<char>, text: Seq<char>, path: Seq<char>, files: Seq<FileSummary>) -> Option<Seq<char>> {
    if receiver == "this"@ {
        spec_this_type(files, path)
    } else if spec_builtin_receiver_type(receiver) is Some {
        spec_builtin_receiver_type(receiver)
    } else if spec_receiver_type_in_lines(spec_lines(text), receiver) is Some {
        spec_receiver_type_in_lines(spec_lines(text), receiver)
    } else {
        match spec_core_type_by_name(receiver) {
            Some(t) => Some(t.0),
            None => None,
        }
    }
}

/// The type of the first name of a receiver chain (see `spec_chain_root_type`).
pub fn resolve_chain_root_type(receiver: &str, document_text: &str, runtime_path: &str, index: &ProjectIndex) -> (r: Option<String>)
    ensures
        opt_text(r) == spec_chain_root_type(receiver@, document_text@, runtime_path@, index.files@),
{
    if str_eq(receiver, "this") {
        return this_type(index, runtime_path);
    }
    match builtin_receiver_type(receiver) {
        Some(t) => return Some(owned(t)),
        None => {},
    }
    match resolve_receiver_type_from_text(document_text, receiver) {
        Some(t) => return Some(t),
        None => {},
    }
    match core_type_by_name(receiver) {
        Some(t) => Some(owned(t.name)),
        None => None,
    }
}

/// The type reached from `current` through the members named in `members`, each step the
/// member's result type; none when a step has none.
pub open spec fn spec_follow_chain(files: Seq<FileSummary>, current: Seq<char>, members: Seq<Seq<char>>) -> Option<Seq<char>>
    decreases members.len(),
{
    if members.len() == 0 {
        Some(current)
    } else {
        match spec_member_result_type(files, current, members[0], files.len()) {
            Some(next) => spec_follow_chain(files, next, members.drop_first()),
            None => None,
        }
    }
}

/// The type of a member completion's receiver: the receiver's own type if it resolves;
/// else, for a chain of two or more names, the chain root's type followed through the
/// remaining names.
pub open spec fn spec_receiver_type(
    receiver: Seq<char>,
    chain: Seq<Seq<char>>,
    text: Seq<char>,
    path: Seq<char>,
    files: Seq<FileSummary>,
    definition: Option<Seq<char>>,
) -> Option<Seq<char>> {
    match spec_identifier_type(receiver, text, path, files, definition) {
        Some(t) => Some(t),
        None => if chain.len() > 1 {
            match spec_chain_root_type(chain[0], text, path, files) {
                Some(root) => spec_follow_chain(files, root, chain.drop_first()),
                None => None,
            }
        } else {
            None
        },
    }
}

/// The type of a member completion's receiver (see `spec_receiver_type`).
pub fn resolve_receiver_type(
    context: &MemberCompletionContext,
    document_text: &str,
    runtime_path: &str,
    index: &ProjectIndex,
    definition_type: Option<&str>,
) -> (r: Option<String>)
    ensures
        opt_text(r) == spec_receiver_type(
            context.receiver@,
            spec_names(context.receiver_chain@),
            document_text@,
            runtime_path@,
            index.files@,
            opt_str(definition_type),
        ),
{
    match resolve_identifier_type(context.receiver.as_str(), document_text, runtime_path, index, definition_type) {
        Some(t) => return Some(t),
        None => {},
    }
    if context.receiver_chain.len() <= 1 {
        return None;
    }
    let ghost chain = spec_names(context.receiver_chain@);
    let mut current = match resolve_chain_root_type(context.receiver_chain[0].as_str(), document_text, runtime_path, index) {
        Some(t) => t,
        None => return None,
    };
    let mut i: usize = 1;
    while i < context.receiver_chain.len()
        invariant
            1 <= i <= context.receiver_chain@.len(),
            chain == spec_names(context.receiver_chain@),
            spec_follow_chain(index.files@, current@, chain.subrange(i as int, chain.len() as int))
                == spec_follow_chain(index.files@, spec_chain_root_type(chain[0], document_text@, runtime_path@, index.files@)->0, chain.drop_first()),
            spec_chain_root_type(chain[0], document_text@, runtime_path@, index.files@) is Some,
            spec_identifier_type(context.receiver@, document_text@, runtime_path@, index.files@, opt_str(definition_type)) is None,
            chain.len() > 1,
        decreases context.receiver_chain@.len() - i,
    {
        let ghost rest = chain.subrange(i as int, chain.len() as int);
        proof {
            assert(rest[0] == context.receiver_chain@[i as int]@);
            assert(rest.drop_first() =~= chain.subrange(i + 1, chain.len() as int));
        }
        match resolve_member_result_type(current.as_str(), context.receiver_chain[i].as_str(), index) {
            Some(next) => {
                current = next;
            },
            None => return None,
        }
        i = i + 1;
    }
    proof {
        assert(chain.subrange(i as int, chain.len() as int) =~= Seq::<Seq<char>>::empty());
    }
    Some(current)
}

} // verus!
