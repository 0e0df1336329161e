//! The project index (each file's top-level declaration and its members), and the kinds
//! of declarations and members as the editor names and completes them.
use vstd::prelude::*;
use crate::lsp::completion::CompletionEntryKind;
use crate::lsp::type_args::{position_less, spec_position_less};
use crate::token::Span;
use crate::text::str_eq;

verus! {

/// What kind of top-level declaration an index entry is.
#[derive(Debug, Clone, Copy, PartialEq, Eq, Structural)]
pub enum DeclarationKind {
    Component,
    Asset,
    Class,
    DataClass,
    Enum,
    Attribute,
    Interface,
}

/// What kind of member an index entry is.
#[derive(Debug, Clone, Copy, PartialEq, Eq, Structural)]
pub enum MemberKind {
    Field,
    SerializeField,
    RequiredComponent,
    OptionalComponent,
    ChildComponent,
    ParentComponent,
    Function,
    Coroutine,
    Lifecycle,
    EnumEntry,
}

/// The name of a declaration kind in symbol listings.
pub open spec fn spec_declaration_kind_name(kind: DeclarationKind) -> Seq<char> {
    match kind {
        DeclarationKind::Component => "component"@,
        DeclarationKind::Asset => "asset"@,
        DeclarationKind::Class => "class"@,
        DeclarationKind::DataClass => "data class"@,
        DeclarationKind::Enum => "enum"@,
        DeclarationKind::Attribute => "attribute"@,
        DeclarationKind::Interface => "interface"@,
    }
}

/// The name of a declaration kind in symbol listings.
pub fn declaration_kind_name(kind: DeclarationKind) -> (r: &'static str)
    ensures
        r@ == spec_declaration_kind_name(kind),
{
    match kind {
        DeclarationKind::Component => "component",
        DeclarationKind::Asset => "asset",
        DeclarationKind::Class => "class",
        DeclarationKind::DataClass => "data class",
        DeclarationKind::Enum => "enum",
        DeclarationKind::Attribute => "attribute",
        DeclarationKind::Interface => "interface",
    }
}

/// The name of a member kind in symbol listings.
pub open spec fn spec_member_kind_name(kind: MemberKind) -> Seq<char> {
    match kind {
        MemberKind::Field => "field"@,
        MemberKind::SerializeField => "serialize-field"@,
        MemberKind::RequiredComponent => "required-component"@,
        MemberKind::OptionalComponent => "optional-component"@,
        MemberKind::ChildComponent => "child-component"@,
        MemberKind::ParentComponent => "parent-component"@,
        MemberKind::Function => "function"@,
        MemberKind::Coroutine => "coroutine"@,
        MemberKind::Lifecycle => "lifecycle"@,
        MemberKind::EnumEntry => "enum-entry"@,
    }
}

/// The name of a member kind in symbol listings.
pub fn member_kind_name(kind: MemberKind) -> (r: &'static str)
    ensures
        r@ == spec_member_kind_name(kind),
{
    match kind {
        MemberKind::Field => "field",
        MemberKind::SerializeField => "serialize-field",
        MemberKind::RequiredComponent => "required-component",
        MemberKind::OptionalComponent => "optional-component",
        MemberKind::ChildComponent => "child-component",
        MemberKind::ParentComponent => "parent-component",
        MemberKind::Function => "function",
        MemberKind::Coroutine => "coroutine",
        MemberKind::Lifecycle => "lifecycle",
        MemberKind::EnumEntry => "enum-entry",
    }
}

/// How a declaration is offered in completion: data classes as structs, enums as enums,
/// everything else as a class.
pub open spec fn spec_declaration_completion_kind(kind: DeclarationKind) -> CompletionEntryKind {
    match kind {
        DeclarationKind::DataClass => CompletionEntryKind::Struct,
        DeclarationKind::Enum => CompletionEntryKind::Enum,
        _ => CompletionEntryKind::Class,
    }
}

/// The completion kind of a declaration.
pub fn declaration_completion_kind(kind: DeclarationKind) -> (r: CompletionEntryKind)
    ensures
        r == spec_declaration_completion_kind(kind),
{
    match kind {
        DeclarationKind::Component | DeclarationKind::Class | DeclarationKind::Asset | DeclarationKind::Attribute => {
            CompletionEntryKind::Class
        },
        DeclarationKind::DataClass => CompletionEntryKind::Struct,
        DeclarationKind::Enum => CompletionEntryKind::Enum,
        DeclarationKind::Interface => CompletionEntryKind::Class,
    }
}

/// How a member is offered in completion: fields and component slots as fields, functions,
/// coroutines and lifecycle blocks as methods, enum entries as enum members.
pub open spec fn spec_member_completion_kind(kind: MemberKind) -> CompletionEntryKind {
    match kind {
        MemberKind::Function | MemberKind::Coroutine | MemberKind::Lifecycle => CompletionEntryKind::Method,
        MemberKind::EnumEntry => CompletionEntryKind::EnumMember,
        _ => CompletionEntryKind::Field,
    }
}

/// The completion kind of a member.
pub fn member_completion_kind(kind: MemberKind) -> (r: CompletionEntryKind)
    ensures
        r == spec_member_completion_kind(kind),
{
    match kind {
        MemberKind::Field | MemberKind::SerializeField | MemberKind::RequiredComponent | MemberKind::OptionalComponent
        | MemberKind::ChildComponent | MemberKind::ParentComponent => CompletionEntryKind::Field,
        MemberKind::Function | MemberKind::Coroutine | MemberKind::Lifecycle => CompletionEntryKind::Method,
        MemberKind::EnumEntry => CompletionEntryKind::EnumMember,
    }
}


// ── The project index ────────────────────────────────────────────

/// A member of an indexed declaration: its name, kind, signature text and source range.
pub struct MemberSummary {
    pub name: String,
    pub kind: MemberKind,
    pub signature: String,
    pub span: Span,
}

/// The top-level declaration of an indexed file: its name, kind, signature text, base type,
/// implemented interfaces, members and source range.
pub struct DeclarationSummary {
    pub name: String,
    pub kind: DeclarationKind,
    pub signature: String,
    pub base_type: Option<String>,
    pub interfaces: Vec<String>,
    pub members: Vec<MemberSummary>,
    pub span: Span,
}

/// An indexed source file: its path and its declaration.
pub struct FileSummary {
    pub path: String,
    pub declaration: DeclarationSummary,
}

/// The index of a project's source files, in index order.
pub struct ProjectIndex {
    pub files: Vec<FileSummary>,
}

/// The end of the range that a declaration covers: its own end, pushed past the end of any
/// member that ends later, member by member.
pub open spec fn spec_declaration_range_end(span: Span, members: Seq<MemberSummary>) -> crate::token::Position
    decreases members.len(),
{
    if members.len() == 0 {
        span.end
    } else {
        let end = spec_declaration_range_end(span, members.drop_last());
        if spec_position_less(end, members.last().span.end) { members.last().span.end } else { end }
    }
}

/// The range of a declaration with all its members: its own start, and the latest end.
pub fn declaration_range(declaration: &DeclarationSummary) -> (r: Span)
    ensures
        r.start == declaration.span.start,
        r.end == spec_declaration_range_end(declaration.span, declaration.members@),
{
    let mut range = declaration.span;
    let mut i: usize = 0;
    while i < declaration.members.len()
        invariant
            i <= declaration.members@.len(),
            range.start == declaration.span.start,
            range.end == spec_declaration_range_end(declaration.span, declaration.members@.take(i as int)),
        decreases declaration.members@.len() - i,
    {
        proof {
            assert(declaration.members@.take(i + 1).drop_last() =~= declaration.members@.take(i as int));
        }
        let end = declaration.members[i].span.end;
        if position_less(range.end, end) {
            range.end = end;
        }
        i = i + 1;
    }
    proof {
        assert(declaration.members@.take(declaration.members@.len() as int) =~= declaration.members@);
    }
    range
}

/// The index of the first indexed file from `i` on whose path is `path`.
pub open spec fn spec_file_index_from(files: Seq<FileSummary>, path: Seq<char>, i: int) -> Option<int>
    decreases files.len() - i,
{
    if i < 0 || i >= files.len() {
        None
    } else if files[i].path@ == path {
        Some(i)
    } else {
        spec_file_index_from(files, path, i + 1)
    }
}

/// The indexed file at `path`, the first one listed.
pub fn find_file_summary<'a>(index: &'a ProjectIndex, path: &str) -> (r: Option<&'a FileSummary>)
    ensures
        match spec_file_index_from(index.files@, path@, 0) {
            Some(i) => r matches Some(f) && *f == index.files@[i],
            None => r is None,
        },
{
    let mut i: usize = 0;
    while i < index.files.len()
        invariant
            i <= index.files@.len(),
            spec_file_index_from(index.files@, path@, 0) == spec_file_index_from(index.files@, path@, i as int),
        decreases index.files@.len() - i,
    {
        if str_eq(index.files[i].path.as_str(), path) {
            return Some(&index.files[i]);
        }
        i = i + 1;
    }
    None
}

} // verus!
