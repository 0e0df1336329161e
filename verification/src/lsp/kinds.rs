//! Code action kinds and the choice of which actions a request gets.
use vstd::prelude::*;
use crate::token::Span;
use crate::text::{spec_starts_with, starts_with, str_eq, chars_of};
use crate::ast::File;
use crate::lsp::organize::{collect_organize_usings_action_for_source, spec_organize_usings_edit, spec_usings_read_from, OrganizeUsingsCodeAction};
use crate::lsp::type_args::{
    collect_explicit_type_arg_actions_for_source, spec_action_views, spec_explicit_type_arg_actions,
    ExplicitTypeArgCodeAction,
};

verus! {

/// The kind of the explicit-type-argument action.
pub const CODE_ACTION_KIND_REFACTOR_REWRITE: &'static str = "refactor.rewrite";

/// The kind of the organize-imports action.
pub const CODE_ACTION_KIND_SOURCE_ORGANIZE_IMPORTS: &'static str = "source.organizeImports";

/// A requested kind matches an offered kind that equals it or lies below it in the
/// dot-separated hierarchy (`source` matches `source.organizeImports`).
pub open spec fn spec_code_action_kind_matches(requested: Seq<char>, offered: Seq<char>) -> bool {
    ||| requested == offered
    ||| (spec_starts_with(offered, requested) && requested.len() < offered.len() && offered[requested.len() as int] == '.')
}

/// Whether the requested kind covers the offered kind.
pub fn code_action_kind_matches(requested_kind: &str, offered_kind: &str) -> (r: bool)
    ensures
        r == spec_code_action_kind_matches(requested_kind@, offered_kind@),
{
    if str_eq(requested_kind, offered_kind) {
        return true;
    }
    if !starts_with(offered_kind, requested_kind) {
        return false;
    }
    let offered = chars_of(offered_kind);
    let requested = chars_of(requested_kind);
    requested.len() < offered.len() && offered[requested.len()] == '.'
}

/// With no requested kinds every kind is allowed; otherwise one of them must match.
pub open spec fn spec_requested_code_action_allows(requested: Option<Seq<String>>, offered: Seq<char>) -> bool {
    match requested {
        None => true,
        Some(kinds) => spec_some_kind_matches(kinds, offered),
    }
}

/// One of `kinds` matches `offered`.
pub open spec fn spec_some_kind_matches(kinds: Seq<String>, offered: Seq<char>) -> bool {
    exists|i: int| 0 <= i < kinds.len() && #[trigger] spec_code_action_kind_matches(kinds[i]@, offered)
}

/// Whether a request restricted to `requested_kinds` (if any) allows an action of `offered_kind`.
pub fn requested_code_action_allows(requested_kinds: Option<&[String]>, offered_kind: &str) -> (r: bool)
    ensures
        r == spec_requested_code_action_allows(match requested_kinds { Some(k) => Some(k@), None => None }, offered_kind@),
{
    match requested_kinds {
        None => true,
        Some(kinds) => {
            let mut i: usize = 0;
            while i < kinds.len()
                invariant
                    i <= kinds@.len(),
                    requested_kinds == Some(kinds),
                    forall|k: int| 0 <= k < i ==> !#[trigger] spec_code_action_kind_matches(kinds@[k]@, offered_kind@),
                decreases kinds@.len() - i,
            {
                if code_action_kind_matches(kinds[i].as_str(), offered_kind) {
                    assert(spec_code_action_kind_matches(kinds@[i as int]@, offered_kind@));
                    assert(spec_some_kind_matches(kinds@, offered_kind@));
                    return true;
                }
                i = i + 1;
            }
            false
        },
    }
}

/// The code actions for a request: explicit type arguments (when `refactor.rewrite` is
/// allowed) and organizing imports (when `source.organizeImports` is allowed).
pub struct CodeActions {
    pub explicit_type_args: Vec<ExplicitTypeArgCodeAction>,
    pub organize_usings: Option<OrganizeUsingsCodeAction>,
}

/// Computes the code actions that a request restricted to `requested_kinds` gets; a kind
/// that is not allowed contributes nothing.
pub fn collect_code_actions(source: &str, selection_span: Span, requested_kinds: Option<&[String]>) -> (r: CodeActions)
    requires
        source@.len() < u32::MAX,
    ensures
        !spec_requested_code_action_allows(match requested_kinds { Some(k) => Some(k@), None => None }, "refactor.rewrite"@)
            ==> r.explicit_type_args@.len() == 0,
        !spec_requested_code_action_allows(match requested_kinds { Some(k) => Some(k@), None => None }, "source.organizeImports"@)
            ==> r.organize_usings is None,
        spec_requested_code_action_allows(match requested_kinds { Some(k) => Some(k@), None => None }, "refactor.rewrite"@)
            ==> exists|file: File| spec_usings_read_from(file, source@)
                && spec_action_views(r.explicit_type_args@) == spec_explicit_type_arg_actions(file, selection_span),
        spec_requested_code_action_allows(match requested_kinds { Some(k) => Some(k@), None => None }, "source.organizeImports"@)
            ==> exists|file: File, has_errors: bool, used: Seq<String>| spec_usings_read_from(file, source@) && match r.organize_usings {
                Some(a) => spec_organize_usings_edit(source@, file, has_errors, used) == Some((a.range, a.new_text@)),
                None => spec_organize_usings_edit(source@, file, has_errors, used) is None,
            },
{
    let explicit_type_args = if requested_code_action_allows(requested_kinds, CODE_ACTION_KIND_REFACTOR_REWRITE) {
        collect_explicit_type_arg_actions_for_source(source, selection_span)
    } else {
        Vec::new()
    };
    let organize_usings = if requested_code_action_allows(requested_kinds, CODE_ACTION_KIND_SOURCE_ORGANIZE_IMPORTS) {
        collect_organize_usings_action_for_source(source)
    } else {
        None
    };
    CodeActions { explicit_type_args, organize_usings }
}

} // verus!
