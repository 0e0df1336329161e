//! Where a PrSM symbol lives in the generated C#: the type (and member) that the compiler
//! emits for it, and the `.cs` file it is written to.
use vstd::prelude::*;

use crate::lsp::context::{spec_lookup, spec_pairs_map, QueryContext};
use crate::lsp::hover::HirDefinition;
use crate::lsp::names::{
    container_type_name, csharp_member_name, last_qualified_segment, spec_container_type_name,
    spec_csharp_member_name, spec_last_qualified_segment,
};
use crate::lsp::search::IndexedSymbol;
use crate::lsp::workspace::spec_normalize_path;
use crate::project::{last_dot_end, last_segment_start, lemma_extension_of, spec_extension, spec_last_segment};
use crate::project_graph::{join_path, spec_join_path};
use crate::text::{cat2, chars_of, eq_ignore_ascii_case, owned, spec_eq_ignore_ascii_case, str_eq, string_from_chars};

verus! {

/// What to look up in the generated C#: a type, a member of it when `member_name` is
/// set, and the PrSM file the symbol comes from.
pub struct CSharpLookupTarget {
    pub ty_name: String,
    pub member_name: Option<String>,
    pub file_path: String,
}

/// The generated code a sidecar query is about: the C# type that owns the symbol and the
/// `.cs` file expected to hold it.
pub struct GeneratedContext {
    pub generated_owner_type: Option<String>,
    pub generated_file: Option<String>,
}

/// An optional text as plain values.
pub open spec fn spec_opt(o: Option<String>) -> Option<Seq<char>> {
    match o {
        Some(s) => Some(s@),
        None => None,
    }
}

/// A lookup target as plain values.
pub open spec fn spec_target(t: CSharpLookupTarget) -> (Seq<char>, Option<Seq<char>>, Seq<char>) {
    (t.ty_name@, spec_opt(t.member_name), t.file_path@)
}

/// The symbol kinds of top-level declarations.
pub open spec fn spec_is_top_level_kind(kind: Seq<char>) -> bool {
    ||| kind == "component"@
    ||| kind == "asset"@
    ||| kind == "class"@
    ||| kind == "data class"@
    ||| kind == "enum"@
    ||| kind == "attribute"@
    ||| kind == "interface"@
}

/// Whether `kind` is the symbol kind of a top-level declaration.
pub fn is_top_level_kind(kind: &str) -> (r: bool)
    ensures
        r == spec_is_top_level_kind(kind@),
{
    str_eq(kind, "component") || str_eq(kind, "asset") || str_eq(kind, "class") || str_eq(kind, "data class")
        || str_eq(kind, "enum") || str_eq(kind, "attribute") || str_eq(kind, "interface")
}

/// The lookup target of an indexed symbol: a top-level declaration is the type named by
/// the last segment of its qualified name; a member is looked up in its container's type
/// (the last segment of the container's name, else the next-to-last segment of its own
/// qualified name) under its C# member name. A member with neither has no target.
pub open spec fn spec_target_of_symbol(s: IndexedSymbol) -> Option<(Seq<char>, Option<Seq<char>>, Seq<char>)> {
    if spec_is_top_level_kind(s.kind@) {
        Some((spec_last_qualified_segment(s.qualified_name@), None, s.file_path@))
    } else {
        let owner = match s.container_name {
            Some(c) => Some(spec_last_qualified_segment(c@)),
            None => spec_container_type_name(s.qualified_name@),
        };
        match owner {
            Some(t) => Some((t, Some(spec_csharp_member_name(s.kind@, s.name@)), s.file_path@)),
            None => None,
        }
    }
}

/// The lookup target of an indexed symbol (see `spec_target_of_symbol`).
pub fn csharp_lookup_target_from_symbol(symbol: &IndexedSymbol) -> (r: Option<CSharpLookupTarget>)
    ensures
        match r {
            Some(t) => spec_target_of_symbol(*symbol) == Some(spec_target(t)),
            None => spec_target_of_symbol(*symbol) is None,
        },
{
    if is_top_level_kind(symbol.kind.as_str()) {
        return Some(CSharpLookupTarget {
            ty_name: last_qualified_segment(symbol.qualified_name.as_str()),
            member_name: None,
            file_path: owned(symbol.file_path.as_str()),
        });
    }
    let owner = match &symbol.container_name {
        Some(c) => Some(last_qualified_segment(c.as_str())),
        None => container_type_name(symbol.qualified_name.as_str()),
    };
    match owner {
        Some(t) => Some(CSharpLookupTarget {
            ty_name: t,
            member_name: Some(csharp_member_name(symbol.kind.as_str(), symbol.name.as_str())),
            file_path: owned(symbol.file_path.as_str()),
        }),
        None => None,
    }
}

/// The definition kinds that the compiler emits as members of a type.
pub open spec fn spec_is_member_definition_kind(kind: Seq<char>) -> bool {
    ||| kind == "field"@
    ||| kind == "function"@
    ||| kind == "coroutine"@
    ||| kind == "lifecycle"@
    ||| kind == "enum-entry"@
}

/// The lookup target of a definition: a type is looked up by its name; a field, function,
/// coroutine, lifecycle block or enum entry in the type that contains it (the next-to-last
/// segment of its qualified name) under its C# member name; parameters, locals and
/// anything else have none.
pub open spec fn spec_target_of_definition(d: HirDefinition) -> Option<(Seq<char>, Option<Seq<char>>, Seq<char>)> {
    if d.kind@ == "type"@ {
        Some((d.name@, None, d.file_path@))
    } else if spec_is_member_definition_kind(d.kind@) {
        match spec_container_type_name(d.qualified_name@) {
            Some(t) => Some((t, Some(spec_csharp_member_name(d.kind@, d.name@)), d.file_path@)),
            None => None,
        }
    } else {
        None
    }
}

/// The lookup target of a definition (see `spec_target_of_definition`).
pub fn csharp_lookup_target_from_definition(definition: &HirDefinition) -> (r: Option<CSharpLookupTarget>)
    ensures
        match r {
            Some(t) => spec_target_of_definition(*definition) == Some(spec_target(t)),
            None => spec_target_of_definition(*definition) is None,
        },
{
    let kind = definition.kind.as_str();
    if str_eq(kind, "type") {
        return Some(CSharpLookupTarget {
            ty_name: owned(definition.name.as_str()),
            member_name: None,
            file_path: owned(definition.file_path.as_str()),
        });
    }
    if str_eq(kind, "field") || str_eq(kind, "function") || str_eq(kind, "coroutine") || str_eq(kind, "lifecycle")
        || str_eq(kind, "enum-entry") {
        return match container_type_name(definition.qualified_name.as_str()) {
            Some(t) => Some(CSharpLookupTarget {
                ty_name: t,
                member_name: Some(csharp_member_name(kind, definition.name.as_str())),
                file_path: owned(definition.file_path.as_str()),
            }),
            None => None,
        };
    }
    None
}

/// The generated file for the user file `original`: only a file whose extension is `prsm`
/// (in any case) has one; it is the file's stem with `.cs` in `output_dir` when the
/// project names one, else the same path with the extension `cs`.
pub open spec fn spec_generated_path(original: Seq<char>, output_dir: Option<Seq<char>>) -> Option<Seq<char>> {
    let name = spec_last_segment(original);
    match spec_extension(name) {
        None => None,
        Some(ext) => if !spec_eq_ignore_ascii_case(ext, "prsm"@) {
            None
        } else {
            match output_dir {
                Some(d) => Some(spec_join_path(d, name.subrange(0, name.len() - ext.len() - 1) + ".cs"@)),
                None => Some(original.subrange(0, original.len() - ext.len()) + "cs"@),
            }
        },
    }
}

/// The user file that the file `path` was read for, as the context maps it.
pub open spec fn spec_original_of(context: QueryContext, path: Seq<char>, cwd: Seq<char>) -> Seq<char> {
    match spec_lookup(spec_pairs_map(context.runtime_to_original@), spec_normalize_path(path, cwd)) {
        Some(p) => p,
        None => spec_normalize_path(path, cwd),
    }
}

/// The generated C# file expected for the source file `source_file_path` (see
/// `spec_generated_path`), for the user file it was read for.
pub fn expected_generated_csharp_path(source_file_path: &str, context: &QueryContext, cwd: &str) -> (r: Option<String>)
    ensures
        spec_opt(r) == spec_generated_path(spec_original_of(*context, source_file_path@, cwd@), spec_opt(context.output_dir)),
{
    let original = context.original_path(source_file_path, cwd);
    let chars = chars_of(original.as_str());
    let n = chars.len();
    let start = last_segment_start(&chars);
    let dot = last_dot_end(&chars, start);
    let ghost name = chars@.subrange(start as int, n as int);
    proof {
        assert forall|k: int| dot - start <= k < name.len() implies name[k] != '.' by {
            assert(name[k] == chars@[start + k]);
        }
        lemma_extension_of(name, dot - start);
    }
    if dot <= start + 1 {
        return None;
    }
    let ext = string_from_chars(&chars, dot, n);
    proof {
        assert(name.subrange(dot - start, name.len() as int) =~= ext@);
    }
    if !eq_ignore_ascii_case(ext.as_str(), "prsm") {
        return None;
    }
    match &context.output_dir {
        Some(d) => {
            let stem = string_from_chars(&chars, start, dot - 1);
            proof {
                assert(name.subrange(0, name.len() - ext@.len() - 1) =~= stem@);
            }
            Some(join_path(d.as_str(), cat2(stem.as_str(), ".cs").as_str()))
        },
        None => {
            let base = string_from_chars(&chars, 0, dot);
            proof {
                assert(chars@.subrange(0, chars@.len() - ext@.len()) =~= base@);
            }
            Some(cat2(base.as_str(), "cs"))
        },
    }
}

/// The generated code of a lookup target: the target's type, and the `.cs` file expected
/// for its source file.
pub fn generated_context_for_target(target: &CSharpLookupTarget, context: &QueryContext, cwd: &str)
    -> (r: Option<GeneratedContext>)
    ensures
        r matches Some(g) && spec_opt(g.generated_owner_type) == Some(target.ty_name@)
            && spec_opt(g.generated_file) == spec_generated_path(
                spec_original_of(*context, target.file_path@, cwd@), spec_opt(context.output_dir)),
{
    Some(GeneratedContext {
        generated_owner_type: Some(owned(target.ty_name.as_str())),
        generated_file: expected_generated_csharp_path(target.file_path.as_str(), context, cwd),
    })
}

} // verus!
