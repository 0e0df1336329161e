//! Renaming a PrSM symbol: where its definition and references stand, each place once.
use vstd::prelude::*;

use crate::lsp::context::QueryContext;
use crate::lsp::generated::spec_original_of;
use crate::lsp::hover::HirDefinition;
use crate::lsp::search::IndexedSymbol;
use crate::text::{owned, str_eq};
use crate::token::Span;

verus! {

/// A place to rename: a file and a source range.
pub struct RenameLocation {
    pub file_path: String,
    pub span: Span,
}

/// What a rename does: the current name, offered as the placeholder, and the places to
/// rewrite, the definition first.
pub struct RenamePlan {
    pub placeholder: String,
    pub locations: Vec<RenameLocation>,
}

/// A place as plain values.
pub open spec fn spec_location(l: RenameLocation) -> (Seq<char>, Span) {
    (l.file_path@, l.span)
}

/// The places of `s`, each once, where it first occurs.
pub open spec fn spec_unique_places(s: Seq<(Seq<char>, Span)>) -> Seq<(Seq<char>, Span)>
    decreases s.len(),
{
    if s.len() == 0 {
        s
    } else {
        let kept = spec_unique_places(s.drop_last());
        if kept.contains(s.last()) { kept } else { kept.push(s.last()) }
    }
}

/// The message for a rename of a lifecycle block.
pub open spec fn spec_lifecycle_rename_error() -> Seq<char> {
    "Lifecycle blocks map to fixed Unity callback names and cannot be renamed."@
}

/// Adds the place (`file_path`, `span`) to `locations` unless it is there already.
pub fn push_rename_location(locations: &mut Vec<RenameLocation>, file_path: &str, span: Span)
    ensures
        ({
            let before = old(locations)@.map_values(|l: RenameLocation| spec_location(l));
            let after = final(locations)@.map_values(|l: RenameLocation| spec_location(l));
            after == if before.contains((file_path@, span)) { before } else { before.push((file_path@, span)) }
        }),
{
    let ghost kept = locations@.map_values(|l: RenameLocation| spec_location(l));
    let mut k: usize = 0;
    while k < locations.len()
        invariant
            k <= locations@.len(),
            locations@ == old(locations)@,
            kept == locations@.map_values(|l: RenameLocation| spec_location(l)),
            forall|j: int| 0 <= j < k ==> kept[j] != (file_path@, span),
        decreases locations@.len() - k,
    {
        if str_eq(locations[k].file_path.as_str(), file_path) && locations[k].span == span {
            proof {
                assert(kept[k as int] == (file_path@, span));
            }
            return;
        }
        k = k + 1;
    }
    locations.push(RenameLocation { file_path: owned(file_path), span });
    proof {
        assert(locations@.map_values(|l: RenameLocation| spec_location(l)) =~= kept.push((file_path@, span)));
    }
}

/// Adds the places of `references`, in order, each unless it is there already.
fn push_reference_places(locations: &mut Vec<RenameLocation>, references: &Vec<RenameLocation>)
    requires
        old(locations)@.map_values(|l: RenameLocation| spec_location(l))
            == spec_unique_places(old(locations)@.map_values(|l: RenameLocation| spec_location(l))),
    ensures
        ({
            let before = old(locations)@.map_values(|l: RenameLocation| spec_location(l));
            final(locations)@.map_values(|l: RenameLocation| spec_location(l))
                == spec_unique_places(before + references@.map_values(|l: RenameLocation| spec_location(l)))
        }),
{
    let ghost before = locations@.map_values(|l: RenameLocation| spec_location(l));
    let ghost all = before + references@.map_values(|l: RenameLocation| spec_location(l));
    proof {
        assert(all.take(before.len() as int) =~= before);
    }
    let mut i: usize = 0;
    while i < references.len()
        invariant
            i <= references@.len(),
            all == before + references@.map_values(|l: RenameLocation| spec_location(l)),
            locations@.map_values(|l: RenameLocation| spec_location(l)) == spec_unique_places(all.take(before.len() + i)),
        decreases references@.len() - i,
    {
        let r = &references[i];
        proof {
            assert(all.take(before.len() + i + 1).drop_last() =~= all.take(before.len() + i));
            assert(all.take(before.len() + i + 1).last() == spec_location(references@[i as int]));
        }
        push_rename_location(locations, r.file_path.as_str(), r.span);
        i = i + 1;
    }
    proof {
        assert(all.take((before.len() + references@.len()) as int) =~= all);
    }
}

/// Plans a rename of `definition` whose references stand at `references`: a lifecycle
/// block cannot be renamed; otherwise the placeholder is the definition's name and the
/// places are the definition's, then the references', each place once.
pub fn plan_rename(definition: &HirDefinition, references: &Vec<RenameLocation>) -> (r: Result<RenamePlan, String>)
    ensures
        definition.kind@ == "lifecycle"@ <==> r is Err,
        r matches Err(e) ==> e@ == spec_lifecycle_rename_error(),
        r matches Ok(plan) ==> {
            &&& plan.placeholder@ == definition.name@
            &&& plan.locations@.map_values(|l: RenameLocation| spec_location(l)) == spec_unique_places(
                seq![(definition.file_path@, definition.span)] + references@.map_values(|l: RenameLocation| spec_location(l)))
        },
{
    if str_eq(definition.kind.as_str(), "lifecycle") {
        return Err(owned("Lifecycle blocks map to fixed Unity callback names and cannot be renamed."));
    }
    let mut locations: Vec<RenameLocation> = Vec::new();
    locations.push(RenameLocation { file_path: owned(definition.file_path.as_str()), span: definition.span });
    proof {
        let first = seq![(definition.file_path@, definition.span)];
        let none = Seq::<(Seq<char>, Span)>::empty();
        assert(first.drop_last() =~= none);
        assert(spec_unique_places(none) == none);
        assert(!none.contains(first.last()));
        assert(none.push(first.last()) =~= first);
        assert(spec_unique_places(first) == first);
        assert(locations@.map_values(|l: RenameLocation| spec_location(l)) =~= first);
    }
    push_reference_places(&mut locations, references);
    Ok(RenamePlan { placeholder: owned(definition.name.as_str()), locations })
}

/// The places that a references query answers for `definition` and its `references`: the
/// definition's place first when `include_declaration`, then the references' places, each
/// place once.
pub fn reference_locations(definition: &HirDefinition, references: &Vec<RenameLocation>, include_declaration: bool)
    -> (r: Vec<RenameLocation>)
    ensures
        r@.map_values(|l: RenameLocation| spec_location(l)) == spec_unique_places(
            (if include_declaration { seq![(definition.file_path@, definition.span)] } else { Seq::empty() })
                + references@.map_values(|l: RenameLocation| spec_location(l))),
{
    let mut locations: Vec<RenameLocation> = Vec::new();
    let ghost none = Seq::<(Seq<char>, Span)>::empty();
    if include_declaration {
        locations.push(RenameLocation { file_path: owned(definition.file_path.as_str()), span: definition.span });
        proof {
            let first = seq![(definition.file_path@, definition.span)];
            assert(first.drop_last() =~= none);
            assert(spec_unique_places(none) == none);
            assert(!none.contains(first.last()));
            assert(none.push(first.last()) =~= first);
            assert(spec_unique_places(first) == first);
            assert(locations@.map_values(|l: RenameLocation| spec_location(l)) =~= first);
        }
    } else {
        proof {
            assert(locations@.map_values(|l: RenameLocation| spec_location(l)) =~= none);
        }
    }
    push_reference_places(&mut locations, references);
    proof {
        if !include_declaration {
            assert(none + references@.map_values(|l: RenameLocation| spec_location(l))
                =~= Seq::<(Seq<char>, Span)>::empty() + references@.map_values(|l: RenameLocation| spec_location(l)));
        }
    }
    locations
}

/// Where "go to definition" leads, in the user's files: the definition that the semantic
/// model finds at the position; else the symbol that the reference there resolves to; else
/// the symbol declared there.
pub open spec fn spec_definition_place(
    context: QueryContext,
    cwd: Seq<char>,
    definition: Option<HirDefinition>,
    resolved: Option<IndexedSymbol>,
    symbol_at: Option<IndexedSymbol>,
) -> Option<(Seq<char>, Span)> {
    match definition {
        Some(d) => Some((spec_original_of(context, d.file_path@, cwd), d.span)),
        None => match resolved {
            Some(s) => Some((spec_original_of(context, s.file_path@, cwd), s.span)),
            None => match symbol_at {
                Some(s) => Some((spec_original_of(context, s.file_path@, cwd), s.span)),
                None => None,
            },
        },
    }
}

/// Where "go to definition" leads (see `spec_definition_place`).
pub fn definition_location(
    context: &QueryContext,
    cwd: &str,
    definition: Option<&HirDefinition>,
    resolved: Option<&IndexedSymbol>,
    symbol_at: Option<&IndexedSymbol>,
) -> (r: Option<RenameLocation>)
    ensures
        ({
            let place = spec_definition_place(
                *context,
                cwd@,
                match definition { Some(d) => Some(*d), None => None },
                match resolved { Some(s) => Some(*s), None => None },
                match symbol_at { Some(s) => Some(*s), None => None },
            );
            match r {
                Some(l) => place == Some(spec_location(l)),
                None => place is None,
            }
        }),
{
    if let Some(d) = definition {
        return Some(RenameLocation { file_path: context.original_path(d.file_path.as_str(), cwd), span: d.span });
    }
    let target = match resolved {
        Some(s) => Some(s),
        None => symbol_at,
    };
    match target {
        Some(s) => Some(RenameLocation { file_path: context.original_path(s.file_path.as_str(), cwd), span: s.span }),
        None => None,
    }
}


} // verus!
