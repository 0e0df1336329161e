//! Top-level declarations: components, assets, classes, data classes, enums, attributes,
//! interfaces, type aliases, structs, extensions and the implicit `Globals` class.
use vstd::prelude::*;
use crate::token::{Span, TokenKind, spec_kind_tag};
use crate::ast::{
    Decl, Member, Visibility, Annotation, InterfaceMember, Param, WhereClause, EnumParam,
    EnumEntry, EnumPayloadField, Expr, TypeRef, Block, Mutability,
};
use crate::text::{str_eq, owned};
use super::{Parser, ParseError, spec_skip_newlines, spec_kind_after_newlines, spec_expected_declaration_prefix};
use crate::text::spec_starts_with;
use super::types::spec_simple_type_at;
use super::members::{MemberLine, lemma_member_lines_end, spec_member_lines, spec_lines_of, spec_lines_end, spec_members_are, spec_reported_lines, spec_member_lines_reported};
use super::exprs::spec_atom_at;
use crate::token::Token;

verus! {

broadcast use crate::token::lemma_kind_tag_inverse;

/// At `p` a declaration keyword is followed by a name and an empty body `{ }` (newlines
/// allowed inside).
pub open spec fn spec_empty_body_decl_at(t: Seq<Token>, p: int) -> bool {
    0 <= p && p + 2 < t.len() && t[p + 1].kind is Identifier && t[p + 2].kind is LBrace
        && spec_kind_after_newlines(t, p + 3) is RBrace
}

/// At `p` stands `typealias Name = Type` with a plain type name.
pub open spec fn spec_simple_alias_at(t: Seq<Token>, p: int) -> bool {
    0 <= p && p + 3 < t.len() && t[p + 1].kind is Identifier && t[p + 2].kind is Eq && spec_simple_type_at(t, p + 3)
}

/// A token that can open a declaration (after newlines): an annotation, a declaration
/// keyword or modifier, or the contextual `ref` / `partial`.
pub open spec fn spec_starts_decl(k: TokenKind) -> bool {
    ||| k is At
    ||| k is Component
    ||| k is Singleton
    ||| k is Asset
    ||| k is Data
    ||| k is Class
    ||| k is Abstract
    ||| k is Sealed
    ||| k is Enum
    ||| k is Attribute
    ||| k is Interface
    ||| k is TypeAlias
    ||| k is Struct
    ||| k is Extend
    ||| k is Func
    ||| k is Const
    ||| k is Coroutine
    ||| (k is Identifier && (k->Identifier_0@ == "ref"@ || k->Identifier_0@ == "partial"@))
}

/// At `p` a declaration keyword is followed by `Name : Base` and an empty body `{ }`
/// (newlines allowed inside).
pub open spec fn spec_empty_based_decl_at(t: Seq<Token>, p: int) -> bool {
    0 <= p && p + 4 < t.len() && t[p + 1].kind is Identifier && t[p + 2].kind is Colon && t[p + 3].kind is Identifier
        && t[p + 4].kind is LBrace && spec_kind_after_newlines(t, p + 5) is RBrace
}

/// The interface list from `k` on: `, Name` entries. Their names and the index after them,
/// or `None` where a `,` is not followed by a name.
pub open spec fn spec_interface_names(t: Seq<Token>, k: int) -> Option<(Seq<Seq<char>>, int)>
    decreases t.len() - k,
{
    if 0 <= k && k + 1 < t.len() && t[k].kind is Comma {
        if t[k + 1].kind is Identifier {
            match spec_interface_names(t, k + 2) {
                Some((rest, e)) => Some((seq![t[k + 1].kind->Identifier_0@] + rest, e)),
                None => None,
            }
        } else {
            None
        }
    } else {
        Some((Seq::empty(), k))
    }
}

/// The names that an interface list gives (empty where it gives none).
pub open spec fn spec_found_names(o: Option<(Seq<Seq<char>>, int)>) -> Seq<Seq<char>> {
    match o {
        Some((names, _e)) => names,
        None => Seq::empty(),
    }
}

/// The index after an interface list (`-1` where it is not well formed).
pub open spec fn spec_found_end(o: Option<(Seq<Seq<char>>, int)>) -> int {
    match o {
        Some((_names, e)) => e,
        None => -1,
    }
}

/// The texts of names.
pub open spec fn spec_name_texts(names: Seq<String>) -> Seq<Seq<char>> {
    names.map_values(|n: String| n@)
}

/// At `p` stands `component Name : Base [, I1, ..]` with an empty body `{ }` (newlines
/// allowed before and inside the braces).
pub open spec fn spec_empty_component_at(t: Seq<Token>, p: int) -> bool {
    &&& 0 <= p && p + 3 < t.len()
    &&& t[p].kind is Component && t[p + 1].kind is Identifier && t[p + 2].kind is Colon && t[p + 3].kind is Identifier
    &&& spec_interface_names(t, p + 4) matches Some((_names, e)) && {
        let b = spec_skip_newlines(t, e);
        &&& 0 <= b < t.len() && t[b].kind is LBrace
        &&& spec_kind_after_newlines(t, b + 1) is RBrace
    }
}

/// At `p` stands `class Name : Super [, I1, ..]` with an empty body `{ }` and no `where`
/// clause (newlines allowed before and inside the braces).
pub open spec fn spec_empty_subclass_at(t: Seq<Token>, p: int) -> bool {
    &&& 0 <= p && p + 3 < t.len()
    &&& t[p].kind is Class && t[p + 1].kind is Identifier && t[p + 2].kind is Colon && t[p + 3].kind is Identifier
    &&& spec_interface_names(t, p + 4) matches Some((_names, e)) && {
        let b = spec_skip_newlines(t, e);
        &&& 0 <= e < t.len() && !(t[e].kind is Identifier && t[e].kind->Identifier_0@ == "where"@)
        &&& 0 <= b < t.len() && t[b].kind is LBrace
        &&& spec_kind_after_newlines(t, b + 1) is RBrace
    }
}

/// Plain enum entries from `k` on (a token that is not a newline): names without arguments,
/// each followed by an optional `,`, with newlines between, up to the closing `}`. Their
/// names and the index of the `}`; `None` where the entries are not of that shape.
pub open spec fn spec_plain_enum_entries(t: Seq<Token>, k: int) -> Option<(Seq<Seq<char>>, int)>
    decreases t.len() - k,
{
    if k < 0 || k + 1 >= t.len() {
        None
    } else if t[k].kind is RBrace {
        Some((Seq::empty(), k))
    } else if t[k].kind is Identifier && !(t[k + 1].kind is LParen) {
        let k1 = spec_skip_newlines(t, k + 1);
        let k2 = if 0 <= k1 < t.len() && t[k1].kind is Comma { k1 + 1 } else { k1 };
        let k3 = spec_skip_newlines(t, k2);
        if k3 <= k || k3 > t.len() {
            None
        } else {
            match spec_plain_enum_entries(t, k3) {
                Some((rest, e)) => Some((seq![t[k].kind->Identifier_0@] + rest, e)),
                None => None,
            }
        }
    } else {
        None
    }
}

/// At `p` stands `enum Name { A, B, .. }` with plain entries (see `spec_plain_enum_entries`).
pub open spec fn spec_plain_enum_at(t: Seq<Token>, p: int) -> bool {
    let b = spec_skip_newlines(t, p + 2);
    &&& 0 <= p && p + 2 < t.len()
    &&& t[p].kind is Enum && t[p + 1].kind is Identifier
    &&& 0 <= b < t.len() && t[b].kind is LBrace
    &&& spec_plain_enum_entries(t, spec_skip_newlines(t, b + 1)) is Some
}

/// The entry names of the enum at `p` (see `spec_plain_enum_at`).
pub open spec fn spec_plain_enum_names(t: Seq<Token>, p: int) -> Seq<Seq<char>> {
    spec_found_names(spec_plain_enum_entries(t, spec_skip_newlines(t, spec_skip_newlines(t, p + 2) + 1)))
}

/// The index after an empty body `{ }` that starts, after newlines, at index `e`.
pub open spec fn spec_empty_body_end(t: Seq<Token>, e: int) -> int {
    spec_skip_newlines(t, spec_skip_newlines(t, e) + 1) + 1
}

/// The index after the empty component or class at `p` (see `spec_empty_component_at`,
/// `spec_empty_subclass_at`).
pub open spec fn spec_empty_component_end(t: Seq<Token>, p: int) -> int {
    spec_empty_body_end(t, spec_found_end(spec_interface_names(t, p + 4)))
}

/// The index after the plain enum at `p` (see `spec_plain_enum_at`).
pub open spec fn spec_plain_enum_end(t: Seq<Token>, p: int) -> int {
    spec_found_end(spec_plain_enum_entries(t, spec_skip_newlines(t, spec_skip_newlines(t, p + 2) + 1))) + 1
}

/// The names of enum entries.
pub open spec fn spec_entry_names(es: Seq<EnumEntry>) -> Seq<Seq<char>> {
    es.map_values(|e: EnumEntry| e.name@)
}

/// The member list of a component at `p` whose header is `component Name : Base [, I1, ..]`:
/// the lines from the first token after its `{` (see `spec_member_lines`).
pub open spec fn spec_component_body(t: Seq<Token>, p: int) -> Option<(Seq<MemberLine>, int)> {
    let e = spec_found_end(spec_interface_names(t, p + 4));
    spec_member_lines(t, spec_skip_newlines(t, spec_skip_newlines(t, e) + 1))
}

/// At `p` stands `component Name : Base [, I1, ..] { .. }` whose body is a member list of the
/// lines `spec_member_lines` describes.
pub open spec fn spec_listed_component_at(t: Seq<Token>, p: int) -> bool {
    &&& 0 <= p && p + 3 < t.len()
    &&& t[p].kind is Component && t[p + 1].kind is Identifier && t[p + 2].kind is Colon && t[p + 3].kind is Identifier
    &&& spec_interface_names(t, p + 4) matches Some((_names, e)) && {
        let b = spec_skip_newlines(t, e);
        &&& 0 <= b < t.len() && t[b].kind is LBrace
    }
    &&& spec_component_body(t, p) is Some
}

/// The interfaces of the component at `p` (see `spec_empty_component_at`).
pub open spec fn spec_component_interfaces(t: Seq<Token>, p: int) -> Seq<Seq<char>> {
    spec_found_names(spec_interface_names(t, p + 4))
}

impl Parser {
    /// One declaration, with its leading annotations and modifiers (`partial`, `ref`,
    /// `singleton`, `abstract`, `sealed`).
    pub(crate) fn parse_decl(&mut self) -> (r: Result<Decl, ParseError>)
        requires
            old(self).wf(),
        ensures
            final(self).evolves(*old(self)),
            r is Ok ==> final(self).pos > old(self).pos,
            ({
                let t = old(self).tokens@;
                let q = spec_skip_newlines(t, old(self).pos as int);
                let k = t[q].kind;
                &&& !spec_starts_decl(k) ==> (r matches Err(e) && spec_starts_with(e.message@, spec_expected_declaration_prefix())
                    && final(self).errors@ == old(self).errors@)
                &&& k is Interface && spec_empty_body_decl_at(t, q) ==> (
                    r matches Ok(Decl::Interface { name: n, extends: ex, members: ms, .. })
                    && n@ == t[q + 1].kind->Identifier_0@ && ex@.len() == 0 && ms@.len() == 0)
                &&& k is TypeAlias && spec_simple_alias_at(t, q) ==> (
                    r matches Ok(Decl::TypeAlias { name: n, target: TypeRef::Simple { name: tn, .. }, .. })
                    && n@ == t[q + 1].kind->Identifier_0@ && tn@ == t[q + 3].kind->Identifier_0@)
                &&& spec_plain_enum_at(t, q) ==> (
                    r matches Ok(Decl::Enum { name: n, params: ps, entries: es, .. })
                    && n@ == t[q + 1].kind->Identifier_0@ && ps@.len() == 0
                    && spec_entry_names(es@) == spec_plain_enum_names(t, q)
                    && final(self).errors@ == old(self).errors@ && final(self).pos == spec_plain_enum_end(t, q))
                &&& spec_empty_subclass_at(t, q) ==> (
                    r matches Ok(Decl::Class { is_abstract: a, is_sealed: se, is_partial: pa, name: n, super_class: Some(sc), interfaces: is, members: ms, .. })
                    && !a && !se && !pa && n@ == t[q + 1].kind->Identifier_0@ && sc@ == t[q + 3].kind->Identifier_0@
                    && spec_name_texts(is@) == spec_component_interfaces(t, q) && ms@.len() == 0
                    && final(self).errors@ == old(self).errors@ && final(self).pos == spec_empty_component_end(t, q))
                &&& spec_listed_component_at(t, q) ==> ({
                    let body = spec_component_body(t, q);
                    r matches Ok(Decl::Component { is_singleton: si, is_partial: pa, name: n, base_class: b, interfaces: is, members: ms, .. })
                    && !si && !pa && n@ == t[q + 1].kind->Identifier_0@ && b@ == t[q + 3].kind->Identifier_0@
                    && spec_name_texts(is@) == spec_component_interfaces(t, q) && spec_members_are(ms@, spec_lines_of(body))
                    && spec_reported_lines(old(self).errors@, final(self).errors@, spec_member_lines_reported(spec_lines_of(body)))
                    && final(self).pos == spec_lines_end(body) + 1
                })
                &&& spec_empty_component_at(t, q) ==> (
                    r matches Ok(Decl::Component { is_singleton: si, is_partial: pa, name: n, base_class: b, interfaces: is, members: ms, .. })
                    && !si && !pa && n@ == t[q + 1].kind->Identifier_0@ && b@ == t[q + 3].kind->Identifier_0@
                    && spec_name_texts(is@) == spec_component_interfaces(t, q) && ms@.len() == 0
                    && final(self).errors@ == old(self).errors@ && final(self).pos == spec_empty_component_end(t, q))
            }),
        decreases old(self).tokens@.len() - old(self).pos, 6int,
    {
        self.skip_newlines();
        let annotations = self.parse_annotations()?;

        if self.check_contextual("ref") && self.kind_at_is(1, &TokenKind::Struct) {
            self.advance();
            return self.parse_struct_with(true);
        }

        if self.check_contextual("partial") {
            if self.kind_at_is(1, &TokenKind::Component) || self.kind_at_is(1, &TokenKind::Class)
                || self.kind_at_is(1, &TokenKind::Singleton)
            {
                self.advance();
                self.skip_newlines();
                return match self.peek_kind() {
                    TokenKind::Component => self.parse_component_decl_with(false, true),
                    TokenKind::Singleton => {
                        self.advance();
                        self.skip_newlines();
                        if !self.check(&TokenKind::Component) {
                            return Err(self.error(owned("'partial singleton' must be followed by 'component'")));
                        }
                        self.parse_component_decl_with(true, true)
                    },
                    TokenKind::Class => self.parse_class_with_modifiers_full(false, false, true),
                    _ => Err(self.error(owned("'partial' can only modify 'component' or 'class'"))),
                };
            }
        }

        match self.peek_kind() {
            TokenKind::Component => self.parse_component_decl(false),
            TokenKind::Singleton => {
                self.advance();
                self.skip_newlines();
                if !self.check(&TokenKind::Component) {
                    return Err(self.error(owned("'singleton' can only be used before 'component'")));
                }
                self.parse_component_decl(true)
            },
            TokenKind::Asset => self.parse_asset(),
            TokenKind::Data => self.parse_data_class(),
            TokenKind::Class => self.parse_class_with_modifiers(false, false),
            TokenKind::Abstract => {
                self.advance();
                self.skip_newlines();
                if !self.check(&TokenKind::Class) {
                    return Err(self.error(owned("'abstract' can only be used before 'class'")));
                }
                self.parse_class_with_modifiers(true, false)
            },
            TokenKind::Sealed => {
                self.advance();
                self.skip_newlines();
                if !self.check(&TokenKind::Class) {
                    return Err(self.error(owned("'sealed' can only be used before 'class'")));
                }
                self.parse_class_with_modifiers(false, true)
            },
            TokenKind::Enum => self.parse_enum(),
            TokenKind::Attribute => self.parse_attribute_decl(annotations),
            TokenKind::Interface => self.parse_interface(),
            TokenKind::TypeAlias => self.parse_type_alias(),
            TokenKind::Struct => self.parse_struct(),
            TokenKind::Extend => self.parse_extension(),
            TokenKind::Func | TokenKind::Const | TokenKind::Coroutine => {
                self.parse_top_level_item_as_globals(annotations)
            },
            _ => Err(self.error_found(
                "Expected declaration (component, singleton, asset, class, enum, attribute, interface, typealias, struct, extend, func, const, coroutine), found ",
            )),
        }
    }

    /// A top-level `func`, `const` or `coroutine`, wrapped in a `public static partial class
    /// Globals`; a function becomes `public static`.
    fn parse_top_level_item_as_globals(&mut self, annotations: Vec<Annotation>) -> (r: Result<Decl, ParseError>)
        requires
            old(self).wf(),
            old(self).cur() is Func || old(self).cur() is Const || old(self).cur() is Coroutine,
        ensures
            final(self).evolves(*old(self)),
            r is Ok ==> final(self).pos > old(self).pos,
            r matches Ok(d) ==> (d matches Decl::Class { name: n, is_partial: pa, is_abstract: a, is_sealed: se, members: ms, .. }
                && n@ == "Globals"@ && pa && !a && !se && ms@.len() == 1),
            ({
                let t = old(self).tokens@;
                let p = old(self).pos as int;
                t[p].kind is Const && t[p + 1].kind is Identifier && p + 2 < t.len() && t[p + 2].kind is Eq
                    && spec_atom_at(t, p + 3) is Some ==> (
                    r matches Ok(Decl::Class { members: ms, .. }) && ms@.len() == 1
                    && (ms@[0] matches Member::Field { name: fname, is_static: st, mutability: mu, init: i, .. }
                    && fname@ == t[p + 1].kind->Identifier_0@ && st && mu == Mutability::Const && i == spec_atom_at(t, p + 3)))
            }),
        decreases old(self).tokens@.len() - old(self).pos, 2int,
    {
        let start = self.peek_span();
        let member = match self.peek_kind() {
            TokenKind::Func => {
                let m = self.parse_func_with_annotations(Visibility::Public, false, annotations)?;
                match m {
                    Member::Func {
                        name,
                        name_span,
                        type_params,
                        where_clauses,
                        params,
                        return_ty,
                        body,
                        is_operator,
                        is_async,
                        is_override,
                        is_abstract,
                        is_open,
                        annotations,
                        span,
                        ..
                    } => Member::Func {
                        visibility: Visibility::Public,
                        is_static: true,
                        is_override,
                        is_abstract,
                        is_open,
                        is_operator,
                        is_async,
                        annotations,
                        name,
                        name_span,
                        type_params,
                        where_clauses,
                        params,
                        return_ty,
                        body,
                        span,
                    },
                    other => other,
                }
            },
            TokenKind::Const | TokenKind::Fixed => self.parse_val_var_field_with_static(Visibility::Public, true)?,
            _ => self.parse_coroutine()?,
        };
        self.skip_newlines();
        let span = self.span_from(start);
        Ok(Decl::Class {
            name: owned("Globals"),
            name_span: start,
            is_abstract: false,
            is_sealed: false,
            is_partial: true,
            type_params: Vec::new(),
            where_clauses: Vec::new(),
            super_class: None,
            super_class_span: None,
            interfaces: Vec::new(),
            interface_spans: Vec::new(),
            members: vec![member],
            primary_ctor_params: Vec::new(),
            span,
        })
    }

    /// `interface Name [: A, B] { func .. | val/var .. }`
    fn parse_interface(&mut self) -> (r: Result<Decl, ParseError>)
        requires
            old(self).wf(),
            old(self).cur() is Interface,
        ensures
            final(self).evolves(*old(self)),
            r is Ok ==> final(self).pos > old(self).pos,
            !(spec_kind_after_newlines(old(self).tokens@, old(self).pos + 1) is Identifier) ==> r is Err,
            spec_empty_body_decl_at(old(self).tokens@, old(self).pos as int) ==> (
                r matches Ok(Decl::Interface { name: n, extends: ex, members: ms, .. })
                && n@ == old(self).tokens@[old(self).pos + 1].kind->Identifier_0@ && ex@.len() == 0 && ms@.len() == 0
                && final(self).pos == spec_skip_newlines(old(self).tokens@, old(self).pos + 3) + 1
                && final(self).errors@ == old(self).errors@),
        decreases old(self).tokens@.len() - old(self).pos, 1int,
    {
        let start = self.peek_span();
        self.advance();
        self.skip_newlines();

        let (name, name_span) = self.expect_ident()?;

        let mut extends: Vec<String> = Vec::new();
        let mut extends_spans: Vec<Span> = Vec::new();
        if self.eat(&TokenKind::Colon) {
            let (ext_name, ext_span) = self.expect_ident()?;
            extends.push(ext_name);
            extends_spans.push(ext_span);
            while self.eat(&TokenKind::Comma)
                invariant
                    self.evolves(*old(self)),
                    self.pos > old(self).pos,
                    !spec_empty_body_decl_at(old(self).tokens@, old(self).pos as int),
                decreases self.tokens@.len() - self.pos,
            {
                let (ext_name, ext_span) = self.expect_ident()?;
                extends.push(ext_name);
                extends_spans.push(ext_span);
            }
        }

        self.skip_newlines();
        self.expect(&TokenKind::LBrace)?;
        self.skip_newlines();

        let mut members: Vec<InterfaceMember> = Vec::new();
        while !self.check(&TokenKind::RBrace) && !self.check(&TokenKind::Eof)
            invariant
                self.evolves(*old(self)),
                self.pos > old(self).pos,
                spec_empty_body_decl_at(old(self).tokens@, old(self).pos as int) ==> members@.len() == 0
                    && extends@.len() == 0
                    && self.pos == spec_skip_newlines(old(self).tokens@, old(self).pos + 3)
                    && self.errors@ == old(self).errors@,
            decreases self.tokens@.len() - self.pos,
        {
            self.skip_newlines();
            if self.check(&TokenKind::RBrace) {
                break;
            }
            let member_start = self.peek_span();
            if self.check(&TokenKind::Func) {
                self.advance();
                let (fn_name, fn_name_span) = self.expect_ident()?;
                self.expect(&TokenKind::LParen)?;
                let params = if self.check(&TokenKind::RParen) {
                    Vec::new()
                } else {
                    self.parse_param_list()?
                };
                self.expect(&TokenKind::RParen)?;
                let return_ty = if self.eat(&TokenKind::Colon) {
                    Some(self.parse_type()?)
                } else {
                    None
                };
                let saved = self.pos;
                self.skip_newlines();
                let default_body = if self.check(&TokenKind::LBrace) {
                    Some(self.parse_block()?)
                } else {
                    self.pos = saved;
                    None
                };
                let span = self.span_from(member_start);
                members.push(InterfaceMember::Func {
                    name: fn_name,
                    name_span: fn_name_span,
                    params,
                    return_ty,
                    default_body,
                    span,
                });
            } else if self.check(&TokenKind::Val) || self.check(&TokenKind::Var) {
                let mutable = self.check(&TokenKind::Var);
                self.advance();
                let (prop_name, prop_name_span) = self.expect_ident()?;
                self.expect(&TokenKind::Colon)?;
                let ty = self.parse_type()?;
                let span = self.span_from(member_start);
                members.push(InterfaceMember::Property {
                    name: prop_name,
                    name_span: prop_name_span,
                    ty,
                    mutable,
                    span,
                });
            } else {
                return Err(self.error_found("Expected 'func', 'val', or 'var' in interface body, found "));
            }
            self.expect_newline_or_eof();
            self.skip_newlines();
        }

        self.expect(&TokenKind::RBrace)?;
        let span = self.span_from(start);
        Ok(Decl::Interface { name, name_span, extends, extends_spans, members, span })
    }

    /// `typealias Name = Type`
    fn parse_type_alias(&mut self) -> (r: Result<Decl, ParseError>)
        requires
            old(self).wf(),
            old(self).cur() is TypeAlias,
        ensures
            final(self).evolves(*old(self)),
            r is Ok ==> final(self).pos > old(self).pos,
            !(old(self).tokens@[old(self).pos + 1].kind is Identifier) ==> r is Err,
            spec_simple_alias_at(old(self).tokens@, old(self).pos as int) ==> (
                r matches Ok(Decl::TypeAlias { name: n, target: TypeRef::Simple { name: tn, .. }, .. })
                && n@ == old(self).tokens@[old(self).pos + 1].kind->Identifier_0@
                && tn@ == old(self).tokens@[old(self).pos + 3].kind->Identifier_0@),
        decreases old(self).tokens@.len() - old(self).pos, 1int,
    {
        let start = self.peek_span();
        self.advance();
        let (name, name_span) = self.expect_ident()?;
        self.expect(&TokenKind::Eq)?;
        let target = self.parse_type()?;
        self.expect_newline_or_eof();
        let span = self.span_from(start);
        Ok(Decl::TypeAlias { name, name_span, target, span })
    }

    /// `struct Name(fields) [{ members }]`
    fn parse_struct(&mut self) -> (r: Result<Decl, ParseError>)
        requires
            old(self).wf(),
            old(self).cur() is Struct,
        ensures
            final(self).evolves(*old(self)),
            r is Ok ==> final(self).pos > old(self).pos,
        decreases old(self).tokens@.len() - old(self).pos, 2int,
    {
        self.parse_struct_with(false)
    }

    /// `struct Name(fields) [{ members }]`, marked as a `ref struct` when `is_ref`.
    fn parse_struct_with(&mut self, is_ref: bool) -> (r: Result<Decl, ParseError>)
        requires
            old(self).wf(),
            old(self).cur() is Struct,
        ensures
            final(self).evolves(*old(self)),
            r is Ok ==> final(self).pos > old(self).pos,
            !(old(self).tokens@[old(self).pos + 1].kind is Identifier) ==> r is Err,
            ({
                let t = old(self).tokens@;
                let p = old(self).pos as int;
                p + 4 < t.len() && t[p + 1].kind is Identifier && t[p + 2].kind is LParen && t[p + 3].kind is RParen
                    && t[p + 4].kind is Eof ==> (
                    r matches Ok(Decl::Struct { name: n, fields: fs, members: ms, .. }) && n@ == t[p + 1].kind->Identifier_0@
                    && fs@.len() == 0 && ms@.len() == 0 && final(self).pos == p + 4 && final(self).errors@ == old(self).errors@)
            }),
        decreases old(self).tokens@.len() - old(self).pos, 1int,
    {
        let start = self.peek_span();
        self.advance();
        let (name, name_span) = self.expect_ident()?;
        self.expect(&TokenKind::LParen)?;
        let fields = if self.check(&TokenKind::RParen) {
            Vec::new()
        } else {
            self.parse_param_list()?
        };
        self.expect(&TokenKind::RParen)?;

        let has_body = if self.check(&TokenKind::LBrace) {
            true
        } else {
            let saved = self.pos;
            self.skip_newlines();
            let has_brace = self.check(&TokenKind::LBrace);
            if !has_brace {
                self.pos = saved;
            }
            has_brace
        };
        let members = if has_body {
            self.expect(&TokenKind::LBrace)?;
            let ms = self.parse_members()?;
            self.expect(&TokenKind::RBrace)?;
            ms
        } else {
            self.expect_newline_or_eof();
            Vec::new()
        };

        let span = self.span_from(start);
        Ok(Decl::Struct { name, name_span, is_ref, fields, members, span })
    }

    /// `component Name : Base [, I1, I2] { members }`
    fn parse_component_decl(&mut self, is_singleton: bool) -> (r: Result<Decl, ParseError>)
        requires
            old(self).wf(),
            old(self).cur() is Component,
        ensures
            final(self).evolves(*old(self)),
            r is Ok ==> final(self).pos > old(self).pos,
            spec_listed_component_at(old(self).tokens@, old(self).pos as int) ==> ({
                let t = old(self).tokens@;
                let p = old(self).pos as int;
                let body = spec_component_body(t, p);
                r matches Ok(Decl::Component { name: n, base_class: b, interfaces: is, members: ms, .. })
                    && n@ == t[p + 1].kind->Identifier_0@ && b@ == t[p + 3].kind->Identifier_0@
                    && spec_name_texts(is@) == spec_component_interfaces(t, p)
                    && spec_members_are(ms@, spec_lines_of(body))
                    && spec_reported_lines(old(self).errors@, final(self).errors@, spec_member_lines_reported(spec_lines_of(body)))
                    && final(self).pos == spec_lines_end(body) + 1
            }),
            spec_empty_component_at(old(self).tokens@, old(self).pos as int) ==> ({
                let t = old(self).tokens@;
                let p = old(self).pos as int;
                r matches Ok(Decl::Component { name: n, base_class: b, interfaces: is, members: ms, .. })
                    && n@ == t[p + 1].kind->Identifier_0@ && b@ == t[p + 3].kind->Identifier_0@
                    && spec_name_texts(is@) == spec_component_interfaces(t, p)
                    && ms@.len() == 0 && final(self).errors@ == old(self).errors@
                    && final(self).pos == spec_empty_component_end(t, p)
            }),
            r matches Ok(d) ==> (d matches Decl::Component { is_singleton: s, is_partial: pa, .. }
                && s == is_singleton && !pa),
        decreases old(self).tokens@.len() - old(self).pos, 2int,
    {
        self.parse_component_decl_with(is_singleton, false)
    }

    /// `component Name : Base [, I1, I2] { members }` with the `singleton` and `partial` flags.
    fn parse_component_decl_with(&mut self, is_singleton: bool, is_partial: bool) -> (r: Result<Decl, ParseError>)
        requires
            old(self).wf(),
            old(self).cur() is Component,
        ensures
            final(self).evolves(*old(self)),
            r is Ok ==> final(self).pos > old(self).pos,
            !(old(self).tokens@[old(self).pos + 1].kind is Identifier) ==> r is Err,
            r matches Ok(d) ==> (d matches Decl::Component { is_singleton: s, is_partial: pa, .. }
                && s == is_singleton && pa == is_partial),
            spec_empty_based_decl_at(old(self).tokens@, old(self).pos as int) ==> ({
                let t = old(self).tokens@;
                let p = old(self).pos as int;
                r matches Ok(Decl::Component { name: n, base_class: b, interfaces: is, members: ms, .. })
                    && n@ == t[p + 1].kind->Identifier_0@ && b@ == t[p + 3].kind->Identifier_0@
                    && is@.len() == 0 && ms@.len() == 0 && final(self).errors@ == old(self).errors@
            }),
            spec_listed_component_at(old(self).tokens@, old(self).pos as int) ==> ({
                let t = old(self).tokens@;
                let p = old(self).pos as int;
                let body = spec_component_body(t, p);
                r matches Ok(Decl::Component { name: n, base_class: b, interfaces: is, members: ms, .. })
                    && n@ == t[p + 1].kind->Identifier_0@ && b@ == t[p + 3].kind->Identifier_0@
                    && spec_name_texts(is@) == spec_component_interfaces(t, p)
                    && spec_members_are(ms@, spec_lines_of(body))
                    && spec_reported_lines(old(self).errors@, final(self).errors@, spec_member_lines_reported(spec_lines_of(body)))
                    && final(self).pos == spec_lines_end(body) + 1
            }),
            spec_empty_component_at(old(self).tokens@, old(self).pos as int) ==> ({
                let t = old(self).tokens@;
                let p = old(self).pos as int;
                r matches Ok(Decl::Component { name: n, base_class: b, interfaces: is, members: ms, .. })
                    && n@ == t[p + 1].kind->Identifier_0@ && b@ == t[p + 3].kind->Identifier_0@
                    && spec_name_texts(is@) == spec_component_interfaces(t, p)
                    && ms@.len() == 0 && final(self).errors@ == old(self).errors@
                    && final(self).pos == spec_empty_component_end(t, p)
            }),
        decreases old(self).tokens@.len() - old(self).pos, 1int,
    {
        let start = self.peek_span();
        self.advance();

        let (name, name_span) = self.expect_ident()?;
        self.expect(&TokenKind::Colon)?;
        let (base_class, base_class_span) = self.expect_ident()?;
        let (interfaces, interface_spans) = self.parse_interface_list()?;

        self.skip_newlines();
        self.expect(&TokenKind::LBrace)?;
        proof {
            if spec_member_lines(self.tokens@, spec_skip_newlines(self.tokens@, self.pos as int)) is Some {
                lemma_member_lines_end(self.tokens@, spec_skip_newlines(self.tokens@, self.pos as int));
            }
        }
        let members = self.parse_members()?;
        self.expect(&TokenKind::RBrace)?;

        let span = self.span_from(start);
        Ok(Decl::Component {
            is_singleton,
            is_partial,
            name,
            name_span,
            base_class,
            base_class_span,
            interfaces,
            interface_spans,
            members,
            span,
        })
    }

    /// `asset Name : Base { members }`
    fn parse_asset(&mut self) -> (r: Result<Decl, ParseError>)
        requires
            old(self).wf(),
            old(self).cur() is Asset,
        ensures
            final(self).evolves(*old(self)),
            r is Ok ==> final(self).pos > old(self).pos,
            !(old(self).tokens@[old(self).pos + 1].kind is Identifier) ==> r is Err,
            spec_empty_based_decl_at(old(self).tokens@, old(self).pos as int) ==> ({
                let t = old(self).tokens@;
                let p = old(self).pos as int;
                r matches Ok(Decl::Asset { name: n, base_class: b, members: ms, .. })
                    && n@ == t[p + 1].kind->Identifier_0@ && b@ == t[p + 3].kind->Identifier_0@
                    && ms@.len() == 0 && final(self).errors@ == old(self).errors@
            }),
        decreases old(self).tokens@.len() - old(self).pos, 1int,
    {
        let start = self.peek_span();
        self.advance();

        let (name, name_span) = self.expect_ident()?;
        self.expect(&TokenKind::Colon)?;
        let (base_class, base_class_span) = self.expect_ident()?;

        self.skip_newlines();
        self.expect(&TokenKind::LBrace)?;
        let members = self.parse_members()?;
        self.expect(&TokenKind::RBrace)?;

        let span = self.span_from(start);
        Ok(Decl::Asset { name, name_span, base_class, base_class_span, members, span })
    }

    /// `class Name ...` with the `abstract` and `sealed` flags.
    fn parse_class_with_modifiers(&mut self, is_abstract: bool, is_sealed: bool) -> (r: Result<Decl, ParseError>)
        requires
            old(self).wf(),
            old(self).cur() is Class,
        ensures
            final(self).evolves(*old(self)),
            r is Ok ==> final(self).pos > old(self).pos,
            r matches Ok(d) ==> (d matches Decl::Class { is_abstract: a, is_sealed: se, is_partial: pa, .. }
                && a == is_abstract && se == is_sealed && !pa),
            spec_empty_subclass_at(old(self).tokens@, old(self).pos as int) ==> ({
                let t = old(self).tokens@;
                let p = old(self).pos as int;
                r matches Ok(Decl::Class { name: n, type_params: tp, super_class: Some(sc), interfaces: is, members: ms, .. })
                    && n@ == t[p + 1].kind->Identifier_0@ && tp@.len() == 0 && sc@ == t[p + 3].kind->Identifier_0@
                    && spec_name_texts(is@) == spec_component_interfaces(t, p)
                    && ms@.len() == 0 && final(self).errors@ == old(self).errors@
                    && final(self).pos == spec_empty_component_end(t, p)
            }),
        decreases old(self).tokens@.len() - old(self).pos, 2int,
    {
        self.parse_class_with_modifiers_full(is_abstract, is_sealed, false)
    }

    /// `class Name[<T, ..>][(params)] [: Super[, I..]] [where ..] [{ members }]`
    #[verifier::rlimit(40)]
    fn parse_class_with_modifiers_full(&mut self, is_abstract: bool, is_sealed: bool, is_partial: bool) -> (r: Result<Decl, ParseError>)
        requires
            old(self).wf(),
            old(self).cur() is Class,
        ensures
            final(self).evolves(*old(self)),
            r is Ok ==> final(self).pos > old(self).pos,
            !(old(self).tokens@[old(self).pos + 1].kind is Identifier) ==> r is Err,
            r matches Ok(d) ==> (d matches Decl::Class { is_abstract: a, is_sealed: se, is_partial: pa, .. }
                && a == is_abstract && se == is_sealed && pa == is_partial),
            spec_empty_body_decl_at(old(self).tokens@, old(self).pos as int) ==> ({
                let t = old(self).tokens@;
                let p = old(self).pos as int;
                r matches Ok(Decl::Class { name: n, type_params: tp, where_clauses: wc, super_class: sc, interfaces: is,
                    members: ms, primary_ctor_params: pc, .. })
                    && n@ == t[p + 1].kind->Identifier_0@ && tp@.len() == 0 && wc@.len() == 0 && sc is None
                    && is@.len() == 0 && ms@.len() == 0 && pc@.len() == 0 && final(self).errors@ == old(self).errors@
            }),
            spec_empty_subclass_at(old(self).tokens@, old(self).pos as int) ==> ({
                let t = old(self).tokens@;
                let p = old(self).pos as int;
                r matches Ok(Decl::Class { name: n, type_params: tp, super_class: Some(sc), interfaces: is, members: ms, .. })
                    && n@ == t[p + 1].kind->Identifier_0@ && tp@.len() == 0 && sc@ == t[p + 3].kind->Identifier_0@
                    && spec_name_texts(is@) == spec_component_interfaces(t, p)
                    && ms@.len() == 0 && final(self).errors@ == old(self).errors@
                    && final(self).pos == spec_empty_component_end(t, p)
            }),
        decreases old(self).tokens@.len() - old(self).pos, 1int,
    {
        let start = self.peek_span();
        self.advance();

        let (name, name_span) = self.expect_ident()?;

        let type_params = if self.check(&TokenKind::Lt) {
            self.parse_type_params()?
        } else {
            Vec::new()
        };

        let primary_ctor_params = if self.eat(&TokenKind::LParen) {
            let mut params: Vec<Param> = Vec::new();
            self.skip_newlines();
            while !self.check(&TokenKind::RParen) && !self.check(&TokenKind::Eof)
                invariant
                    self.evolves(*old(self)),
                    self.pos > old(self).pos,
                    !spec_empty_body_decl_at(old(self).tokens@, old(self).pos as int),
                    !spec_empty_subclass_at(old(self).tokens@, old(self).pos as int),
                decreases self.tokens@.len() - self.pos,
            {
                self.eat(&TokenKind::Val);
                self.eat(&TokenKind::Var);
                let p = self.parse_param()?;
                params.push(p);
                self.skip_newlines();
                if !self.eat(&TokenKind::Comma) {
                    break;
                }
                self.skip_newlines();
            }
            self.expect(&TokenKind::RParen)?;
            params
        } else {
            Vec::new()
        };

        let (super_class, super_class_span) = if self.eat(&TokenKind::Colon) {
            let (sc, span) = self.expect_ident()?;
            (Some(sc), Some(span))
        } else {
            (None, None)
        };
        let (interfaces, interface_spans) = if super_class.is_some() {
            self.parse_interface_list()?
        } else {
            (Vec::new(), Vec::new())
        };

        let where_clauses = self.parse_where_clauses()?;

        self.skip_newlines();
        let members = if self.check(&TokenKind::LBrace) {
            self.advance();
            let ms = self.parse_members()?;
            self.expect(&TokenKind::RBrace)?;
            ms
        } else if primary_ctor_params.len() > 0 {
            Vec::new()
        } else {
            self.expect(&TokenKind::LBrace)?;
            Vec::new()
        };

        let span = self.span_from(start);
        Ok(Decl::Class {
            name,
            name_span,
            is_abstract,
            is_sealed,
            is_partial,
            type_params,
            where_clauses,
            super_class,
            super_class_span,
            interfaces,
            interface_spans,
            members,
            primary_ctor_params,
            span,
        })
    }

    /// `, I1, I2, ..` after a base class.
    fn parse_interface_list(&mut self) -> (r: Result<(Vec<String>, Vec<Span>), ParseError>)
        requires
            old(self).wf(),
        ensures
            final(self).evolves(*old(self)),
            r matches Ok((names, spans)) ==> names@.len() == spans@.len(),
            r is Ok ==> !(final(self).cur() is Comma),
            !(old(self).cur() is Comma) ==> (r matches Ok((names, _spans)) && names@.len() == 0
                && final(self).pos == old(self).pos && final(self).errors@ == old(self).errors@),
            ({
                let t = old(self).tokens@;
                let p = old(self).pos as int;
                t[p].kind is Comma && t[p + 1].kind is Identifier && p + 2 < t.len() && !(t[p + 2].kind is Comma) ==> (
                    r matches Ok((names, _spans)) && names@.len() == 1 && names@[0]@ == t[p + 1].kind->Identifier_0@
                    && final(self).pos == p + 2 && final(self).errors@ == old(self).errors@)
            }),
            match spec_interface_names(old(self).tokens@, old(self).pos as int) {
                Some((all, e)) => r matches Ok((names, _spans)) && spec_name_texts(names@) == all
                    && final(self).pos == e && final(self).errors@ == old(self).errors@,
                None => true,
            },
    {
        let mut interfaces: Vec<String> = Vec::new();
        let mut interface_spans: Vec<Span> = Vec::new();
        let ghost t = self.tokens@;
        let ghost whole = spec_interface_names(t, self.pos as int);
        proof {
            if whole is Some {
                assert(spec_name_texts(interfaces@) + spec_found_names(whole) =~= spec_found_names(whole));
            }
        }
        while self.eat(&TokenKind::Comma)
            invariant
                self.evolves(*old(self)),
                t == old(self).tokens@,
                whole == spec_interface_names(t, old(self).pos as int),
                whole is Some ==> ({
                    &&& spec_interface_names(t, self.pos as int) is Some
                    &&& spec_name_texts(interfaces@) + spec_found_names(spec_interface_names(t, self.pos as int)) == spec_found_names(whole)
                    &&& spec_found_end(spec_interface_names(t, self.pos as int)) == spec_found_end(whole)
                    &&& self.errors@ == old(self).errors@
                }),
                interfaces@.len() == interface_spans@.len(),
                !(old(self).cur() is Comma) ==> interfaces@.len() == 0 && self.pos == old(self).pos
                    && self.errors@ == old(self).errors@,
                ({
                    let t = old(self).tokens@;
                    let p = old(self).pos as int;
                    t[p].kind is Comma && t[p + 1].kind is Identifier && p + 2 < t.len() && !(t[p + 2].kind is Comma) ==> (
                        (interfaces@.len() == 0 && self.pos == p) || (interfaces@.len() == 1
                        && interfaces@[0]@ == t[p + 1].kind->Identifier_0@ && self.pos == p + 2))
                        && self.errors@ == old(self).errors@
                }),
            decreases self.tokens@.len() - self.pos,
        {
            let (iface, span) = self.expect_ident()?;
            interfaces.push(iface);
            interface_spans.push(span);
        }
        Ok((interfaces, interface_spans))
    }

    /// `<T, U>`
    pub(crate) fn parse_type_params(&mut self) -> (r: Result<Vec<String>, ParseError>)
        requires
            old(self).wf(),
        ensures
            final(self).evolves(*old(self)),
            r is Ok ==> final(self).pos > old(self).pos,
            r matches Ok(ps) ==> ps@.len() >= 1,
            !(old(self).cur() is Lt) ==> (r is Err && final(self).pos == old(self).pos
                && final(self).errors@ == old(self).errors@),
            r matches Ok(ps) ==> old(self).tokens@[old(self).pos + 1].kind is Identifier
                && ps@[0]@ == old(self).tokens@[old(self).pos + 1].kind->Identifier_0@,
            ({
                let t = old(self).tokens@;
                let p = old(self).pos as int;
                t[p].kind is Lt && t[p + 1].kind is Identifier && p + 2 < t.len() && t[p + 2].kind is Gt ==> (
                    r matches Ok(ps) && ps@.len() == 1 && final(self).pos == p + 3 && final(self).errors@ == old(self).errors@)
            }),
    {
        self.expect(&TokenKind::Lt)?;
        let mut params: Vec<String> = Vec::new();
        let (first, _s) = self.expect_ident()?;
        params.push(first);
        while self.eat(&TokenKind::Comma)
            invariant
                self.evolves(*old(self)),
                self.pos > old(self).pos,
                params@.len() >= 1,
                old(self).tokens@[old(self).pos + 1].kind is Identifier
                    && params@[0]@ == old(self).tokens@[old(self).pos + 1].kind->Identifier_0@,
                old(self).cur() is Lt,
                ({
                    let t = old(self).tokens@;
                    let p = old(self).pos as int;
                    t[p + 1].kind is Identifier && p + 2 < t.len() && t[p + 2].kind is Gt
                        ==> params@.len() == 1 && self.pos == p + 2 && self.errors@ == old(self).errors@
                }),
            decreases self.tokens@.len() - self.pos,
        {
            let (p, _s2) = self.expect_ident()?;
            params.push(p);
        }
        self.expect(&TokenKind::Gt)?;
        Ok(params)
    }

    /// Optional `where T : A, B  U : C` clauses; `where` is an ordinary identifier.
    pub(crate) fn parse_where_clauses(&mut self) -> (r: Result<Vec<WhereClause>, ParseError>)
        requires
            old(self).wf(),
        ensures
            final(self).evolves(*old(self)),
            ({
                let is_where = old(self).cur() is Identifier && old(self).cur()->Identifier_0@ == "where"@;
                &&& !is_where ==> (r matches Ok(v) && v@.len() == 0 && final(self).pos == old(self).pos
                    && final(self).errors@ == old(self).errors@)
                &&& r matches Ok(v) ==> (v@.len() == 0 <==> !is_where)
                &&& is_where && r is Ok ==> final(self).pos > old(self).pos
            }),
    {
        let mut clauses: Vec<WhereClause> = Vec::new();
        if !self.check_contextual("where") {
            return Ok(clauses);
        }
        self.advance();
        loop
            invariant
                self.evolves(*old(self)),
                self.pos > old(self).pos,
                old(self).cur() is Identifier && old(self).cur()->Identifier_0@ == "where"@,
            ensures
                self.evolves(*old(self)),
                self.pos > old(self).pos,
                clauses@.len() > 0,
            decreases self.tokens@.len() - self.pos,
        {
            let ghost round_start = self.pos;
            let (type_param, _s) = self.expect_ident()?;
            self.expect(&TokenKind::Colon)?;
            let mut constraints: Vec<String> = Vec::new();
            let (first, _s2) = self.expect_ident()?;
            constraints.push(first);
            while self.check(&TokenKind::Comma)
                invariant
                    self.evolves(*old(self)),
                    self.pos > round_start,
                decreases self.tokens@.len() - self.pos,
            {
                let saved = self.pos;
                self.advance();
                match self.peek_kind() {
                    TokenKind::Identifier(next_name) => {
                        self.advance();
                        if self.check(&TokenKind::Colon) {
                            self.pos = saved;
                            break;
                        } else {
                            constraints.push(next_name);
                        }
                    },
                    _ => {
                        self.pos = saved;
                        break;
                    },
                }
            }
            clauses.push(WhereClause { type_param, constraints });
            match self.peek_kind() {
                TokenKind::Identifier(w) => {
                    if str_eq(w.as_str(), "where") || str_eq(w.as_str(), "{") {
                        break;
                    }
                    let saved = self.pos;
                    self.advance();
                    if self.check(&TokenKind::Colon) {
                        self.pos = saved;
                    } else {
                        self.pos = saved;
                        break;
                    }
                },
                _ => {
                    break;
                },
            }
        }
        Ok(clauses)
    }

    /// `data class Name(fields) [{ members }]`
    fn parse_data_class(&mut self) -> (r: Result<Decl, ParseError>)
        requires
            old(self).wf(),
            old(self).cur() is Data,
        ensures
            final(self).evolves(*old(self)),
            r is Ok ==> final(self).pos > old(self).pos,
            !(old(self).tokens@[old(self).pos + 1].kind is Class) ==> r is Err,
            ({
                let t = old(self).tokens@;
                let p = old(self).pos as int;
                p + 5 < t.len() && t[p + 1].kind is Class && t[p + 2].kind is Identifier && t[p + 3].kind is LParen
                    && t[p + 4].kind is RParen && !(t[p + 5].kind is Newline || t[p + 5].kind is LBrace) ==> (
                    r matches Ok(Decl::DataClass { name: n, fields: fs, members: ms, .. })
                    && n@ == t[p + 2].kind->Identifier_0@ && fs@.len() == 0 && ms@.len() == 0
                    && final(self).pos == p + 5 && final(self).errors@ == old(self).errors@)
            }),
        decreases old(self).tokens@.len() - old(self).pos, 1int,
    {
        let start = self.peek_span();
        self.advance();
        self.expect(&TokenKind::Class)?;
        let (name, name_span) = self.expect_ident()?;
        self.expect(&TokenKind::LParen)?;

        let mut fields: Vec<Param> = Vec::new();
        self.skip_newlines();
        while !self.check(&TokenKind::RParen) && !self.check(&TokenKind::Eof)
            invariant
                self.evolves(*old(self)),
                self.pos > old(self).pos,
                ({
                    let t = old(self).tokens@;
                    let p = old(self).pos as int;
                    p + 5 < t.len() && t[p + 1].kind is Class && t[p + 2].kind is Identifier && t[p + 3].kind is LParen
                        && t[p + 4].kind is RParen ==> fields@.len() == 0 && self.pos == p + 4 && self.errors@ == old(self).errors@
                }),
            decreases self.tokens@.len() - self.pos,
        {
            if !self.eat(&TokenKind::Val) {
                self.eat(&TokenKind::Var);
            }
            let p = self.parse_param()?;
            fields.push(p);
            self.skip_newlines();
            if !self.eat(&TokenKind::Comma) {
                break;
            }
            self.skip_newlines();
        }
        self.expect(&TokenKind::RParen)?;

        self.skip_newlines();
        let members = if self.eat(&TokenKind::LBrace) {
            let ms = self.parse_members()?;
            self.skip_newlines();
            self.expect(&TokenKind::RBrace)?;
            ms
        } else {
            Vec::new()
        };

        let span = self.span_from(start);
        Ok(Decl::DataClass { name, name_span, fields, members, span })
    }

    /// `enum Name[(val p: T, ..)] { Entry[(args) | (field: T, ..)], .. }`
    fn parse_enum(&mut self) -> (r: Result<Decl, ParseError>)
        requires
            old(self).wf(),
            old(self).cur() is Enum,
        ensures
            final(self).evolves(*old(self)),
            r is Ok ==> final(self).pos > old(self).pos,
            !(old(self).tokens@[old(self).pos + 1].kind is Identifier) ==> r is Err,
            spec_empty_body_decl_at(old(self).tokens@, old(self).pos as int) ==> ({
                let t = old(self).tokens@;
                let p = old(self).pos as int;
                r matches Ok(Decl::Enum { name: n, params: ps, entries: es, .. })
                    && n@ == t[p + 1].kind->Identifier_0@ && ps@.len() == 0 && es@.len() == 0
                    && final(self).pos == spec_skip_newlines(t, p + 3) + 1 && final(self).errors@ == old(self).errors@
            }),
            spec_plain_enum_at(old(self).tokens@, old(self).pos as int) ==> ({
                let t = old(self).tokens@;
                let p = old(self).pos as int;
                r matches Ok(Decl::Enum { name: n, params: ps, entries: es, .. })
                    && n@ == t[p + 1].kind->Identifier_0@ && ps@.len() == 0
                    && spec_entry_names(es@) == spec_plain_enum_names(t, p)
                    && (forall|i: int| 0 <= i < es@.len() ==> (#[trigger] es@[i]).args@.len() == 0 && es@[i].payload@.len() == 0)
                    && final(self).errors@ == old(self).errors@
                    && final(self).pos == spec_plain_enum_end(t, p)
            }),
        decreases old(self).tokens@.len() - old(self).pos, 1int,
    {
        let start = self.peek_span();
        self.advance();
        let (name, name_span) = self.expect_ident()?;
        let ghost t = old(self).tokens@;
        let ghost pe = spec_plain_enum_at(t, old(self).pos as int);
        let ghost all = spec_plain_enum_entries(t, spec_skip_newlines(t, spec_skip_newlines(t, old(self).pos + 2) + 1));

        let params = if self.eat(&TokenKind::LParen) {
            let mut ps: Vec<EnumParam> = Vec::new();
            self.skip_newlines();
            while !self.check(&TokenKind::RParen) && !self.check(&TokenKind::Eof)
                invariant
                    self.evolves(*old(self)),
                    self.pos > old(self).pos,
                    !spec_empty_body_decl_at(old(self).tokens@, old(self).pos as int),
                    !spec_plain_enum_at(old(self).tokens@, old(self).pos as int),
                decreases self.tokens@.len() - self.pos,
            {
                self.eat(&TokenKind::Val);
                let (pname, _s) = self.expect_ident()?;
                self.expect(&TokenKind::Colon)?;
                let ty = self.parse_type()?;
                ps.push(EnumParam { name: pname, ty });
                self.skip_newlines();
                if !self.eat(&TokenKind::Comma) {
                    break;
                }
                self.skip_newlines();
            }
            self.expect(&TokenKind::RParen)?;
            ps
        } else {
            Vec::new()
        };

        self.skip_newlines();
        self.expect(&TokenKind::LBrace)?;
        self.skip_newlines();

        let mut entries: Vec<EnumEntry> = Vec::new();
        proof {
            if pe {
                assert(spec_entry_names(entries@) + spec_found_names(all) =~= spec_found_names(all));
            }
        }
        while !self.check(&TokenKind::RBrace) && !self.check(&TokenKind::Eof)
            invariant
                self.evolves(*old(self)),
                self.pos > old(self).pos,
                spec_empty_body_decl_at(old(self).tokens@, old(self).pos as int) ==> entries@.len() == 0 && params@.len() == 0
                    && self.pos == spec_skip_newlines(old(self).tokens@, old(self).pos + 3) && self.errors@ == old(self).errors@,
                t == old(self).tokens@,
                pe == spec_plain_enum_at(t, old(self).pos as int),
                all == spec_plain_enum_entries(t, spec_skip_newlines(t, spec_skip_newlines(t, old(self).pos + 2) + 1)),
                pe ==> ({
                    &&& spec_plain_enum_entries(t, self.pos as int) is Some
                    &&& spec_entry_names(entries@) + spec_found_names(spec_plain_enum_entries(t, self.pos as int)) == spec_found_names(all)
                    &&& spec_found_end(spec_plain_enum_entries(t, self.pos as int)) == spec_found_end(all)
                    &&& params@.len() == 0
                    &&& forall|i: int| 0 <= i < entries@.len() ==> (#[trigger] entries@[i]).args@.len() == 0 && entries@[i].payload@.len() == 0
                    &&& self.errors@ == old(self).errors@
                }),
            decreases self.tokens@.len() - self.pos,
        {
            let ghost k = self.pos as int;
            let entry_span = self.peek_span();
            let (ename, entry_name_span) = self.expect_ident()?;
            let ghost entry_pos = self.pos;
            let (args, payload) = if self.eat(&TokenKind::LParen) {
                self.skip_newlines();
                let is_payload_form = matches!(self.peek(), TokenKind::Identifier(_))
                    && self.kind_at_is(1, &TokenKind::Colon);
                if is_payload_form {
                    let mut fields: Vec<EnumPayloadField> = Vec::new();
                    while !self.check(&TokenKind::RParen) && !self.check(&TokenKind::Eof)
                        invariant
                            self.evolves(*old(self)),
                            self.pos > old(self).pos,
                            self.pos >= entry_pos,
                            !spec_empty_body_decl_at(old(self).tokens@, old(self).pos as int),
                            !spec_plain_enum_at(old(self).tokens@, old(self).pos as int),
                        decreases self.tokens@.len() - self.pos,
                    {
                        let field_start = self.peek_span();
                        let (fname, _s) = self.expect_ident()?;
                        self.expect(&TokenKind::Colon)?;
                        let fty = self.parse_type()?;
                        let fspan = self.span_from(field_start);
                        fields.push(EnumPayloadField { name: fname, ty: fty, span: fspan });
                        self.skip_newlines();
                        if !self.eat(&TokenKind::Comma) {
                            break;
                        }
                        self.skip_newlines();
                    }
                    self.expect(&TokenKind::RParen)?;
                    (Vec::new(), fields)
                } else {
                    let mut a: Vec<Expr> = Vec::new();
                    while !self.check(&TokenKind::RParen) && !self.check(&TokenKind::Eof)
                        invariant
                            self.evolves(*old(self)),
                            self.pos > old(self).pos,
                            self.pos >= entry_pos,
                            !spec_empty_body_decl_at(old(self).tokens@, old(self).pos as int),
                            !spec_plain_enum_at(old(self).tokens@, old(self).pos as int),
                        decreases self.tokens@.len() - self.pos,
                    {
                        a.push(self.parse_expr()?);
                        if !self.eat(&TokenKind::Comma) {
                            break;
                        }
                    }
                    self.expect(&TokenKind::RParen)?;
                    (a, Vec::new())
                }
            } else {
                (Vec::new(), Vec::new())
            };
            let espan = self.span_from(entry_span);
            entries.push(EnumEntry { name: ename, name_span: entry_name_span, args, payload, span: espan });
            self.skip_newlines();
            self.eat(&TokenKind::Comma);
            self.skip_newlines();
        }
        self.expect(&TokenKind::RBrace)?;

        let span = self.span_from(start);
        Ok(Decl::Enum { name, name_span, params, entries, span })
    }

    /// `attribute Name(fields)`; the targets come from a leading `@targets(..)` annotation.
    fn parse_attribute_decl(&mut self, annotations: Vec<Annotation>) -> (r: Result<Decl, ParseError>)
        requires
            old(self).wf(),
            old(self).cur() is Attribute,
        ensures
            final(self).evolves(*old(self)),
            r is Ok ==> final(self).pos > old(self).pos,
            !(old(self).tokens@[old(self).pos + 1].kind is Identifier) ==> r is Err,
            ({
                let t = old(self).tokens@;
                let p = old(self).pos as int;
                p + 3 < t.len() && t[p + 1].kind is Identifier && t[p + 2].kind is LParen && t[p + 3].kind is RParen ==> (
                    r matches Ok(Decl::Attribute { name: n, fields: fs, .. }) && n@ == t[p + 1].kind->Identifier_0@
                    && fs@.len() == 0 && final(self).pos == p + 4 && final(self).errors@ == old(self).errors@)
            }),
        decreases old(self).tokens@.len() - old(self).pos, 1int,
    {
        let start = self.peek_span();
        self.advance();
        let (name, name_span) = self.expect_ident()?;
        self.expect(&TokenKind::LParen)?;
        let mut fields: Vec<Param> = Vec::new();
        self.skip_newlines();
        while !self.check(&TokenKind::RParen) && !self.check(&TokenKind::Eof)
            invariant
                self.evolves(*old(self)),
                self.pos > old(self).pos,
                ({
                    let t = old(self).tokens@;
                    let p = old(self).pos as int;
                    p + 3 < t.len() && t[p + 1].kind is Identifier && t[p + 2].kind is LParen && t[p + 3].kind is RParen ==> fields@.len() == 0 && self.pos == p + 3 && self.errors@ == old(self).errors@
                }),
            decreases self.tokens@.len() - self.pos,
        {
            self.eat(&TokenKind::Val);
            let p = self.parse_param()?;
            fields.push(p);
            self.skip_newlines();
            if !self.eat(&TokenKind::Comma) {
                break;
            }
            self.skip_newlines();
        }
        self.expect(&TokenKind::RParen)?;

        let targets = attribute_targets(&annotations);
        let span = self.span_from(start);
        Ok(Decl::Attribute { name, name_span, fields, targets, span })
    }

    /// `extend Type { members }`
    fn parse_extension(&mut self) -> (r: Result<Decl, ParseError>)
        requires
            old(self).wf(),
            old(self).cur() is Extend,
        ensures
            final(self).evolves(*old(self)),
            r is Ok ==> final(self).pos > old(self).pos,
            !(old(self).tokens@[old(self).pos + 1].kind is Identifier || old(self).tokens@[old(self).pos + 1].kind is LParen)
                ==> r is Err,
            spec_empty_body_decl_at(old(self).tokens@, old(self).pos as int) ==> ({
                let t = old(self).tokens@;
                let p = old(self).pos as int;
                r matches Ok(Decl::Extension { target_type: TypeRef::Simple { name: n, .. }, members: ms, .. })
                    && n@ == t[p + 1].kind->Identifier_0@ && ms@.len() == 0 && final(self).errors@ == old(self).errors@
            }),
        decreases old(self).tokens@.len() - old(self).pos, 1int,
    {
        let start = self.peek_span();
        self.advance();
        let target_type = self.parse_type()?;
        self.skip_newlines();
        self.expect(&TokenKind::LBrace)?;
        let members = self.parse_members()?;
        self.expect(&TokenKind::RBrace)?;
        let span = self.span_from(start);
        Ok(Decl::Extension { target_type, members, span })
    }
}

/// The identifier arguments of every `@targets(..)` annotation, in order.
pub open spec fn spec_attribute_targets(annotations: Seq<Annotation>) -> Seq<Seq<char>>
    decreases annotations.len(),
{
    if annotations.len() == 0 {
        Seq::empty()
    } else {
        let last = annotations.last();
        let rest = spec_attribute_targets(annotations.drop_last());
        if last.name@ == "targets"@ {
            rest + spec_ident_args(last.args@)
        } else {
            rest
        }
    }
}

/// The names of the plain identifier expressions among `args`, in order.
pub open spec fn spec_ident_args(args: Seq<Expr>) -> Seq<Seq<char>>
    decreases args.len(),
{
    if args.len() == 0 {
        Seq::empty()
    } else {
        let rest = spec_ident_args(args.drop_last());
        match args.last() {
            Expr::Ident(n, _) => rest.push(n@),
            _ => rest,
        }
    }
}

/// Collects the targets named by `@targets(..)` annotations.
fn attribute_targets(annotations: &Vec<Annotation>) -> (r: Vec<String>)
    ensures
        r@.map_values(|s: String| s@) == spec_attribute_targets(annotations@),
{
    let mut targets: Vec<String> = Vec::new();
    let mut i: usize = 0;
    while i < annotations.len()
        invariant
            i <= annotations@.len(),
            targets@.map_values(|s: String| s@) == spec_attribute_targets(annotations@.subrange(0, i as int)),
        decreases annotations@.len() - i,
    {
        let ann = &annotations[i];
        proof {
            assert(annotations@.subrange(0, i as int + 1).drop_last() == annotations@.subrange(0, i as int));
        }
        if str_eq(ann.name.as_str(), "targets") {
            proof {
                reveal_strlit("targets");
            }
            let mut j: usize = 0;
            let ghost before = targets@.map_values(|s: String| s@);
            while j < ann.args.len()
                invariant
                    j <= ann.args@.len(),
                    i < annotations@.len(),
                    ann == annotations@[i as int],
                    targets@.map_values(|s: String| s@) == before + spec_ident_args(ann.args@.subrange(0, j as int)),
                decreases ann.args@.len() - j,
            {
                proof {
                    assert(ann.args@.subrange(0, j as int + 1).drop_last() == ann.args@.subrange(0, j as int));
                }
                match &ann.args[j] {
                    Expr::Ident(name, _) => {
                        targets.push(name.clone());
                        proof {
                            assert(targets@.map_values(|s: String| s@) == (before + spec_ident_args(ann.args@.subrange(0, j as int))).push(name@));
                        }
                    },
                    _ => {},
                }
                j = j + 1;
            }
            proof {
                assert(ann.args@.subrange(0, ann.args@.len() as int) == ann.args@);
            }
        } else {
            proof {
                reveal_strlit("targets");
            }
        }
        i = i + 1;
    }
    proof {
        assert(annotations@.subrange(0, annotations@.len() as int) == annotations@);
    }
    targets
}

} // verus!
