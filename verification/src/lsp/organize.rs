//! The "organize imports" code action: the `using` lines of a file, trimmed, sorted, without
//! duplicates and (when the file parsed cleanly and holds no raw C#) without the Unity
//! namespaces that nothing in the file uses.
use vstd::prelude::*;
use crate::token::{Position, Span};
use crate::ast::{Decl, File, UsingDecl};
use crate::lexer::Lexer;
use crate::parser::{Parser, spec_using_paths, spec_usings};
use crate::lexical::spec_lex;
use crate::text::{
    cat3, chars_of, contains_str, lemma_sorted_texts_unique, insert_text_sorted, spec_contains_seq,
    spec_holds_text, spec_texts_sorted, spec_trim, str_eq, string_from_chars, trim_text,
};
use crate::lsp::used_namespaces_for_file;
use crate::lsp::usage::decl_uses;
use crate::lsp::intrinsic::{decl_has_intrinsic, file_contains_intrinsic_code};

verus! {

// ── Source positions ─────────────────────────────────────────────

/// The (line, column) reached after the first `k` characters of `s`; both start at 1, a
/// newline moves to the first column of the next line.
pub open spec fn spec_position_after(s: Seq<char>, k: int) -> (int, int)
    decreases k,
{
    if k <= 0 {
        (1, 1)
    } else {
        let (line, col) = spec_position_after(s, k - 1);
        if s[k - 1] == '\n' {
            (line + 1, 1)
        } else {
            (line, col + 1)
        }
    }
}

/// `k` is the first character offset of `s` (the end of `s` included) at `position`.
pub open spec fn spec_is_offset_of(s: Seq<char>, position: Position, k: int) -> bool {
    &&& 0 <= k <= s.len()
    &&& spec_position_after(s, k) == (position.line as int, position.col as int)
    &&& forall|j: int| 0 <= j < k ==> spec_position_after(s, j) != (position.line as int, position.col as int)
}

/// The character offset of `position` in `s`, if the position lies in `s` or at its end.
pub open spec fn spec_offset_for_position(s: Seq<char>, position: Position) -> Option<int> {
    if exists|k: int| spec_is_offset_of(s, position, k) {
        Some(choose|k: int| spec_is_offset_of(s, position, k))
    } else {
        None
    }
}

/// The first offset at a position is the only one.
proof fn lemma_offset_unique(s: Seq<char>, position: Position, k: int, m: int)
    requires
        spec_is_offset_of(s, position, k),
        spec_is_offset_of(s, position, m),
    ensures
        k == m,
{
    if k < m {
        assert(spec_position_after(s, k) != (position.line as int, position.col as int));
    } else if m < k {
        assert(spec_position_after(s, m) != (position.line as int, position.col as int));
    }
}

/// The character offset at which `position` (1-based line and column) lies in `source`.
pub fn offset_for_position(source: &str, position: Position) -> (r: Option<usize>)
    ensures
        match r {
            Some(k) => spec_offset_for_position(source@, position) == Some(k as int),
            None => spec_offset_for_position(source@, position) is None,
        },
{
    let chars = chars_of(source);
    let ghost target = (position.line as int, position.col as int);
    if position.line == 1 && position.col == 1 {
        proof {
            assert(spec_is_offset_of(source@, position, 0));
            let c = choose|k: int| spec_is_offset_of(source@, position, k);
            lemma_offset_unique(source@, position, 0, c);
        }
        return Some(0);
    }
    let mut line: u64 = 1;
    let mut col: u64 = 1;
    let mut index: usize = 0;
    while index < chars.len()
        invariant
            chars@ == source@,
            chars@.len() <= isize::MAX / 4,
            index <= chars@.len(),
            target == (position.line as int, position.col as int),
            (line as int, col as int) == spec_position_after(source@, index as int),
            1 <= line <= index + 1,
            1 <= col <= index + 1,
            forall|j: int| 0 <= j < index ==> spec_position_after(source@, j) != target,
        decreases chars@.len() - index,
    {
        if line == position.line as u64 && col == position.col as u64 {
            proof {
                assert(spec_is_offset_of(source@, position, index as int));
                let c = choose|k: int| spec_is_offset_of(source@, position, k);
                lemma_offset_unique(source@, position, index as int, c);
            }
            return Some(index);
        }
        if chars[index] == '\n' {
            line = line + 1;
            col = 1;
        } else {
            col = col + 1;
        }
        index = index + 1;
    }
    if line == position.line as u64 && col == position.col as u64 {
        proof {
            assert(spec_is_offset_of(source@, position, index as int));
            let c = choose|k: int| spec_is_offset_of(source@, position, k);
            lemma_offset_unique(source@, position, index as int, c);
        }
        Some(index)
    } else {
        proof {
            assert forall|k: int| !spec_is_offset_of(source@, position, k) by {
                if 0 <= k <= source@.len() && k == index {
                }
            }
        }
        None
    }
}

/// The text between two positions, when both lie in `s` and the first is not after the second.
pub open spec fn spec_source_text_for_span(s: Seq<char>, span: Span) -> Option<Seq<char>> {
    match (spec_offset_for_position(s, span.start), spec_offset_for_position(s, span.end)) {
        (Some(a), Some(b)) => if a <= b { Some(s.subrange(a, b)) } else { None },
        _ => None,
    }
}

/// The source text that `span` covers.
pub fn source_text_for_span(source: &str, span: Span) -> (r: Option<String>)
    ensures
        match r {
            Some(t) => spec_source_text_for_span(source@, span) == Some(t@),
            None => spec_source_text_for_span(source@, span) is None,
        },
{
    let start = match offset_for_position(source, span.start) {
        Some(k) => k,
        None => return None,
    };
    let end = match offset_for_position(source, span.end) {
        Some(k) => k,
        None => return None,
    };
    if start > end {
        return None;
    }
    let chars = chars_of(source);
    proof {
        let c = choose|k: int| spec_is_offset_of(source@, span.end, k);
        assert(spec_is_offset_of(source@, span.end, c));
    }
    Some(string_from_chars(&chars, start, end))
}

/// `"\r\n"` when the source uses Windows line endings anywhere, else `"\n"`.
pub open spec fn spec_line_ending(s: Seq<char>) -> Seq<char> {
    if spec_contains_seq(s, "\r\n"@) { "\r\n"@ } else { "\n"@ }
}

/// The line ending to write into `source`.
pub fn detect_line_ending(source: &str) -> (r: &'static str)
    ensures
        r@ == spec_line_ending(source@),
{
    if contains_str(source, "\r\n") {
        "\r\n"
    } else {
        "\n"
    }
}

/// Text that holds a line or block comment opener.
pub open spec fn spec_has_comment(text: Seq<char>) -> bool {
    spec_contains_seq(text, "//"@) || spec_contains_seq(text, "/*"@)
}

/// Whether the `using` block holds a comment, which rewriting it would lose.
pub fn using_block_contains_comments(text: &str) -> (r: bool)
    ensures
        r == spec_has_comment(text@),
{
    contains_str(text, "//") || contains_str(text, "/*")
}

/// The source span of a top-level declaration.
pub open spec fn spec_decl_span(d: Decl) -> Span {
    match d {
        Decl::Component { span, .. } => span,
        Decl::Asset { span, .. } => span,
        Decl::Class { span, .. } => span,
        Decl::DataClass { span, .. } => span,
        Decl::Enum { span, .. } => span,
        Decl::Attribute { span, .. } => span,
        Decl::Interface { span, .. } => span,
        Decl::TypeAlias { span, .. } => span,
        Decl::Struct { span, .. } => span,
        Decl::Extension { span, .. } => span,
    }
}

/// Where a declaration begins.
pub fn decl_start_position(decl: &Decl) -> (r: Position)
    ensures
        r == spec_decl_span(*decl).start,
{
    match decl {
        Decl::Component { span, .. } | Decl::Asset { span, .. } | Decl::Class { span, .. }
        | Decl::DataClass { span, .. } | Decl::Enum { span, .. } | Decl::Attribute { span, .. }
        | Decl::Interface { span, .. } | Decl::TypeAlias { span, .. } | Decl::Struct { span, .. }
        | Decl::Extension { span, .. } => span.start,
    }
}

// ── Which `using` lines stay ─────────────────────────────────────

/// The Unity namespaces that the usage scan can vouch for; only these are ever pruned.
pub open spec fn spec_supports_unused_using_cleanup(path: Seq<char>) -> bool {
    ||| path == "UnityEngine"@
    ||| path == "UnityEngine.Events"@
    ||| path == "UnityEngine.InputSystem"@
    ||| path == "UnityEngine.SceneManagement"@
    ||| path == "UnityEngine.UI"@
}

/// Whether unused `using path` lines may be dropped.
pub fn supports_unused_using_cleanup(path: &str) -> (r: bool)
    ensures
        r == spec_supports_unused_using_cleanup(path@),
{
    str_eq(path, "UnityEngine") || str_eq(path, "UnityEngine.Events") || str_eq(path, "UnityEngine.InputSystem")
        || str_eq(path, "UnityEngine.SceneManagement") || str_eq(path, "UnityEngine.UI")
}

/// A `using` line stays when pruning does not apply to it or its namespace is used.
pub open spec fn spec_should_keep_using_path(path: Seq<char>, used: Seq<String>) -> bool {
    !spec_supports_unused_using_cleanup(path) || spec_holds_text(used, path)
}

/// Whether `using path` stays, given the namespaces the file uses.
pub fn should_keep_using_path(path: &str, used: &Vec<String>) -> (r: bool)
    ensures
        r == spec_should_keep_using_path(path@, used@),
{
    if !supports_unused_using_cleanup(path) {
        return true;
    }
    let mut i: usize = 0;
    while i < used.len()
        invariant
            i <= used@.len(),
            forall|k: int| 0 <= k < i ==> used@[k]@ != path@,
        decreases used@.len() - i,
    {
        if str_eq(used[i].as_str(), path) {
            return true;
        }
        i = i + 1;
    }
    false
}

/// `path` is the trimmed, non-empty path of one of the `using` lines and survives pruning.
pub open spec fn spec_kept_using(usings: Seq<UsingDecl>, used: Seq<String>, prune: bool, path: Seq<char>) -> bool {
    exists|i: int| {
        &&& 0 <= i < usings.len()
        &&& #[trigger] spec_trim(usings[i].path@) == path
        &&& path.len() > 0
        &&& (!prune || spec_should_keep_using_path(path, used))
    }
}

/// A strictly sorted list of exactly the kept paths.
pub open spec fn spec_is_kept_list(list: Seq<String>, usings: Seq<UsingDecl>, used: Seq<String>, prune: bool) -> bool {
    &&& spec_texts_sorted(list)
    &&& forall|p: Seq<char>| #[trigger] spec_holds_text(list, p) <==> spec_kept_using(usings, used, prune, p)
}

/// `using p` followed by the line ending, for each path in order.
pub open spec fn spec_using_lines(paths: Seq<String>, le: Seq<char>) -> Seq<char>
    decreases paths.len(),
{
    if paths.len() == 0 {
        Seq::empty()
    } else {
        spec_using_lines(paths.drop_last(), le) + "using "@ + paths.last()@ + le
    }
}

/// The rewritten `using` block: one line per path and a blank line after them; nothing when
/// no path is left.
pub open spec fn spec_usings_block(paths: Seq<String>, le: Seq<char>) -> Seq<char> {
    if paths.len() == 0 { Seq::empty() } else { spec_using_lines(paths, le) + le }
}

/// The organized `using` block of a file, given the namespaces it uses and whether unused
/// Unity namespaces are pruned.
pub open spec fn spec_organized_usings_text(usings: Seq<UsingDecl>, used: Seq<String>, prune: bool, le: Seq<char>) -> Seq<char> {
    spec_usings_block(choose|list: Seq<String>| spec_is_kept_list(list, usings, used, prune), le)
}

/// The lines of two lists that hold the same texts in the same places are the same.
proof fn lemma_using_lines_same(a: Seq<String>, b: Seq<String>, le: Seq<char>)
    requires
        a.len() == b.len(),
        forall|i: int| 0 <= i < a.len() ==> #[trigger] a[i]@ == b[i]@,
    ensures
        spec_using_lines(a, le) == spec_using_lines(b, le),
    decreases a.len(),
{
    if a.len() > 0 {
        lemma_using_lines_same(a.drop_last(), b.drop_last(), le);
        assert(a.last()@ == b[b.len() - 1]@);
    }
}

/// The organized `using` block, given the namespaces the file uses.
pub fn organized_usings_text_with(usings: &Vec<UsingDecl>, used: &Vec<String>, line_ending: &str, prune_unused: bool) -> (r: String)
    ensures
        r@ == spec_organized_usings_text(usings@, used@, prune_unused, line_ending@),
{
    let mut paths: Vec<String> = Vec::new();
    let mut i: usize = 0;
    while i < usings.len()
        invariant
            i <= usings@.len(),
            spec_texts_sorted(paths@),
            forall|p: Seq<char>| #[trigger] spec_holds_text(paths@, p) <==> spec_kept_using(usings@.take(i as int), used@, prune_unused, p),
        decreases usings@.len() - i,
    {
        let path = trim_text(&usings[i].path);
        let keep = !path.as_str().is_empty() && (!prune_unused || should_keep_using_path(path.as_str(), used));
        let ghost before = paths@;
        if keep {
            insert_text_sorted(&mut paths, path);
        }
        proof {
            let pre = usings@.take(i as int);
            let post = usings@.take(i + 1);
            assert forall|p: Seq<char>| #[trigger] spec_holds_text(paths@, p) <==> spec_kept_using(post, used@, prune_unused, p) by {
                if spec_kept_using(post, used@, prune_unused, p) {
                    let j = choose|j: int| {
                        &&& 0 <= j < post.len()
                        &&& #[trigger] spec_trim(post[j].path@) == p
                        &&& p.len() > 0
                        &&& (!prune_unused || spec_should_keep_using_path(p, used@))
                    };
                    if j < i {
                        assert(pre[j] == post[j]);
                        assert(spec_kept_using(pre, used@, prune_unused, p));
                    }
                }
                if spec_kept_using(pre, used@, prune_unused, p) {
                    let j = choose|j: int| {
                        &&& 0 <= j < pre.len()
                        &&& #[trigger] spec_trim(pre[j].path@) == p
                        &&& p.len() > 0
                        &&& (!prune_unused || spec_should_keep_using_path(p, used@))
                    };
                    assert(post[j] == pre[j]);
                }
                if keep && p == spec_trim(usings@[i as int].path@) {
                    assert(post[i as int] == usings@[i as int]);
                }
            }
        }
        i = i + 1;
    }
    proof {
        assert(usings@.take(usings@.len() as int) =~= usings@);
        let chosen = choose|list: Seq<String>| spec_is_kept_list(list, usings@, used@, prune_unused);
        assert(spec_is_kept_list(paths@, usings@, used@, prune_unused));
        lemma_sorted_texts_unique(paths@, chosen);
        lemma_using_lines_same(paths@, chosen, line_ending@);
    }
    if paths.len() == 0 {
        return String::new();
    }
    let mut text = String::new();
    let mut k: usize = 0;
    while k < paths.len()
        invariant
            k <= paths@.len(),
            text@ == spec_using_lines(paths@.take(k as int), line_ending@),
        decreases paths@.len() - k,
    {
        let line = cat3("using ", paths[k].as_str(), line_ending);
        proof {
            assert(paths@.take(k + 1).drop_last() =~= paths@.take(k as int));
        }
        text.append(line.as_str());
        k = k + 1;
    }
    proof {
        assert(paths@.take(paths@.len() as int) =~= paths@);
    }
    text.append(line_ending);
    text
}

/// The organized `using` block of a file; when pruning, the namespaces that the file's
/// declaration uses decide which Unity namespaces stay.
pub fn organized_usings_text(file: &File, line_ending: &str, prune_unused: bool) -> (r: String)
    ensures
        exists|used: Seq<String>| {
            &&& forall|ns: Seq<char>| #[trigger] spec_holds_text(used, ns) == (prune_unused && decl_uses(file.decl, ns))
            &&& r@ == spec_organized_usings_text(file.usings@, used, prune_unused, line_ending@)
        },
{
    let used = if prune_unused { used_namespaces_for_file(file) } else { Vec::new() };
    organized_usings_text_with(&file.usings, &used, line_ending, prune_unused)
}

// ── The code action ──────────────────────────────────────────────

/// Replace the text of `range` with `new_text`.
pub struct OrganizeUsingsCodeAction {
    pub range: Span,
    pub new_text: String,
}

/// The range of the `using` block: from the first `using` to the start of the declaration.
pub open spec fn spec_using_block_range(file: File) -> Span {
    Span { start: file.usings@[0].span.start, end: spec_decl_span(file.decl).start }
}

/// The organize-imports edit for `source`, parsed as `file` (with or without parse errors),
/// whose declaration uses the namespaces `used`: none when there are no `using` lines, when
/// their block cannot be located or holds a comment, or when it is already organized.
/// Unused Unity namespaces are pruned only from a file that parsed cleanly and holds no raw C#.
pub open spec fn spec_organize_usings_edit(source: Seq<char>, file: File, has_parse_errors: bool, used: Seq<String>) -> Option<(Span, Seq<char>)> {
    if file.usings@.len() == 0 {
        None
    } else {
        let range = spec_using_block_range(file);
        match spec_source_text_for_span(source, range) {
            None => None,
            Some(current) => if spec_has_comment(current) {
                None
            } else {
                let prune = !has_parse_errors && !decl_has_intrinsic(file.decl);
                let new_text = spec_organized_usings_text(file.usings@, used, prune, spec_line_ending(source));
                if current == new_text { None } else { Some((range, new_text)) }
            },
        }
    }
}

/// The organize-imports edit for `source` as parsed into `file`, given the namespaces its
/// declaration uses.
pub fn organize_usings_action(source: &str, file: &File, has_parse_errors: bool, used: &Vec<String>) -> (r: Option<OrganizeUsingsCodeAction>)
    ensures
        match r {
            Some(a) => spec_organize_usings_edit(source@, *file, has_parse_errors, used@) == Some((a.range, a.new_text@)),
            None => spec_organize_usings_edit(source@, *file, has_parse_errors, used@) is None,
        },
{
    if file.usings.len() == 0 {
        return None;
    }
    let using_block_range = Span { start: file.usings[0].span.start, end: decl_start_position(&file.decl) };
    let current = match source_text_for_span(source, using_block_range) {
        Some(t) => t,
        None => return None,
    };
    if using_block_contains_comments(current.as_str()) {
        return None;
    }
    let prune_unused = !has_parse_errors && !file_contains_intrinsic_code(file);
    let new_text = organized_usings_text_with(&file.usings, used, detect_line_ending(source), prune_unused);
    if str_eq(current.as_str(), new_text.as_str()) {
        return None;
    }
    Some(OrganizeUsingsCodeAction { range: using_block_range, new_text })
}

/// What a parse of `source` states of its file: the `using` paths are those that the
/// lexical grammar's tokens of the source give, in order.
pub open spec fn spec_usings_read_from(file: File, source: Seq<char>) -> bool {
    spec_using_paths(file.usings@) == spec_usings(spec_lex(source), 0).0
}

/// Lexes and parses a PrSM source; the flag tells whether the parser reported errors.
pub fn parse_prsm_file(source: &str) -> (r: (File, bool))
    requires
        source@.len() < u32::MAX,
    ensures
        spec_usings_read_from(r.0, source@),
{
    let mut lexer = Lexer::new(source);
    let tokens = lexer.tokenize();
    let mut parser = Parser::new(tokens);
    let file = parser.parse_file();
    let has_errors = parser.errors().len() > 0;
    (file, has_errors)
}

/// The organize-imports edit for a source text: it parses the source, collects the
/// namespaces its declaration uses, and proposes the edit described by
/// `spec_organize_usings_edit`.
pub fn collect_organize_usings_action_for_source(source: &str) -> (r: Option<OrganizeUsingsCodeAction>)
    requires
        source@.len() < u32::MAX,
    ensures
        exists|file: File, has_errors: bool, used: Seq<String>| {
            &&& spec_usings_read_from(file, source@)
            &&& forall|ns: Seq<char>| #[trigger] spec_holds_text(used, ns) == (!has_errors && decl_uses(file.decl, ns))
            &&& match r {
                Some(a) => spec_organize_usings_edit(source@, file, has_errors, used) == Some((a.range, a.new_text@)),
                None => spec_organize_usings_edit(source@, file, has_errors, used) is None,
            }
        },
{
    let (file, has_parse_errors) = parse_prsm_file(source);
    let used = if !has_parse_errors { used_namespaces_for_file(&file) } else { Vec::new() };
    organize_usings_action(source, &file, has_parse_errors, &used)
}

} // verus!
