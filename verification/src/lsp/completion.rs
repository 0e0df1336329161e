//! Completion: what the text before the caret asks for (a member of a receiver, a type, or
//! anything), how a receiver's type is read off the document text, and the completion
//! entries that PrSM itself offers.
use vstd::prelude::*;
use crate::lsp::catalog::{core_type_by_name, spec_core_type_by_name};
use crate::lsp::members::{project_declaration_by_name, spec_declaration_by_name};
use crate::lsp::symbols::{FileSummary, ProjectIndex};
use crate::text::{
    cat2, chars_of, is_alpha, is_alpha_spec, is_digit, is_digit_spec, is_ident_char, is_ident_char_spec,
    lemma_first_index_bounds, lemma_first_index_is, owned, spec_first_index_from, spec_starts_with,
    spec_trim, spec_trim_start, starts_with, str_eq, string_from_chars, trim_start_text, trim_text,
};
use crate::lsp::{
    canonical_type_ident, core_namespace_for_type, spec_canonical_type_ident, spec_core_namespace_for_type,
};
use crate::text::{
    cat3, contains_str, lemma_text_less_total, lemma_text_less_transitive,
    spec_contains_seq, spec_text_less, text_less,
};
use crate::lsp::names::{ascii_lowercase, spec_ascii_lowercase};

verus! {

// ── Identifiers before a position ────────────────────────────────

/// Where the identifier that ends at `end` begins: the first of the ASCII letters, digits
/// and `_` right before `end`.
pub open spec fn spec_identifier_start(t: Seq<char>, end: int) -> int
    decreases end,
{
    if end <= 0 {
        0
    } else if is_ident_char_spec(t[end - 1]) {
        spec_identifier_start(t, end - 1)
    } else {
        end
    }
}

/// The identifier start lies between the start of the text and `end`.
pub proof fn lemma_identifier_start_bounds(t: Seq<char>, end: int)
    requires
        0 <= end <= t.len(),
    ensures
        0 <= spec_identifier_start(t, end) <= end,
    decreases end,
{
    if end > 0 && is_ident_char_spec(t[end - 1]) {
        lemma_identifier_start_bounds(t, end - 1);
    }
}

/// The start of the identifier that ends at `end`.
pub fn identifier_start(t: &Vec<char>, end: usize) -> (r: usize)
    requires
        end <= t@.len(),
    ensures
        r == spec_identifier_start(t@, end as int),
        r <= end,
{
    let mut index = end;
    while index > 0 && is_ident_char(t[index - 1])
        invariant
            index <= end <= t@.len(),
            spec_identifier_start(t@, end as int) == spec_identifier_start(t@, index as int),
        decreases index,
    {
        index = index - 1;
    }
    index
}

// ── The line before the caret ────────────────────────────────────

/// `s` without one `\r` at its end.
pub open spec fn spec_strip_cr(s: Seq<char>) -> Seq<char> {
    if s.len() > 0 && s.last() == '\r' { s.drop_last() } else { s }
}

/// The lines of a text as std's `str::lines` gives them: split at `\n`, a `\r` before the
/// `\n` dropped, no empty line after a final `\n`.
pub open spec fn spec_lines(t: Seq<char>) -> Seq<Seq<char>>
    decreases t.len(),
{
    if t.len() == 0 {
        Seq::empty()
    } else {
        let k = spec_first_index_from(t, '\n', 0);
        proof {
            lemma_first_index_bounds(t, '\n', 0);
        }
        if k >= t.len() {
            seq![t]
        } else {
            seq![spec_strip_cr(t.subrange(0, k))] + spec_lines(t.subrange(k + 1, t.len() as int))
        }
    }
}

/// The text of line `line` (1-based; 0 counts as 1) before column `col` (1-based, clamped
/// to the line); empty when the text has no such line.
pub open spec fn spec_line_prefix(text: Seq<char>, line: u32, col: u32) -> Seq<char> {
    let n = if line == 0 { 0 } else { line - 1 };
    let lines = spec_lines(text);
    if n >= lines.len() {
        Seq::empty()
    } else {
        let lt = lines[n];
        let c = if col == 0 { 0 } else { col - 1 };
        let end = if c < lt.len() { c } else { lt.len() as int };
        lt.subrange(0, end)
    }
}

/// The part of line `line` before column `col`.
pub fn line_prefix_at(text: &str, line: u32, col: u32) -> (r: String)
    ensures
        r@ == spec_line_prefix(text@, line, col),
{
    let chars = chars_of(text);
    let n: u32 = if line == 0 { 0 } else { line - 1 };
    let c: usize = if col == 0 { 0 } else { (col - 1) as usize };
    let len = chars.len();
    let mut pos: usize = 0;
    let mut idx: u32 = 0;
    proof {
        assert(chars@.subrange(0, len as int) =~= chars@);
    }
    while pos < len
        invariant
            chars@ == text@,
            len == chars@.len(),
            pos <= len,
            idx <= n,
            idx as int <= spec_lines(text@).len(),
            n == (if line == 0 { 0 } else { line - 1 }),
            c == (if col == 0 { 0 } else { col - 1 }),
            spec_lines(text@).skip(idx as int) == spec_lines(chars@.subrange(pos as int, len as int)),
        decreases len - pos,
    {
        let mut k = pos;
        while k < len && chars[k] != '\n'
            invariant
                pos <= k <= len,
                len == chars@.len(),
                forall|m: int| pos <= m < k ==> chars@[m] != '\n',
            decreases len - k,
        {
            k = k + 1;
        }
        let ghost rest = chars@.subrange(pos as int, len as int);
        proof {
            lemma_first_index_is(rest, '\n', 0, k - pos);
            assert(spec_lines(rest).len() >= 1);
        }
        let mut line_end = k;
        if k < len && line_end > pos && chars[line_end - 1] == '\r' {
            line_end = line_end - 1;
        }
        proof {
            if k < len {
                assert(rest.subrange(0, k - pos) =~= chars@.subrange(pos as int, k as int));
                assert(rest.subrange(k - pos + 1, rest.len() as int) =~= chars@.subrange(k + 1, len as int));
                let piece = chars@.subrange(pos as int, k as int);
                if line_end < k {
                    assert(piece.drop_last() =~= chars@.subrange(pos as int, line_end as int));
                }
                assert(spec_strip_cr(piece) =~= chars@.subrange(pos as int, line_end as int));
            }
            assert(spec_lines(text@).skip(idx as int)[0] == spec_lines(text@)[idx as int]);
        }
        if idx == n {
            let width = line_end - pos;
            let end = if c < width { c } else { width };
            let r = string_from_chars(&chars, pos, pos + end);
            proof {
                assert(r@ =~= chars@.subrange(pos as int, line_end as int).subrange(0, end as int));
            }
            return r;
        }
        if k >= len {
            proof {
                assert(spec_lines(text@).skip(idx as int).len() == 1);
            }
            return String::new();
        }
        proof {
            assert(spec_lines(text@).skip(idx + 1) =~= spec_lines(text@).skip(idx as int).drop_first());
        }
        pos = k + 1;
        idx = idx + 1;
    }
    proof {
        assert(chars@.subrange(pos as int, len as int) =~= Seq::<char>::empty());
        assert(spec_lines(text@).skip(idx as int).len() == 0);
    }
    String::new()
}

// ── What the caret asks for ──────────────────────────────────────

/// A member completion after `receiver.` (or `receiver?.`): the receiver, the chain of
/// names that leads to it, the typed prefix, and the receiver's 1-based column.
pub struct MemberCompletionContext {
    pub receiver: String,
    pub receiver_chain: Vec<String>,
    pub prefix: String,
    pub receiver_col: u32,
}

/// A type completion after `:` or `<`.
pub struct TypeCompletionContext {
    pub prefix: String,
}

/// Any other completion.
pub struct GeneralCompletionContext {
    pub prefix: String,
}

/// What a completion request asks for.
pub enum CompletionContext {
    Member(MemberCompletionContext),
    Type(TypeCompletionContext),
    General(GeneralCompletionContext),
}

impl CompletionContext {
    /// The identifier being typed.
    pub fn prefix(&self) -> (r: &str)
        ensures
            r@ == match *self {
                CompletionContext::Member(m) => m.prefix@,
                CompletionContext::Type(t) => t.prefix@,
                CompletionContext::General(g) => g.prefix@,
            },
    {
        match self {
            CompletionContext::Member(m) => m.prefix.as_str(),
            CompletionContext::Type(t) => t.prefix.as_str(),
            CompletionContext::General(g) => g.prefix.as_str(),
        }
    }
}

/// The names before the receiver that lead to it through `.` or `?.`, nearest last,
/// scanning back from `cur` (where the receiver starts).
pub open spec fn spec_chain_before(b: Seq<char>, cur: int) -> Seq<Seq<char>>
    decreases cur,
{
    if cur <= 0 || cur > b.len() || b[cur - 1] != '.' {
        Seq::empty()
    } else {
        let sep0 = cur - 1;
        let sep = if sep0 > 0 && b[sep0 - 1] == '?' { sep0 - 1 } else { sep0 };
        let start = spec_identifier_start(b, sep);
        proof {
            lemma_identifier_start_bounds(b, sep);
        }
        if start == sep {
            Seq::empty()
        } else {
            spec_chain_before(b, start) + seq![b.subrange(start, sep)]
        }
    }
}

/// The receiver chain `a.b?.c` of the receiver `c` at `[rs, re)`: `["a", "b", "c"]`.
pub open spec fn spec_receiver_chain(b: Seq<char>, rs: int, re: int) -> Seq<Seq<char>> {
    spec_chain_before(b, rs) + seq![b.subrange(rs, re)]
}

/// The receiver chain that ends in the receiver at `[receiver_start, receiver_end)`.
pub fn receiver_chain(before_prefix: &Vec<char>, receiver_start: usize, receiver_end: usize) -> (r: Vec<String>)
    requires
        receiver_start <= receiver_end <= before_prefix@.len(),
    ensures
        r@.map_values(|s: String| s@) == spec_receiver_chain(before_prefix@, receiver_start as int, receiver_end as int),
{
    let b = before_prefix;
    let mut segments: Vec<String> = Vec::new();
    segments.push(string_from_chars(b, receiver_start, receiver_end));
    let mut current_start = receiver_start;
    let mut done = false;
    proof {
        assert(segments@.map_values(|s: String| s@) =~= seq![b@.subrange(receiver_start as int, receiver_end as int)]);
    }
    while current_start > 0 && !done
        invariant
            current_start <= receiver_start <= receiver_end <= b@.len(),
            spec_receiver_chain(b@, receiver_start as int, receiver_end as int)
                == spec_chain_before(b@, current_start as int) + segments@.map_values(|s: String| s@),
            done ==> spec_chain_before(b@, current_start as int) == Seq::<Seq<char>>::empty(),
        decreases current_start, if done { 0int } else { 1int },
    {
        if b[current_start - 1] != '.' {
            done = true;
        } else {
            let mut separator_index = current_start - 1;
            if separator_index > 0 && b[separator_index - 1] == '?' {
                separator_index = separator_index - 1;
            }
            let previous_end = separator_index;
            let previous_start = identifier_start(b, previous_end);
            if previous_start == previous_end {
                done = true;
            } else {
                let ghost before = segments@;
                segments.insert(0, string_from_chars(b, previous_start, previous_end));
                proof {
                    assert(segments@.map_values(|s: String| s@) =~= seq![b@.subrange(previous_start as int, previous_end as int)]
                        + before.map_values(|s: String| s@));
                }
                current_start = previous_start;
            }
        }
    }
    proof {
        assert(spec_chain_before(b@, current_start as int) =~= Seq::<Seq<char>>::empty());
    }
    segments
}

/// The member completion asked for by the text before the caret: an identifier prefix
/// right after `receiver.` or `receiver?.`, with a non-empty receiver identifier.
pub open spec fn spec_member_context(lp: Seq<char>) -> Option<(Seq<char>, Seq<Seq<char>>, Seq<char>, int)> {
    let ps = spec_identifier_start(lp, lp.len() as int);
    let before = lp.subrange(0, ps);
    if !(before.len() > 0 && before.last() == '.') {
        None
    } else {
        let re0 = before.len() - 1;
        let re = if re0 > 0 && before[re0 - 1] == '?' { re0 - 1 } else { re0 };
        let rs = spec_identifier_start(before, re);
        if rs == re {
            None
        } else {
            Some((before.subrange(rs, re), spec_receiver_chain(before, rs, re), lp.subrange(ps, lp.len() as int), rs + 1))
        }
    }
}

/// The member completion that `line_prefix` asks for, if any.
pub fn parse_member_completion_context(line_prefix: &str) -> (r: Option<MemberCompletionContext>)
    requires
        line_prefix@.len() < u32::MAX,
    ensures
        match r {
            Some(m) => spec_member_context(line_prefix@)
                == Some((m.receiver@, m.receiver_chain@.map_values(|s: String| s@), m.prefix@, m.receiver_col as int)),
            None => spec_member_context(line_prefix@) is None,
        },
{
    let lp = chars_of(line_prefix);
    let len = lp.len();
    let prefix_start = identifier_start(&lp, len);
    let before = {
        let mut v: Vec<char> = Vec::new();
        let mut i: usize = 0;
        while i < prefix_start
            invariant
                i <= prefix_start <= lp@.len(),
                v@ == lp@.subrange(0, i as int),
            decreases prefix_start - i,
        {
            v.push(lp[i]);
            proof {
                assert(v@ =~= lp@.subrange(0, i + 1));
            }
            i = i + 1;
        }
        v
    };
    if before.len() == 0 || before[before.len() - 1] != '.' {
        return None;
    }
    let mut receiver_end = before.len() - 1;
    if receiver_end > 0 && before[receiver_end - 1] == '?' {
        receiver_end = receiver_end - 1;
    }
    let receiver_start = identifier_start(&before, receiver_end);
    if receiver_start == receiver_end {
        return None;
    }
    let receiver = string_from_chars(&before, receiver_start, receiver_end);
    let chain = receiver_chain(&before, receiver_start, receiver_end);
    let prefix = string_from_chars(&lp, prefix_start, len);
    Some(MemberCompletionContext {
        receiver,
        receiver_chain: chain,
        prefix,
        receiver_col: receiver_start as u32 + 1,
    })
}

/// ASCII whitespace as std's `u8::is_ascii_whitespace` has it: space, tab, line feed, form
/// feed, carriage return.
pub open spec fn spec_is_ascii_whitespace(c: char) -> bool {
    c == ' ' || c == '\t' || c == '\n' || c == '\u{c}' || c == '\r'
}

/// The position before the ASCII whitespace that ends at `i`.
pub open spec fn spec_skip_whitespace_back(t: Seq<char>, i: int) -> int
    decreases i,
{
    if i <= 0 {
        0
    } else if spec_is_ascii_whitespace(t[i - 1]) {
        spec_skip_whitespace_back(t, i - 1)
    } else {
        i
    }
}

/// The type completion asked for by the text before the caret: an identifier prefix after
/// `:` or `<` (and optional whitespace).
pub open spec fn spec_type_context(lp: Seq<char>) -> Option<Seq<char>> {
    let ps = spec_identifier_start(lp, lp.len() as int);
    let boundary = spec_skip_whitespace_back(lp, ps);
    if boundary > 0 && (lp[boundary - 1] == ':' || lp[boundary - 1] == '<') {
        Some(lp.subrange(ps, lp.len() as int))
    } else {
        None
    }
}

/// The type completion that `line_prefix` asks for, if any.
pub fn parse_type_completion_context(line_prefix: &str) -> (r: Option<TypeCompletionContext>)
    ensures
        match r {
            Some(t) => spec_type_context(line_prefix@) == Some(t.prefix@),
            None => spec_type_context(line_prefix@) is None,
        },
{
    let lp = chars_of(line_prefix);
    let len = lp.len();
    let prefix_start = identifier_start(&lp, len);
    let mut boundary = prefix_start;
    while boundary > 0 && (lp[boundary - 1] == ' ' || lp[boundary - 1] == '\t' || lp[boundary - 1] == '\n'
        || lp[boundary - 1] == '\u{c}' || lp[boundary - 1] == '\r')
        invariant
            boundary <= prefix_start <= lp@.len(),
            spec_skip_whitespace_back(lp@, prefix_start as int) == spec_skip_whitespace_back(lp@, boundary as int),
        decreases boundary,
    {
        boundary = boundary - 1;
    }
    if boundary > 0 && (lp[boundary - 1] == ':' || lp[boundary - 1] == '<') {
        return Some(TypeCompletionContext { prefix: string_from_chars(&lp, prefix_start, len) });
    }
    None
}

/// The identifier right before the end of `line_prefix`.
pub open spec fn spec_identifier_prefix(lp: Seq<char>) -> Seq<char> {
    lp.subrange(spec_identifier_start(lp, lp.len() as int), lp.len() as int)
}

/// The identifier being typed at the end of `line_prefix`.
pub fn identifier_prefix(line_prefix: &str) -> (r: String)
    ensures
        r@ == spec_identifier_prefix(line_prefix@),
{
    let lp = chars_of(line_prefix);
    let start = identifier_start(&lp, lp.len());
    string_from_chars(&lp, start, lp.len())
}

/// The context a completion at (`line`, `col`) of `text` asks for: a member completion if
/// the line prefix reads as one, else a type completion if it reads as one, else a general
/// completion of the identifier being typed.
pub open spec fn spec_is_context_at(text: Seq<char>, line: u32, col: u32, r: CompletionContext) -> bool {
    match r {
        CompletionContext::Member(m) => spec_member_context(spec_line_prefix(text, line, col))
            == Some((m.receiver@, m.receiver_chain@.map_values(|s: String| s@), m.prefix@, m.receiver_col as int)),
        CompletionContext::Type(t) => spec_member_context(spec_line_prefix(text, line, col)) is None
            && spec_type_context(spec_line_prefix(text, line, col)) == Some(t.prefix@),
        CompletionContext::General(g) => spec_member_context(spec_line_prefix(text, line, col)) is None
            && spec_type_context(spec_line_prefix(text, line, col)) is None
            && g.prefix@ == spec_identifier_prefix(spec_line_prefix(text, line, col)),
    }
}

/// The identifier being typed in a completion context.
pub open spec fn spec_context_prefix(c: CompletionContext) -> Seq<char> {
    match c {
        CompletionContext::Member(m) => m.prefix@,
        CompletionContext::Type(t) => t.prefix@,
        CompletionContext::General(g) => g.prefix@,
    }
}

/// What the caret at (`line`, `col`) asks for: a member completion, else a type completion,
/// else a general completion of the identifier being typed.
pub fn completion_context_at(text: &str, line: u32, col: u32) -> (r: CompletionContext)
    ensures
        spec_is_context_at(text@, line, col, r),
{
    let line_prefix = line_prefix_at(text, line, col);
    proof {
        lemma_line_prefix_short(text@, line, col);
    }
    match parse_member_completion_context(line_prefix.as_str()) {
        Some(m) => return CompletionContext::Member(m),
        None => {},
    }
    match parse_type_completion_context(line_prefix.as_str()) {
        Some(t) => return CompletionContext::Type(t),
        None => {},
    }
    CompletionContext::General(GeneralCompletionContext { prefix: identifier_prefix(line_prefix.as_str()) })
}

/// A line prefix is shorter than its column, so it fits the `u32` columns.
pub proof fn lemma_line_prefix_short(text: Seq<char>, line: u32, col: u32)
    ensures
        spec_line_prefix(text, line, col).len() < u32::MAX,
{
}


// ── A receiver's type, read off the document text ────────────────

/// The lines of a text (see `spec_lines`).
pub fn text_lines(text: &str) -> (r: Vec<String>)
    ensures
        r@.map_values(|s: String| s@) == spec_lines(text@),
{
    let chars = chars_of(text);
    let len = chars.len();
    let mut lines: Vec<String> = Vec::new();
    let mut pos: usize = 0;
    let mut done = false;
    proof {
        assert(chars@.subrange(0, len as int) =~= chars@);
        assert(lines@.map_values(|s: String| s@) =~= Seq::<Seq<char>>::empty());
    }
    while pos < len && !done
        invariant
            chars@ == text@,
            len == chars@.len(),
            pos <= len,
            done ==> spec_lines(text@) == lines@.map_values(|s: String| s@),
            !done ==> spec_lines(text@) == lines@.map_values(|s: String| s@) + spec_lines(chars@.subrange(pos as int, len as int)),
        decreases len - pos, if done { 0int } else { 1int },
    {
        let mut k = pos;
        while k < len && chars[k] != '\n'
            invariant
                pos <= k <= len,
                len == chars@.len(),
                forall|m: int| pos <= m < k ==> chars@[m] != '\n',
            decreases len - k,
        {
            k = k + 1;
        }
        let ghost rest = chars@.subrange(pos as int, len as int);
        let ghost before = lines@;
        proof {
            lemma_first_index_is(rest, '\n', 0, k - pos);
        }
        if k >= len {
            lines.push(string_from_chars(&chars, pos, len));
            proof {
                assert(lines@.map_values(|s: String| s@) =~= before.map_values(|s: String| s@).push(rest));
            }
            done = true;
        } else {
            let mut line_end = k;
            if line_end > pos && chars[line_end - 1] == '\r' {
                line_end = line_end - 1;
            }
            lines.push(string_from_chars(&chars, pos, line_end));
            proof {
                let piece = chars@.subrange(pos as int, k as int);
                assert(rest.subrange(0, k - pos) =~= piece);
                assert(rest.subrange(k - pos + 1, rest.len() as int) =~= chars@.subrange(k + 1, len as int));
                if line_end < k {
                    assert(piece.drop_last() =~= chars@.subrange(pos as int, line_end as int));
                }
                assert(spec_strip_cr(piece) =~= chars@.subrange(pos as int, line_end as int));
                assert(lines@.map_values(|s: String| s@) =~= before.map_values(|s: String| s@).push(spec_strip_cr(piece)));
            }
            pos = k + 1;
        }
    }
    proof {
        if !done {
            assert(chars@.subrange(pos as int, len as int) =~= Seq::<char>::empty());
        }
    }
    lines
}

/// `text` without a leading `identifier` that is a whole word (not followed by an
/// identifier character).
pub open spec fn spec_strip_identifier_prefix(text: Seq<char>, identifier: Seq<char>) -> Option<Seq<char>> {
    if !spec_starts_with(text, identifier) {
        None
    } else {
        let rest = text.subrange(identifier.len() as int, text.len() as int);
        if rest.len() > 0 && is_ident_char_spec(rest[0]) { None } else { Some(rest) }
    }
}

/// The rest of `text` after the whole word `identifier`.
pub fn strip_identifier_prefix(text: &str, identifier: &str) -> (r: Option<String>)
    ensures
        match r {
            Some(t) => spec_strip_identifier_prefix(text@, identifier@) == Some(t@),
            None => spec_strip_identifier_prefix(text@, identifier@) is None,
        },
{
    if !starts_with(text, identifier) {
        return None;
    }
    let t = chars_of(text);
    let n = chars_of(identifier).len();
    if n < t.len() && is_ident_char(t[n]) {
        return None;
    }
    Some(string_from_chars(&t, n, t.len()))
}

/// A character that may appear in a written type: ASCII letters and digits, `_ . ? < > [ ]`.
pub open spec fn spec_is_type_fragment_char(c: char) -> bool {
    is_alpha_spec(c) || is_digit_spec(c) || c == '_' || c == '.' || c == '?' || c == '<' || c == '>' || c == '['
        || c == ']'
}

/// Where the run of type characters at the start of `s` ends.
pub open spec fn spec_type_fragment_end(s: Seq<char>, i: int) -> int
    decreases s.len() - i,
{
    if i < 0 || i >= s.len() || !spec_is_type_fragment_char(s[i]) { i } else { spec_type_fragment_end(s, i + 1) }
}

/// The written type at the start of `fragment`, trimmed.
pub open spec fn spec_read_type_fragment(fragment: Seq<char>) -> Seq<char> {
    spec_trim(fragment.subrange(0, spec_type_fragment_end(fragment, 0)))
}

proof fn lemma_type_fragment_end_bounds(s: Seq<char>, i: int)
    requires
        0 <= i <= s.len(),
    ensures
        i <= spec_type_fragment_end(s, i) <= s.len(),
    decreases s.len() - i,
{
    if i < s.len() && spec_is_type_fragment_char(s[i]) {
        lemma_type_fragment_end_bounds(s, i + 1);
    }
}

/// The written type at the start of `fragment`.
pub fn read_type_fragment(fragment: &str) -> (r: String)
    ensures
        r@ == spec_read_type_fragment(fragment@),
{
    let f = chars_of(fragment);
    let mut end: usize = 0;
    proof {
        lemma_type_fragment_end_bounds(f@, 0);
    }
    while end < f.len() && (is_alpha(f[end]) || is_digit(f[end]) || f[end] == '_' || f[end] == '.' || f[end] == '?'
        || f[end] == '<' || f[end] == '>' || f[end] == '[' || f[end] == ']')
        invariant
            f@ == fragment@,
            end <= f@.len(),
            spec_type_fragment_end(f@, 0) == spec_type_fragment_end(f@, end as int),
        decreases f@.len() - end,
    {
        end = end + 1;
    }
    trim_text(&string_from_chars(&f, 0, end))
}

/// `text` without a leading `c`.
pub open spec fn spec_strip_char(text: Seq<char>, c: char) -> Option<Seq<char>> {
    if text.len() > 0 && text[0] == c { Some(text.drop_first()) } else { None }
}

fn strip_char(text: &str, c: char) -> (r: Option<String>)
    ensures
        match r {
            Some(t) => spec_strip_char(text@, c) == Some(t@),
            None => spec_strip_char(text@, c) is None,
        },
{
    let t = chars_of(text);
    if t.len() > 0 && t[0] == c {
        Some(string_from_chars(&t, 1, t.len()))
    } else {
        None
    }
}

/// The type of `receiver` declared after a word: `val receiver: Type` with `prefix` `val`
/// gives the bare name of `Type`.
pub open spec fn spec_named_type_annotation(line: Seq<char>, prefix: Seq<char>, receiver: Seq<char>) -> Option<Seq<char>> {
    if !spec_starts_with(line, prefix) {
        None
    } else {
        let after_prefix = spec_trim_start(line.subrange(prefix.len() as int, line.len() as int));
        match spec_strip_identifier_prefix(after_prefix, receiver) {
            None => None,
            Some(after_receiver) => match spec_strip_char(spec_trim_start(after_receiver), ':') {
                None => None,
                Some(fragment) => Some(spec_canonical_type_ident(spec_read_type_fragment(spec_trim_start(fragment)))),
            },
        }
    }
}

/// The type that `line` declares for `receiver` after the word `prefix`, if it does.
pub fn parse_named_type_annotation(line: &str, prefix: &str, receiver: &str) -> (r: Option<String>)
    ensures
        match r {
            Some(t) => spec_named_type_annotation(line@, prefix@, receiver@) == Some(t@),
            None => spec_named_type_annotation(line@, prefix@, receiver@) is None,
        },
{
    if !starts_with(line, prefix) {
        return None;
    }
    let l = chars_of(line);
    let n = chars_of(prefix).len();
    let after_prefix = trim_start_text(string_from_chars(&l, n, l.len()).as_str());
    let after_receiver = match strip_identifier_prefix(after_prefix.as_str(), receiver) {
        Some(t) => t,
        None => return None,
    };
    let fragment = match strip_char(trim_start_text(after_receiver.as_str()).as_str(), ':') {
        Some(t) => t,
        None => return None,
    };
    let written = read_type_fragment(trim_start_text(fragment.as_str()).as_str());
    Some(canonical_type_ident(written.as_str()))
}

/// The type of `receiver` as the first parameter of the parameter list on `line`:
/// `func f(receiver: Type, ...)` gives the bare name of `Type`; only the first parameter is
/// looked at.
pub open spec fn spec_parameter_type_annotation(line: Seq<char>, receiver: Seq<char>) -> Option<Seq<char>> {
    let open = spec_first_index_from(line, '(', 0);
    if open >= line.len() {
        None
    } else {
        let close = spec_first_index_from(line, ')', open + 1);
        if close >= line.len() {
            None
        } else {
            let params = line.subrange(open + 1, close);
            let first = spec_trim(params.subrange(0, spec_first_index_from(params, ',', 0)));
            match spec_strip_identifier_prefix(first, receiver) {
                None => None,
                Some(after_receiver) => match spec_strip_char(spec_trim_start(after_receiver), ':') {
                    None => None,
                    Some(fragment) => Some(spec_canonical_type_ident(spec_read_type_fragment(spec_trim_start(fragment)))),
                },
            }
        }
    }
}

/// The index of the first `c` in `t` at or after `from`, or the length of `t`.
fn first_index_from(t: &Vec<char>, c: char, from: usize) -> (r: usize)
    requires
        from <= t@.len(),
    ensures
        r as int == spec_first_index_from(t@, c, from as int),
        from <= r <= t@.len(),
{
    let mut k = from;
    while k < t.len() && t[k] != c
        invariant
            from <= k <= t@.len(),
            forall|m: int| from <= m < k ==> t@[m] != c,
        decreases t@.len() - k,
    {
        k = k + 1;
    }
    proof {
        lemma_first_index_is(t@, c, from as int, k as int);
    }
    k
}

/// The type that `line`'s parameter list gives `receiver`, if its first parameter is it.
pub fn parse_parameter_type_annotation(line: &str, receiver: &str) -> (r: Option<String>)
    ensures
        match r {
            Some(t) => spec_parameter_type_annotation(line@, receiver@) == Some(t@),
            None => spec_parameter_type_annotation(line@, receiver@) is None,
        },
{
    let l = chars_of(line);
    let open = first_index_from(&l, '(', 0);
    if open >= l.len() {
        return None;
    }
    let close = first_index_from(&l, ')', open + 1);
    if close >= l.len() {
        return None;
    }
    let params = {
        let mut v: Vec<char> = Vec::new();
        let mut i = open + 1;
        while i < close
            invariant
                open + 1 <= i <= close <= l@.len(),
                v@ == l@.subrange(open + 1, i as int),
            decreases close - i,
        {
            v.push(l[i]);
            proof {
                assert(v@ =~= l@.subrange(open + 1, i + 1));
            }
            i = i + 1;
        }
        v
    };
    let comma = first_index_from(&params, ',', 0);
    let first = trim_text(&string_from_chars(&params, 0, comma));
    let after_receiver = match strip_identifier_prefix(first.as_str(), receiver) {
        Some(t) => t,
        None => return None,
    };
    let fragment = match strip_char(trim_start_text(after_receiver.as_str()).as_str(), ':') {
        Some(t) => t,
        None => return None,
    };
    let written = read_type_fragment(trim_start_text(fragment.as_str()).as_str());
    Some(canonical_type_ident(written.as_str()))
}

/// The words after which a declaration names its variable.
pub open spec fn spec_declaration_words() -> Seq<Seq<char>> {
    seq!["require"@, "optional"@, "serialize"@, "child"@, "parent"@, "var"@, "val"@, "private"@, "public"@, "protected"@]
}

/// The first of the declaration words after which the trimmed `line` declares `receiver`.
pub open spec fn spec_named_in_line(line: Seq<char>, receiver: Seq<char>, words: Seq<Seq<char>>) -> Option<Seq<char>>
    decreases words.len(),
{
    if words.len() == 0 {
        None
    } else {
        match spec_named_type_annotation(line, words[0], receiver) {
            Some(t) => Some(t),
            None => spec_named_in_line(line, receiver, words.drop_first()),
        }
    }
}

/// The type that one line gives `receiver`: through a declaration word, else through a
/// parameter list.
pub open spec fn spec_receiver_type_in_line(line: Seq<char>, receiver: Seq<char>) -> Option<Seq<char>> {
    let trimmed = spec_trim(line);
    match spec_named_in_line(trimmed, receiver, spec_declaration_words()) {
        Some(t) => Some(t),
        None => spec_parameter_type_annotation(trimmed, receiver),
    }
}

/// The type that the first line mentioning it gives `receiver`.
pub open spec fn spec_receiver_type_in_lines(lines: Seq<Seq<char>>, receiver: Seq<char>) -> Option<Seq<char>>
    decreases lines.len(),
{
    if lines.len() == 0 {
        None
    } else {
        match spec_receiver_type_in_line(lines[0], receiver) {
            Some(t) => Some(t),
            None => spec_receiver_type_in_lines(lines.drop_first(), receiver),
        }
    }
}

/// The type of `receiver` as the document text declares it, if it does.
pub fn resolve_receiver_type_from_text(text: &str, receiver: &str) -> (r: Option<String>)
    ensures
        match r {
            Some(t) => spec_receiver_type_in_lines(spec_lines(text@), receiver@) == Some(t@),
            None => spec_receiver_type_in_lines(spec_lines(text@), receiver@) is None,
        },
{
    let lines = text_lines(text);
    let ghost all = lines@.map_values(|s: String| s@);
    let words: Vec<&str> = vec!["require", "optional", "serialize", "child", "parent", "var", "val", "private", "public", "protected"];
    proof {
        assert(words@.map_values(|w: &str| w@) =~= spec_declaration_words());
    }
    let mut i: usize = 0;
    proof {
        assert(all.skip(0) =~= all);
    }
    while i < lines.len()
        invariant
            i <= lines@.len(),
            all == lines@.map_values(|s: String| s@),
            all == spec_lines(text@),
            words@.map_values(|w: &str| w@) == spec_declaration_words(),
            spec_receiver_type_in_lines(all, receiver@) == spec_receiver_type_in_lines(all.skip(i as int), receiver@),
        decreases lines@.len() - i,
    {
        let trimmed = trim_text(&lines[i]);
        proof {
            assert(all.skip(i as int)[0] == lines@[i as int]@);
            assert(all.skip(i as int).drop_first() =~= all.skip(i + 1));
        }
        let mut j: usize = 0;
        proof {
            assert(spec_declaration_words().skip(0) =~= spec_declaration_words());
        }
        while j < words.len()
            invariant
                j <= words@.len(),
                i < lines@.len(),
                all == lines@.map_values(|s: String| s@),
                all == spec_lines(text@),
                all.skip(i as int).len() > 0,
                all.skip(i as int)[0] == lines@[i as int]@,
                spec_receiver_type_in_lines(all, receiver@) == spec_receiver_type_in_lines(all.skip(i as int), receiver@),
                words@.map_values(|w: &str| w@) == spec_declaration_words(),
                trimmed@ == spec_trim(lines@[i as int]@),
                spec_named_in_line(trimmed@, receiver@, spec_declaration_words())
                    == spec_named_in_line(trimmed@, receiver@, spec_declaration_words().skip(j as int)),
            decreases words@.len() - j,
        {
            proof {
                let ws = spec_declaration_words();
                assert(ws.skip(j as int)[0] == words@[j as int]@);
                assert(ws.skip(j as int).drop_first() =~= ws.skip(j + 1));
            }
            match parse_named_type_annotation(trimmed.as_str(), words[j], receiver) {
                Some(t) => {
                    proof {
                        assert(spec_named_in_line(trimmed@, receiver@, spec_declaration_words()) == Some(t@));
                        assert(spec_receiver_type_in_line(lines@[i as int]@, receiver@) == Some(t@));
                        assert(spec_receiver_type_in_lines(all.skip(i as int), receiver@) == Some(t@));
                    }
                    return Some(t);
                },
                None => {},
            }
            j = j + 1;
        }
        proof {
            assert(spec_declaration_words().skip(10) =~= Seq::<Seq<char>>::empty());
        }
        match parse_parameter_type_annotation(trimmed.as_str(), receiver) {
            Some(t) => {
                proof {
                    assert(spec_receiver_type_in_line(lines@[i as int]@, receiver@) == Some(t@));
                    assert(spec_receiver_type_in_lines(all.skip(i as int), receiver@) == Some(t@));
                }
                return Some(t);
            },
            None => {
                proof {
                    assert(spec_receiver_type_in_line(lines@[i as int]@, receiver@) is None);
                }
            },
        }
        i = i + 1;
    }
    proof {
        assert(all.skip(lines@.len() as int) =~= Seq::<Seq<char>>::empty());
    }
    None
}


// ── Result types of signatures ───────────────────────────────────

/// Where the last `p` in `s` begins, if `p` occurs.
pub open spec fn spec_find_last(s: Seq<char>, p: Seq<char>) -> Option<int>
    decreases s.len(),
{
    if s.len() < p.len() {
        None
    } else if s.subrange(s.len() - p.len(), s.len() as int) == p {
        Some(s.len() - p.len())
    } else if s.len() == 0 {
        None
    } else {
        spec_find_last(s.drop_last(), p)
    }
}

/// Where the last `p` in `t` begins.
fn find_last(t: &Vec<char>, p: &str) -> (r: Option<usize>)
    ensures
        match r {
            Some(i) => spec_find_last(t@, p@) == Some(i as int) && i + p@.len() <= t@.len(),
            None => spec_find_last(t@, p@) is None,
        },
{
    let pat = chars_of(p);
    let plen = pat.len();
    let mut end = t.len();
    assert(t@.take(end as int) =~= t@);
    while end >= plen
        invariant
            pat@ == p@,
            plen == pat@.len(),
            end <= t@.len(),
            spec_find_last(t@, p@) == spec_find_last(t@.take(end as int), p@),
        decreases end,
    {
        let start = end - plen;
        let mut j: usize = 0;
        while j < plen && t[start + j] == pat[j]
            invariant
                start + plen == end,
                end <= t@.len(),
                plen == pat@.len(),
                j <= plen,
                forall|m: int| 0 <= m < j ==> t@[start + m] == pat@[m],
            decreases plen - j,
        {
            j = j + 1;
        }
        let ghost cur = t@.take(end as int);
        if j == plen {
            proof {
                assert(cur.subrange(cur.len() - plen, cur.len() as int) =~= pat@);
            }
            return Some(start);
        }
        proof {
            assert(cur.subrange(cur.len() - plen, cur.len() as int)[j as int] != pat@[j as int]);
            assert(cur.drop_last() =~= t@.take(end - 1));
        }
        if end == 0 {
            return None;
        }
        end = end - 1;
    }
    None
}

/// The result type of a member signature: the bare type after the last `"): "`, else after
/// the last `": "`.
pub open spec fn spec_signature_result_type(signature: Seq<char>) -> Option<Seq<char>> {
    match spec_find_last(signature, "): "@) {
        Some(i) => Some(spec_canonical_type_ident(signature.subrange(i + 3, signature.len() as int))),
        None => match spec_find_last(signature, ": "@) {
            Some(i) => Some(spec_canonical_type_ident(signature.subrange(i + 2, signature.len() as int))),
            None => None,
        },
    }
}

/// The result type named in a member signature such as `getComponent<T>(): T`.
pub fn signature_result_type(signature: &str) -> (r: Option<String>)
    ensures
        match r {
            Some(t) => spec_signature_result_type(signature@) == Some(t@),
            None => spec_signature_result_type(signature@) is None,
        },
{
    let s = chars_of(signature);
    proof {
        reveal_strlit("): ");
        reveal_strlit(": ");
    }
    match find_last(&s, "): ") {
        Some(i) => {
            let tail = string_from_chars(&s, i + 3, s.len());
            return Some(canonical_type_ident(tail.as_str()));
        },
        None => {},
    }
    match find_last(&s, ": ") {
        Some(i) => {
            let tail = string_from_chars(&s, i + 2, s.len());
            Some(canonical_type_ident(tail.as_str()))
        },
        None => None,
    }
}

// ── PrSM's own entries ───────────────────────────────────────────

/// The kinds of completion entries.
#[derive(Debug, Clone, Copy, PartialEq, Eq, Structural)]
pub enum CompletionEntryKind {
    Keyword,
    Function,
    Method,
    Property,
    Field,
    Class,
    Struct,
    Enum,
    EnumMember,
    TypeParameter,
    Event,
}

/// The LSP completion item kind number of an entry kind.
pub open spec fn spec_completion_item_kind_number(kind: CompletionEntryKind) -> u32 {
    match kind {
        CompletionEntryKind::Method => 2,
        CompletionEntryKind::Function => 3,
        CompletionEntryKind::Field => 5,
        CompletionEntryKind::Class => 7,
        CompletionEntryKind::Property => 10,
        CompletionEntryKind::Enum => 13,
        CompletionEntryKind::Keyword => 14,
        CompletionEntryKind::EnumMember => 20,
        CompletionEntryKind::Struct => 22,
        CompletionEntryKind::Event => 23,
        CompletionEntryKind::TypeParameter => 25,
    }
}

/// The LSP completion item kind number of an entry kind.
pub fn completion_item_kind_number(kind: CompletionEntryKind) -> (r: u32)
    ensures
        r == spec_completion_item_kind_number(kind),
{
    match kind {
        CompletionEntryKind::Method => 2,
        CompletionEntryKind::Function => 3,
        CompletionEntryKind::Field => 5,
        CompletionEntryKind::Class => 7,
        CompletionEntryKind::Property => 10,
        CompletionEntryKind::Enum => 13,
        CompletionEntryKind::Keyword => 14,
        CompletionEntryKind::EnumMember => 20,
        CompletionEntryKind::Struct => 22,
        CompletionEntryKind::Event => 23,
        CompletionEntryKind::TypeParameter => 25,
    }
}

/// The call snippet of a method or function: a generic lookup `name<$1>()`, a call without
/// arguments `name()`, else `name($1)`; other kinds insert their name.
pub open spec fn spec_completion_snippet_for_signature(name: Seq<char>, signature: Seq<char>, kind: CompletionEntryKind) -> Option<Seq<char>> {
    match kind {
        CompletionEntryKind::Method | CompletionEntryKind::Function => {
            if spec_contains_seq(signature, "<T>()"@) {
                Some(name + "<$1>()"@)
            } else if spec_contains_seq(signature, "()"@) {
                Some(name + "()"@)
            } else {
                Some(name + "($1)"@)
            }
        },
        _ => None,
    }
}

/// The snippet that completing a member with this signature inserts.
pub fn completion_snippet_for_signature(name: &str, signature: &str, kind: CompletionEntryKind) -> (r: Option<String>)
    ensures
        match r {
            Some(t) => spec_completion_snippet_for_signature(name@, signature@, kind) == Some(t@),
            None => spec_completion_snippet_for_signature(name@, signature@, kind) is None,
        },
{
    match kind {
        CompletionEntryKind::Method | CompletionEntryKind::Function => {
            if contains_str(signature, "<T>()") {
                Some(cat2(name, "<$1>()"))
            } else if contains_str(signature, "()") {
                Some(cat2(name, "()"))
            } else {
                Some(cat2(name, "($1)"))
            }
        },
        _ => None,
    }
}

/// A builtin function's snippet: `name<$1>()` for the generic lookups, else `name($1)`.
pub open spec fn spec_builtin_snippet(name: Seq<char>, signature: Seq<char>) -> Seq<char> {
    if signature == "<T>()"@ { name + "<$1>()"@ } else { name + "($1)"@ }
}

/// The snippet of a builtin function.
pub fn builtin_snippet(name: &str, signature: &str) -> (r: String)
    ensures
        r@ == spec_builtin_snippet(name@, signature@),
{
    if str_eq(signature, "<T>()") {
        cat2(name, "<$1>()")
    } else {
        cat2(name, "($1)")
    }
}

/// The type of the receivers that PrSM provides by name.
pub open spec fn spec_builtin_receiver_type(receiver: Seq<char>) -> Option<Seq<char>> {
    if receiver == "gameObject"@ { Some("GameObject"@) }
    else if receiver == "transform"@ { Some("Transform"@) }
    else if receiver == "input"@ { Some("Input"@) }
    else if receiver == "Time"@ { Some("Time"@) }
    else if receiver == "Debug"@ { Some("Debug"@) }
    else if receiver == "Physics"@ { Some("Physics"@) }
    else if receiver == "Mathf"@ { Some("Mathf"@) }
    else if receiver == "Application"@ { Some("Application"@) }
    else if receiver == "SceneManager"@ { Some("SceneManager"@) }
    else { None }
}

/// The type of a receiver that PrSM provides by name (`gameObject`, `transform`, `input`, ...).
pub fn builtin_receiver_type(receiver: &str) -> (r: Option<&'static str>)
    ensures
        match r {
            Some(t) => spec_builtin_receiver_type(receiver@) == Some(t@),
            None => spec_builtin_receiver_type(receiver@) is None,
        },
{
    if str_eq(receiver, "gameObject") { Some("GameObject") }
    else if str_eq(receiver, "transform") { Some("Transform") }
    else if str_eq(receiver, "input") { Some("Input") }
    else if str_eq(receiver, "Time") { Some("Time") }
    else if str_eq(receiver, "Debug") { Some("Debug") }
    else if str_eq(receiver, "Physics") { Some("Physics") }
    else if str_eq(receiver, "Mathf") { Some("Mathf") }
    else if str_eq(receiver, "Application") { Some("Application") }
    else if str_eq(receiver, "SceneManager") { Some("SceneManager") }
    else { None }
}

/// A receiver is used statically when it is `input`, names its own type, or is a
/// capitalized core type name.
pub open spec fn spec_is_static_receiver(receiver: Seq<char>, receiver_type: Seq<char>) -> bool {
    ||| receiver == "input"@
    ||| spec_canonical_type_ident(receiver) == spec_canonical_type_ident(receiver_type)
    ||| (receiver.len() > 0 && 'A' <= receiver[0] && receiver[0] <= 'Z' && spec_core_type_by_name(receiver) is Some)
}

/// Whether members are completed on the receiver's type rather than on an instance.
pub fn is_static_receiver(receiver: &str, receiver_type: &str) -> (r: bool)
    ensures
        r == spec_is_static_receiver(receiver@, receiver_type@),
{
    if str_eq(receiver, "input") {
        return true;
    }
    let cr = canonical_type_ident(receiver);
    let ct = canonical_type_ident(receiver_type);
    if str_eq(cr.as_str(), ct.as_str()) {
        return true;
    }
    let chars = chars_of(receiver);
    chars.len() > 0 && 'A' <= chars[0] && chars[0] <= 'Z' && core_type_by_name(receiver).is_some()
}

/// PrSM's primitive type names.
pub open spec fn spec_primitive_type_names() -> Seq<Seq<char>> {
    seq!["Int"@, "Float"@, "Double"@, "Bool"@, "String"@, "Long"@, "Byte"@, "Unit"@]
}

/// Whether the sidecar should complete the members of a type: not for primitives or the
/// project's own declarations; for core types only when they are Unity's; for anything
/// else yes.
pub open spec fn spec_type_prefers_sidecar(ty_name: Seq<char>, files: Seq<FileSummary>) -> bool {
    let c = spec_canonical_type_ident(ty_name);
    if spec_primitive_type_names().contains(c) {
        false
    } else if spec_declaration_by_name(files, c) is Some {
        false
    } else {
        match spec_core_namespace_for_type(c) {
            Some(ns) => spec_starts_with(ns, "Unity"@),
            None => true,
        }
    }
}

/// Whether the sidecar should complete the members of `ty_name`, given the project's index.
pub fn type_prefers_sidecar(ty_name: &str, index: &ProjectIndex) -> (r: bool)
    ensures
        r == spec_type_prefers_sidecar(ty_name@, index.files@),
{
    let c = canonical_type_ident(ty_name);
    let d = c.as_str();
    let primitive = str_eq(d, "Int") || str_eq(d, "Float") || str_eq(d, "Double") || str_eq(d, "Bool")
        || str_eq(d, "String") || str_eq(d, "Long") || str_eq(d, "Byte") || str_eq(d, "Unit");
    proof {
        let ps = spec_primitive_type_names();
        if ps.contains(c@) {
            let k = choose|k: int| 0 <= k < ps.len() && ps[k] == c@;
            assert(primitive);
        }
        if primitive {
            if d@ == "Int"@ { assert(ps[0] == c@); }
            else if d@ == "Float"@ { assert(ps[1] == c@); }
            else if d@ == "Double"@ { assert(ps[2] == c@); }
            else if d@ == "Bool"@ { assert(ps[3] == c@); }
            else if d@ == "String"@ { assert(ps[4] == c@); }
            else if d@ == "Long"@ { assert(ps[5] == c@); }
            else if d@ == "Byte"@ { assert(ps[6] == c@); }
            else { assert(ps[7] == c@); }
        }
    }
    if primitive {
        return false;
    }
    if project_declaration_by_name(index, d).is_some() {
        return false;
    }
    match core_namespace_for_type(d) {
        Some(ns) => starts_with(ns, "Unity"),
        None => true,
    }
}


// ── Ranking completion entries ───────────────────────────────────

/// A completion entry before it is rendered for the editor.
pub struct CompletionEntry {
    pub label: String,
    pub kind: CompletionEntryKind,
    pub detail: String,
    pub documentation: Option<String>,
    pub insert_text: Option<String>,
    pub sort_group: u8,
}

/// The key an entry is matched, deduplicated and ordered by: its label in ASCII lower case.
pub open spec fn spec_entry_key(e: CompletionEntry) -> Seq<char> {
    spec_ascii_lowercase(e.label@)
}

/// The entries (by index) that match the typed prefix (ASCII case ignored; an empty prefix
/// matches everything), each key once, the earliest entry winning.
pub open spec fn spec_matching_entries(entries: Seq<CompletionEntry>, prefix: Seq<char>) -> Seq<int>
    decreases entries.len(),
{
    if entries.len() == 0 {
        Seq::empty()
    } else {
        let kept = spec_matching_entries(entries.drop_last(), prefix);
        let e = entries.last();
        let p = spec_ascii_lowercase(prefix);
        if p.len() > 0 && !spec_starts_with(spec_entry_key(e), p) {
            kept
        } else if exists|j: int| 0 <= j < kept.len() && #[trigger] spec_entry_key(entries[kept[j]]) == spec_entry_key(e) {
            kept
        } else {
            kept.push(entries.len() - 1)
        }
    }
}

/// Entry `a` is listed before entry `b`: a lower sort group, or the same group and a key
/// that comes first.
pub open spec fn spec_entry_before(a: CompletionEntry, b: CompletionEntry) -> bool {
    a.sort_group < b.sort_group || (a.sort_group == b.sort_group && spec_text_less(spec_entry_key(a), spec_entry_key(b)))
}

/// The editor gets at most this many entries.
pub open spec fn spec_completion_limit() -> int {
    200
}

/// `ranked` lists the first entries of `matching` in listing order: strictly ordered, drawn
/// from `matching`, as many as the limit allows, and no left-out entry comes before a
/// listed one.
pub open spec fn spec_is_ranking(entries: Seq<CompletionEntry>, matching: Seq<int>, ranked: Seq<int>) -> bool {
    &&& forall|i: int, j: int| 0 <= i < j < ranked.len() ==> spec_entry_before(entries[ranked[i]], entries[ranked[j]])
    &&& forall|i: int| 0 <= i < ranked.len() ==> #[trigger] matching.contains(ranked[i])
    &&& ranked.len() == if matching.len() < spec_completion_limit() { matching.len() as int } else { spec_completion_limit() }
    &&& forall|m: int, i: int| #![trigger matching.contains(m), ranked[i]]
        matching.contains(m) && !ranked.contains(m) && 0 <= i < ranked.len() ==> spec_entry_before(entries[ranked[i]], entries[m])
}

/// Whether entry `a` is listed before entry `b`.
fn entry_before(a: &CompletionEntry, b: &CompletionEntry) -> (r: bool)
    ensures
        r == spec_entry_before(*a, *b),
{
    if a.sort_group != b.sort_group {
        return a.sort_group < b.sort_group;
    }
    let ka = ascii_lowercase(a.label.as_str());
    let kb = ascii_lowercase(b.label.as_str());
    text_less(ka.as_str(), kb.as_str())
}

/// The entries matching the typed prefix, each key once (see `spec_matching_entries`).
pub fn matching_entries(entries: &Vec<CompletionEntry>, prefix: &str) -> (r: Vec<usize>)
    ensures
        r@.map_values(|i: usize| i as int) == spec_matching_entries(entries@, prefix@),
        forall|i: int| 0 <= i < r@.len() ==> #[trigger] r@[i] < entries@.len(),
{
    let p = ascii_lowercase(prefix);
    let mut kept: Vec<usize> = Vec::new();
    let mut keys: Vec<String> = Vec::new();
    let mut i: usize = 0;
    while i < entries.len()
        invariant
            i <= entries@.len(),
            p@ == spec_ascii_lowercase(prefix@),
            kept@.len() == keys@.len(),
            kept@.map_values(|k: usize| k as int) == spec_matching_entries(entries@.take(i as int), prefix@),
            forall|j: int| 0 <= j < kept@.len() ==> #[trigger] kept@[j] < i,
            forall|j: int| 0 <= j < kept@.len() ==> keys@[j]@ == #[trigger] spec_entry_key(entries@[kept@[j] as int]),
        decreases entries@.len() - i,
    {
        let ghost pre = entries@.take(i as int);
        let ghost post = entries@.take(i + 1);
        let ghost old_kept = kept@;
        let ghost old_keys = keys@;
        proof {
            assert(post.drop_last() =~= pre);
            assert(post.last() == entries@[i as int]);
            assert forall|j: int| 0 <= j < kept@.len() implies #[trigger] post[kept@[j] as int] == entries@[kept@[j] as int] by {
                assert(kept@[j] < i);
            }
        }
        let key = ascii_lowercase(entries[i].label.as_str());
        let matches = p.as_str().is_empty() || crate::text::starts_with(key.as_str(), p.as_str());
        if matches {
            let mut j: usize = 0;
            let mut seen = false;
            while j < keys.len() && !seen
                invariant
                    j <= keys@.len(),
                    !seen ==> forall|m: int| 0 <= m < j ==> keys@[m]@ != key@,
                    seen ==> j > 0 && keys@[j - 1]@ == key@,
                decreases keys@.len() - j, if seen { 0int } else { 1int },
            {
                if str_eq(keys[j].as_str(), key.as_str()) {
                    seen = true;
                }
                j = j + 1;
            }
            proof {
                let m = kept@.map_values(|k: usize| k as int);
                if seen {
                    assert(keys@[j - 1]@ == spec_entry_key(entries@[kept@[j - 1] as int]));
                    assert(spec_entry_key(post[m[j - 1]]) == spec_entry_key(post.last()));
                } else {
                    assert forall|x: int| 0 <= x < m.len() implies #[trigger] spec_entry_key(post[m[x]]) != spec_entry_key(post.last()) by {
                        assert(keys@[x]@ == spec_entry_key(entries@[kept@[x] as int]));
                        assert(keys@[x]@ != key@);
                    }
                }
            }
            if !seen {
                kept.push(i);
                keys.push(key);
            }
        }
        proof {
            assert forall|j: int| 0 <= j < kept@.len() implies keys@[j]@ == #[trigger] spec_entry_key(entries@[kept@[j] as int]) by {
                if j < old_kept.len() {
                    assert(old_keys[j]@ == spec_entry_key(entries@[old_kept[j] as int]));
                    assert(kept@[j] == old_kept[j] && keys@[j] == old_keys[j]);
                }
            }
            assert forall|j: int| 0 <= j < kept@.len() implies #[trigger] kept@[j] < i + 1 by {
                if j < old_kept.len() {
                    assert(old_kept[j] < i);
                    assert(kept@[j] == old_kept[j]);
                }
            }
        }
        i = i + 1;
    }
    proof {
        assert(entries@.take(entries@.len() as int) =~= entries@);
    }
    kept
}


/// Matching entries have pairwise different keys and lie in the list.
pub proof fn lemma_matching_entries_distinct(entries: Seq<CompletionEntry>, prefix: Seq<char>)
    ensures
        forall|i: int| 0 <= i < spec_matching_entries(entries, prefix).len()
            ==> 0 <= #[trigger] spec_matching_entries(entries, prefix)[i] < entries.len(),
        forall|i: int, j: int| 0 <= i < j < spec_matching_entries(entries, prefix).len()
            ==> spec_entry_key(entries[spec_matching_entries(entries, prefix)[i]])
                != spec_entry_key(entries[spec_matching_entries(entries, prefix)[j]]),
    decreases entries.len(),
{
    if entries.len() > 0 {
        let shorter = entries.drop_last();
        lemma_matching_entries_distinct(shorter, prefix);
        let kept = spec_matching_entries(shorter, prefix);
        assert forall|i: int| 0 <= i < kept.len() implies #[trigger] entries[kept[i]] == shorter[kept[i]] by {
            assert(0 <= kept[i] < shorter.len());
        }
    }
}

/// Listing order is a strict total order on entries with different keys.
proof fn lemma_entry_before_total(a: CompletionEntry, b: CompletionEntry)
    requires
        spec_entry_key(a) != spec_entry_key(b),
    ensures
        spec_entry_before(a, b) || spec_entry_before(b, a),
        !(spec_entry_before(a, b) && spec_entry_before(b, a)),
{
    lemma_text_less_total(spec_entry_key(a), spec_entry_key(b));
}

proof fn lemma_entry_before_transitive(a: CompletionEntry, b: CompletionEntry, c: CompletionEntry)
    requires
        spec_entry_before(a, b),
        spec_entry_before(b, c),
    ensures
        spec_entry_before(a, c),
{
    if a.sort_group == b.sort_group && b.sort_group == c.sort_group {
        lemma_text_less_transitive(spec_entry_key(a), spec_entry_key(b), spec_entry_key(c));
    }
}

/// Where an entry goes among the placed ones: after those listed before it, before the
/// rest (its key differs from theirs).
proof fn lemma_place_entry(entries: Seq<CompletionEntry>, matching: Seq<usize>, before: Seq<usize>, from: Seq<int>, i: int, pos: int)
    requires
        0 <= i < matching.len(),
        0 <= pos <= before.len(),
        from.len() == before.len(),
        matching[i] < entries.len(),
        forall|k: int| 0 <= k < matching.len() ==> #[trigger] matching[k] < entries.len(),
        forall|a: int, b: int| 0 <= a < b < matching.len()
            ==> spec_entry_key(entries[matching[a] as int]) != spec_entry_key(entries[matching[b] as int]),
        forall|a: int, b: int| 0 <= a < b < before.len()
            ==> spec_entry_before(entries[before[a] as int], entries[before[b] as int]),
        forall|x: int| 0 <= x < before.len() ==> 0 <= #[trigger] from[x] < i && matching[from[x]] == before[x],
        forall|x: int| 0 <= x < pos ==> spec_entry_before(entries[#[trigger] before[x] as int], entries[matching[i] as int]),
        pos < before.len() ==> !spec_entry_before(entries[before[pos] as int], entries[matching[i] as int]),
    ensures
        forall|x: int| pos <= x < before.len() ==> spec_entry_before(entries[matching[i] as int], entries[#[trigger] before[x] as int]),
{
    let m = matching[i];
    if pos < before.len() {
        let k = from[pos];
        assert(matching[k] == before[pos]);
        assert(spec_entry_key(entries[matching[k] as int]) != spec_entry_key(entries[matching[i] as int]));
        lemma_entry_before_total(entries[before[pos] as int], entries[m as int]);
        assert forall|x: int| pos <= x < before.len() implies spec_entry_before(entries[m as int], entries[#[trigger] before[x] as int]) by {
            if x > pos {
                lemma_entry_before_transitive(entries[m as int], entries[before[pos] as int], entries[before[x] as int]);
            }
        }
    }
}

/// Inserting an entry at its place keeps the listing strictly ordered.
proof fn lemma_sorted_insert(entries: Seq<CompletionEntry>, before: Seq<usize>, pos: int, m: usize)
    requires
        0 <= pos <= before.len(),
        forall|a: int, b: int| 0 <= a < b < before.len()
            ==> spec_entry_before(entries[before[a] as int], entries[before[b] as int]),
        forall|x: int| 0 <= x < pos ==> spec_entry_before(entries[#[trigger] before[x] as int], entries[m as int]),
        forall|x: int| pos <= x < before.len() ==> spec_entry_before(entries[m as int], entries[#[trigger] before[x] as int]),
    ensures
        forall|a: int, b: int| 0 <= a < b < before.insert(pos, m).len()
            ==> spec_entry_before(entries[before.insert(pos, m)[a] as int], entries[before.insert(pos, m)[b] as int]),
{
    let after = before.insert(pos, m);
    assert forall|a: int, b: int| 0 <= a < b < after.len() implies
        spec_entry_before(entries[after[a] as int], entries[after[b] as int]) by {
        if a < pos && b > pos {
            lemma_entry_before_transitive(entries[before[a] as int], entries[m as int], entries[before[b - 1] as int]);
        } else if a < pos && b < pos {
        } else if a == pos {
            assert(after[b] == before[b - 1]);
        } else if b == pos {
            assert(after[a] == before[a]);
        } else {
            assert(after[a] == before[a - 1] && after[b] == before[b - 1]);
        }
    }
}

/// Two index lists hold the same indices.
pub open spec fn spec_same_members(a: Seq<usize>, b: Seq<usize>) -> bool {
    &&& forall|x: int| 0 <= x < a.len() ==> #[trigger] spec_occurs(b, a[x])
    &&& forall|k: int| 0 <= k < b.len() ==> #[trigger] spec_occurs(a, b[k])
}

/// `v` is one of the indices of `s`.
pub open spec fn spec_occurs(s: Seq<usize>, v: usize) -> bool {
    exists|k: int| 0 <= k < s.len() && #[trigger] s[k] == v
}

/// The matching entries in listing order.
fn sort_entry_indices(entries: &Vec<CompletionEntry>, matching: &Vec<usize>) -> (sorted: Vec<usize>)
    requires
        forall|k: int| 0 <= k < matching@.len() ==> #[trigger] matching@[k] < entries@.len(),
        forall|a: int, b: int| 0 <= a < b < matching@.len()
            ==> spec_entry_key(entries@[matching@[a] as int]) != spec_entry_key(entries@[matching@[b] as int]),
    ensures
        sorted@.len() == matching@.len(),
        forall|x: int| 0 <= x < sorted@.len() ==> #[trigger] sorted@[x] < entries@.len(),
        forall|a: int, b: int| 0 <= a < b < sorted@.len()
            ==> spec_entry_before(entries@[sorted@[a] as int], entries@[sorted@[b] as int]),
        spec_same_members(sorted@, matching@),
{
    let mut sorted: Vec<usize> = Vec::new();
    let ghost mut from: Seq<int> = Seq::empty();
    let ghost mut at: Seq<int> = Seq::empty();
    let mut i: usize = 0;
    while i < matching.len()
        invariant
            i <= matching@.len(),
            forall|k: int| 0 <= k < matching@.len() ==> #[trigger] matching@[k] < entries@.len(),
            forall|a: int, b: int| 0 <= a < b < matching@.len()
                ==> spec_entry_key(entries@[matching@[a] as int]) != spec_entry_key(entries@[matching@[b] as int]),
            sorted@.len() == i,
            from.len() == i,
            at.len() == i,
            forall|x: int| 0 <= x < sorted@.len() ==> 0 <= #[trigger] from[x] < i && matching@[from[x]] == sorted@[x],
            forall|k: int| 0 <= k < i ==> 0 <= #[trigger] at[k] < i && sorted@[at[k]] == matching@[k],
            forall|x: int| 0 <= x < sorted@.len() ==> #[trigger] sorted@[x] < entries@.len(),
            forall|a: int, b: int| 0 <= a < b < sorted@.len()
                ==> spec_entry_before(entries@[sorted@[a] as int], entries@[sorted@[b] as int]),
        decreases matching@.len() - i,
    {
        let m = matching[i];
        let mut pos: usize = 0;
        while pos < sorted.len() && entry_before(&entries[sorted[pos]], &entries[m])
            invariant
                pos <= sorted@.len(),
                m < entries@.len(),
                forall|x: int| 0 <= x < sorted@.len() ==> #[trigger] sorted@[x] < entries@.len(),
                forall|x: int| 0 <= x < pos ==> spec_entry_before(entries@[#[trigger] sorted@[x] as int], entries@[m as int]),
            decreases sorted@.len() - pos,
        {
            pos = pos + 1;
        }
        let ghost before = sorted@;
        proof {
            lemma_place_entry(entries@, matching@, before, from, i as int, pos as int);
        }
        sorted.insert(pos, m);
        proof {
            lemma_sorted_insert(entries@, before, pos as int, m);
            let new_from = from.insert(pos as int, i as int);
            let new_at = at.map_values(|a: int| if a >= pos { a + 1 } else { a }).push(pos as int);
            assert forall|x: int| 0 <= x < sorted@.len() implies 0 <= #[trigger] new_from[x] < i + 1
                && matching@[new_from[x]] == sorted@[x] && sorted@[x] < entries@.len() by {
                if x < pos {
                    assert(sorted@[x] == before[x] && new_from[x] == from[x]);
                } else if x > pos {
                    assert(sorted@[x] == before[x - 1] && new_from[x] == from[x - 1]);
                }
            }
            assert forall|k: int| 0 <= k < i + 1 implies 0 <= #[trigger] new_at[k] < i + 1 && sorted@[new_at[k]] == matching@[k] by {
                if k < i {
                    let a = at[k];
                    if a >= pos {
                        assert(sorted@[a + 1] == before[a]);
                    } else {
                        assert(sorted@[a] == before[a]);
                    }
                }
            }
            from = new_from;
            at = new_at;
        }
        i = i + 1;
    }
    proof {
        assert forall|x: int| 0 <= x < sorted@.len() implies #[trigger] spec_occurs(matching@, sorted@[x]) by {
            assert(matching@[from[x]] == sorted@[x]);
        }
        assert forall|k: int| 0 <= k < matching@.len() implies #[trigger] spec_occurs(sorted@, matching@[k]) by {
            assert(sorted@[at[k]] == matching@[k]);
        }
    }
    sorted
}

/// The entries for a typed prefix, in listing order, at most the limit: the indices of the
/// entries that `spec_is_ranking` describes.
pub fn rank_completion_entries(entries: &Vec<CompletionEntry>, prefix: &str) -> (r: Vec<usize>)
    ensures
        spec_is_ranking(entries@, spec_matching_entries(entries@, prefix@), r@.map_values(|i: usize| i as int)),
        forall|i: int| 0 <= i < r@.len() ==> #[trigger] r@[i] < entries@.len(),
{
    let matching = matching_entries(entries, prefix);
    let ghost ms = matching@.map_values(|i: usize| i as int);
    proof {
        lemma_matching_entries_distinct(entries@, prefix@);
        assert forall|a: int, b: int| 0 <= a < b < matching@.len() implies
            spec_entry_key(entries@[matching@[a] as int]) != spec_entry_key(entries@[matching@[b] as int]) by {
            assert(ms[a] == matching@[a] as int && ms[b] == matching@[b] as int);
        }
    }
    let sorted = sort_entry_indices(entries, &matching);
    let limit: usize = if sorted.len() < 200 { sorted.len() } else { 200 };
    let mut ranked: Vec<usize> = Vec::new();
    let mut j: usize = 0;
    while j < limit
        invariant
            j <= limit <= sorted@.len(),
            ranked@ == sorted@.take(j as int),
        decreases limit - j,
    {
        ranked.push(sorted[j]);
        proof {
            assert(ranked@ =~= sorted@.take(j + 1));
        }
        j = j + 1;
    }
    proof {
        lemma_ranking_of_sorted(entries@, matching@, sorted@, limit as int);
        assert(ranked@ =~= sorted@.take(limit as int));
    }
    ranked
}

/// The first `limit` entries of the sorted listing form the ranking.
proof fn lemma_ranking_of_sorted(entries: Seq<CompletionEntry>, matching: Seq<usize>, sorted: Seq<usize>, limit: int)
    requires
        sorted.len() == matching.len(),
        limit == if sorted.len() < 200 { sorted.len() as int } else { 200 },
        forall|a: int, b: int| 0 <= a < b < sorted.len()
            ==> spec_entry_before(entries[sorted[a] as int], entries[sorted[b] as int]),
        spec_same_members(sorted, matching),
    ensures
        spec_is_ranking(entries, matching.map_values(|i: usize| i as int), sorted.take(limit).map_values(|i: usize| i as int)),
{
    let ms = matching.map_values(|i: usize| i as int);
    let rs = sorted.take(limit).map_values(|i: usize| i as int);
    assert forall|a: int, b: int| 0 <= a < b < rs.len() implies spec_entry_before(entries[rs[a]], entries[rs[b]]) by {
        assert(rs[a] == sorted[a] as int && rs[b] == sorted[b] as int);
    }
    assert forall|x: int| 0 <= x < rs.len() implies #[trigger] ms.contains(rs[x]) by {
        assert(rs[x] == sorted[x] as int);
        assert(spec_occurs(matching, sorted[x]));
        let k = choose|k: int| 0 <= k < matching.len() && #[trigger] matching[k] == sorted[x];
        assert(ms[k] == rs[x]);
    }
    assert forall|mm: int, x: int| #![trigger ms.contains(mm), rs[x]]
        ms.contains(mm) && !rs.contains(mm) && 0 <= x < rs.len() implies spec_entry_before(entries[rs[x]], entries[mm]) by {
        let k = choose|k: int| 0 <= k < ms.len() && ms[k] == mm;
        assert(matching[k] as int == mm);
        assert(spec_occurs(sorted, matching[k]));
        let y = choose|y: int| 0 <= y < sorted.len() && #[trigger] sorted[y] == matching[k];
        if y < limit {
            assert(rs[y] == mm);
        }
        assert(rs[x] == sorted[x] as int);
    }
}


// ── PrSM's own entries ───────────────────────────────────────────

/// The keywords offered in a general completion.
pub open spec fn spec_prsm_keywords() -> Seq<Seq<char>> {
    seq!["component"@, "asset"@, "class"@, "data"@, "enum"@, "serialize"@, "require"@, "optional"@, "child"@, "parent"@, "val"@, "var"@, "func"@, "coroutine"@, "override"@, "return"@, "if"@, "else"@, "when"@, "for"@, "while"@, "in"@, "until"@, "break"@, "continue"@, "wait"@, "start"@, "stop"@, "stopAll"@, "listen"@, "intrinsic"@, "using"@, "null"@, "this"@, "true"@, "false"@, "awake"@, "update"@, "fixedUpdate"@, "lateUpdate"@, "onEnable"@, "onDisable"@, "onDestroy"@, "onTriggerEnter"@, "onTriggerExit"@, "onCollisionEnter"@, "onCollisionExit"@, "nextFrame"@, "fixedFrame"@, "public"@, "private"@, "protected"@]
}

/// A keyword entry: the keyword, in the keyword group.
pub open spec fn spec_is_keyword_entry(e: CompletionEntry, keyword: Seq<char>) -> bool {
    &&& e.label@ == keyword
    &&& e.kind == CompletionEntryKind::Keyword
    &&& e.detail@ == "Keyword (prsm)"@
    &&& e.documentation is None
    &&& e.insert_text is None
    &&& e.sort_group == 2
}

/// One entry per PrSM keyword, in table order.
pub fn keyword_completion_entries() -> (r: Vec<CompletionEntry>)
    ensures
        r@.len() == spec_prsm_keywords().len(),
        forall|i: int| 0 <= i < r@.len() ==> spec_is_keyword_entry(#[trigger] r@[i], spec_prsm_keywords()[i]),
{
    let keywords: Vec<&str> = vec!["component", "asset", "class", "data", "enum", "serialize", "require", "optional", "child", "parent", "val", "var", "func", "coroutine", "override", "return", "if", "else", "when", "for", "while", "in", "until", "break", "continue", "wait", "start", "stop", "stopAll", "listen", "intrinsic", "using", "null", "this", "true", "false", "awake", "update", "fixedUpdate", "lateUpdate", "onEnable", "onDisable", "onDestroy", "onTriggerEnter", "onTriggerExit", "onCollisionEnter", "onCollisionExit", "nextFrame", "fixedFrame", "public", "private", "protected"];
    proof {
        assert(keywords@.map_values(|k: &str| k@) =~= spec_prsm_keywords());
    }
    let mut entries: Vec<CompletionEntry> = Vec::new();
    let mut i: usize = 0;
    while i < keywords.len()
        invariant
            i <= keywords@.len(),
            keywords@.map_values(|k: &str| k@) == spec_prsm_keywords(),
            entries@.len() == i,
            forall|j: int| 0 <= j < i ==> spec_is_keyword_entry(#[trigger] entries@[j], spec_prsm_keywords()[j]),
        decreases keywords@.len() - i,
    {
        proof {
            assert(keywords@.map_values(|k: &str| k@)[i as int] == keywords@[i as int]@);
        }
        entries.push(CompletionEntry {
            label: owned(keywords[i]),
            kind: CompletionEntryKind::Keyword,
            detail: owned("Keyword (prsm)"),
            documentation: None,
            insert_text: None,
            sort_group: 2,
        });
        i = i + 1;
    }
    entries
}

/// A primitive type entry: the type name, in the primitive group.
pub open spec fn spec_is_primitive_entry(e: CompletionEntry, name: Seq<char>) -> bool {
    &&& e.label@ == name
    &&& e.kind == CompletionEntryKind::TypeParameter
    &&& e.detail@ == "Primitive (prsm)"@
    &&& e.documentation is None
    &&& e.insert_text is None
    &&& e.sort_group == 3
}

/// One entry per PrSM primitive type, in table order.
pub fn primitive_type_completion_entries() -> (r: Vec<CompletionEntry>)
    ensures
        r@.len() == spec_primitive_type_names().len(),
        forall|i: int| 0 <= i < r@.len() ==> spec_is_primitive_entry(#[trigger] r@[i], spec_primitive_type_names()[i]),
{
    let names: Vec<&str> = vec!["Int", "Float", "Double", "Bool", "String", "Long", "Byte", "Unit"];
    proof {
        assert(names@.map_values(|k: &str| k@) =~= spec_primitive_type_names());
    }
    let mut entries: Vec<CompletionEntry> = Vec::new();
    let mut i: usize = 0;
    while i < names.len()
        invariant
            i <= names@.len(),
            names@.map_values(|k: &str| k@) == spec_primitive_type_names(),
            entries@.len() == i,
            forall|j: int| 0 <= j < i ==> spec_is_primitive_entry(#[trigger] entries@[j], spec_primitive_type_names()[j]),
        decreases names@.len() - i,
    {
        proof {
            assert(names@.map_values(|k: &str| k@)[i as int] == names@[i as int]@);
        }
        entries.push(CompletionEntry {
            label: owned(names[i]),
            kind: CompletionEntryKind::TypeParameter,
            detail: owned("Primitive (prsm)"),
            documentation: None,
            insert_text: None,
            sort_group: 3,
        });
        i = i + 1;
    }
    entries
}

/// A builtin function: its name, signature, description, and whether only PrSM has it.
pub struct BuiltinCompletion {
    pub name: &'static str,
    pub signature: &'static str,
    pub description: &'static str,
    pub prsm_only: bool,
}

/// The builtin functions offered in a general completion, as (name, signature,
/// description, PrSM-only).
pub open spec fn spec_prsm_builtins() -> Seq<(Seq<char>, Seq<char>, Seq<char>, bool)> {
    seq![("vec2"@, "(x, y)"@, "Create Vector2"@, true), ("vec3"@, "(x, y, z)"@, "Create Vector3"@, true), ("color"@, "(r, g, b, a)"@, "Create Color"@, true), ("get"@, "<T>()"@, "GetComponent<T>()"@, true), ("find"@, "<T>()"@, "FindFirstObjectByType<T>()"@, true), ("Destroy"@, "(obj)"@, "Destroy object"@, false), ("print"@, "(message, level?)"@, "Debug.Log / LogWarning / LogError"@, true), ("log"@, "(message)"@, "Debug.Log(message)"@, true), ("warn"@, "(message)"@, "Debug.LogWarning(message)"@, true), ("error"@, "(message)"@, "Debug.LogError(message)"@, true)]
}

/// The builtin functions offered in a general completion.
pub fn prsm_builtins() -> (r: Vec<BuiltinCompletion>)
    ensures
        r@.map_values(|b: BuiltinCompletion| (b.name@, b.signature@, b.description@, b.prsm_only)) == spec_prsm_builtins(),
{
    let r = vec![
        BuiltinCompletion { name: "vec2", signature: "(x, y)", description: "Create Vector2", prsm_only: true },
        BuiltinCompletion { name: "vec3", signature: "(x, y, z)", description: "Create Vector3", prsm_only: true },
        BuiltinCompletion { name: "color", signature: "(r, g, b, a)", description: "Create Color", prsm_only: true },
        BuiltinCompletion { name: "get", signature: "<T>()", description: "GetComponent<T>()", prsm_only: true },
        BuiltinCompletion { name: "find", signature: "<T>()", description: "FindFirstObjectByType<T>()", prsm_only: true },
        BuiltinCompletion { name: "Destroy", signature: "(obj)", description: "Destroy object", prsm_only: false },
        BuiltinCompletion { name: "print", signature: "(message, level?)", description: "Debug.Log / LogWarning / LogError", prsm_only: true },
        BuiltinCompletion { name: "log", signature: "(message)", description: "Debug.Log(message)", prsm_only: true },
        BuiltinCompletion { name: "warn", signature: "(message)", description: "Debug.LogWarning(message)", prsm_only: true },
        BuiltinCompletion { name: "error", signature: "(message)", description: "Debug.LogError(message)", prsm_only: true },
    ];
    proof {
        assert(r@.map_values(|b: BuiltinCompletion| (b.name@, b.signature@, b.description@, b.prsm_only)) =~= spec_prsm_builtins());
    }
    r
}

/// A builtin entry: the name as a function, documented with its signature and description,
/// inserting its snippet, in the builtin group.
pub open spec fn spec_is_builtin_entry(e: CompletionEntry, b: (Seq<char>, Seq<char>, Seq<char>, bool)) -> bool {
    &&& e.label@ == b.0
    &&& e.kind == CompletionEntryKind::Function
    &&& e.detail@ == (if b.3 { "Builtin (prsm)"@ } else { "Builtin"@ })
    &&& e.documentation matches Some(d) && d@ == "```prsm\n"@ + b.0 + b.1 + "\n```\n\n"@ + b.2
    &&& e.insert_text matches Some(t) && t@ == spec_builtin_snippet(b.0, b.1)
    &&& e.sort_group == 1
}

/// One entry per builtin function, in table order.
pub fn builtin_completion_entries() -> (r: Vec<CompletionEntry>)
    ensures
        r@.len() == spec_prsm_builtins().len(),
        forall|i: int| 0 <= i < r@.len() ==> spec_is_builtin_entry(#[trigger] r@[i], spec_prsm_builtins()[i]),
{
    let builtins = prsm_builtins();
    let ghost views = builtins@.map_values(|b: BuiltinCompletion| (b.name@, b.signature@, b.description@, b.prsm_only));
    let mut entries: Vec<CompletionEntry> = Vec::new();
    let mut i: usize = 0;
    while i < builtins.len()
        invariant
            i <= builtins@.len(),
            views == builtins@.map_values(|b: BuiltinCompletion| (b.name@, b.signature@, b.description@, b.prsm_only)),
            views == spec_prsm_builtins(),
            entries@.len() == i,
            forall|j: int| 0 <= j < i ==> spec_is_builtin_entry(#[trigger] entries@[j], spec_prsm_builtins()[j]),
        decreases builtins@.len() - i,
    {
        let b = &builtins[i];
        proof {
            assert(views[i as int] == (b.name@, b.signature@, b.description@, b.prsm_only));
        }
        let detail = if b.prsm_only { owned("Builtin (prsm)") } else { owned("Builtin") };
        let mut doc = cat3("```prsm\n", b.name, b.signature);
        doc.append("\n```\n\n");
        doc.append(b.description);
        entries.push(CompletionEntry {
            label: owned(b.name),
            kind: CompletionEntryKind::Function,
            detail,
            documentation: Some(doc),
            insert_text: Some(builtin_snippet(b.name, b.signature)),
            sort_group: 1,
        });
        i = i + 1;
    }
    entries
}

} // verus!
