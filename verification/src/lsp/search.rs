//! Workspace symbol search: the indexed symbols that match a query, best match first.
use vstd::prelude::*;

use crate::lsp::members::spec_names;
use crate::lsp::names::{ascii_lowercase, spec_ascii_lowercase, spec_workspace_symbol_score, workspace_symbol_score};
use crate::project::{last_segment_start, spec_last_segment};
use crate::project_graph::{
    lemma_path_less_total, lemma_path_less_transitive, path_less, spec_path_less,
};
use crate::text::{
    lemma_text_less_total, lemma_text_less_transitive, owned, spec_text_less, spec_trim,
    str_eq, string_from_chars, text_less, trim_text, chars_of,
};
use crate::token::Span;

verus! {

/// A symbol of the project index: its name, qualified name, the declaration that contains
/// it (none for a top-level declaration), its kind as symbol listings name it
/// (`component`, `field`, ...), its signature text, its file and its source range.
pub struct IndexedSymbol {
    pub name: String,
    pub qualified_name: String,
    pub container_name: Option<String>,
    pub kind: String,
    pub signature: String,
    pub file_path: String,
    pub span: Span,
}

/// The query as symbols are matched against it: trimmed, in ASCII lower case.
pub open spec fn spec_symbol_query(query: Seq<char>) -> Seq<char> {
    spec_ascii_lowercase(spec_trim(query))
}

/// How well symbol `s` matches the (normalized) query, if at all.
pub open spec fn spec_symbol_score(s: IndexedSymbol, q: Seq<char>) -> Option<u8> {
    spec_workspace_symbol_score(s.name@, s.qualified_name@, s.signature@, q)
}

/// Symbol order of the index: by file, then start line, then start column, then
/// qualified name.
pub open spec fn spec_symbol_order_less(a: IndexedSymbol, b: IndexedSymbol) -> bool {
    ||| spec_path_less(a.file_path@, b.file_path@)
    ||| (a.file_path@ == b.file_path@ && a.span.start.line < b.span.start.line)
    ||| (a.file_path@ == b.file_path@ && a.span.start.line == b.span.start.line && a.span.start.col < b.span.start.col)
    ||| (a.file_path@ == b.file_path@ && a.span.start.line == b.span.start.line && a.span.start.col == b.span.start.col
        && spec_text_less(a.qualified_name@, b.qualified_name@))
}

/// Symbols `a` and `b` tie in symbol order.
pub open spec fn spec_symbol_order_ties(a: IndexedSymbol, b: IndexedSymbol) -> bool {
    a.file_path@ == b.file_path@ && a.span.start.line == b.span.start.line && a.span.start.col == b.span.start.col
        && a.qualified_name@ == b.qualified_name@
}

/// Result `a` (an index into `symbols`) is listed before result `b`: a better score, then
/// symbol order, then (for ties) the index order.
pub open spec fn spec_result_before(symbols: Seq<IndexedSymbol>, q: Seq<char>, a: int, b: int) -> bool {
    let sa = spec_symbol_score(symbols[a], q)->0;
    let sb = spec_symbol_score(symbols[b], q)->0;
    ||| sa < sb
    ||| (sa == sb && spec_symbol_order_less(symbols[a], symbols[b]))
    ||| (sa == sb && spec_symbol_order_ties(symbols[a], symbols[b]) && a < b)
}

/// The indices of the first `n` symbols that match the query, in index order.
pub open spec fn spec_scored_upto(symbols: Seq<IndexedSymbol>, q: Seq<char>, n: int) -> Seq<int>
    decreases n,
{
    if n <= 0 {
        Seq::empty()
    } else {
        let before = spec_scored_upto(symbols, q, n - 1);
        if spec_symbol_score(symbols[n - 1], q) is Some {
            before.push(n - 1)
        } else {
            before
        }
    }
}

/// The indices of the symbols that match the query.
pub open spec fn spec_scored(symbols: Seq<IndexedSymbol>, q: Seq<char>) -> Seq<int> {
    spec_scored_upto(symbols, q, symbols.len() as int)
}

/// A search answers at most this many symbols.
pub open spec fn spec_symbol_limit() -> int {
    200
}

/// `ranked` lists the best matching symbols: strictly in result order, drawn from the
/// matching ones, as many as the limit allows, and no left-out match comes before a
/// listed one.
pub open spec fn spec_is_symbol_ranking(symbols: Seq<IndexedSymbol>, query: Seq<char>, ranked: Seq<int>) -> bool {
    let q = spec_symbol_query(query);
    let scored = spec_scored(symbols, q);
    &&& forall|i: int, j: int| 0 <= i < j < ranked.len() ==> spec_result_before(symbols, q, ranked[i], ranked[j])
    &&& forall|i: int| 0 <= i < ranked.len() ==> #[trigger] scored.contains(ranked[i])
    &&& ranked.len() == if scored.len() < spec_symbol_limit() { scored.len() as int } else { spec_symbol_limit() }
    &&& forall|m: int, i: int| #![trigger scored.contains(m), ranked[i]]
        scored.contains(m) && !ranked.contains(m) && 0 <= i < ranked.len() ==> spec_result_before(symbols, q, ranked[i], m)
}

proof fn lemma_scored_upto(symbols: Seq<IndexedSymbol>, q: Seq<char>, n: int)
    requires
        0 <= n <= symbols.len(),
    ensures
        forall|k: int| 0 <= k < spec_scored_upto(symbols, q, n).len() ==> {
            let x = #[trigger] spec_scored_upto(symbols, q, n)[k];
            0 <= x < n && spec_symbol_score(symbols[x], q) is Some
        },
        forall|a: int, b: int| 0 <= a < b < spec_scored_upto(symbols, q, n).len()
            ==> spec_scored_upto(symbols, q, n)[a] < spec_scored_upto(symbols, q, n)[b],
    decreases n,
{
    if n > 0 {
        lemma_scored_upto(symbols, q, n - 1);
    }
}

proof fn lemma_result_before_total(symbols: Seq<IndexedSymbol>, q: Seq<char>, a: int, b: int)
    requires
        a != b,
    ensures
        spec_result_before(symbols, q, a, b) || spec_result_before(symbols, q, b, a),
        !(spec_result_before(symbols, q, a, b) && spec_result_before(symbols, q, b, a)),
{
    let (x, y) = (symbols[a], symbols[b]);
    lemma_path_less_total(x.file_path@, y.file_path@);
    lemma_text_less_total(x.qualified_name@, y.qualified_name@);
}

proof fn lemma_result_before_transitive(symbols: Seq<IndexedSymbol>, q: Seq<char>, a: int, b: int, c: int)
    requires
        spec_result_before(symbols, q, a, b),
        spec_result_before(symbols, q, b, c),
    ensures
        spec_result_before(symbols, q, a, c),
{
    let (x, y, z) = (symbols[a], symbols[b], symbols[c]);
    if spec_path_less(x.file_path@, y.file_path@) && spec_path_less(y.file_path@, z.file_path@) {
        lemma_path_less_transitive(x.file_path@, y.file_path@, z.file_path@);
    }
    if spec_text_less(x.qualified_name@, y.qualified_name@) && spec_text_less(y.qualified_name@, z.qualified_name@) {
        lemma_text_less_transitive(x.qualified_name@, y.qualified_name@, z.qualified_name@);
    }
}

/// Whether result `a` is listed before result `b`, given their scores.
fn result_before(symbols: &Vec<IndexedSymbol>, a: usize, sa: u8, b: usize, sb: u8) -> (r: bool)
    requires
        a < symbols@.len(),
        b < symbols@.len(),
    ensures
        r == {
            ||| sa < sb
            ||| (sa == sb && spec_symbol_order_less(symbols@[a as int], symbols@[b as int]))
            ||| (sa == sb && spec_symbol_order_ties(symbols@[a as int], symbols@[b as int]) && a < b)
        },
{
    if sa != sb {
        return sa < sb;
    }
    let x = &symbols[a];
    let y = &symbols[b];
    if path_less(x.file_path.as_str(), y.file_path.as_str()) {
        return true;
    }
    if !str_eq(x.file_path.as_str(), y.file_path.as_str()) {
        return false;
    }
    if x.span.start.line != y.span.start.line {
        return x.span.start.line < y.span.start.line;
    }
    if x.span.start.col != y.span.start.col {
        return x.span.start.col < y.span.start.col;
    }
    if text_less(x.qualified_name.as_str(), y.qualified_name.as_str()) {
        return true;
    }
    str_eq(x.qualified_name.as_str(), y.qualified_name.as_str()) && a < b
}

/// Where a result goes among the placed ones: after those listed before it, before the
/// rest.
proof fn lemma_place_result(symbols: Seq<IndexedSymbol>, q: Seq<char>, before: Seq<usize>, m: usize, pos: int)
    requires
        0 <= pos <= before.len(),
        forall|x: int| 0 <= x < before.len() ==> #[trigger] before[x] != m,
        forall|a: int, b: int| 0 <= a < b < before.len()
            ==> spec_result_before(symbols, q, before[a] as int, before[b] as int),
        pos < before.len() ==> !spec_result_before(symbols, q, before[pos] as int, m as int),
    ensures
        forall|x: int| pos <= x < before.len() ==> spec_result_before(symbols, q, m as int, #[trigger] before[x] as int),
{
    if pos < before.len() {
        lemma_result_before_total(symbols, q, before[pos] as int, m as int);
        assert forall|x: int| pos <= x < before.len() implies spec_result_before(symbols, q, m as int, #[trigger] before[x] as int) by {
            if x > pos {
                lemma_result_before_transitive(symbols, q, m as int, before[pos] as int, before[x] as int);
            }
        }
    }
}

/// Inserting a result at its place keeps the listing strictly ordered.
proof fn lemma_result_insert(symbols: Seq<IndexedSymbol>, q: Seq<char>, before: Seq<usize>, pos: int, m: usize)
    requires
        0 <= pos <= before.len(),
        forall|a: int, b: int| 0 <= a < b < before.len()
            ==> spec_result_before(symbols, q, before[a] as int, before[b] as int),
        forall|x: int| 0 <= x < pos ==> spec_result_before(symbols, q, #[trigger] before[x] as int, m as int),
        forall|x: int| pos <= x < before.len() ==> spec_result_before(symbols, q, m as int, #[trigger] before[x] as int),
    ensures
        forall|a: int, b: int| 0 <= a < b < before.insert(pos, m).len()
            ==> spec_result_before(symbols, q, before.insert(pos, m)[a] as int, before.insert(pos, m)[b] as int),
{
    let after = before.insert(pos, m);
    assert forall|a: int, b: int| 0 <= a < b < after.len() implies
        spec_result_before(symbols, q, after[a] as int, after[b] as int) by {
        if a < pos && b > pos {
            lemma_result_before_transitive(symbols, q, before[a] as int, m as int, before[b - 1] as int);
        } else if a < pos && b < pos {
        } else if a == pos {
            assert(after[b] == before[b - 1]);
        } else if b == pos {
            assert(after[a] == before[a]);
        } else {
            assert(after[a] == before[a - 1] && after[b] == before[b - 1]);
        }
    }
}

/// The symbols that match `q` (normalized), in index order, with their scores.
fn scored_symbols(symbols: &Vec<IndexedSymbol>, q: &str) -> (r: (Vec<usize>, Vec<u8>))
    ensures
        r.0@.len() == r.1@.len(),
        r.0@.map_values(|k: usize| k as int) == spec_scored(symbols@, q@),
        forall|k: int| 0 <= k < r.0@.len() ==> #[trigger] r.0@[k] < symbols@.len()
            && spec_symbol_score(symbols@[r.0@[k] as int], q@) == Some(r.1@[k]),
        forall|a: int, b: int| 0 <= a < b < r.0@.len() ==> r.0@[a] < r.0@[b],
{
    let mut cands: Vec<usize> = Vec::new();
    let mut scores: Vec<u8> = Vec::new();
    let mut i: usize = 0;
    while i < symbols.len()
        invariant
            i <= symbols@.len(),
            cands@.len() == scores@.len(),
            cands@.map_values(|k: usize| k as int) == spec_scored_upto(symbols@, q@, i as int),
            forall|k: int| 0 <= k < cands@.len() ==> #[trigger] cands@[k] < i
                && spec_symbol_score(symbols@[cands@[k] as int], q@) == Some(scores@[k]),
            forall|a: int, b: int| 0 <= a < b < cands@.len() ==> cands@[a] < cands@[b],
        decreases symbols@.len() - i,
    {
        let s = &symbols[i];
        match workspace_symbol_score(s.name.as_str(), s.qualified_name.as_str(), s.signature.as_str(), q) {
            Some(score) => {
                let ghost prev = cands@;
                cands.push(i);
                scores.push(score);
                proof {
                    assert(cands@.map_values(|k: usize| k as int) =~= prev.map_values(|k: usize| k as int).push(i as int));
                }
            },
            None => {},
        }
        i = i + 1;
    }
    (cands, scores)
}

/// The results of `cands` (matching symbols in index order, with their scores) in result
/// order.
#[verifier::rlimit(40)]
fn sort_results(symbols: &Vec<IndexedSymbol>, q: &str, cands: &Vec<usize>, scores: &Vec<u8>) -> (r: Vec<usize>)
    requires
        cands@.len() == scores@.len(),
        forall|k: int| 0 <= k < cands@.len() ==> #[trigger] cands@[k] < symbols@.len()
            && spec_symbol_score(symbols@[cands@[k] as int], q@) == Some(scores@[k]),
        forall|a: int, b: int| 0 <= a < b < cands@.len() ==> cands@[a] < cands@[b],
    ensures
        r@.len() == cands@.len(),
        forall|x: int| 0 <= x < r@.len() ==> #[trigger] r@[x] < symbols@.len(),
        forall|x: int| 0 <= x < r@.len() ==> #[trigger] cands@.contains(r@[x]),
        forall|k: int| 0 <= k < cands@.len() ==> #[trigger] r@.contains(cands@[k]),
        forall|a: int, b: int| 0 <= a < b < r@.len() ==> spec_result_before(symbols@, q@, r@[a] as int, r@[b] as int),
{
    let mut sorted: Vec<usize> = Vec::new();
    let mut sorted_scores: Vec<u8> = Vec::new();
    let ghost mut from: Seq<int> = Seq::empty();
    let ghost mut at: Seq<int> = Seq::empty();
    let mut j: usize = 0;
    while j < cands.len()
        invariant
            j <= cands@.len(),
            cands@.len() == scores@.len(),
            forall|k: int| 0 <= k < cands@.len() ==> #[trigger] cands@[k] < symbols@.len()
                && spec_symbol_score(symbols@[cands@[k] as int], q@) == Some(scores@[k]),
            forall|a: int, b: int| 0 <= a < b < cands@.len() ==> cands@[a] < cands@[b],
            sorted@.len() == j,
            sorted_scores@.len() == j,
            from.len() == j,
            at.len() == j,
            forall|x: int| 0 <= x < j ==> #[trigger] sorted@[x] < symbols@.len(),
            forall|x: int| 0 <= x < j ==> 0 <= #[trigger] from[x] < j && cands@[from[x]] == sorted@[x]
                && sorted_scores@[x] == scores@[from[x]],
            forall|k: int| 0 <= k < j ==> 0 <= #[trigger] at[k] < j && sorted@[at[k]] == cands@[k],
            forall|a: int, b: int| 0 <= a < b < sorted@.len()
                ==> spec_result_before(symbols@, q@, sorted@[a] as int, sorted@[b] as int),
        decreases cands@.len() - j,
    {
        let m = cands[j];
        let sm = scores[j];
        let mut pos: usize = 0;
        while pos < sorted.len() && result_before(symbols, sorted[pos], sorted_scores[pos], m, sm)
            invariant
                pos <= sorted@.len(),
                j < cands@.len(),
                m == cands@[j as int],
                sm == scores@[j as int],
                sorted@.len() == sorted_scores@.len(),
                sorted@.len() == j,
                from.len() == j,
                forall|x: int| 0 <= x < j ==> #[trigger] sorted@[x] < symbols@.len(),
                forall|k: int| 0 <= k < cands@.len() ==> #[trigger] cands@[k] < symbols@.len()
                    && spec_symbol_score(symbols@[cands@[k] as int], q@) == Some(scores@[k]),
                forall|x: int| 0 <= x < j ==> 0 <= #[trigger] from[x] < j && cands@[from[x]] == sorted@[x]
                    && sorted_scores@[x] == scores@[from[x]],
                forall|x: int| 0 <= x < pos ==> spec_result_before(symbols@, q@, #[trigger] sorted@[x] as int, m as int),
            decreases sorted@.len() - pos,
        {
            proof {
                assert(cands@[from[pos as int]] == sorted@[pos as int]);
            }
            pos = pos + 1;
        }
        let ghost before = sorted@;
        proof {
            assert forall|x: int| 0 <= x < before.len() implies #[trigger] before[x] != m by {
                assert(cands@[from[x]] == before[x]);
                assert(cands@[from[x]] < cands@[j as int]);
            }
            if pos < before.len() {
                assert(cands@[from[pos as int]] == before[pos as int]);
            }
            lemma_place_result(symbols@, q@, before, m, pos as int);
            lemma_result_insert(symbols@, q@, before, pos as int, m);
        }
        let ghost before_scores = sorted_scores@;
        sorted.insert(pos, m);
        sorted_scores.insert(pos, sm);
        proof {
            let new_from = from.insert(pos as int, j as int);
            let new_at = at.map_values(|a: int| if a >= pos { a + 1 } else { a }).push(pos as int);
            assert forall|x: int| 0 <= x < j + 1 implies 0 <= #[trigger] new_from[x] < j + 1
                && cands@[new_from[x]] == sorted@[x] && sorted_scores@[x] == scores@[new_from[x]] by {
                if x < pos {
                    assert(sorted@[x] == before[x] && new_from[x] == from[x] && sorted_scores@[x] == before_scores[x]);
                } else if x > pos {
                    assert(sorted@[x] == before[x - 1] && new_from[x] == from[x - 1] && sorted_scores@[x] == before_scores[x - 1]);
                }
            }
            assert forall|x: int| 0 <= x < j + 1 implies #[trigger] sorted@[x] < symbols@.len() by {
                if x < pos {
                    assert(sorted@[x] == before[x]);
                } else if x > pos {
                    assert(sorted@[x] == before[x - 1]);
                }
            }
            assert forall|k: int| 0 <= k < j + 1 implies 0 <= #[trigger] new_at[k] < j + 1 && sorted@[new_at[k]] == cands@[k] by {
                if k < j {
                    let a = at[k];
                    if a >= pos {
                        assert(sorted@[a + 1] == before[a]);
                    } else {
                        assert(sorted@[a] == before[a]);
                    }
                }
            }
            from = new_from;
            at = new_at;
        }
        j = j + 1;
    }
    proof {
        assert forall|x: int| 0 <= x < sorted@.len() implies #[trigger] cands@.contains(sorted@[x]) by {
            assert(cands@[from[x]] == sorted@[x]);
        }
        assert forall|k: int| 0 <= k < cands@.len() implies #[trigger] sorted@.contains(cands@[k]) by {
            assert(sorted@[at[k]] == cands@[k]);
        }
        assert forall|x: int| 0 <= x < sorted@.len() implies #[trigger] sorted@[x] < symbols@.len() by {
            assert(cands@[from[x]] == sorted@[x]);
        }
    }
    sorted
}

/// The symbols that match `query`, best first, at most the limit (see
/// `spec_is_symbol_ranking`): indices into `symbols`.
pub fn rank_workspace_symbols(symbols: &Vec<IndexedSymbol>, query: &str) -> (r: Vec<usize>)
    ensures
        spec_is_symbol_ranking(symbols@, query@, r@.map_values(|i: usize| i as int)),
        forall|i: int| 0 <= i < r@.len() ==> #[trigger] r@[i] < symbols@.len(),
{
    let q = ascii_lowercase(trim_text(&owned(query)).as_str());
    let ghost qs = spec_symbol_query(query@);
    let (cands, scores) = scored_symbols(symbols, q.as_str());
    let ghost scored = spec_scored(symbols@, qs);
    let sorted = sort_results(symbols, q.as_str(), &cands, &scores);
    let limit: usize = if sorted.len() < 200 { sorted.len() } else { 200 };
    let mut ranked: Vec<usize> = Vec::new();
    let mut k: usize = 0;
    while k < limit
        invariant
            k <= limit <= sorted@.len(),
            ranked@ == sorted@.take(k as int),
        decreases limit - k,
    {
        ranked.push(sorted[k]);
        proof {
            assert(ranked@ =~= sorted@.take(k + 1));
        }
        k = k + 1;
    }
    proof {
        let rv = ranked@.map_values(|i: usize| i as int);
        assert forall|x: int| 0 <= x < rv.len() implies #[trigger] scored.contains(rv[x]) by {
            assert(cands@.contains(sorted@[x]));
            let c = choose|c: int| 0 <= c < cands@.len() && cands@[c] == sorted@[x];
            assert(scored[c] == cands@[c] as int);
        }
        assert forall|m: int, x: int| #![trigger scored.contains(m), rv[x]]
            scored.contains(m) && !rv.contains(m) && 0 <= x < rv.len()
            implies spec_result_before(symbols@, qs, rv[x], m) by {
            let c = choose|c: int| 0 <= c < scored.len() && scored[c] == m;
            assert(cands@[c] as int == m);
            assert(sorted@.contains(cands@[c]));
            let y = choose|y: int| 0 <= y < sorted@.len() && sorted@[y] == cands@[c];
            if y < limit {
                assert(rv[y] == m);
            }
            assert(y >= limit);
        }
    }
    ranked
}


// ── Container shown beside a workspace symbol ────────────────────

/// The file name of a path: its last segment, unless that is empty or `..`.
pub open spec fn spec_file_name(path: Seq<char>) -> Option<Seq<char>> {
    let name = spec_last_segment(path);
    if name.len() == 0 || name == ".."@ { None } else { Some(name) }
}

/// What a workspace symbol is listed under: its container, else the name of its file.
pub open spec fn spec_container_label(s: IndexedSymbol, file_path: Seq<char>) -> Option<Seq<char>> {
    match s.container_name {
        Some(c) => Some(c@),
        None => spec_file_name(file_path),
    }
}

/// What a workspace symbol is listed under (see `spec_container_label`).
pub fn workspace_symbol_container_name(symbol: &IndexedSymbol, file_path: &str) -> (r: Option<String>)
    ensures
        match r {
            Some(t) => spec_container_label(*symbol, file_path@) == Some(t@),
            None => spec_container_label(*symbol, file_path@) is None,
        },
{
    if let Some(c) = &symbol.container_name {
        return Some(owned(c.as_str()));
    }
    let chars = chars_of(file_path);
    let n = chars.len();
    let start = last_segment_start(&chars);
    proof {
        reveal_strlit("..");
    }
    if start == n {
        return None;
    }
    if n - start == 2 && chars[start] == '.' && chars[start + 1] == '.' {
        proof {
            assert(chars@.subrange(start as int, n as int) =~= ".."@);
        }
        return None;
    }
    let name = string_from_chars(&chars, start, n);
    proof {
        if name@ == ".."@ {
            assert(name@.len() == 2 && name@[0] == '.' && name@[1] == '.');
        }
    }
    Some(name)
}


// ── Document symbols ─────────────────────────────────────────────

/// The indices below `n` that satisfy `pred`, in increasing order.
pub open spec fn spec_select(n: int, pred: spec_fn(int) -> bool) -> Seq<int>
    decreases n,
{
    if n <= 0 {
        Seq::empty()
    } else if pred(n - 1) {
        spec_select(n - 1, pred).push(n - 1)
    } else {
        spec_select(n - 1, pred)
    }
}

/// Every index that `spec_select` keeps lies below `n`.
pub proof fn lemma_select_bounds(n: int, pred: spec_fn(int) -> bool)
    ensures
        forall|k: int| 0 <= k < spec_select(n, pred).len() ==> 0 <= #[trigger] spec_select(n, pred)[k] < n,
    decreases n,
{
    if n > 0 {
        lemma_select_bounds(n - 1, pred);
        let prev = spec_select(n - 1, pred);
        assert forall|k: int| 0 <= k < spec_select(n, pred).len() implies 0 <= #[trigger] spec_select(n, pred)[k] < n by {
            if k < prev.len() {
                assert(spec_select(n, pred)[k] == prev[k]);
            }
        }
    }
}

/// Symbol `i`, whose file is `paths[i]`, is a top-level symbol of the file at `path`.
pub open spec fn spec_is_top_at(symbols: Seq<IndexedSymbol>, paths: Seq<Seq<char>>, path: Seq<char>, i: int) -> bool {
    paths[i] == path && symbols[i].container_name is None
}

/// Symbol `i`, whose file is `paths[i]`, is a symbol of the file at `path` contained in the
/// declaration named `parent`.
pub open spec fn spec_is_child_at(symbols: Seq<IndexedSymbol>, paths: Seq<Seq<char>>, path: Seq<char>, parent: Seq<char>, i: int) -> bool {
    paths[i] == path && (symbols[i].container_name matches Some(c) && c@ == parent)
}

/// The indices below the symbols' count of the top-level symbols of the file at `path`.
pub open spec fn spec_tops_at(symbols: Seq<IndexedSymbol>, paths: Seq<Seq<char>>, path: Seq<char>) -> Seq<int> {
    spec_select(symbols.len() as int, |i: int| spec_is_top_at(symbols, paths, path, i))
}

/// The indices of the symbols of the file at `path` contained in the declaration `parent`.
pub open spec fn spec_children_at(symbols: Seq<IndexedSymbol>, paths: Seq<Seq<char>>, path: Seq<char>, parent: Seq<char>) -> Seq<int> {
    spec_select(symbols.len() as int, |i: int| spec_is_child_at(symbols, paths, path, parent, i))
}

/// Indices as integers.
pub open spec fn spec_indices(v: Seq<usize>) -> Seq<int> {
    v.map_values(|x: usize| x as int)
}

/// The outline of the file at `path`, symbol `i` being in file `paths[i]`: each top-level
/// symbol, in index order, with the symbols of the file that it contains, in index order.
pub open spec fn spec_is_outline_at(
    symbols: Seq<IndexedSymbol>,
    paths: Seq<Seq<char>>,
    path: Seq<char>,
    r: Seq<(usize, Vec<usize>)>,
) -> bool {
    let tops = spec_tops_at(symbols, paths, path);
    &&& r.len() == tops.len()
    &&& forall|k: int| #![trigger r[k]] 0 <= k < r.len() ==> {
        &&& r[k].0 as int == tops[k]
        &&& spec_indices(r[k].1@) == spec_children_at(symbols, paths, path, symbols[tops[k]].qualified_name@)
    }
}

/// The files of the symbols, as the index records them.
pub open spec fn spec_symbol_paths(symbols: Seq<IndexedSymbol>) -> Seq<Seq<char>> {
    symbols.map_values(|s: IndexedSymbol| s.file_path@)
}

/// The outline of the file at `path`: each top-level symbol, in index order, with the
/// symbols of the file that it contains, in index order.
pub open spec fn spec_is_outline(symbols: Seq<IndexedSymbol>, path: Seq<char>, r: Seq<(usize, Vec<usize>)>) -> bool {
    spec_is_outline_at(symbols, spec_symbol_paths(symbols), path, r)
}

fn child_symbols_at(symbols: &Vec<IndexedSymbol>, paths: &Vec<String>, path: &str, parent: &str) -> (r: Vec<usize>)
    requires
        paths@.len() == symbols@.len(),
    ensures
        spec_indices(r@) == spec_children_at(symbols@, spec_names(paths@), path@, parent@),
{
    let ghost pred = |i: int| spec_is_child_at(symbols@, spec_names(paths@), path@, parent@, i);
    let mut out: Vec<usize> = Vec::new();
    let mut i: usize = 0;
    while i < symbols.len()
        invariant
            i <= symbols@.len(),
            paths@.len() == symbols@.len(),
            pred == (|i: int| spec_is_child_at(symbols@, spec_names(paths@), path@, parent@, i)),
            spec_indices(out@) == spec_select(i as int, pred),
        decreases symbols@.len() - i,
    {
        let s = &symbols[i];
        let is_child = str_eq(paths[i].as_str(), path) && match &s.container_name {
            Some(c) => str_eq(c.as_str(), parent),
            None => false,
        };
        let ghost prev = out@;
        if is_child {
            out.push(i);
            proof {
                assert(spec_indices(out@) =~= spec_indices(prev).push(i as int));
            }
        }
        i = i + 1;
    }
    out
}

/// The outline of the file at `path`, symbol `i` being in file `paths[i]` (see
/// `spec_is_outline_at`).
pub(crate) fn outline_at(symbols: &Vec<IndexedSymbol>, paths: &Vec<String>, path: &str) -> (r: Vec<(usize, Vec<usize>)>)
    requires
        paths@.len() == symbols@.len(),
    ensures
        spec_is_outline_at(symbols@, spec_names(paths@), path@, r@),
{
    let ghost ps = spec_names(paths@);
    let ghost pred = |i: int| spec_is_top_at(symbols@, ps, path@, i);
    let mut out: Vec<(usize, Vec<usize>)> = Vec::new();
    let ghost mut tops: Seq<int> = Seq::empty();
    let mut i: usize = 0;
    while i < symbols.len()
        invariant
            i <= symbols@.len(),
            paths@.len() == symbols@.len(),
            ps == spec_names(paths@),
            pred == (|i: int| spec_is_top_at(symbols@, ps, path@, i)),
            tops == spec_select(i as int, pred),
            out@.len() == tops.len(),
            forall|k: int| #![trigger out@[k]] 0 <= k < out@.len() ==> {
                &&& out@[k].0 as int == tops[k]
                &&& spec_indices(out@[k].1@) == spec_children_at(symbols@, ps, path@, symbols@[tops[k]].qualified_name@)
            },
        decreases symbols@.len() - i,
    {
        let s = &symbols[i];
        if str_eq(paths[i].as_str(), path) && s.container_name.is_none() {
            let children = child_symbols_at(symbols, paths, path, s.qualified_name.as_str());
            out.push((i, children));
            proof {
                tops = tops.push(i as int);
            }
        }
        i = i + 1;
    }
    out
}

/// The outline of the file at `path` from the index's symbols (see `spec_is_outline`):
/// each top-level symbol with the symbols it contains, by index.
pub fn document_symbol_tree(symbols: &Vec<IndexedSymbol>, path: &str) -> (r: Vec<(usize, Vec<usize>)>)
    ensures
        spec_is_outline(symbols@, path@, r@),
{
    let mut paths: Vec<String> = Vec::new();
    let mut i: usize = 0;
    while i < symbols.len()
        invariant
            i <= symbols@.len(),
            paths@.len() == i,
            forall|k: int| 0 <= k < i ==> #[trigger] paths@[k]@ == symbols@[k].file_path@,
        decreases symbols@.len() - i,
    {
        paths.push(owned(symbols[i].file_path.as_str()));
        i = i + 1;
    }
    proof {
        assert(spec_names(paths@) =~= spec_symbol_paths(symbols@));
    }
    outline_at(symbols, &paths, path)
}

} // verus!
