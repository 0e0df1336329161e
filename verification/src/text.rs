//! Small string and character helpers shared by the lexer and the parser.
use vstd::prelude::*;
use crate::token::TokenKind;

verus! {

/// Whether two string slices hold the same characters.
pub fn str_eq(a: &str, b: &str) -> (r: bool)
    ensures
        r == (a@ == b@),
{
    let x = a.to_owned();
    let y = b.to_owned();
    x == y
}

/// A fresh `String` holding the characters of `s`.
pub fn owned(s: &str) -> (r: String)
    ensures
        r@ == s@,
{
    String::from_str(s)
}

/// `a` followed by `b`.
pub fn cat2(a: &str, b: &str) -> (r: String)
    ensures
        r@ == a@ + b@,
{
    let mut s = String::from_str(a);
    s.append(b);
    s
}

/// `a` followed by `b` and `c`.
pub fn cat3(a: &str, b: &str, c: &str) -> (r: String)
    ensures
        r@ == a@ + b@ + c@,
{
    let mut s = String::from_str(a);
    s.append(b);
    s.append(c);
    s
}

/// `a`, `b`, `c` and `d` in a row.
pub fn cat4(a: &str, b: &str, c: &str, d: &str) -> (r: String)
    ensures
        r@ == a@ + b@ + c@ + d@,
{
    let mut s = String::from_str(a);
    s.append(b);
    s.append(c);
    s.append(d);
    s
}

/// Appends one character to a string (std's `String::push`).
#[verifier::external_body]
pub fn push_char(s: &mut String, c: char)
    ensures
        final(s)@ == old(s)@.push(c),
{
    s.push(c);
}

/// The characters of a string slice, in order (std's `str::chars`, collected). A `Vec`
/// never holds more than `isize::MAX` bytes, so the result has fewer than `isize::MAX / 4` chars.
#[verifier::external_body]
pub fn chars_of(s: &str) -> (r: Vec<char>)
    ensures
        r@ == s@,
        r@.len() <= isize::MAX / 4,
{
    s.chars().collect()
}

/// The `Debug` rendering of a token kind, as std's formatting machinery prints it;
/// used only inside diagnostic messages, whose wording no contract fixes.
#[verifier::external_body]
pub fn debug_kind(k: &TokenKind) -> String {
    format!("{:?}", k)
}

/// The decimal digit for `d` in `0..10`.
pub open spec fn digit_char(d: int) -> char {
    ((d + 48) as u32) as char
}

/// The decimal digits of a natural number, most significant first, without leading zeros.
pub open spec fn spec_natural_digits(n: nat) -> Seq<char>
    decreases n,
{
    if n < 10 {
        seq![digit_char(n as int)]
    } else {
        spec_natural_digits(n / 10).push(digit_char((n % 10) as int))
    }
}

/// The decimal rendering of an integer: its digits, after a `-` when it is negative.
pub open spec fn spec_decimal(n: int) -> Seq<char> {
    if n < 0 {
        seq!['-'] + spec_natural_digits((-n) as nat)
    } else {
        spec_natural_digits(n as nat)
    }
}

/// Appends the decimal digits of `m`, most significant first.
fn push_natural_digits(s: &mut String, m: u64)
    ensures
        final(s)@ == old(s)@ + spec_natural_digits(m as nat),
    decreases m,
{
    if m >= 10 {
        push_natural_digits(s, m / 10);
    }
    let d: u8 = (m % 10) as u8;
    let c = (d + 48) as char;
    assert(c == digit_char((m % 10) as int));
    push_char(s, c);
    proof {
        if m >= 10 {
            assert(old(s)@ + spec_natural_digits(m as nat) =~= (old(s)@ + spec_natural_digits((m / 10) as nat)).push(c));
        } else {
            assert(old(s)@ + spec_natural_digits(m as nat) =~= old(s)@.push(c));
        }
    }
}

/// The decimal rendering of an integer: its digits, after a `-` when it is negative.
pub fn int_text(n: i64) -> (r: String)
    ensures
        r@ == spec_decimal(n as int),
{
    let mut s = String::new();
    let m: u64 = if n < 0 {
        push_char(&mut s, '-');
        if n == i64::MIN { 9223372036854775808u64 } else { (-n) as u64 }
    } else {
        n as u64
    };
    push_natural_digits(&mut s, m);
    proof {
        if n < 0 {
            assert(s@ =~= seq!['-'] + spec_natural_digits((-n) as nat));
        } else {
            assert(s@ =~= spec_natural_digits(n as nat));
        }
    }
    s
}

/// The upper-case mapping of a character under the Unicode tables of std, one or more
/// characters.
pub uninterp spec fn uppercase_of(c: char) -> Seq<char>;

/// The upper-case mapping of `c` (std's `char::to_uppercase`, collected). An ASCII letter
/// maps to its capital; another ASCII character has no mapping and stays as it is.
#[verifier::external_body]
pub fn char_to_uppercase(c: char) -> (r: String)
    ensures
        r@ == uppercase_of(c),
        'a' <= c <= 'z' ==> r@ == seq![upper_spec(c)],
        c <= '\u{7f}' && !('a' <= c <= 'z') ==> r@ == seq![c],
{
    c.to_uppercase().collect()
}

/// `parts` joined with `.` between neighbours.
pub open spec fn spec_join_dots(parts: Seq<Seq<char>>) -> Seq<char>
    decreases parts.len(),
{
    if parts.len() == 0 {
        Seq::empty()
    } else if parts.len() == 1 {
        parts[0]
    } else {
        spec_join_dots(parts.drop_last()) + seq!['.'] + parts.last()
    }
}

/// The strings of `parts` joined with `.`.
pub fn join_with_dots(parts: &Vec<String>) -> (r: String)
    ensures
        r@ == spec_join_dots(parts@.map_values(|p: String| p@)),
{
    let mut out = String::new();
    let mut i: usize = 0;
    while i < parts.len()
        invariant
            i <= parts@.len(),
            out@ == spec_join_dots(parts@.subrange(0, i as int).map_values(|p: String| p@)),
        decreases parts@.len() - i,
    {
        let ghost prefix = parts@.subrange(0, i as int).map_values(|p: String| p@);
        let ghost next = parts@.subrange(0, i as int + 1).map_values(|p: String| p@);
        proof {
            assert(next.drop_last() == prefix);
            assert(next.last() == parts@[i as int]@);
        }
        if i > 0 {
            out.append(".");
        }
        out.append(parts[i].as_str());
        proof {
            if i > 0 {
                reveal_strlit(".");
            }
        }
        i = i + 1;
    }
    proof {
        assert(parts@.subrange(0, parts@.len() as int) == parts@);
    }
    out
}

/// A character that std's `char::is_whitespace` accepts (the Unicode `White_Space` set).
pub open spec fn is_whitespace_spec(c: char) -> bool {
    ||| ('\u{9}' <= c && c <= '\u{d}')
    ||| c == ' '
    ||| c == '\u{85}'
    ||| c == '\u{a0}'
    ||| c == '\u{1680}'
    ||| ('\u{2000}' <= c && c <= '\u{200a}')
    ||| c == '\u{2028}'
    ||| c == '\u{2029}'
    ||| c == '\u{202f}'
    ||| c == '\u{205f}'
    ||| c == '\u{3000}'
}

pub fn is_whitespace(c: char) -> (r: bool)
    ensures
        r == is_whitespace_spec(c),
{
    ('\u{9}' <= c && c <= '\u{d}') || c == ' ' || c == '\u{85}' || c == '\u{a0}' || c == '\u{1680}'
        || ('\u{2000}' <= c && c <= '\u{200a}') || c == '\u{2028}' || c == '\u{2029}'
        || c == '\u{202f}' || c == '\u{205f}' || c == '\u{3000}'
}

/// `s` without its leading whitespace.
pub open spec fn spec_trim_start(s: Seq<char>) -> Seq<char>
    decreases s.len(),
{
    if s.len() > 0 && is_whitespace_spec(s[0]) {
        spec_trim_start(s.drop_first())
    } else {
        s
    }
}

/// `s` without its trailing whitespace.
pub open spec fn spec_trim_end(s: Seq<char>) -> Seq<char>
    decreases s.len(),
{
    if s.len() > 0 && is_whitespace_spec(s.last()) {
        spec_trim_end(s.drop_last())
    } else {
        s
    }
}

/// `s` without leading and trailing whitespace, as std's `str::trim` gives it.
pub open spec fn spec_trim(s: Seq<char>) -> Seq<char> {
    spec_trim_end(spec_trim_start(s))
}

/// `s` without leading and trailing whitespace.
pub fn trim_text(s: &String) -> (r: String)
    ensures
        r@ == spec_trim(s@),
{
    let chars = chars_of(s.as_str());
    let n = chars.len();
    let mut lo: usize = 0;
    assert(chars@.subrange(0, n as int) == chars@);
    while lo < n && is_whitespace(chars[lo])
        invariant
            n == chars@.len(),
            chars@ == s@,
            lo <= n,
            spec_trim_start(s@) == spec_trim_start(chars@.subrange(lo as int, n as int)),
        decreases n - lo,
    {
        proof {
            assert(chars@.subrange(lo as int, n as int).drop_first() == chars@.subrange(lo as int + 1, n as int));
        }
        lo = lo + 1;
    }
    proof {
        if lo < n {
            assert(chars@.subrange(lo as int, n as int)[0] == chars@[lo as int]);
        }
    }
    let mut hi: usize = n;
    while hi > lo && is_whitespace(chars[hi - 1])
        invariant
            n == chars@.len(),
            lo <= hi <= n,
            spec_trim(s@) == spec_trim_end(chars@.subrange(lo as int, hi as int)),
        decreases hi - lo,
    {
        proof {
            assert(chars@.subrange(lo as int, hi as int).drop_last() == chars@.subrange(lo as int, hi as int - 1));
        }
        hi = hi - 1;
    }
    proof {
        if hi > lo {
            assert(chars@.subrange(lo as int, hi as int).last() == chars@[hi - 1]);
        }
    }
    string_from_chars(&chars, lo, hi)
}

/// The characters `v[from..to]` as a `String`.
pub fn string_from_chars(v: &Vec<char>, from: usize, to: usize) -> (r: String)
    requires
        from <= to <= v@.len(),
    ensures
        r@ == v@.subrange(from as int, to as int),
{
    let mut s = String::new();
    let mut i = from;
    while i < to
        invariant
            from <= i <= to <= v@.len(),
            s@ == v@.subrange(from as int, i as int),
        decreases to - i,
    {
        push_char(&mut s, v[i]);
        proof {
            assert(v@.subrange(from as int, (i + 1) as int) == v@.subrange(from as int, i as int).push(v@[i as int]));
        }
        i = i + 1;
    }
    s
}

/// ASCII decimal digit.
pub open spec fn is_digit_spec(c: char) -> bool {
    '0' <= c && c <= '9'
}

/// ASCII letter.
pub open spec fn is_alpha_spec(c: char) -> bool {
    ('a' <= c && c <= 'z') || ('A' <= c && c <= 'Z')
}

/// A character that may start an identifier.
pub open spec fn is_ident_start_spec(c: char) -> bool {
    is_alpha_spec(c) || c == '_'
}

/// A character that may continue an identifier.
pub open spec fn is_ident_char_spec(c: char) -> bool {
    is_ident_start_spec(c) || is_digit_spec(c)
}

pub fn is_digit(c: char) -> (r: bool)
    ensures
        r == is_digit_spec(c),
{
    '0' <= c && c <= '9'
}

pub fn is_alpha(c: char) -> (r: bool)
    ensures
        r == is_alpha_spec(c),
{
    ('a' <= c && c <= 'z') || ('A' <= c && c <= 'Z')
}

pub fn is_ident_start(c: char) -> (r: bool)
    ensures
        r == is_ident_start_spec(c),
{
    is_alpha(c) || c == '_'
}

pub fn is_ident_char(c: char) -> (r: bool)
    ensures
        r == is_ident_char_spec(c),
{
    is_ident_start(c) || is_digit(c)
}

/// The upper-case form of an ASCII lower-case letter; every other character is unchanged.
pub open spec fn upper_spec(c: char) -> char {
    if 'a' <= c && c <= 'z' {
        ((c as u32) - 32) as char
    } else {
        c
    }
}

pub fn to_upper(c: char) -> (r: char)
    ensures
        r == upper_spec(c),
{
    if 'a' <= c && c <= 'z' {
        let b: u8 = ((c as u32) - 32) as u8;
        let r = b as char;
        assert(r == ((c as u32) - 32) as char);
        r
    } else {
        c
    }
}

/// `s` without the copies of `c` at its end.
pub open spec fn spec_trim_end_char(s: Seq<char>, c: char) -> Seq<char>
    decreases s.len(),
{
    if s.len() > 0 && s.last() == c {
        spec_trim_end_char(s.drop_last(), c)
    } else {
        s
    }
}

/// `s` without the copies of `c` at its end (std's `str::trim_end_matches` with a char).
pub fn trim_end_char(s: &str, c: char) -> (r: String)
    ensures
        r@ == spec_trim_end_char(s@, c),
{
    let chars = chars_of(s);
    let mut end = chars.len();
    assert(chars@.subrange(0, end as int) == chars@);
    while end > 0 && chars[end - 1] == c
        invariant
            end <= chars@.len(),
            spec_trim_end_char(s@, c) == spec_trim_end_char(chars@.subrange(0, end as int), c),
        decreases end,
    {
        proof {
            assert(chars@.subrange(0, end as int).drop_last() == chars@.subrange(0, end as int - 1));
        }
        end = end - 1;
    }
    proof {
        if end > 0 {
            assert(chars@.subrange(0, end as int).last() == chars@[end - 1]);
        }
    }
    string_from_chars(&chars, 0, end)
}

/// The index of the last `c` in `s`, if any.
pub open spec fn spec_last_index_of(s: Seq<char>, c: char) -> Option<int>
    decreases s.len(),
{
    if s.len() == 0 {
        None
    } else if s.last() == c {
        Some(s.len() - 1)
    } else {
        spec_last_index_of(s.drop_last(), c)
    }
}

/// The part of `s` after its last `c`; all of `s` when it has none (the tail of std's
/// `str::rsplit_once`, or the whole string).
pub open spec fn spec_after_last(s: Seq<char>, c: char) -> Seq<char> {
    match spec_last_index_of(s, c) {
        Some(i) => s.subrange(i + 1, s.len() as int),
        None => s,
    }
}

pub proof fn lemma_last_index_bounds(s: Seq<char>, c: char)
    ensures
        spec_last_index_of(s, c) matches Some(i) ==> 0 <= i < s.len() && s[i] == c,
        spec_last_index_of(s, c) is None ==> forall|k: int| 0 <= k < s.len() ==> s[k] != c,
    decreases s.len(),
{
    if s.len() > 0 && s.last() != c {
        lemma_last_index_bounds(s.drop_last(), c);
        if spec_last_index_of(s, c) is None {
            assert forall|k: int| 0 <= k < s.len() implies s[k] != c by {
                if k < s.len() - 1 {
                    assert(s.drop_last()[k] == s[k]);
                }
            }
        }
    }
}

/// The part of `s` after its last `c` (see `spec_after_last`).
pub fn after_last(s: &str, c: char) -> (r: String)
    ensures
        r@ == spec_after_last(s@, c),
{
    let chars = chars_of(s);
    let n = chars.len();
    let mut i = n;
    assert(chars@.subrange(0, n as int) == chars@);
    while i > 0 && chars[i - 1] != c
        invariant
            i <= n,
            n == chars@.len(),
            chars@ == s@,
            spec_last_index_of(s@, c) == spec_last_index_of(chars@.subrange(0, i as int), c),
        decreases i,
    {
        proof {
            assert(chars@.subrange(0, i as int).drop_last() == chars@.subrange(0, i as int - 1));
        }
        i = i - 1;
    }
    proof {
        if i > 0 {
            assert(chars@.subrange(0, i as int).last() == chars@[i - 1]);
        }
    }
    if i == 0 {
        owned(s)
    } else {
        string_from_chars(&chars, i, n)
    }
}

/// The index of the first `c` in `s` at or after `i`, or the length of `s`.
pub open spec fn spec_first_index_from(s: Seq<char>, c: char, i: int) -> int
    decreases s.len() - i,
{
    if i < 0 || i >= s.len() {
        s.len() as int
    } else if s[i] == c {
        i
    } else {
        spec_first_index_from(s, c, i + 1)
    }
}

/// The part of `s` before its first `c` (the first piece of std's `str::split`).
pub open spec fn spec_before_first(s: Seq<char>, c: char) -> Seq<char> {
    s.subrange(0, spec_first_index_from(s, c, 0))
}

pub proof fn lemma_first_index_bounds(s: Seq<char>, c: char, i: int)
    requires
        0 <= i <= s.len(),
    ensures
        i <= spec_first_index_from(s, c, i) <= s.len(),
    decreases s.len() - i,
{
    if i < s.len() && s[i] != c {
        lemma_first_index_bounds(s, c, i + 1);
    }
}

/// The part of `s` before its first `c`.
pub fn before_first(s: &str, c: char) -> (r: String)
    ensures
        r@ == spec_before_first(s@, c),
{
    let chars = chars_of(s);
    let mut i: usize = 0;
    proof {
        lemma_first_index_bounds(chars@, c, 0);
    }
    while i < chars.len() && chars[i] != c
        invariant
            i <= chars@.len(),
            chars@ == s@,
            spec_first_index_from(chars@, c, i as int) == spec_first_index_from(chars@, c, 0),
        decreases chars@.len() - i,
    {
        i = i + 1;
    }
    string_from_chars(&chars, 0, i)
}

/// Whether `c` occurs in `s`.
pub fn contains_char(s: &str, c: char) -> (r: bool)
    ensures
        r == s@.contains(c),
{
    let chars = chars_of(s);
    let mut i: usize = 0;
    while i < chars.len()
        invariant
            i <= chars@.len(),
            chars@ == s@,
            forall|k: int| 0 <= k < i ==> chars@[k] != c,
        decreases chars@.len() - i,
    {
        if chars[i] == c {
            assert(s@[i as int] == c);
            return true;
        }
        i = i + 1;
    }
    false
}

/// `s` holds `t` somewhere as a contiguous piece.
pub open spec fn spec_contains_seq(s: Seq<char>, t: Seq<char>) -> bool {
    exists|i: int| 0 <= i && i + t.len() <= s.len() && #[trigger] s.subrange(i, i + t.len()) == t
}

/// Whether `t` occurs in `s` as a contiguous piece.
pub fn contains_str(s: &str, t: &str) -> (r: bool)
    ensures
        r == spec_contains_seq(s@, t@),
{
    let a = chars_of(s);
    let b = chars_of(t);
    if b.len() > a.len() {
        return false;
    }
    let mut i: usize = 0;
    while i + b.len() <= a.len()
        invariant
            a@ == s@,
            b@ == t@,
            b@.len() <= a@.len(),
            a@.len() <= isize::MAX / 4,
            i <= a@.len() - b@.len() + 1,
            forall|k: int| 0 <= k < i ==> #[trigger] a@.subrange(k, k + b@.len()) != b@,
        decreases a@.len() - i,
    {
        let mut j: usize = 0;
        while j < b.len() && a[i + j] == b[j]
            invariant
                i + b@.len() <= a@.len(),
                a@.len() <= isize::MAX / 4,
                j <= b@.len(),
                a@ == s@,
                b@ == t@,
                forall|k: int| 0 <= k < j ==> a@[i + k] == b@[k],
            decreases b@.len() - j,
        {
            j = j + 1;
        }
        if j == b.len() {
            assert(a@.subrange(i as int, i + b@.len()) =~= b@);
            return true;
        }
        assert(a@.subrange(i as int, i + b@.len())[j as int] != b@[j as int]);
        i = i + 1;
    }
    false
}

/// `s` begins with `p`.
pub open spec fn spec_starts_with(s: Seq<char>, p: Seq<char>) -> bool {
    p.len() <= s.len() && s.subrange(0, p.len() as int) == p
}

/// Whether `s` begins with `p`.
pub fn starts_with(s: &str, p: &str) -> (r: bool)
    ensures
        r == spec_starts_with(s@, p@),
{
    let a = chars_of(s);
    let b = chars_of(p);
    if b.len() > a.len() {
        return false;
    }
    let mut j: usize = 0;
    while j < b.len()
        invariant
            a@ == s@,
            b@ == p@,
            b@.len() <= a@.len(),
            j <= b@.len(),
            forall|k: int| 0 <= k < j ==> a@[k] == b@[k],
        decreases b@.len() - j,
    {
        if a[j] != b[j] {
            assert(a@.subrange(0, b@.len() as int)[j as int] != b@[j as int]);
            return false;
        }
        j = j + 1;
    }
    assert(a@.subrange(0, b@.len() as int) =~= b@);
    true
}

/// The ASCII lower-case form of a character; every other character is unchanged.
pub open spec fn ascii_lower_spec(c: char) -> char {
    if 'A' <= c && c <= 'Z' {
        ((c as u32) + 32) as char
    } else {
        c
    }
}

/// `a` and `b` are equal up to ASCII case (std's `eq_ignore_ascii_case`).
pub open spec fn spec_eq_ignore_ascii_case(a: Seq<char>, b: Seq<char>) -> bool {
    a.len() == b.len() && forall|i: int| 0 <= i < a.len() ==> ascii_lower_spec(#[trigger] a[i]) == ascii_lower_spec(b[i])
}

pub fn ascii_lower(c: char) -> (r: char)
    ensures
        r == ascii_lower_spec(c),
{
    if 'A' <= c && c <= 'Z' {
        let b: u8 = ((c as u32) + 32) as u8;
        let r = b as char;
        assert(r == ((c as u32) + 32) as char);
        r
    } else {
        c
    }
}

/// Whether `a` and `b` are equal up to ASCII case.
pub fn eq_ignore_ascii_case(a: &str, b: &str) -> (r: bool)
    ensures
        r == spec_eq_ignore_ascii_case(a@, b@),
{
    let x = chars_of(a);
    let y = chars_of(b);
    if x.len() != y.len() {
        return false;
    }
    let mut i: usize = 0;
    while i < x.len()
        invariant
            x@ == a@,
            y@ == b@,
            x@.len() == y@.len(),
            i <= x@.len(),
            forall|k: int| 0 <= k < i ==> ascii_lower_spec(#[trigger] x@[k]) == ascii_lower_spec(y@[k]),
        decreases x@.len() - i,
    {
        if ascii_lower(x[i]) != ascii_lower(y[i]) {
            return false;
        }
        i = i + 1;
    }
    true
}


// ── Text order ───────────────────────────────────────────────────

/// `a` comes before `b` in character-code order (the order in which std sorts `String`s:
/// byte order of UTF-8, which is code-point order); a proper prefix comes first.
pub open spec fn spec_text_less(a: Seq<char>, b: Seq<char>) -> bool
    decreases a.len(),
{
    if a.len() == 0 {
        b.len() > 0
    } else if b.len() == 0 {
        false
    } else if a[0] != b[0] {
        (a[0] as u32) < (b[0] as u32)
    } else {
        spec_text_less(a.drop_first(), b.drop_first())
    }
}

/// No text comes before itself.
pub proof fn lemma_text_less_irreflexive(a: Seq<char>)
    ensures
        !spec_text_less(a, a),
    decreases a.len(),
{
    if a.len() > 0 {
        lemma_text_less_irreflexive(a.drop_first());
    }
}

/// Of two different texts, exactly one comes first.
pub proof fn lemma_text_less_total(a: Seq<char>, b: Seq<char>)
    ensures
        a != b ==> (spec_text_less(a, b) || spec_text_less(b, a)),
        !(spec_text_less(a, b) && spec_text_less(b, a)),
    decreases a.len(),
{
    if a.len() > 0 && b.len() > 0 {
        lemma_text_less_total(a.drop_first(), b.drop_first());
        if a[0] != b[0] {
            vstd::utf8::char_u32_cast(a[0], a[0] as u32);
            vstd::utf8::char_u32_cast(b[0], b[0] as u32);
        } else if a.drop_first() == b.drop_first() {
            assert(a =~= seq![a[0]] + a.drop_first());
            assert(b =~= seq![b[0]] + b.drop_first());
        }
    } else if a.len() == 0 && b.len() == 0 {
        assert(a =~= b);
    }
}

/// Text order is transitive.
pub proof fn lemma_text_less_transitive(a: Seq<char>, b: Seq<char>, c: Seq<char>)
    requires
        spec_text_less(a, b),
        spec_text_less(b, c),
    ensures
        spec_text_less(a, c),
    decreases a.len(),
{
    if a.len() > 0 && b.len() > 0 && c.len() > 0 {
        if a[0] == b[0] && b[0] == c[0] {
            lemma_text_less_transitive(a.drop_first(), b.drop_first(), c.drop_first());
        } else {
            vstd::utf8::char_u32_cast(a[0], a[0] as u32);
            vstd::utf8::char_u32_cast(b[0], b[0] as u32);
            vstd::utf8::char_u32_cast(c[0], c[0] as u32);
        }
    }
}

/// Whether `a` comes before `b` in text order.
pub fn text_less(a: &str, b: &str) -> (r: bool)
    ensures
        r == spec_text_less(a@, b@),
{
    let x = chars_of(a);
    let y = chars_of(b);
    let mut i: usize = 0;
    assert(x@.subrange(0, x@.len() as int) == x@);
    assert(y@.subrange(0, y@.len() as int) == y@);
    while i < x.len() && i < y.len()
        invariant
            x@ == a@,
            y@ == b@,
            i <= x@.len(),
            i <= y@.len(),
            spec_text_less(a@, b@) == spec_text_less(x@.subrange(i as int, x@.len() as int), y@.subrange(i as int, y@.len() as int)),
        decreases x@.len() - i,
    {
        let cx = x[i];
        let cy = y[i];
        proof {
            let xs = x@.subrange(i as int, x@.len() as int);
            let ys = y@.subrange(i as int, y@.len() as int);
            assert(xs[0] == cx && ys[0] == cy);
            assert(xs.drop_first() == x@.subrange(i as int + 1, x@.len() as int));
            assert(ys.drop_first() == y@.subrange(i as int + 1, y@.len() as int));
        }
        if cx != cy {
            return (cx as u32) < (cy as u32);
        }
        i = i + 1;
    }
    i < y.len()
}

/// One of the strings of `v` is `s`.
pub open spec fn spec_holds_text(v: Seq<String>, s: Seq<char>) -> bool {
    exists|k: int| 0 <= k < v.len() && #[trigger] v[k]@ == s
}

/// `s` is in strict text order: sorted, with no text twice.
pub open spec fn spec_texts_sorted(s: Seq<String>) -> bool {
    forall|i: int, j: int| 0 <= i < j < s.len() ==> spec_text_less(s[i]@, s[j]@)
}

/// Puts `x` into the sorted `texts` unless it is there already.
pub fn insert_text_sorted(texts: &mut Vec<String>, x: String)
    requires
        spec_texts_sorted(old(texts)@),
    ensures
        spec_texts_sorted(final(texts)@),
        forall|s: Seq<char>| #[trigger] spec_holds_text(final(texts)@, s) <==> (s == x@ || spec_holds_text(old(texts)@, s)),
{
    let mut i: usize = 0;
    while i < texts.len() && text_less(texts[i].as_str(), x.as_str())
        invariant
            i <= texts@.len(),
            texts@ == old(texts)@,
            spec_texts_sorted(texts@),
            forall|k: int| 0 <= k < i ==> spec_text_less(#[trigger] texts@[k]@, x@),
        decreases texts@.len() - i,
    {
        i = i + 1;
    }
    if i < texts.len() && str_eq(texts[i].as_str(), x.as_str()) {
        return;
    }
    let ghost before = texts@;
    proof {
        if i < before.len() {
            lemma_text_less_total(before[i as int]@, x@);
            assert forall|k: int| i <= k < before.len() implies spec_text_less(x@, #[trigger] before[k]@) by {
                if k > i {
                    lemma_text_less_transitive(x@, before[i as int]@, before[k]@);
                }
            }
        }
    }
    texts.insert(i, x);
    proof {
        let after = texts@;
        assert forall|a: int, b: int| 0 <= a < b < after.len() implies spec_text_less(after[a]@, after[b]@) by {
            if a < i && b > i {
                lemma_text_less_transitive(before[a]@, x@, before[b - 1]@);
            }
        }
        assert forall|s: Seq<char>| #[trigger] spec_holds_text(after, s) <==> (s == x@ || spec_holds_text(before, s)) by {
            if exists|k: int| 0 <= k < after.len() && #[trigger] after[k]@ == s {
                let k = choose|k: int| 0 <= k < after.len() && #[trigger] after[k]@ == s;
                if k < i {
                    assert(before[k]@ == s);
                } else if k > i {
                    assert(before[k - 1]@ == s);
                }
            }
            if s == x@ {
                assert(after[i as int]@ == s);
            } else if exists|k: int| 0 <= k < before.len() && #[trigger] before[k]@ == s {
                let k = choose|k: int| 0 <= k < before.len() && #[trigger] before[k]@ == s;
                if k < i {
                    assert(after[k]@ == s);
                } else {
                    assert(after[k + 1]@ == s);
                }
            }
        }
    }
}

/// Two strictly sorted lists that hold the same texts hold them in the same places.
pub proof fn lemma_sorted_texts_unique(a: Seq<String>, b: Seq<String>)
    requires
        spec_texts_sorted(a),
        spec_texts_sorted(b),
        forall|s: Seq<char>| #[trigger] spec_holds_text(a, s) <==> spec_holds_text(b, s),
    ensures
        a.len() == b.len(),
        forall|i: int| 0 <= i < a.len() ==> #[trigger] a[i]@ == b[i]@,
    decreases a.len(),
{
    if a.len() == 0 {
        if b.len() > 0 {
            assert(spec_holds_text(b, b[0]@));
            assert(spec_holds_text(a, b[0]@));
        }
    } else if b.len() == 0 {
        assert(spec_holds_text(a, a[0]@));
    } else {
        // The first entries are the least texts of the same set.
        assert(spec_holds_text(a, a[0]@));
        assert(spec_holds_text(b, b[0]@));
        assert(spec_holds_text(a, b[0]@));
        let ka = choose|k: int| 0 <= k < b.len() && #[trigger] b[k]@ == a[0]@;
        let kb = choose|k: int| 0 <= k < a.len() && #[trigger] a[k]@ == b[0]@;
        if ka > 0 {
            assert(spec_text_less(b[0]@, b[ka]@));
            if kb > 0 {
                assert(spec_text_less(a[0]@, a[kb]@));
                lemma_text_less_transitive(a[0]@, b[0]@, a[0]@);
                lemma_text_less_irreflexive(a[0]@);
            } else {
                lemma_text_less_irreflexive(b[0]@);
            }
        }
        assert(a[0]@ == b[0]@);
        let ra = a.drop_first();
        let rb = b.drop_first();
        assert forall|s: Seq<char>| #[trigger] spec_holds_text(ra, s) <==> spec_holds_text(rb, s) by {
            if spec_holds_text(ra, s) {
                let k = choose|k: int| 0 <= k < ra.len() && #[trigger] ra[k]@ == s;
                assert(a[k + 1]@ == s);
                assert(spec_holds_text(a, s));
                let m = choose|m: int| 0 <= m < b.len() && #[trigger] b[m]@ == s;
                if m == 0 {
                    assert(spec_text_less(a[0]@, a[k + 1]@));
                    lemma_text_less_irreflexive(s);
                } else {
                    assert(rb[m - 1]@ == s);
                }
            }
            if spec_holds_text(rb, s) {
                let k = choose|k: int| 0 <= k < rb.len() && #[trigger] rb[k]@ == s;
                assert(b[k + 1]@ == s);
                assert(spec_holds_text(b, s));
                assert(spec_holds_text(a, s));
                let m = choose|m: int| 0 <= m < a.len() && #[trigger] a[m]@ == s;
                if m == 0 {
                    assert(spec_text_less(b[0]@, b[k + 1]@));
                    lemma_text_less_irreflexive(s);
                } else {
                    assert(ra[m - 1]@ == s);
                }
            }
        }
        lemma_sorted_texts_unique(ra, rb);
        assert forall|i: int| 0 <= i < a.len() implies #[trigger] a[i]@ == b[i]@ by {
            if i > 0 {
                assert(ra[i - 1]@ == rb[i - 1]@);
            }
        }
    }
}


/// The texts in order with `sep` between neighbours (std's `join`).
pub open spec fn spec_join_with(parts: Seq<Seq<char>>, sep: Seq<char>) -> Seq<char>
    decreases parts.len(),
{
    if parts.len() == 0 {
        Seq::empty()
    } else if parts.len() == 1 {
        parts[0]
    } else {
        spec_join_with(parts.drop_last(), sep) + sep + parts.last()
    }
}

/// The strings of `parts` joined by `sep`.
pub fn join_texts(parts: &Vec<String>, sep: &str) -> (r: String)
    ensures
        r@ == spec_join_with(parts@.map_values(|p: String| p@), sep@),
{
    let ghost views = parts@.map_values(|p: String| p@);
    let mut out = String::new();
    let mut i: usize = 0;
    while i < parts.len()
        invariant
            i <= parts@.len(),
            views == parts@.map_values(|p: String| p@),
            out@ == spec_join_with(views.take(i as int), sep@),
        decreases parts@.len() - i,
    {
        proof {
            assert(views.take(i + 1).drop_last() =~= views.take(i as int));
            assert(views.take(i + 1).last() == parts@[i as int]@);
            if i == 0 {
                assert(views.take(0) =~= Seq::<Seq<char>>::empty());
            }
        }
        if i > 0 {
            out.append(sep);
        }
        out.append(parts[i].as_str());
        i = i + 1;
    }
    proof {
        assert(views.take(parts@.len() as int) =~= views);
    }
    out
}


/// `s` without its leading whitespace.
pub fn trim_start_text(s: &str) -> (r: String)
    ensures
        r@ == spec_trim_start(s@),
{
    let chars = chars_of(s);
    let n = chars.len();
    let mut lo: usize = 0;
    assert(chars@.subrange(0, n as int) == chars@);
    while lo < n && is_whitespace(chars[lo])
        invariant
            n == chars@.len(),
            chars@ == s@,
            lo <= n,
            spec_trim_start(s@) == spec_trim_start(chars@.subrange(lo as int, n as int)),
        decreases n - lo,
    {
        proof {
            assert(chars@.subrange(lo as int, n as int).drop_first() == chars@.subrange(lo as int + 1, n as int));
        }
        lo = lo + 1;
    }
    proof {
        if lo < n {
            assert(chars@.subrange(lo as int, n as int)[0] == chars@[lo as int]);
        }
    }
    string_from_chars(&chars, lo, n)
}

/// The first `c` at or after `i` is at `j` when nothing in `s[i..j]` is `c` and `s[j]` is `c`
/// or `j` is the end.
pub proof fn lemma_first_index_is(s: Seq<char>, c: char, i: int, j: int)
    requires
        0 <= i <= j <= s.len(),
        forall|m: int| i <= m < j ==> s[m] != c,
        j == s.len() || s[j] == c,
    ensures
        spec_first_index_from(s, c, i) == j,
    decreases j - i,
{
    if i < j {
        lemma_first_index_is(s, c, i + 1, j);
    }
}

} // verus!
