//! Names in the editor: identifier and keyword checks for renames, C# spellings of PrSM
//! members, qualified-name segments, and ranking of workspace symbol matches.
use vstd::prelude::*;
use crate::text::{
    ascii_lower, ascii_lower_spec, cat3, chars_of, contains_str, eq_ignore_ascii_case, is_ident_char,
    is_ident_char_spec, is_ident_start, is_ident_start_spec, lemma_last_index_bounds, owned, push_char,
    spec_contains_seq, spec_eq_ignore_ascii_case, spec_last_index_of, spec_starts_with, spec_trim,
    starts_with, str_eq, string_from_chars, to_upper, trim_text, upper_spec,
};

verus! {

// ── Case changes ─────────────────────────────────────────────────

/// `s` with every ASCII upper-case letter lowered (std's `str::to_ascii_lowercase`).
pub open spec fn spec_ascii_lowercase(s: Seq<char>) -> Seq<char> {
    s.map_values(|c: char| ascii_lower_spec(c))
}

/// `value` with every ASCII upper-case letter lowered.
pub fn ascii_lowercase(value: &str) -> (r: String)
    ensures
        r@ == spec_ascii_lowercase(value@),
{
    let chars = chars_of(value);
    let mut out = String::new();
    let mut i: usize = 0;
    while i < chars.len()
        invariant
            chars@ == value@,
            i <= chars@.len(),
            out@ == spec_ascii_lowercase(chars@.take(i as int)),
        decreases chars@.len() - i,
    {
        push_char(&mut out, ascii_lower(chars[i]));
        proof {
            assert(spec_ascii_lowercase(chars@.take(i + 1)) =~= spec_ascii_lowercase(chars@.take(i as int)).push(ascii_lower_spec(chars@[i as int])));
        }
        i = i + 1;
    }
    proof {
        assert(chars@.take(chars@.len() as int) =~= chars@);
    }
    out
}

/// `value` with its first character ASCII-lowered (`SetActive` becomes `setActive`).
pub open spec fn spec_lower_camel_case(value: Seq<char>) -> Seq<char> {
    if value.len() == 0 { value } else { seq![ascii_lower_spec(value[0])] + value.drop_first() }
}

/// The lower camel case form of a name.
pub fn lower_camel_case(value: &str) -> (r: String)
    ensures
        r@ == spec_lower_camel_case(value@),
{
    let chars = chars_of(value);
    if chars.len() == 0 {
        return String::new();
    }
    let mut out = String::new();
    push_char(&mut out, ascii_lower(chars[0]));
    let rest = string_from_chars(&chars, 1, chars.len());
    out.append(rest.as_str());
    proof {
        assert(out@ =~= seq![ascii_lower_spec(value@[0])] + value@.drop_first());
    }
    out
}

/// `value` with its first character ASCII-raised (`awake` becomes `Awake`).
pub open spec fn spec_capitalize_ascii(value: Seq<char>) -> Seq<char> {
    if value.len() == 0 { value } else { seq![upper_spec(value[0])] + value.drop_first() }
}

/// A name with its first character in ASCII upper case.
pub fn capitalize_ascii(value: &str) -> (r: String)
    ensures
        r@ == spec_capitalize_ascii(value@),
{
    let chars = chars_of(value);
    if chars.len() == 0 {
        return String::new();
    }
    let mut out = String::new();
    push_char(&mut out, to_upper(chars[0]));
    let rest = string_from_chars(&chars, 1, chars.len());
    out.append(rest.as_str());
    proof {
        assert(out@ =~= seq![upper_spec(value@[0])] + value@.drop_first());
    }
    out
}

// ── C# spellings ─────────────────────────────────────────────────

/// The Unity message a lifecycle block compiles to, by its name in any ASCII case.
pub open spec fn spec_lifecycle_csharp_name(name: Seq<char>) -> Option<Seq<char>> {
    if spec_eq_ignore_ascii_case(name, "awake"@) { Some("Awake"@) }
    else if spec_eq_ignore_ascii_case(name, "start"@) { Some("Start"@) }
    else if spec_eq_ignore_ascii_case(name, "update"@) { Some("Update"@) }
    else if spec_eq_ignore_ascii_case(name, "fixedupdate"@) { Some("FixedUpdate"@) }
    else if spec_eq_ignore_ascii_case(name, "lateupdate"@) { Some("LateUpdate"@) }
    else if spec_eq_ignore_ascii_case(name, "onenable"@) { Some("OnEnable"@) }
    else if spec_eq_ignore_ascii_case(name, "ondisable"@) { Some("OnDisable"@) }
    else if spec_eq_ignore_ascii_case(name, "ondestroy"@) { Some("OnDestroy"@) }
    else if spec_eq_ignore_ascii_case(name, "ontriggerenter"@) { Some("OnTriggerEnter"@) }
    else if spec_eq_ignore_ascii_case(name, "ontriggerexit"@) { Some("OnTriggerExit"@) }
    else if spec_eq_ignore_ascii_case(name, "ontriggerstay"@) { Some("OnTriggerStay"@) }
    else if spec_eq_ignore_ascii_case(name, "oncollisionenter"@) { Some("OnCollisionEnter"@) }
    else if spec_eq_ignore_ascii_case(name, "oncollisionexit"@) { Some("OnCollisionExit"@) }
    else if spec_eq_ignore_ascii_case(name, "oncollisionstay"@) { Some("OnCollisionStay"@) }
    else { None }
}

/// The Unity message name of a lifecycle block.
pub fn lifecycle_csharp_name(member_name: &str) -> (r: Option<&'static str>)
    ensures
        match r {
            Some(t) => spec_lifecycle_csharp_name(member_name@) == Some(t@),
            None => spec_lifecycle_csharp_name(member_name@) is None,
        },
{
    if eq_ignore_ascii_case(member_name, "awake") { Some("Awake") }
    else if eq_ignore_ascii_case(member_name, "start") { Some("Start") }
    else if eq_ignore_ascii_case(member_name, "update") { Some("Update") }
    else if eq_ignore_ascii_case(member_name, "fixedupdate") { Some("FixedUpdate") }
    else if eq_ignore_ascii_case(member_name, "lateupdate") { Some("LateUpdate") }
    else if eq_ignore_ascii_case(member_name, "onenable") { Some("OnEnable") }
    else if eq_ignore_ascii_case(member_name, "ondisable") { Some("OnDisable") }
    else if eq_ignore_ascii_case(member_name, "ondestroy") { Some("OnDestroy") }
    else if eq_ignore_ascii_case(member_name, "ontriggerenter") { Some("OnTriggerEnter") }
    else if eq_ignore_ascii_case(member_name, "ontriggerexit") { Some("OnTriggerExit") }
    else if eq_ignore_ascii_case(member_name, "ontriggerstay") { Some("OnTriggerStay") }
    else if eq_ignore_ascii_case(member_name, "oncollisionenter") { Some("OnCollisionEnter") }
    else if eq_ignore_ascii_case(member_name, "oncollisionexit") { Some("OnCollisionExit") }
    else if eq_ignore_ascii_case(member_name, "oncollisionstay") { Some("OnCollisionStay") }
    else { None }
}

/// The C# name of a member: lifecycle blocks become their Unity message (or the capitalized
/// name when there is none); every other member keeps its name.
pub open spec fn spec_csharp_member_name(kind: Seq<char>, member_name: Seq<char>) -> Seq<char> {
    if kind == "lifecycle"@ {
        match spec_lifecycle_csharp_name(member_name) {
            Some(n) => n,
            None => spec_capitalize_ascii(member_name),
        }
    } else {
        member_name
    }
}

/// The name that the generated C# gives a member of the given kind.
pub fn csharp_member_name(kind: &str, member_name: &str) -> (r: String)
    ensures
        r@ == spec_csharp_member_name(kind@, member_name@),
{
    if str_eq(kind, "lifecycle") {
        return match lifecycle_csharp_name(member_name) {
            Some(n) => owned(n),
            None => capitalize_ascii(member_name),
        };
    }
    owned(member_name)
}

// ── Qualified names ──────────────────────────────────────────────

/// The non-empty dot-separated segments of a qualified name, in order.
pub open spec fn spec_dot_segments(s: Seq<char>) -> Seq<Seq<char>>
    decreases s.len(),
{
    match spec_last_index_of(s, '.') {
        None => if s.len() == 0 { Seq::empty() } else { seq![s] },
        Some(k) => {
            proof {
                lemma_last_index_bounds(s, '.');
            }
            let tail = s.subrange(k + 1, s.len() as int);
            spec_dot_segments(s.subrange(0, k)) + if tail.len() == 0 { Seq::<Seq<char>>::empty() } else { seq![tail] }
        },
    }
}

/// The last `c` in `t` is at `j` when `t[j]` is `c` and nothing after it is.
proof fn lemma_last_index_at(t: Seq<char>, c: char, j: int)
    requires
        0 <= j < t.len(),
        t[j] == c,
        forall|m: int| j < m < t.len() ==> t[m] != c,
    ensures
        spec_last_index_of(t, c) == Some(j),
    decreases t.len(),
{
    if j < t.len() - 1 {
        lemma_last_index_at(t.drop_last(), c, j);
    }
}

/// A text without `c` has no last `c`.
proof fn lemma_last_index_absent(t: Seq<char>, c: char)
    requires
        forall|m: int| 0 <= m < t.len() ==> t[m] != c,
    ensures
        spec_last_index_of(t, c) is None,
    decreases t.len(),
{
    if t.len() > 0 {
        lemma_last_index_absent(t.drop_last(), c);
    }
}

/// The non-empty dot-separated segments of a qualified name.
pub fn qualified_segments(name: &str) -> (r: Vec<String>)
    ensures
        r@.map_values(|x: String| x@) == spec_dot_segments(name@),
{
    let chars = chars_of(name);
    let mut segments: Vec<String> = Vec::new();
    let mut end: usize = chars.len();
    assert(chars@.take(end as int) =~= chars@);
    while end > 0
        invariant
            chars@ == name@,
            end <= chars@.len(),
            spec_dot_segments(name@) == spec_dot_segments(chars@.take(end as int)) + segments@.map_values(|x: String| x@),
        decreases end,
    {
        let mut k: usize = end;
        while k > 0 && chars[k - 1] != '.'
            invariant
                k <= end <= chars@.len(),
                forall|m: int| k <= m < end ==> chars@[m] != '.',
            decreases k,
        {
            k = k - 1;
        }
        let ghost t = chars@.take(end as int);
        let ghost before = segments@;
        if k == 0 {
            proof {
                lemma_last_index_absent(t, '.');
            }
            let seg = string_from_chars(&chars, 0, end);
            segments.insert(0, seg);
            proof {
                assert(chars@.take(0) =~= Seq::<char>::empty());
                assert(spec_dot_segments(chars@.take(0)) =~= Seq::<Seq<char>>::empty());
                assert(segments@.map_values(|x: String| x@) =~= seq![t] + before.map_values(|x: String| x@));
            }
            end = 0;
        } else {
            proof {
                lemma_last_index_at(t, '.', k - 1);
                assert(t.subrange(0, k - 1) =~= chars@.take(k - 1));
            }
            if k < end {
                let seg = string_from_chars(&chars, k, end);
                segments.insert(0, seg);
                proof {
                    assert(t.subrange(k as int, t.len() as int) =~= chars@.subrange(k as int, end as int));
                    assert(segments@.map_values(|x: String| x@) =~= seq![t.subrange(k as int, t.len() as int)] + before.map_values(|x: String| x@));
                }
            } else {
                proof {
                    assert(t.subrange(k as int, t.len() as int) =~= Seq::<char>::empty());
                }
            }
            end = k - 1;
        }
    }
    proof {
        assert(chars@.take(0) =~= Seq::<char>::empty());
        assert(spec_dot_segments(chars@.take(0)) =~= Seq::<Seq<char>>::empty());
        assert(spec_dot_segments(name@) =~= segments@.map_values(|x: String| x@));
    }
    segments
}

/// The type that contains a qualified member: the next-to-last segment.
pub open spec fn spec_container_type_name(qualified: Seq<char>) -> Option<Seq<char>> {
    let segs = spec_dot_segments(qualified);
    if segs.len() < 2 { None } else { Some(segs[segs.len() - 2]) }
}

/// The containing type of `Game.Player.jump` is `Player`.
pub fn container_type_name(qualified_name: &str) -> (r: Option<String>)
    ensures
        match r {
            Some(t) => spec_container_type_name(qualified_name@) == Some(t@),
            None => spec_container_type_name(qualified_name@) is None,
        },
{
    let segments = qualified_segments(qualified_name);
    if segments.len() < 2 {
        return None;
    }
    let n = segments.len();
    proof {
        assert(segments@.map_values(|x: String| x@)[n - 2] == segments@[n - 2]@);
    }
    Some(owned(segments[n - 2].as_str()))
}

/// The last segment of a qualified name, or the whole name when it has none.
pub open spec fn spec_last_qualified_segment(name: Seq<char>) -> Seq<char> {
    let segs = spec_dot_segments(name);
    if segs.len() == 0 { name } else { segs[segs.len() - 1] }
}

/// The last segment of `Game.Player` is `Player`.
pub fn last_qualified_segment(name: &str) -> (r: String)
    ensures
        r@ == spec_last_qualified_segment(name@),
{
    let segments = qualified_segments(name);
    if segments.len() == 0 {
        return owned(name);
    }
    let n = segments.len();
    proof {
        assert(segments@.map_values(|x: String| x@)[n - 1] == segments@[n - 1]@);
    }
    owned(segments[n - 1].as_str())
}

// ── Renames ──────────────────────────────────────────────────────

/// An ASCII letter or `_`, then ASCII letters, digits and `_`.
pub open spec fn spec_is_valid_identifier(value: Seq<char>) -> bool {
    &&& value.len() > 0
    &&& is_ident_start_spec(value[0])
    &&& forall|i: int| 1 <= i < value.len() ==> is_ident_char_spec(#[trigger] value[i])
}

/// Whether `value` is a PrSM identifier.
pub fn is_valid_identifier(value: &str) -> (r: bool)
    ensures
        r == spec_is_valid_identifier(value@),
{
    let chars = chars_of(value);
    if chars.len() == 0 || !is_ident_start(chars[0]) {
        return false;
    }
    let mut i: usize = 1;
    while i < chars.len()
        invariant
            chars@ == value@,
            1 <= i <= chars@.len(),
            forall|k: int| 1 <= k < i ==> is_ident_char_spec(#[trigger] chars@[k]),
        decreases chars@.len() - i,
    {
        if !is_ident_char(chars[i]) {
            return false;
        }
        i = i + 1;
    }
    true
}

/// A PrSM keyword, in any ASCII case.
pub open spec fn spec_is_reserved_keyword(v: Seq<char>) -> bool {
    ||| spec_eq_ignore_ascii_case(v, "component"@) ||| spec_eq_ignore_ascii_case(v, "asset"@)
    ||| spec_eq_ignore_ascii_case(v, "class"@) ||| spec_eq_ignore_ascii_case(v, "data"@)
    ||| spec_eq_ignore_ascii_case(v, "enum"@) ||| spec_eq_ignore_ascii_case(v, "attribute"@)
    ||| spec_eq_ignore_ascii_case(v, "serialize"@) ||| spec_eq_ignore_ascii_case(v, "require"@)
    ||| spec_eq_ignore_ascii_case(v, "optional"@) ||| spec_eq_ignore_ascii_case(v, "child"@)
    ||| spec_eq_ignore_ascii_case(v, "parent"@) ||| spec_eq_ignore_ascii_case(v, "val"@)
    ||| spec_eq_ignore_ascii_case(v, "var"@) ||| spec_eq_ignore_ascii_case(v, "const"@)
    ||| spec_eq_ignore_ascii_case(v, "fixed"@) ||| spec_eq_ignore_ascii_case(v, "public"@)
    ||| spec_eq_ignore_ascii_case(v, "private"@) ||| spec_eq_ignore_ascii_case(v, "protected"@)
    ||| spec_eq_ignore_ascii_case(v, "func"@) ||| spec_eq_ignore_ascii_case(v, "override"@)
    ||| spec_eq_ignore_ascii_case(v, "return"@) ||| spec_eq_ignore_ascii_case(v, "coroutine"@)
    ||| spec_eq_ignore_ascii_case(v, "wait"@) ||| spec_eq_ignore_ascii_case(v, "start"@)
    ||| spec_eq_ignore_ascii_case(v, "stop"@) ||| spec_eq_ignore_ascii_case(v, "stopall"@)
    ||| spec_eq_ignore_ascii_case(v, "awake"@) ||| spec_eq_ignore_ascii_case(v, "update"@)
    ||| spec_eq_ignore_ascii_case(v, "fixedupdate"@) ||| spec_eq_ignore_ascii_case(v, "lateupdate"@)
    ||| spec_eq_ignore_ascii_case(v, "onenable"@) ||| spec_eq_ignore_ascii_case(v, "ondisable"@)
    ||| spec_eq_ignore_ascii_case(v, "ondestroy"@) ||| spec_eq_ignore_ascii_case(v, "ontriggerenter"@)
    ||| spec_eq_ignore_ascii_case(v, "ontriggerexit"@) ||| spec_eq_ignore_ascii_case(v, "ontriggerstay"@)
    ||| spec_eq_ignore_ascii_case(v, "oncollisionenter"@) ||| spec_eq_ignore_ascii_case(v, "oncollisionexit"@)
    ||| spec_eq_ignore_ascii_case(v, "oncollisionstay"@) ||| spec_eq_ignore_ascii_case(v, "if"@)
    ||| spec_eq_ignore_ascii_case(v, "else"@) ||| spec_eq_ignore_ascii_case(v, "when"@)
    ||| spec_eq_ignore_ascii_case(v, "for"@) ||| spec_eq_ignore_ascii_case(v, "while"@)
    ||| spec_eq_ignore_ascii_case(v, "in"@) ||| spec_eq_ignore_ascii_case(v, "until"@)
    ||| spec_eq_ignore_ascii_case(v, "downto"@) ||| spec_eq_ignore_ascii_case(v, "step"@)
    ||| spec_eq_ignore_ascii_case(v, "break"@) ||| spec_eq_ignore_ascii_case(v, "continue"@)
    ||| spec_eq_ignore_ascii_case(v, "is"@) ||| spec_eq_ignore_ascii_case(v, "listen"@)
    ||| spec_eq_ignore_ascii_case(v, "intrinsic"@) ||| spec_eq_ignore_ascii_case(v, "using"@)
    ||| spec_eq_ignore_ascii_case(v, "null"@) ||| spec_eq_ignore_ascii_case(v, "this"@)
    ||| spec_eq_ignore_ascii_case(v, "true"@) ||| spec_eq_ignore_ascii_case(v, "false"@)
    ||| spec_eq_ignore_ascii_case(v, "nextframe"@) ||| spec_eq_ignore_ascii_case(v, "fixedframe"@)
}

/// Whether `value` is a PrSM keyword (in any ASCII case).
pub fn is_reserved_keyword(value: &str) -> (r: bool)
    ensures
        r == spec_is_reserved_keyword(value@),
{
    let v = value;
    eq_ignore_ascii_case(v, "component") || eq_ignore_ascii_case(v, "asset")
        || eq_ignore_ascii_case(v, "class") || eq_ignore_ascii_case(v, "data")
        || eq_ignore_ascii_case(v, "enum") || eq_ignore_ascii_case(v, "attribute")
        || eq_ignore_ascii_case(v, "serialize") || eq_ignore_ascii_case(v, "require")
        || eq_ignore_ascii_case(v, "optional") || eq_ignore_ascii_case(v, "child")
        || eq_ignore_ascii_case(v, "parent") || eq_ignore_ascii_case(v, "val")
        || eq_ignore_ascii_case(v, "var") || eq_ignore_ascii_case(v, "const")
        || eq_ignore_ascii_case(v, "fixed") || eq_ignore_ascii_case(v, "public")
        || eq_ignore_ascii_case(v, "private") || eq_ignore_ascii_case(v, "protected")
        || eq_ignore_ascii_case(v, "func") || eq_ignore_ascii_case(v, "override")
        || eq_ignore_ascii_case(v, "return") || eq_ignore_ascii_case(v, "coroutine")
        || eq_ignore_ascii_case(v, "wait") || eq_ignore_ascii_case(v, "start")
        || eq_ignore_ascii_case(v, "stop") || eq_ignore_ascii_case(v, "stopall")
        || eq_ignore_ascii_case(v, "awake") || eq_ignore_ascii_case(v, "update")
        || eq_ignore_ascii_case(v, "fixedupdate") || eq_ignore_ascii_case(v, "lateupdate")
        || eq_ignore_ascii_case(v, "onenable") || eq_ignore_ascii_case(v, "ondisable")
        || eq_ignore_ascii_case(v, "ondestroy") || eq_ignore_ascii_case(v, "ontriggerenter")
        || eq_ignore_ascii_case(v, "ontriggerexit") || eq_ignore_ascii_case(v, "ontriggerstay")
        || eq_ignore_ascii_case(v, "oncollisionenter") || eq_ignore_ascii_case(v, "oncollisionexit")
        || eq_ignore_ascii_case(v, "oncollisionstay") || eq_ignore_ascii_case(v, "if")
        || eq_ignore_ascii_case(v, "else") || eq_ignore_ascii_case(v, "when")
        || eq_ignore_ascii_case(v, "for") || eq_ignore_ascii_case(v, "while")
        || eq_ignore_ascii_case(v, "in") || eq_ignore_ascii_case(v, "until")
        || eq_ignore_ascii_case(v, "downto") || eq_ignore_ascii_case(v, "step")
        || eq_ignore_ascii_case(v, "break") || eq_ignore_ascii_case(v, "continue")
        || eq_ignore_ascii_case(v, "is") || eq_ignore_ascii_case(v, "listen")
        || eq_ignore_ascii_case(v, "intrinsic") || eq_ignore_ascii_case(v, "using")
        || eq_ignore_ascii_case(v, "null") || eq_ignore_ascii_case(v, "this")
        || eq_ignore_ascii_case(v, "true") || eq_ignore_ascii_case(v, "false")
        || eq_ignore_ascii_case(v, "nextframe") || eq_ignore_ascii_case(v, "fixedframe")
}

/// Why a rename target is refused, if it is: it is empty after trimming, has surrounding
/// whitespace, is no identifier, or is a keyword.
pub open spec fn spec_rename_target_error(new_name: Seq<char>) -> Option<Seq<char>> {
    let trimmed = spec_trim(new_name);
    if trimmed.len() == 0 {
        Some("Rename target cannot be empty."@)
    } else if trimmed != new_name {
        Some("Rename target cannot start or end with whitespace."@)
    } else if !spec_is_valid_identifier(trimmed) {
        Some("Rename target must be a valid PrSM identifier."@)
    } else if spec_is_reserved_keyword(trimmed) {
        Some("'"@ + trimmed + "' is a reserved PrSM keyword."@)
    } else {
        None
    }
}

/// The reason a rename to `new_name` is refused, or `None` when it is allowed.
pub fn validate_rename_target(new_name: &str) -> (r: Option<String>)
    ensures
        match r {
            Some(m) => spec_rename_target_error(new_name@) == Some(m@),
            None => spec_rename_target_error(new_name@) is None,
        },
{
    let trimmed = trim_text(&owned(new_name));
    if trimmed.as_str().is_empty() {
        return Some(owned("Rename target cannot be empty."));
    }
    if !str_eq(trimmed.as_str(), new_name) {
        return Some(owned("Rename target cannot start or end with whitespace."));
    }
    if !is_valid_identifier(trimmed.as_str()) {
        return Some(owned("Rename target must be a valid PrSM identifier."));
    }
    if is_reserved_keyword(trimmed.as_str()) {
        return Some(cat3("'", trimmed.as_str(), "' is a reserved PrSM keyword."));
    }
    None
}

// ── Symbols ──────────────────────────────────────────────────────

/// The LSP symbol kind number of an index symbol kind.
pub open spec fn spec_symbol_kind_number(kind: Seq<char>) -> u32 {
    if kind == "component"@ || kind == "class"@ || kind == "data class"@ {
        5
    } else if kind == "asset"@ {
        19
    } else if kind == "attribute"@ {
        11
    } else if kind == "enum"@ {
        10
    } else if kind == "enum-entry"@ {
        22
    } else if kind == "function"@ || kind == "coroutine"@ || kind == "lifecycle"@ {
        6
    } else if kind == "field"@ || kind == "serialize-field"@ || kind == "required-component"@
        || kind == "optional-component"@ || kind == "child-component"@ || kind == "parent-component"@ {
        8
    } else {
        13
    }
}

/// The LSP symbol kind number of an index symbol kind (13, variable, when unknown).
pub fn symbol_kind_number(kind: &str) -> (r: u32)
    ensures
        r == spec_symbol_kind_number(kind@),
{
    if str_eq(kind, "component") || str_eq(kind, "class") || str_eq(kind, "data class") {
        5
    } else if str_eq(kind, "asset") {
        19
    } else if str_eq(kind, "attribute") {
        11
    } else if str_eq(kind, "enum") {
        10
    } else if str_eq(kind, "enum-entry") {
        22
    } else if str_eq(kind, "function") || str_eq(kind, "coroutine") || str_eq(kind, "lifecycle") {
        6
    } else if str_eq(kind, "field") || str_eq(kind, "serialize-field") || str_eq(kind, "required-component")
        || str_eq(kind, "optional-component") || str_eq(kind, "child-component") || str_eq(kind, "parent-component") {
        8
    } else {
        13
    }
}

/// How well a symbol matches a workspace-symbol query (lower is better): an empty query
/// matches everything at 4; then exact name 0, exact qualified name 1, name prefix 2,
/// qualified-name substring 3, signature substring 4. Names are compared in ASCII lower
/// case; the query as given.
pub open spec fn spec_workspace_symbol_score(name: Seq<char>, qualified_name: Seq<char>, signature: Seq<char>, query: Seq<char>) -> Option<u8> {
    let n = spec_ascii_lowercase(name);
    let q = spec_ascii_lowercase(qualified_name);
    let s = spec_ascii_lowercase(signature);
    if query.len() == 0 {
        Some(4)
    } else if n == query {
        Some(0)
    } else if q == query {
        Some(1)
    } else if spec_starts_with(n, query) {
        Some(2)
    } else if spec_contains_seq(q, query) {
        Some(3)
    } else if spec_contains_seq(s, query) {
        Some(4)
    } else {
        None
    }
}

/// The rank of a symbol (by its name, qualified name and signature) for a query.
pub fn workspace_symbol_score(name: &str, qualified_name: &str, signature: &str, query: &str) -> (r: Option<u8>)
    ensures
        r == spec_workspace_symbol_score(name@, qualified_name@, signature@, query@),
{
    if query.is_empty() {
        return Some(4);
    }
    let n = ascii_lowercase(name);
    let q = ascii_lowercase(qualified_name);
    let s = ascii_lowercase(signature);
    if str_eq(n.as_str(), query) {
        return Some(0);
    }
    if str_eq(q.as_str(), query) {
        return Some(1);
    }
    if starts_with(n.as_str(), query) {
        return Some(2);
    }
    if contains_str(q.as_str(), query) {
        return Some(3);
    }
    if contains_str(s.as_str(), query) {
        return Some(4);
    }
    None
}

} // verus!
