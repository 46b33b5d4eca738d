//! Per-call state: the file being converted, the component's name and the caller.
use vstd::prelude::*;
use crate::text::{char_to_upper, chars_of, string_of, upper_char_of};

verus! {

/// The tool that asked for the conversion.
pub struct Caller {
    pub name: Option<String>,
    /// Statements exported before, to be kept after the component's own named export.
    pub previous_export: Option<String>,
}

/// The state as the caller gives it.
pub struct Config {
    pub file_path: Option<String>,
    pub component_name: Option<String>,
    pub caller: Option<Caller>,
}

/// The state with the component's name settled.
pub struct InternalConfig {
    pub file_path: Option<String>,
    pub component_name: String,
    pub caller: Option<Caller>,
}

impl Default for InternalConfig {
    fn default() -> (r: Self)
        ensures
            r.file_path is None,
            r.component_name@ == "SvgComponent"@,
            r.caller is None,
    {
        InternalConfig {
            file_path: None,
            component_name: String::from_str("SvgComponent"),
            caller: None,
        }
    }
}

/// `s` with its first character upper-cased.
pub open spec fn upper_first(s: Seq<char>) -> Seq<char> {
    if s.len() == 0 {
        s
    } else {
        upper_char_of(s[0]) + s.skip(1)
    }
}

/// Upper-cases the first character of a string.
pub fn uppercase_first_letter(s: &str) -> (r: String)
    ensures
        r@ == upper_first(s@),
{
    let v = chars_of(s);
    if v.len() == 0 {
        return String::new();
    }
    let mut out = char_to_upper(v[0]);
    let rest = string_of(&v.as_slice()[1..v.len()]);
    out.append(rest.as_str());
    out
}

/// The characters that a component name derived from a file keeps.
pub open spec fn is_name_char(c: char) -> bool {
    ('a' <= c <= 'z') || ('A' <= c <= 'Z') || ('0' <= c <= '9') || c == ' ' || c == '_' || c == '-'
}

pub open spec fn is_separator(c: char) -> bool {
    c == '_' || c == '.' || c == '-' || c == ' '
}

pub open spec fn is_digit(c: char) -> bool {
    '0' <= c <= '9'
}

/// Length of the run of characters satisfying `p` at the start of `s`.
pub open spec fn run_len(s: Seq<char>, sep: bool) -> nat
    decreases s.len(),
{
    if s.len() > 0 && (if sep { is_separator(s[0]) } else { is_digit(s[0]) }) {
        1 + run_len(s.skip(1), sep)
    } else {
        0
    }
}

/// Each run of separators removed, and the character after it upper-cased.
pub open spec fn join_words(s: Seq<char>) -> Seq<char>
    decreases s.len(),
{
    if s.len() == 0 {
        Seq::empty()
    } else if is_separator(s[0]) {
        let k = run_len(s, true);
        if k >= s.len() {
            Seq::empty()
        } else {
            upper_char_of(s[k as int]) + join_words(s.skip(k as int + 1))
        }
    } else {
        seq![s[0]] + join_words(s.skip(1))
    }
}

/// The character after each run of digits upper-cased.
pub open spec fn upper_after_digits(s: Seq<char>) -> Seq<char>
    decreases s.len(),
{
    if s.len() == 0 {
        Seq::empty()
    } else if is_digit(s[0]) {
        let k = run_len(s, false);
        if k >= s.len() {
            s
        } else {
            s.subrange(0, k as int) + upper_char_of(s[k as int]) + upper_after_digits(s.skip(k as int + 1))
        }
    } else {
        seq![s[0]] + upper_after_digits(s.skip(1))
    }
}

/// Pascal case of a name made of letters, digits, spaces, `_` and `-`.
pub open spec fn pascal(s: Seq<char>) -> Seq<char> {
    upper_first(upper_after_digits(join_words(s)))
}

proof fn lemma_run_len(s: Seq<char>, sep: bool)
    ensures
        run_len(s, sep) <= s.len(),
        forall|j: int|
            0 <= j < run_len(s, sep) ==> (if sep {
                is_separator(#[trigger] s[j])
            } else {
                is_digit(s[j])
            }),
        run_len(s, sep) < s.len() ==> !(if sep {
            is_separator(s[run_len(s, sep) as int])
        } else {
            is_digit(s[run_len(s, sep) as int])
        }),
    decreases s.len(),
{
    if s.len() > 0 && (if sep { is_separator(s[0]) } else { is_digit(s[0]) }) {
        lemma_run_len(s.skip(1), sep);
        assert forall|j: int| 0 <= j < run_len(s, sep) implies (if sep {
            is_separator(#[trigger] s[j])
        } else {
            is_digit(s[j])
        }) by {
            if j > 0 {
                assert(s.skip(1)[j - 1] == s[j]);
            }
        }
        if run_len(s, sep) < s.len() {
            assert(s.skip(1)[run_len(s.skip(1), sep) as int] == s[run_len(s, sep) as int]);
        }
    }
}

fn is_run_char(c: char, sep: bool) -> (r: bool)
    ensures
        r == (if sep { is_separator(c) } else { is_digit(c) }),
{
    if sep {
        c == '_' || c == '.' || c == '-' || c == ' '
    } else {
        '0' <= c && c <= '9'
    }
}

/// The end of the run of separators (or digits) that starts at `i`.
fn run_end(v: &Vec<char>, i: usize, sep: bool) -> (r: usize)
    requires
        i <= v@.len(),
    ensures
        r == i + run_len(v@.skip(i as int), sep),
        i <= r <= v@.len(),
{
    let mut j = i;
    while j < v.len() && is_run_char(v[j], sep)
        invariant
            i <= j <= v@.len(),
            forall|m: int|
                i <= m < j ==> (if sep {
                    is_separator(#[trigger] v@[m])
                } else {
                    is_digit(v@[m])
                }),
        decreases v@.len() - j,
    {
        j += 1;
    }
    proof {
        let s = v@.skip(i as int);
        lemma_run_len(s, sep);
        let k = run_len(s, sep);
        if k < j - i {
            assert(s[k as int] == v@[i + k]);
        } else if k > j - i {
            assert(s[j - i] == v@[j as int]);
        }
    }
    j
}

fn join_words_exec(v: &Vec<char>) -> (r: Vec<char>)
    ensures
        r@ == join_words(v@),
{
    let mut out: Vec<char> = Vec::new();
    let mut i: usize = 0;
    assert(v@.skip(0) =~= v@);
    while i < v.len()
        invariant
            i <= v@.len(),
            out@ + join_words(v@.skip(i as int)) == join_words(v@),
        decreases v@.len() - i,
    {
        let ghost rest = v@.skip(i as int);
        if is_run_char(v[i], true) {
            let k = run_end(v, i, true);
            if k >= v.len() {
                assert(join_words(rest) =~= Seq::<char>::empty());
                assert(out@ =~= join_words(v@));
                return out;
            }
            let u = char_to_upper(v[k]);
            let uv = chars_of(u.as_str());
            assert(rest[k - i] == v@[k as int]);
            assert(rest.skip(k - i + 1) =~= v@.skip(k + 1));
            let mut j: usize = 0;
            let ghost before = out@;
            while j < uv.len()
                invariant
                    j <= uv@.len(),
                    out@ == before + uv@.subrange(0, j as int),
                decreases uv@.len() - j,
            {
                out.push(uv[j]);
                j += 1;
                assert(uv@.subrange(0, j as int) =~= uv@.subrange(0, j - 1).push(uv@[j - 1]));
            }
            assert(uv@.subrange(0, uv@.len() as int) =~= uv@);
            assert(out@ + join_words(v@.skip(k + 1)) =~= join_words(v@));
            i = k + 1;
        } else {
            assert(rest.skip(1) =~= v@.skip(i + 1));
            out.push(v[i]);
            assert(out@ + join_words(v@.skip(i + 1)) =~= join_words(v@));
            i += 1;
        }
    }
    assert(v@.skip(v@.len() as int) =~= Seq::<char>::empty());
    assert(out@ =~= join_words(v@));
    out
}

fn upper_after_digits_exec(v: &Vec<char>) -> (r: Vec<char>)
    ensures
        r@ == upper_after_digits(v@),
{
    let mut out: Vec<char> = Vec::new();
    let mut i: usize = 0;
    assert(v@.skip(0) =~= v@);
    while i < v.len()
        invariant
            i <= v@.len(),
            out@ + upper_after_digits(v@.skip(i as int)) == upper_after_digits(v@),
        decreases v@.len() - i,
    {
        let ghost rest = v@.skip(i as int);
        if is_run_char(v[i], false) {
            let k = run_end(v, i, false);
            let ghost before = out@;
            let mut m = i;
            while m < k
                invariant
                    i <= m <= k <= v@.len(),
                    out@ == before + v@.subrange(i as int, m as int),
                decreases k - m,
            {
                out.push(v[m]);
                m += 1;
                assert(v@.subrange(i as int, m as int) =~= v@.subrange(i as int, m - 1).push(
                    v@[m - 1],
                ));
            }
            assert(rest.subrange(0, k - i) =~= v@.subrange(i as int, k as int));
            if k >= v.len() {
                assert(rest =~= v@.subrange(i as int, k as int));
                assert(out@ =~= upper_after_digits(v@));
                return out;
            }
            let u = char_to_upper(v[k]);
            let uv = chars_of(u.as_str());
            assert(rest[k - i] == v@[k as int]);
            assert(rest.skip(k - i + 1) =~= v@.skip(k + 1));
            let mut j: usize = 0;
            let ghost before2 = out@;
            while j < uv.len()
                invariant
                    j <= uv@.len(),
                    out@ == before2 + uv@.subrange(0, j as int),
                decreases uv@.len() - j,
            {
                out.push(uv[j]);
                j += 1;
                assert(uv@.subrange(0, j as int) =~= uv@.subrange(0, j - 1).push(uv@[j - 1]));
            }
            assert(uv@.subrange(0, uv@.len() as int) =~= uv@);
            assert(out@ + upper_after_digits(v@.skip(k + 1)) =~= upper_after_digits(v@));
            i = k + 1;
        } else {
            assert(rest.skip(1) =~= v@.skip(i + 1));
            out.push(v[i]);
            assert(out@ + upper_after_digits(v@.skip(i + 1)) =~= upper_after_digits(v@));
            i += 1;
        }
    }
    assert(v@.skip(v@.len() as int) =~= Seq::<char>::empty());
    assert(out@ =~= upper_after_digits(v@));
    out
}

/// Pascal case: separators removed with the following character upper-cased, the character
/// after each run of digits upper-cased, and the first character upper-cased.
pub fn pascal_case(input: &str) -> (r: String)
    ensures
        r@ == pascal(input@),
{
    let v = chars_of(input);
    let a = join_words_exec(&v);
    let b = upper_after_digits_exec(&a);
    let s = string_of(b.as_slice());
    uppercase_first_letter(s.as_str())
}

/// The characters of `s` that a derived component name keeps.
pub open spec fn keep_name_chars(s: Seq<char>) -> Seq<char>
    decreases s.len(),
{
    if s.len() == 0 {
        Seq::empty()
    } else if is_name_char(s.last()) {
        keep_name_chars(s.drop_last()).push(s.last())
    } else {
        keep_name_chars(s.drop_last())
    }
}

/// The position just after the last `/` of `s` (0 when there is none).
pub open spec fn base_start(s: Seq<char>) -> int
    decreases s.len(),
{
    if s.len() == 0 {
        0
    } else if s.last() == '/' {
        s.len() as int
    } else {
        base_start(s.drop_last())
    }
}

/// The path without its trailing slashes.
pub open spec fn trim_slashes(s: Seq<char>) -> Seq<char>
    decreases s.len(),
{
    if s.len() > 0 && s.last() == '/' {
        trim_slashes(s.drop_last())
    } else {
        s
    }
}

/// The file's name: the last component of the path.
pub open spec fn file_name(path: Seq<char>) -> Seq<char> {
    let t = trim_slashes(path);
    t.skip(base_start(t))
}

/// The position of the first `.` at or after `from`, or the length when there is none.
pub open spec fn dot_from(s: Seq<char>, from: int) -> int
    decreases s.len() - from,
{
    if from >= s.len() {
        s.len() as int
    } else if from >= 0 && s[from] == '.' {
        from
    } else {
        dot_from(s, from + 1)
    }
}

/// The file name up to its first `.` that does not begin it.
pub open spec fn file_prefix(name: Seq<char>) -> Seq<char> {
    name.subrange(0, dot_from(name, 1))
}

/// The component name derived from a file path.
pub open spec fn component_name_of(path: Seq<char>) -> Seq<char> {
    "Svg"@ + pascal(keep_name_chars(file_prefix(file_name(path))))
}

/// Derives a component name from a file path: `Svg` and the Pascal case of the file's
/// name up to its extension, with characters other than letters, digits, spaces, `_` and
/// `-` dropped.
pub fn get_component_name(file_path: &str) -> (r: String)
    ensures
        r@ == component_name_of(file_path@),
{
    let v = chars_of(file_path);
    // without trailing slashes
    let mut end = v.len();
    assert(v@.subrange(0, v@.len() as int) =~= v@);
    while end > 0 && v[end - 1] == '/'
        invariant
            end <= v@.len(),
            trim_slashes(v@) == trim_slashes(v@.subrange(0, end as int)),
        decreases end,
    {
        assert(v@.subrange(0, end as int).drop_last() =~= v@.subrange(0, end - 1));
        end -= 1;
    }
    let ghost t = v@.subrange(0, end as int);
    assert(trim_slashes(v@) == t) by {
        assert(v@.subrange(0, v@.len() as int) =~= v@);
        if end > 0 {
            assert(t.last() == v@[end - 1]);
        }
    }
    // start of the last component
    let mut start = end;
    while start > 0 && v[start - 1] != '/'
        invariant
            start <= end,
            end <= v@.len(),
            t == v@.subrange(0, end as int),
            base_start(t) == base_start(v@.subrange(0, start as int)),
        decreases start,
    {
        assert(v@.subrange(0, start as int).drop_last() =~= v@.subrange(0, start - 1));
        start -= 1;
    }
    assert(base_start(t) == start) by {
        assert(v@.subrange(0, end as int) =~= t);
        if start > 0 {
            assert(v@.subrange(0, start as int).last() == v@[start - 1]);
        }
    }
    let ghost name = t.skip(start as int);
    // up to the first dot after the first character
    let mut stop = if start < end { start + 1 } else { end };
    assert(dot_from(name, 1) == dot_from(name, (stop - start) as int));
    while stop < end && v[stop] != '.'
        invariant
            start <= stop <= end <= v@.len(),
            name == v@.subrange(start as int, end as int),
            dot_from(name, 1) == dot_from(name, (stop - start) as int),
            stop > start || start == end,
        decreases end - stop,
    {
        assert(name[stop - start] == v@[stop as int]);
        stop += 1;
    }
    proof {
        if stop < end {
            assert(name[stop - start] == v@[stop as int]);
        }
    }
    assert(file_prefix(name) =~= v@.subrange(start as int, stop as int));
    let mut kept: Vec<char> = Vec::new();
    let mut i = start;
    assert(v@.subrange(start as int, start as int) =~= Seq::<char>::empty());
    while i < stop
        invariant
            start <= i <= stop <= v@.len(),
            kept@ == keep_name_chars(v@.subrange(start as int, i as int)),
        decreases stop - i,
    {
        let c = v[i];
        assert(v@.subrange(start as int, i + 1).drop_last() =~= v@.subrange(start as int, i as int));
        if ('a' <= c && c <= 'z') || ('A' <= c && c <= 'Z') || ('0' <= c && c <= '9') || c == ' '
            || c == '_' || c == '-' {
            kept.push(c);
        }
        i += 1;
    }
    let kept_s = string_of(kept.as_slice());
    let p = pascal_case(kept_s.as_str());
    let mut out = String::from_str("Svg");
    out.append(p.as_str());
    out
}

/// The component's name: the explicit one if given, else one derived from the file path,
/// else `SvgComponent`.
pub open spec fn expanded_name(state: Option<&Config>) -> Seq<char> {
    match state {
        Some(s) => match s.component_name {
            Some(n) => n@,
            None => match s.file_path {
                Some(p) => component_name_of(p@),
                None => "SvgComponent"@,
            },
        },
        None => "SvgComponent"@,
    }
}

fn clone_opt(s: &Option<String>) -> (r: Option<String>)
    ensures
        r is Some <==> s is Some,
        r matches Some(v) ==> v@ == s->0@,
{
    match s {
        Some(v) => Some(v.clone()),
        None => None,
    }
}

fn clone_caller(c: &Option<Caller>) -> (r: Option<Caller>)
    ensures
        r is Some <==> c is Some,
        r matches Some(v) ==> (v.name is Some <==> c->0.name is Some) && (v.name matches Some(
            n,
        ) ==> n@ == c->0.name->0@) && (v.previous_export is Some <==> c->0.previous_export is Some)
            && (v.previous_export matches Some(p) ==> p@ == c->0.previous_export->0@),
{
    match c {
        Some(v) => Some(Caller { name: clone_opt(&v.name), previous_export: clone_opt(&v.previous_export) }),
        None => None,
    }
}

/// Settles the component's name; the file path and the caller are kept.
pub fn expand_state(state: Option<&Config>) -> (r: InternalConfig)
    ensures
        r.component_name@ == expanded_name(state),
        r.file_path is Some <==> (state matches Some(s) && s.file_path is Some),
        r.file_path matches Some(p) ==> p@ == state->0.file_path->0@,
        r.caller is Some <==> (state matches Some(s) && s.caller is Some),
        r.caller matches Some(c) ==> (c.previous_export is Some <==> state->0.caller->0.previous_export is Some)
            && (c.previous_export matches Some(p) ==> p@ == state->0.caller->0.previous_export->0@),
{
    match state {
        Some(s) => {
            let name = match &s.component_name {
                Some(n) => n.clone(),
                None => match &s.file_path {
                    None => String::from_str("SvgComponent"),
                    Some(p) => get_component_name(p.as_str()),
                },
            };
            InternalConfig {
                file_path: clone_opt(&s.file_path),
                component_name: name,
                caller: clone_caller(&s.caller),
            }
        },
        None => InternalConfig {
            file_path: None,
            component_name: String::from_str("SvgComponent"),
            caller: None,
        },
    }
}

} // verus!
