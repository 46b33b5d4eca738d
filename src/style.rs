//! Conversion of an inline CSS declaration string into an object expression.
use vstd::prelude::*;
use crate::ast::{Expr, PropKey};
use crate::decode_xml::is_dec_digit;
use crate::text::{
    char_to_upper, chars_of, lower_of, push_char, starts_with, string_of, to_lower,
    upper_char_of,
};

verus! {

/// The characters that Unicode calls white space.
pub open spec fn is_ws(c: char) -> bool {
    ('\u{9}' <= c <= '\u{D}') || c == ' ' || c == '\u{85}' || c == '\u{A0}' || c == '\u{1680}'
        || ('\u{2000}' <= c <= '\u{200A}') || c == '\u{2028}' || c == '\u{2029}' || c
        == '\u{202F}' || c == '\u{205F}' || c == '\u{3000}'
}

pub fn is_ws_char(c: char) -> (r: bool)
    ensures
        r == is_ws(c),
{
    ('\u{9}' <= c && c <= '\u{D}') || c == ' ' || c == '\u{85}' || c == '\u{A0}' || c
        == '\u{1680}' || ('\u{2000}' <= c && c <= '\u{200A}') || c == '\u{2028}' || c
        == '\u{2029}' || c == '\u{202F}' || c == '\u{205F}' || c == '\u{3000}'
}

/// `s` without its leading and trailing white space.
#[verifier::opaque]
pub open spec fn trim(s: Seq<char>) -> Seq<char> {
    if forall|j: int| 0 <= j < s.len() ==> is_ws(#[trigger] s[j]) {
        Seq::empty()
    } else {
        let a = choose|a: int|
            0 <= a < s.len() && !is_ws(s[a]) && forall|j: int| 0 <= j < a ==> is_ws(#[trigger] s[j]);
        let b = choose|b: int|
            0 <= b < s.len() && !is_ws(s[b]) && forall|j: int|
                b < j < s.len() ==> is_ws(#[trigger] s[j]);
        s.subrange(a, b + 1)
    }
}

/// Trims the white space around `v[lo..hi]`.
pub fn trim_range(v: &Vec<char>, lo: usize, hi: usize) -> (r: (usize, usize))
    requires
        lo <= hi <= v@.len(),
    ensures
        lo <= r.0 <= r.1 <= hi,
        v@.subrange(r.0 as int, r.1 as int) == trim(v@.subrange(lo as int, hi as int)),
{
    let ghost s = v@.subrange(lo as int, hi as int);
    reveal(trim);
    let mut a = lo;
    while a < hi && is_ws_char(v[a])
        invariant
            lo <= a <= hi <= v@.len(),
            forall|j: int| lo <= j < a ==> is_ws(#[trigger] v@[j]),
        decreases hi - a,
    {
        a += 1;
    }
    if a == hi {
        assert forall|j: int| 0 <= j < s.len() implies is_ws(#[trigger] s[j]) by {
            assert(s[j] == v@[lo + j]);
        }
        return (hi, hi);
    }
    let mut b = hi;
    while b > a && is_ws_char(v[b - 1])
        invariant
            a < hi,
            !is_ws(v@[a as int]),
            a <= b <= hi <= v@.len(),
            forall|j: int| b <= j < hi ==> is_ws(#[trigger] v@[j]),
        decreases b,
    {
        b -= 1;
    }
    proof {
        let aa = a - lo;
        let bb = b - 1 - lo;
        assert(!is_ws(s[aa]));
        assert(!is_ws(s[bb]));
        assert(forall|j: int| 0 <= j < aa ==> is_ws(#[trigger] s[j])) by {
            assert forall|j: int| 0 <= j < aa implies is_ws(#[trigger] s[j]) by {
                assert(s[j] == v@[lo + j]);
            }
        }
        assert(forall|j: int| bb < j < s.len() ==> is_ws(#[trigger] s[j])) by {
            assert forall|j: int| bb < j < s.len() implies is_ws(#[trigger] s[j]) by {
                assert(s[j] == v@[lo + j]);
            }
        }
        let ca = choose|a: int|
            0 <= a < s.len() && !is_ws(s[a]) && forall|j: int| 0 <= j < a ==> is_ws(#[trigger] s[j]);
        let cb = choose|b: int|
            0 <= b < s.len() && !is_ws(s[b]) && forall|j: int|
                b < j < s.len() ==> is_ws(#[trigger] s[j]);
        assert(ca == aa) by {
            if ca < aa {
                assert(is_ws(s[ca]));
            }
            if aa < ca {
                assert(is_ws(s[aa]));
            }
        }
        assert(cb == bb) by {
            if cb < bb {
                assert(is_ws(s[bb]));
            }
            if bb < cb {
                assert(is_ws(s[cb]));
            }
        }
        assert(v@.subrange(a as int, b as int) =~= s.subrange(aa, bb + 1));
    }
    (a, b)
}

/// All characters of `s` from `i` on are decimal digits.
pub open spec fn all_digits(s: Seq<char>, i: int) -> bool {
    forall|j: int| i <= j < s.len() ==> is_dec_digit(#[trigger] s[j])
}

/// `s[b..k]` are digits, followed by the end or by `.` and at least one more digit.
pub open spec fn numeric_split(s: Seq<char>, b: int, k: int) -> bool {
    b < k <= s.len() && (forall|j: int| b <= j < k ==> is_dec_digit(#[trigger] s[j])) && (k
        == s.len() || (s[k] == '.' && k + 1 < s.len() && all_digits(s, k + 1)))
}

/// The length of an optional leading sign.
pub open spec fn sign_len(s: Seq<char>) -> int {
    if s.len() > 0 && (s[0] == '-' || s[0] == '+') {
        1
    } else {
        0
    }
}

/// An optional sign, decimal digits, and optionally `.` and more digits.
pub open spec fn is_numeric_spec(s: Seq<char>) -> bool {
    exists|k: int| #[trigger] numeric_split(s, sign_len(s), k)
}

/// Decimal digits followed by `px`.
pub open spec fn is_px_spec(s: Seq<char>) -> bool {
    s.len() >= 3 && s[s.len() - 2] == 'p' && s[s.len() - 1] == 'x' && all_digits(
        s.subrange(0, s.len() - 2),
        0,
    )
}

/// Whether the text is a decimal number literal.
pub fn is_numeric(s: &str) -> (r: bool)
    ensures
        r == is_numeric_spec(s@),
{
    let v = chars_of(s);
    let n = v.len();
    let b: usize = if n > 0 && (v[0] == '-' || v[0] == '+') {
        1
    } else {
        0
    };
    let mut k = b;
    while k < n && '0' <= v[k] && v[k] <= '9'
        invariant
            v@ == s@,
            b <= k <= n == v@.len(),
            forall|j: int| b <= j < k ==> is_dec_digit(#[trigger] v@[j]),
        decreases n - k,
    {
        k += 1;
    }
    if k == b {
        assert(!is_numeric_spec(s@)) by {
            if is_numeric_spec(s@) {
                let kk = choose|kk: int| #[trigger] numeric_split(s@, sign_len(s@), kk);
                assert(is_dec_digit(s@[b as int]));
            }
        }
        return false;
    }
    if k == n {
        assert(forall|j: int| b <= j < k ==> is_dec_digit(#[trigger] s@[j]));
        assert(numeric_split(s@, sign_len(s@), k as int));
        return true;
    }
    if v[k] != '.' || k + 1 >= n {
        assert(!is_numeric_spec(s@)) by {
            if is_numeric_spec(s@) {
                let kk = choose|kk: int| #[trigger] numeric_split(s@, sign_len(s@), kk);
                if kk < k {
                    assert(!is_dec_digit(s@[kk]));
                } else if kk > k {
                    assert(is_dec_digit(s@[k as int]));
                }
            }
        }
        return false;
    }
    let mut m = k + 1;
    while m < n && '0' <= v[m] && v[m] <= '9'
        invariant
            v@ == s@,
            k + 1 <= m <= n == v@.len(),
            forall|j: int| k + 1 <= j < m ==> is_dec_digit(#[trigger] v@[j]),
        decreases n - m,
    {
        m += 1;
    }
    if m == n {
        assert(all_digits(s@, k + 1));
        assert(numeric_split(s@, sign_len(s@), k as int));
        true
    } else {
        assert(!is_numeric_spec(s@)) by {
            if is_numeric_spec(s@) {
                let kk = choose|kk: int| #[trigger] numeric_split(s@, sign_len(s@), kk);
                if kk < k {
                    assert(!is_dec_digit(s@[kk]));
                } else if kk > k {
                    assert(is_dec_digit(s@[k as int]));
                } else {
                    assert(is_dec_digit(s@[m as int]));
                }
            }
        }
        false
    }
}

/// Whether the text is a whole number of pixels such as `24px`.
pub fn is_convertible_pixel_value(s: &str) -> (r: bool)
    ensures
        r == is_px_spec(s@),
{
    let v = chars_of(s);
    let n = v.len();
    if n < 3 || v[n - 2] != 'p' || v[n - 1] != 'x' {
        return false;
    }
    let ghost d = v@.subrange(0, n - 2);
    let mut i: usize = 0;
    while i < n - 2
        invariant
            v@ == s@,
            n == v@.len(),
            n >= 3,
            d == v@.subrange(0, n - 2),
            i <= n - 2,
            forall|j: int| 0 <= j < i ==> is_dec_digit(#[trigger] d[j]),
        decreases n - 2 - i,
    {
        if !('0' <= v[i] && v[i] <= '9') {
            assert(d[i as int] == v@[i as int]);
            return false;
        }
        assert(d[i as int] == v@[i as int]);
        i += 1;
    }
    true
}

/// Each `-` followed by a character other than a line feed replaced by the upper case of
/// that character.
pub open spec fn camel(s: Seq<char>) -> Seq<char>
    decreases s.len(),
{
    if s.len() == 0 {
        Seq::empty()
    } else if s.len() >= 2 && s[0] == '-' && s[1] != '\n' {
        upper_char_of(s[1]) + camel(s.skip(2))
    } else {
        seq![s[0]] + camel(s.skip(1))
    }
}

/// Hyphen-to-camel-case conversion of a style property name.
pub fn hyphen_to_camel_case(s: &str) -> (r: String)
    ensures
        r@ == camel(s@),
{
    let v = chars_of(s);
    let n = v.len();
    let mut out = String::new();
    let mut i: usize = 0;
    assert(v@.skip(0) =~= v@);
    while i < n
        invariant
            v@ == s@,
            n == v@.len(),
            i <= n,
            out@ + camel(v@.skip(i as int)) == camel(v@),
        decreases n - i,
    {
        let ghost rest = v@.skip(i as int);
        assert(rest.len() > 0);
        if i + 1 < n && v[i] == '-' && v[i + 1] != '\n' {
            let u = char_to_upper(v[i + 1]);
            assert(rest.skip(2) =~= v@.skip(i + 2));
            assert(rest[1] == v@[i + 1]);
            out.append(u.as_str());
            assert(out@ + camel(v@.skip(i + 2)) =~= camel(v@));
            i += 2;
        } else {
            assert(rest.skip(1) =~= v@.skip(i + 1));
            push_char(&mut out, v[i]);
            assert(out@ + camel(v@.skip(i + 1)) =~= camel(v@));
            i += 1;
        }
    }
    assert(v@.skip(n as int) =~= Seq::<char>::empty());
    assert(out@ =~= camel(v@));
    out
}

/// The property name with a leading `-ms-` reduced to `ms-`.
pub open spec fn without_ms_hyphen(l: Seq<char>) -> Seq<char> {
    if starts_with(l, seq!['-', 'm', 's', '-']) {
        l.skip(1)
    } else {
        l
    }
}

/// A custom property (`--name`) keeps its name as a string key; any other name is
/// lower-cased, loses the hyphen before `ms-`, and is camel-cased into an identifier key.
#[verifier::opaque]
pub open spec fn is_style_key(k: PropKey, key: Seq<char>) -> bool {
    if starts_with(key, seq!['-', '-']) {
        k matches PropKey::Str(n) && n@ == key
    } else {
        k matches PropKey::Ident(n) && n@ == camel(without_ms_hyphen(lower_of(key)))
    }
}

/// A number becomes a numeric literal, a whole number of pixels the numeric literal of its
/// digits, anything else a string literal.
#[verifier::opaque]
pub open spec fn is_style_value(e: Expr, v: Seq<char>) -> bool {
    if is_numeric_spec(v) {
        e matches Expr::Num(t) && t@ == v
    } else if is_px_spec(v) {
        e matches Expr::Num(t) && t@ == v.subrange(0, v.len() - 2)
    } else {
        e matches Expr::Str(t) && t@ == v
    }
}

/// Formats a style property name into an object key.
pub fn format_key(key: &str) -> (r: PropKey)
    ensures
        is_style_key(r, key@),
{
    reveal(is_style_key);
    let v = chars_of(key);
    if v.len() >= 2 && v[0] == '-' && v[1] == '-' {
        assert(v@.subrange(0, 2) =~= seq!['-', '-']);
        return PropKey::Str(string_of(v.as_slice()));
    }
    assert(!starts_with(key@, seq!['-', '-'])) by {
        if starts_with(key@, seq!['-', '-']) {
            assert(key@.subrange(0, 2)[0] == key@[0]);
            assert(key@.subrange(0, 2)[1] == key@[1]);
        }
    }
    let lower = to_lower(key);
    let l = chars_of(lower.as_str());
    let ghost ms = seq!['-', 'm', 's', '-'];
    let stripped = if l.len() >= 4 && l[0] == '-' && l[1] == 'm' && l[2] == 's' && l[3] == '-' {
        assert(l@.subrange(0, 4) =~= ms);
        string_of(&l.as_slice()[1..l.len()])
    } else {
        assert(!starts_with(l@, ms)) by {
            if starts_with(l@, ms) {
                assert(l@.subrange(0, 4)[0] == l@[0]);
                assert(l@.subrange(0, 4)[1] == l@[1]);
                assert(l@.subrange(0, 4)[2] == l@[2]);
                assert(l@.subrange(0, 4)[3] == l@[3]);
            }
        }
        string_of(l.as_slice())
    };
    assert(stripped@ =~= without_ms_hyphen(lower_of(key@)));
    PropKey::Ident(hyphen_to_camel_case(stripped.as_str()))
}

/// Formats a style property value into an expression.
pub fn format_value(value: &str) -> (r: Expr)
    ensures
        is_style_value(r, value@),
{
    reveal(is_style_value);
    if is_numeric(value) {
        return Expr::Num(string_of(chars_of(value).as_slice()));
    }
    if is_convertible_pixel_value(value) {
        let v = chars_of(value);
        return Expr::Num(string_of(&v.as_slice()[0..v.len() - 2]));
    }
    Expr::Str(string_of(chars_of(value).as_slice()))
}

/// The pieces of `s` between the separators `;`, as `str::split` gives them.
pub open spec fn segments(s: Seq<char>) -> Seq<Seq<char>>
    decreases s.len(),
{
    if s.len() == 0 {
        seq![Seq::empty()]
    } else if s.last() == ';' {
        segments(s.drop_last()).push(Seq::empty())
    } else {
        let p = segments(s.drop_last());
        p.update(p.len() - 1, p.last().push(s.last()))
    }
}

/// Position of the first `:` in `t`, if any.
#[verifier::opaque]
pub open spec fn colon_pos(t: Seq<char>) -> Option<int> {
    if exists|i: int| 0 <= i < t.len() && t[i] == ':' {
        Some(choose|i: int| 0 <= i < t.len() && t[i] == ':' && forall|j: int| 0 <= j < i ==> t[j] != ':')
    } else {
        None
    }
}

/// The trimmed name and value of one declaration, if it has a colon.
pub open spec fn entry_of(seg: Seq<char>) -> Seq<(Seq<char>, Seq<char>)> {
    let t = trim(seg);
    if t.len() == 0 || colon_pos(t) is None {
        Seq::empty()
    } else {
        let c = colon_pos(t).unwrap();
        seq![(trim(t.subrange(0, c)), trim(t.subrange(c + 1, t.len() as int)))]
    }
}

/// The declarations of the given pieces, in order.
pub open spec fn entries(segs: Seq<Seq<char>>) -> Seq<(Seq<char>, Seq<char>)>
    decreases segs.len(),
{
    if segs.len() == 0 {
        Seq::empty()
    } else {
        entries(segs.drop_last()) + entry_of(segs.last())
    }
}

/// The declarations of an inline style.
pub open spec fn style_entries(s: Seq<char>) -> Seq<(Seq<char>, Seq<char>)> {
    entries(segments(s))
}

/// Whether `props` holds exactly the formatted declarations `es`, in order.
pub open spec fn is_style_object(props: Seq<(PropKey, Expr)>, es: Seq<(Seq<char>, Seq<char>)>) -> bool {
    props.len() == es.len() && forall|i: int|
        0 <= i < es.len() ==> is_style_key(#[trigger] props[i].0, es[i].0) && is_style_value(
            props[i].1,
            es[i].1,
        )
}

/// The declaration of `v[lo..hi]`, if it has one.
#[verifier::rlimit(50)]
fn parse_entry(v: &Vec<char>, lo: usize, hi: usize) -> (r: Option<(PropKey, Expr)>)
    requires
        lo <= hi <= v@.len(),
    ensures
        r is None ==> entry_of(v@.subrange(lo as int, hi as int)).len() == 0,
        r matches Some(p) ==> entry_of(v@.subrange(lo as int, hi as int)).len() == 1 && is_style_key(
            p.0,
            entry_of(v@.subrange(lo as int, hi as int))[0].0,
        ) && is_style_value(p.1, entry_of(v@.subrange(lo as int, hi as int))[0].1),
{
    let ghost seg = v@.subrange(lo as int, hi as int);
    reveal(colon_pos);
    let (a, b) = trim_range(v, lo, hi);
    let ghost t = v@.subrange(a as int, b as int);
    if a == b {
        return None;
    }
    let mut c = a;
    while c < b && v[c] != ':'
        invariant
            a <= c <= b <= v@.len(),
            forall|j: int| a <= j < c ==> v@[j] != ':',
        decreases b - c,
    {
        c += 1;
    }
    if c == b {
        assert(colon_pos(t) is None) by {
            if exists|i: int| 0 <= i < t.len() && t[i] == ':' {
                let i = choose|i: int| 0 <= i < t.len() && t[i] == ':';
                assert(t[i] == v@[a + i]);
            }
        }
        return None;
    }
    proof {
        let ci = c - a;
        assert(t[ci] == ':');
        assert forall|j: int| 0 <= j < ci implies t[j] != ':' by {
            assert(t[j] == v@[a + j]);
        }
        let cp = colon_pos(t).unwrap();
        assert(cp == ci) by {
            if cp < ci {
                assert(t[cp] == v@[a + cp]);
            }
            if ci < cp {
                assert(t[ci] != ':');
            }
        }
        assert(t.subrange(0, ci) =~= v@.subrange(a as int, c as int));
        assert(t.subrange(ci + 1, t.len() as int) =~= v@.subrange(c + 1, b as int));
    }
    let (ka, kb) = trim_range(v, a, c);
    let (va, vb) = trim_range(v, c + 1, b);
    let key = string_of(&v.as_slice()[ka..kb]);
    let value = string_of(&v.as_slice()[va..vb]);
    Some((format_key(key.as_str()), format_value(value.as_str())))
}

proof fn lemma_segments_step(s: Seq<char>, c: char)
    ensures
        c == ';' ==> segments(s.push(c)) == segments(s).push(Seq::empty()),
        c != ';' ==> segments(s.push(c)) == segments(s).update(
            segments(s).len() - 1,
            segments(s).last().push(c),
        ),
{
    assert(s.push(c).drop_last() =~= s);
}

proof fn lemma_segments_nonempty(s: Seq<char>)
    ensures
        segments(s).len() >= 1,
    decreases s.len(),
{
    if s.len() > 0 {
        lemma_segments_nonempty(s.drop_last());
    }
}

/// Converts an inline style such as `"font-size: 24px; --x: 1"` into an object expression
/// with one property per declaration, in order; pieces without a colon are left out.
pub fn string_to_object_style(raw_style: &str) -> (r: Expr)
    ensures
        r matches Expr::Object(ps) && is_style_object(ps@, style_entries(raw_style@)),
{
    let v = chars_of(raw_style);
    let n = v.len();
    let mut props: Vec<(PropKey, Expr)> = Vec::new();
    let mut st: usize = 0;
    let mut i: usize = 0;
    let ghost mut done: Seq<Seq<char>> = Seq::empty();
    assert(v@.subrange(0, 0) =~= Seq::<char>::empty());
    while i < n
        invariant
            v@ == raw_style@,
            n == v@.len(),
            st <= i <= n,
            segments(v@.subrange(0, i as int)) == done.push(v@.subrange(st as int, i as int)),
            is_style_object(props@, entries(done)),
        decreases n - i,
    {
        proof {
            lemma_segments_step(v@.subrange(0, i as int), v@[i as int]);
            assert(v@.subrange(0, i + 1) =~= v@.subrange(0, i as int).push(v@[i as int]));
        }
        if v[i] == ';' {
            let e = parse_entry(&v, st, i);
            let ghost seg = v@.subrange(st as int, i as int);
            let ghost old_props = props@;
            proof {
                assert(done.push(seg).drop_last() =~= done);
            }
            match e {
                Some(p) => {
                    props.push(p);
                },
                None => {},
            }
            proof {
                let es = entries(done.push(seg));
                assert(es == entries(done) + entry_of(seg));
                assert forall|k: int| 0 <= k < es.len() implies is_style_key(
                    #[trigger] props@[k].0,
                    es[k].0,
                ) && is_style_value(props@[k].1, es[k].1) by {
                    if k < entries(done).len() {
                        assert(props@[k] == old_props[k]);
                        assert(es[k] == entries(done)[k]);
                        assert(is_style_key(old_props[k].0, entries(done)[k].0));
                    } else {
                        assert(es[k] == entry_of(seg)[0]);
                    }
                }
                done = done.push(seg);
                assert(v@.subrange(i + 1, i + 1) =~= Seq::<char>::empty());
            }
            st = i + 1;
        } else {
            proof {
                assert(v@.subrange(st as int, i + 1) =~= v@.subrange(st as int, i as int).push(
                    v@[i as int],
                ));
                assert(done.push(v@.subrange(st as int, i as int)).update(
                    done.len() as int,
                    v@.subrange(st as int, i as int).push(v@[i as int]),
                ) =~= done.push(v@.subrange(st as int, i + 1)));
            }
        }
        i += 1;
    }
    let e = parse_entry(&v, st, n);
    let ghost seg = v@.subrange(st as int, n as int);
    let ghost old_props = props@;
    match e {
        Some(p) => {
            props.push(p);
        },
        None => {},
    }
    proof {
        assert(v@.subrange(0, n as int) =~= v@);
        assert(done.push(seg).drop_last() =~= done);
        let es = entries(done.push(seg));
        assert(es == entries(done) + entry_of(seg));
        assert forall|k: int| 0 <= k < es.len() implies is_style_key(
            #[trigger] props@[k].0,
            es[k].0,
        ) && is_style_value(props@[k].1, es[k].1) by {
            if k < entries(done).len() {
                assert(props@[k] == old_props[k]);
                assert(es[k] == entries(done)[k]);
            } else {
                assert(es[k] == entry_of(seg)[0]);
            }
        }
    }
    Expr::Object(props)
}

} // verus!
