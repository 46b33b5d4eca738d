//! Character-level helpers shared by the converters.
use vstd::prelude::*;
use vstd::std_specs::iter::IteratorSpec;

verus! {

/// The result of Unicode lower-casing a string.
pub uninterp spec fn lower_of(s: Seq<char>) -> Seq<char>;

/// The result of Unicode upper-casing one character.
pub uninterp spec fn upper_char_of(c: char) -> Seq<char>;

/// Relies on `String::push`: the character is appended at the end.
#[verifier::external_body]
pub(crate) fn push_char(s: &mut String, c: char)
    ensures
        final(s)@ == old(s)@.push(c),
{
    s.push(c)
}

/// Relies on `str::to_lowercase`: the result depends on the characters alone.
#[verifier::external_body]
pub(crate) fn to_lower(s: &str) -> (r: String)
    ensures
        r@ == lower_of(s@),
{
    s.to_lowercase()
}

/// Relies on `char::to_uppercase`: the upper-case mapping of one character.
#[verifier::external_body]
pub(crate) fn char_to_upper(c: char) -> (r: String)
    ensures
        r@ == upper_char_of(c),
{
    c.to_uppercase().collect()
}

/// Unicode scalar values: code points outside the surrogate range.
pub open spec fn is_scalar(v: int) -> bool {
    0 <= v <= 0x10FFFF && !(0xD800 <= v <= 0xDFFF)
}

/// Relies on `char::from_u32`: `Some` exactly for scalar values, holding that value.
#[verifier::external_body]
pub(crate) fn char_from_u32(v: u32) -> (r: Option<char>)
    ensures
        r.is_some() <==> is_scalar(v as int),
        r matches Some(c) ==> c as u32 == v && c == (v as int) as char,
{
    char::from_u32(v)
}

/// The characters of a string, one per element.
pub fn chars_of(s: &str) -> (r: Vec<char>)
    ensures
        r@ == s@,
{
    broadcast use vstd::string::axiom_spec_iter, vstd::string::next_postcondition;

    let mut it = s.chars();
    let mut v: Vec<char> = Vec::new();
    loop
        invariant
            v@ + it.remaining() == s@,
            it.decrease() is Some,
        decreases it.decrease()->0,
    {
        let ghost before = it.remaining();
        match it.next() {
            Some(c) => {
                v.push(c);
                assert(v@ + it.remaining() =~= s@) by {
                    assert(before =~= seq![c] + before.drop_first());
                }
            },
            None => {
                assert(v@ =~= s@);
                return v;
            },
        }
    }
}

/// Appends a run of characters to a string.
pub fn push_chars(s: &mut String, v: &[char])
    ensures
        final(s)@ == old(s)@ + v@,
{
    let mut i: usize = 0;
    while i < v.len()
        invariant
            i <= v@.len(),
            s@ == old(s)@ + v@.subrange(0, i as int),
        decreases v@.len() - i,
    {
        push_char(s, v[i]);
        i += 1;
        assert(v@.subrange(0, i as int) =~= v@.subrange(0, i - 1) .push(v@[i - 1]));
    }
    assert(v@.subrange(0, v@.len() as int) =~= v@);
}

/// A string holding exactly the given characters.
pub fn string_of(v: &[char]) -> (r: String)
    ensures
        r@ == v@,
{
    let mut s = String::new();
    push_chars(&mut s, v);
    assert(s@ =~= v@);
    s
}

/// Character-wise equality of two strings.
pub fn str_eq(a: &str, b: &str) -> (r: bool)
    ensures
        r == (a@ == b@),
{
    let x = String::from_str(a);
    let y = String::from_str(b);
    x == y
}

/// Whether `s` begins with `p`.
pub open spec fn starts_with(s: Seq<char>, p: Seq<char>) -> bool {
    p.len() <= s.len() && s.subrange(0, p.len() as int) == p
}

pub fn seq_starts_with(s: &[char], p: &[char]) -> (r: bool)
    ensures
        r == starts_with(s@, p@),
{
    if p.len() > s.len() {
        return false;
    }
    let mut i: usize = 0;
    while i < p.len()
        invariant
            p@.len() <= s@.len(),
            i <= p@.len(),
            forall|j: int| 0 <= j < i ==> s@[j] == p@[j],
        decreases p@.len() - i,
    {
        if s[i] != p[i] {
            assert(s@.subrange(0, p@.len() as int)[i as int] != p@[i as int]);
            return false;
        }
        i += 1;
    }
    assert(s@.subrange(0, p@.len() as int) =~= p@);
    true
}

/// A string in the escaped-expression form `{...}`.
pub open spec fn is_braced(s: Seq<char>) -> bool {
    s.len() >= 2 && s[0] == '{' && s[s.len() - 1] == '}'
}

/// Whether a string literal is wrapped in braces, and what lies inside them.
pub fn unbrace(s: &str) -> (r: (bool, String))
    ensures
        r.0 == is_braced(s@),
        r.0 ==> r.1@ == s@.subrange(1, s@.len() - 1),
        !r.0 ==> r.1@ == s@,
{
    let v = chars_of(s);
    let n = v.len();
    if n >= 2 && v[0] == '{' && v[n - 1] == '}' {
        let inner = string_of(&v.as_slice()[1..n - 1]);
        (true, inner)
    } else {
        (false, string_of(v.as_slice()))
    }
}

} // verus!
