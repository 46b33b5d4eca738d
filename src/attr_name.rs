//! Mapping of markup attribute names to component prop names.
use vstd::prelude::*;
use crate::text::{chars_of, lower_of, push_char, seq_starts_with, starts_with, str_eq, string_of, to_lower};

verus! {

/// Upper-case letters that the kebab-casing turns into `-` and their lower case.
pub open spec fn is_kebab_upper(c: char) -> bool {
    ('A' <= c <= 'Z') || ('\u{C0}' <= c <= '\u{D6}') || ('\u{D8}' <= c <= '\u{DE}')
}

pub open spec fn kebab_piece(c: char) -> Seq<char> {
    if is_kebab_upper(c) {
        seq!['-', ((c as int) + 32) as char]
    } else {
        seq![c]
    }
}

/// Each upper-case letter replaced by `-` and its lower case.
pub open spec fn kebab(s: Seq<char>) -> Seq<char>
    decreases s.len(),
{
    if s.len() == 0 {
        Seq::empty()
    } else {
        kebab(s.drop_last()) + kebab_piece(s.last())
    }
}

/// The characters of `s` other than `-`.
pub open spec fn without_hyphens(s: Seq<char>) -> Seq<char>
    decreases s.len(),
{
    if s.len() == 0 {
        Seq::empty()
    } else if s.last() == '-' {
        without_hyphens(s.drop_last())
    } else {
        without_hyphens(s.drop_last()).push(s.last())
    }
}

pub open spec fn aria_prefix() -> Seq<char> {
    seq!['a', 'r', 'i', 'a', '-']
}

/// `aria-` followed by the lower-cased rest of the kebab-cased name, hyphens removed.
pub open spec fn aria_name(name: Seq<char>) -> Seq<char> {
    aria_prefix() + lower_of(without_hyphens(kebab(name).skip(5)))
}

/// The override that some elements give to some lower-cased attribute names.
pub open spec fn element_override(tag: Seq<char>, lower: Seq<char>) -> Option<Seq<char>> {
    if tag == "input"@ && lower == "checked"@ {
        Some("defaultChecked"@)
    } else if tag == "input"@ && lower == "value"@ {
        Some("defaultValue"@)
    } else if tag == "input"@ && lower == "maxlength"@ {
        Some("maxLength"@)
    } else if tag == "form"@ && lower == "enctype"@ {
        Some("encType"@)
    } else {
        None
    }
}

/// The value of the first entry of `t` whose key is `k`.
pub open spec fn lookup(t: Seq<(Seq<char>, Seq<char>)>, k: Seq<char>) -> Option<Seq<char>>
    decreases t.len(),
{
    if t.len() == 0 {
        None
    } else if t[0].0 == k {
        Some(t[0].1)
    } else {
        lookup(t.skip(1), k)
    }
}

/// The prop name of attribute `name` on element `tag`, given the dictionary `t`.
pub open spec fn prop_name(t: Seq<(Seq<char>, Seq<char>)>, name: Seq<char>, tag: Seq<char>) -> Seq<
    char,
> {
    let lower = lower_of(name);
    if element_override(tag, lower) is Some {
        element_override(tag, lower).unwrap()
    } else if lookup(t, lower) is Some {
        lookup(t, lower).unwrap()
    } else if starts_with(kebab(name), aria_prefix()) {
        aria_name(name)
    } else {
        name
    }
}

/// A name with no element override, no dictionary entry and no `aria-` form passes
/// through unchanged, so mapping it again changes nothing.
pub proof fn lemma_unmapped_name_unchanged(t: Seq<(Seq<char>, Seq<char>)>, name: Seq<char>, tag: Seq<char>)
    requires
        element_override(tag, lower_of(name)) is None,
        lookup(t, lower_of(name)) is None,
        !starts_with(kebab(name), aria_prefix()),
    ensures
        prop_name(t, name, tag) == name,
        prop_name(t, prop_name(t, name, tag), tag) == prop_name(t, name, tag),
{
}

/// The `aria-` form depends on the kebab-cased name alone: names that differ only in
/// how their words are written (`ariaHidden`, `aria-hidden`) map alike, and the result
/// keeps the one hyphen after `aria`.
pub proof fn lemma_aria_normalization(
    t: Seq<(Seq<char>, Seq<char>)>,
    a: Seq<char>,
    b: Seq<char>,
    tag: Seq<char>,
)
    requires
        kebab(a) == kebab(b),
        starts_with(kebab(a), aria_prefix()),
        element_override(tag, lower_of(a)) is None,
        element_override(tag, lower_of(b)) is None,
        lookup(t, lower_of(a)) is None,
        lookup(t, lower_of(b)) is None,
    ensures
        prop_name(t, a, tag) == prop_name(t, b, tag),
        prop_name(t, a, tag) == aria_prefix() + lower_of(without_hyphens(kebab(a).skip(5))),
        starts_with(prop_name(t, a, tag), aria_prefix()),
{
    let r = prop_name(t, a, tag);
    assert(r.subrange(0, 5) =~= aria_prefix());
}

pub open spec fn pairs_view(v: Seq<(String, String)>) -> Seq<(Seq<char>, Seq<char>)> {
    v.map_values(|p: (String, String)| (p.0@, p.1@))
}

/// Kebab-cases a name.
pub fn kebab_case(s: &str) -> (r: Vec<char>)
    ensures
        r@ == kebab(s@),
{
    let v = chars_of(s);
    let mut out: Vec<char> = Vec::new();
    let mut i: usize = 0;
    while i < v.len()
        invariant
            v@ == s@,
            i <= v@.len(),
            out@ == kebab(v@.subrange(0, i as int)),
        decreases v@.len() - i,
    {
        let c = v[i];
        assert(v@.subrange(0, i + 1).drop_last() =~= v@.subrange(0, i as int));
        if ('A' <= c && c <= 'Z') || ('\u{C0}' <= c && c <= '\u{D6}') || ('\u{D8}' <= c && c
            <= '\u{DE}') {
            out.push('-');
            let lc = char_plus_32(c);
            out.push(lc);
            assert(out@ =~= kebab(v@.subrange(0, i as int)) + kebab_piece(c));
        } else {
            out.push(c);
            assert(out@ =~= kebab(v@.subrange(0, i as int)) + kebab_piece(c));
        }
        i += 1;
    }
    assert(v@.subrange(0, v@.len() as int) =~= v@);
    out
}

fn char_plus_32(c: char) -> (r: char)
    requires
        is_kebab_upper(c),
    ensures
        r == ((c as int) + 32) as char,
{
    let v: u8 = (c as u32 + 32) as u8;
    let r = v as char;
    assert(r as int == c as int + 32);
    r
}

/// The rest of an `aria-` kebab name without hyphens.
fn strip_hyphens(v: &[char], from: usize) -> (r: String)
    requires
        from <= v@.len(),
    ensures
        r@ == without_hyphens(v@.skip(from as int)),
{
    let mut out = String::new();
    let mut i: usize = from;
    while i < v.len()
        invariant
            from <= i <= v@.len(),
            out@ == without_hyphens(v@.subrange(from as int, i as int)),
        decreases v@.len() - i,
    {
        assert(v@.subrange(from as int, i + 1).drop_last() =~= v@.subrange(from as int, i as int));
        if v[i] != '-' {
            push_char(&mut out, v[i]);
        }
        i += 1;
    }
    assert(v@.subrange(from as int, v@.len() as int) =~= v@.skip(from as int));
    out
}

/// Turns an attribute name whose kebab-cased form starts with `aria-` into `aria-` and the
/// lower-cased rest.
pub fn convert_aria_attribute(name: &str) -> (r: String)
    requires
        starts_with(kebab(name@), aria_prefix()),
    ensures
        r@ == aria_name(name@),
{
    let k = kebab_case(name);
    let rest = strip_hyphens(k.as_slice(), 5);
    let lowered = to_lower(rest.as_str());
    let mut out = String::from_str("aria-");
    proof {
        reveal_strlit("aria-");
    }
    assert("aria-"@ =~= aria_prefix());
    out.append(lowered.as_str());
    out
}

/// Maps markup attribute names to the prop names of the component tree.
pub struct AttrMapper {
    pub table: Vec<(String, String)>,
}

impl AttrMapper {
    pub open spec fn table_view(&self) -> Seq<(Seq<char>, Seq<char>)> {
        pairs_view(self.table@)
    }

    /// A mapper with the given dictionary from lower-cased attribute names to prop names.
    pub fn with_table(table: Vec<(String, String)>) -> (r: Self)
        ensures
            r.table_view() == pairs_view(table@),
    {
        AttrMapper { table }
    }

    /// The dictionary entry for a lower-cased name.
    fn lookup(&self, lower: &str) -> (r: Option<String>)
        ensures
            r matches Some(v) ==> lookup(self.table_view(), lower@) == Some(v@),
            r is None ==> lookup(self.table_view(), lower@) is None,
    {
        let mut i: usize = 0;
        assert(self.table_view().skip(0) =~= self.table_view());
        while i < self.table.len()
            invariant
                i <= self.table@.len(),
                lookup(self.table_view(), lower@) == lookup(self.table_view().skip(i as int), lower@),
            decreases self.table@.len() - i,
        {
            let ghost t = self.table_view().skip(i as int);
            assert(t[0] == (self.table@[i as int].0@, self.table@[i as int].1@));
            if str_eq(self.table[i].0.as_str(), lower) {
                return Some(self.table[i].1.clone());
            }
            assert(t.skip(1) =~= self.table_view().skip(i + 1));
            i += 1;
        }
        None
    }

    /// The prop name that an element override or the dictionary gives to the lower-cased
    /// attribute name `lower` on an element named `tag_name`.
    pub fn mapped_name(&self, lower: &str, tag_name: &str) -> (r: Option<String>)
        ensures
            element_override(tag_name@, lower@) matches Some(o) ==> (r matches Some(v) && v@ == o),
            element_override(tag_name@, lower@) is None ==> (match lookup(self.table_view(), lower@) {
                Some(x) => r matches Some(v) && v@ == x,
                None => r is None,
            }),
    {
        if str_eq(tag_name, "input") && str_eq(lower, "checked") {
            return Some(String::from_str("defaultChecked"));
        }
        if str_eq(tag_name, "input") && str_eq(lower, "value") {
            return Some(String::from_str("defaultValue"));
        }
        if str_eq(tag_name, "input") && str_eq(lower, "maxlength") {
            return Some(String::from_str("maxLength"));
        }
        if str_eq(tag_name, "form") && str_eq(lower, "enctype") {
            return Some(String::from_str("encType"));
        }
        self.lookup(lower)
    }

    /// The prop name of attribute `attr_name` on an element named `tag_name`: an
    /// element-specific override, else the dictionary entry of the lower-cased name, else the
    /// normalised `aria-` form, else the name unchanged.
    pub fn get_key(&self, attr_name: &str, tag_name: &str) -> (r: String)
        ensures
            r@ == prop_name(self.table_view(), attr_name@, tag_name@),
    {
        let lower = to_lower(attr_name);
        match self.mapped_name(lower.as_str(), tag_name) {
            Some(v) => {
                return v;
            },
            None => {},
        }
        let k = kebab_case(attr_name);
        let prefix = ['a', 'r', 'i', 'a', '-'];
        assert(prefix@ == aria_prefix());
        if seq_starts_with(k.as_slice(), &prefix) {
            return convert_aria_attribute(attr_name);
        }
        string_of(chars_of(attr_name).as_slice())
    }
}

} // verus!
