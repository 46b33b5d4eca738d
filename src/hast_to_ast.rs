//! Conversion of the parsed markup tree into the component tree.
use vstd::prelude::*;
use crate::ast::{AttrItem, AttrValue, Child, Element, Expr, MarkupChild, MarkupElement};
use crate::attr_name::{prop_name, AttrMapper};
use crate::mappings::{attr_mappings, create_attr_mappings};
use crate::decode_xml::{decode_xml, decoded};
use crate::style::{
    is_numeric, is_numeric_spec, is_style_object, is_ws, is_ws_char, string_to_object_style,
    style_entries,
};
use crate::text::{chars_of, push_char, str_eq, string_of};

verus! {

/// The control characters that a string attribute value folds into spaces.
pub open spec fn is_space_control(c: char) -> bool {
    c == '\t' || c == '\r' || c == '\n' || c == '\u{85}' || c == '\u{2028}' || c == '\u{2029}'
}

/// `s` with every run of tabs, carriage returns, line feeds, NEL, LS and PS replaced by
/// one space.
pub open spec fn collapse_spaces(s: Seq<char>) -> Seq<char>
    decreases s.len(),
{
    if s.len() == 0 {
        Seq::empty()
    } else if is_space_control(s.last()) {
        if s.len() >= 2 && is_space_control(s[s.len() - 2]) {
            collapse_spaces(s.drop_last())
        } else {
            collapse_spaces(s.drop_last()).push(' ')
        }
    } else {
        collapse_spaces(s.drop_last()).push(s.last())
    }
}

/// Text made of white space only, at least one character of it.
pub open spec fn is_blank(s: Seq<char>) -> bool {
    s.len() > 0 && forall|j: int| 0 <= j < s.len() ==> is_ws(#[trigger] s[j])
}

/// The converted value of attribute `name` with raw value `raw`.
pub open spec fn is_converted_value(name: Seq<char>, raw: Seq<char>, v: AttrValue) -> bool {
    if name == "style"@ {
        v matches AttrValue::Expr(Expr::Object(ps)) && is_style_object(ps@, style_entries(raw))
    } else if is_numeric_spec(raw) {
        v matches AttrValue::Expr(Expr::Num(t)) && t@ == raw
    } else {
        v matches AttrValue::Str(t) && t@ == collapse_spaces(raw)
    }
}

/// The converted form of attribute `a` of an element named `tag`.
pub open spec fn is_converted_attr(
    t: Seq<(Seq<char>, Seq<char>)>,
    tag: Seq<char>,
    a: (String, Option<String>),
    r: AttrItem,
) -> bool {
    &&& r matches AttrItem::Attr(n, v)
    &&& n@ == prop_name(t, a.0@, tag)
    &&& match a.1 {
        None => v is None,
        Some(raw) => v matches Some(cv) && is_converted_value(a.0@, raw@, cv),
    }
}

/// `e` is the conversion of `m`: same tag, each attribute converted in place, children
/// converted with comments and blank text left out.
pub open spec fn is_converted(t: Seq<(Seq<char>, Seq<char>)>, m: MarkupElement, e: Element) -> bool
    decreases m,
{
    &&& e.name@ == m.tag_name@
    &&& e.attrs@.len() == m.attributes@.len()
    &&& forall|i: int|
        0 <= i < m.attributes@.len() ==> is_converted_attr(
            t,
            m.tag_name@,
            #[trigger] m.attributes@[i],
            e.attrs@[i],
        )
    &&& children_converted(t, m.children@, e.children@)
}

/// `es` is the conversion of the children `ms`.
pub open spec fn children_converted(
    t: Seq<(Seq<char>, Seq<char>)>,
    ms: Seq<MarkupChild>,
    es: Seq<Child>,
) -> bool
    decreases ms,
{
    if ms.len() == 0 {
        es.len() == 0
    } else {
        let rest = ms.subrange(0, ms.len() - 1);
        match ms[ms.len() - 1] {
            MarkupChild::Comment(_) => children_converted(t, rest, es),
            MarkupChild::Text(s) => if is_blank(s@) {
                children_converted(t, rest, es)
            } else {
                &&& es.len() > 0
                &&& es[es.len() - 1] matches Child::Expr(Expr::Str(d))
                &&& d@ == decoded(s@)
                &&& children_converted(t, rest, es.subrange(0, es.len() - 1))
            },
            MarkupChild::Element(me) => {
                &&& es.len() > 0
                &&& es[es.len() - 1] matches Child::Element(ee)
                &&& is_converted(t, me, ee)
                &&& children_converted(t, rest, es.subrange(0, es.len() - 1))
            },
        }
    }
}

/// `d` is the decoded text of a child of `ms` that is not blank.
pub open spec fn from_text_child(ms: Seq<MarkupChild>, d: Seq<char>) -> bool {
    exists|j: int|
        0 <= j < ms.len() && (#[trigger] ms[j] matches MarkupChild::Text(s) && !is_blank(s@) && d
            == decoded(s@))
}

/// Blank text never becomes a child: every child of a converted element is an element
/// or the decoded text of a markup text node that is not blank.
pub proof fn lemma_no_blank_children(t: Seq<(Seq<char>, Seq<char>)>, ms: Seq<MarkupChild>, es: Seq<Child>)
    requires
        children_converted(t, ms, es),
    ensures
        forall|k: int|
            0 <= k < es.len() ==> (#[trigger] es[k] is Element) || (es[k] matches Child::Expr(
                Expr::Str(d),
            ) && from_text_child(ms, d@)),
    decreases ms.len(),
{
    if ms.len() > 0 {
        let rest = ms.subrange(0, ms.len() - 1);
        let last = ms[ms.len() - 1];
        let shorter = match last {
            MarkupChild::Comment(_) => es,
            MarkupChild::Text(s) => if is_blank(s@) {
                es
            } else {
                es.subrange(0, es.len() - 1)
            },
            MarkupChild::Element(_) => es.subrange(0, es.len() - 1),
        };
        lemma_no_blank_children(t, rest, shorter);
        assert forall|k: int|
            0 <= k < es.len() implies (#[trigger] es[k] is Element) || (es[k] matches Child::Expr(
                Expr::Str(d),
            ) && from_text_child(ms, d@)) by {
            if k < shorter.len() {
                assert(shorter[k] == es[k]);
                if let Child::Expr(Expr::Str(d)) = es[k] {
                    if !(es[k] is Element) {
                        let j = choose|j: int|
                            0 <= j < rest.len() && (#[trigger] rest[j] matches MarkupChild::Text(s)
                                && !is_blank(s@) && d@ == decoded(s@));
                        assert(rest[j] == ms[j]);
                    }
                }
            } else {
                assert(k == es.len() - 1);
                if let MarkupChild::Text(s) = last {
                    assert(ms[ms.len() - 1] == last);
                }
            }
        }
    }
}

fn is_space_control_char(c: char) -> (r: bool)
    ensures
        r == is_space_control(c),
{
    c == '\t' || c == '\r' || c == '\n' || c == '\u{85}' || c == '\u{2028}' || c == '\u{2029}'
}

/// Folds each run of line-breaking and tab control characters into one space.
pub fn replace_spaces(s: &str) -> (r: String)
    ensures
        r@ == collapse_spaces(s@),
{
    let v = chars_of(s);
    let mut out = String::new();
    let mut i: usize = 0;
    assert(v@.subrange(0, 0) =~= Seq::<char>::empty());
    while i < v.len()
        invariant
            v@ == s@,
            i <= v@.len(),
            out@ == collapse_spaces(v@.subrange(0, i as int)),
        decreases v@.len() - i,
    {
        let c = v[i];
        let ghost p = v@.subrange(0, i + 1);
        assert(p.drop_last() =~= v@.subrange(0, i as int));
        if is_space_control_char(c) {
            if i >= 1 && is_space_control_char(v[i - 1]) {
                assert(p[p.len() - 2] == v@[i - 1]);
            } else {
                push_char(&mut out, ' ');
            }
        } else {
            push_char(&mut out, c);
        }
        i += 1;
    }
    assert(v@.subrange(0, v@.len() as int) =~= v@);
    out
}

/// The value of attribute `attr_name`: a style object, a number, or a string literal with
/// its line breaks folded into spaces.
pub fn get_value(attr_name: &str, value: &str) -> (r: AttrValue)
    ensures
        is_converted_value(attr_name@, value@, r),
{
    if str_eq(attr_name, "style") {
        return AttrValue::Expr(string_to_object_style(value));
    }
    if is_numeric(value) {
        return AttrValue::Expr(Expr::Num(string_of(chars_of(value).as_slice())));
    }
    AttrValue::Str(replace_spaces(value))
}

/// Whether a text node holds white space only.
pub fn is_blank_text(s: &str) -> (r: bool)
    ensures
        r == is_blank(s@),
{
    let v = chars_of(s);
    if v.len() == 0 {
        return false;
    }
    let mut i: usize = 0;
    while i < v.len()
        invariant
            v@ == s@,
            i <= v@.len(),
            forall|j: int| 0 <= j < i ==> is_ws(#[trigger] v@[j]),
        decreases v@.len() - i,
    {
        if !is_ws_char(v[i]) {
            return false;
        }
        i += 1;
    }
    true
}

/// A text node's child: none for blank text, else the decoded text in braces.
pub fn text(s: &str) -> (r: Option<Child>)
    ensures
        is_blank(s@) ==> r is None,
        !is_blank(s@) ==> (r matches Some(Child::Expr(Expr::Str(d))) && d@ == decoded(s@)),
{
    if is_blank_text(s) {
        return None;
    }
    Some(Child::Expr(Expr::Str(decode_xml(s))))
}

/// Builds the component tree from the markup tree.
pub struct HastVisitor {
    jsx: Option<Element>,
    mapper: AttrMapper,
}

impl HastVisitor {
    pub closed spec fn table(&self) -> Seq<(Seq<char>, Seq<char>)> {
        self.mapper.table_view()
    }

    /// A visitor with the standard attribute dictionary and nothing converted yet.
    pub fn new() -> (r: Self)
        ensures
            r.table() == attr_mappings(),
            r.jsx_spec() is None,
    {
        HastVisitor { jsx: None, mapper: AttrMapper::with_table(create_attr_mappings()) }
    }

    pub closed spec fn jsx_spec(&self) -> Option<Element> {
        self.jsx
    }

    /// The element converted last, if any.
    pub fn get_jsx(self) -> (r: Option<Element>)
        ensures
            r == self.jsx_spec(),
    {
        self.jsx
    }

    /// The prop name of an attribute.
    pub fn get_key(&self, attr_name: &str, tag_name: &str) -> (r: String)
        ensures
            r@ == prop_name(self.table(), attr_name@, tag_name@),
    {
        self.mapper.get_key(attr_name, tag_name)
    }

    /// Converts one element and, recursively, its children.
    pub fn element(&self, n: &MarkupElement) -> (r: Element)
        ensures
            is_converted(self.table(), *n, r),
        decreases n,
    {
        let mut attrs: Vec<AttrItem> = Vec::new();
        let mut i: usize = 0;
        while i < n.attributes.len()
            invariant
                i <= n.attributes@.len(),
                attrs@.len() == i,
                forall|k: int|
                    0 <= k < i ==> is_converted_attr(
                        self.table(),
                        n.tag_name@,
                        #[trigger] n.attributes@[k],
                        attrs@[k],
                    ),
            decreases n.attributes@.len() - i,
        {
            let name = &n.attributes[i].0;
            let key = self.get_key(name.as_str(), n.tag_name.as_str());
            let value = match &n.attributes[i].1 {
                Some(v) => Some(get_value(name.as_str(), v.as_str())),
                None => None,
            };
            attrs.push(AttrItem::Attr(key, value));
            i += 1;
        }
        let children = self.all(&n.children);
        Element { name: string_of(chars_of(n.tag_name.as_str()).as_slice()), attrs, children }
    }

    /// Converts children in order, leaving out comments and blank text.
    pub fn all(&self, children: &Vec<MarkupChild>) -> (r: Vec<Child>)
        ensures
            children_converted(self.table(), children@, r@),
        decreases children,
    {
        let mut out: Vec<Child> = Vec::new();
        let mut i: usize = 0;
        assert(children@.subrange(0, 0) =~= Seq::<MarkupChild>::empty());
        while i < children.len()
            invariant
                i <= children@.len(),
                children_converted(self.table(), children@.subrange(0, i as int), out@),
            decreases children@.len() - i,
        {
            let ghost p = children@.subrange(0, i + 1);
            let ghost old_out = out@;
            assert(p.subrange(0, i as int) =~= children@.subrange(0, i as int));
            assert(p[i as int] == children@[i as int]);
            match &children[i] {
                MarkupChild::Element(e) => {
                    let c = self.element(e);
                    out.push(Child::Element(c));
                    assert(out@.subrange(0, out@.len() - 1) =~= old_out);
                },
                MarkupChild::Text(t) => {
                    match text(t.as_str()) {
                        Some(c) => {
                            out.push(c);
                            assert(out@.subrange(0, out@.len() - 1) =~= old_out);
                        },
                        None => {},
                    }
                },
                MarkupChild::Comment(_) => {},
            }
            i += 1;
        }
        assert(children@.subrange(0, children@.len() as int) =~= children@);
        out
    }

    /// Converts each top-level element of a document; the last one is kept.
    pub fn visit_document(&mut self, doc: &Vec<MarkupChild>)
        ensures
            final(self).table() == old(self).table(),
            last_element(doc@) is None ==> final(self).jsx_spec() == old(self).jsx_spec(),
            last_element(doc@) matches Some(m) ==> (final(self).jsx_spec() matches Some(e)
                && is_converted(old(self).table(), m, e)),
    {
        let mut i: usize = 0;
        while i < doc.len()
            invariant
                i <= doc@.len(),
                self.table() == old(self).table(),
                last_element(doc@.subrange(0, i as int)) is None ==> self.jsx_spec() == old(self).jsx_spec(),
                last_element(doc@.subrange(0, i as int)) matches Some(m) ==> (self.jsx_spec() matches Some(e)
                    && is_converted(self.table(), m, e)),
            decreases doc@.len() - i,
        {
            let ghost p = doc@.subrange(0, i + 1);
            assert(p.drop_last() =~= doc@.subrange(0, i as int));
            match &doc[i] {
                MarkupChild::Element(e) => {
                    let c = self.element(e);
                    self.jsx = Some(c);
                },
                _ => {},
            }
            i += 1;
        }
        assert(doc@.subrange(0, doc@.len() as int) =~= doc@);
    }
}

/// The last element among the nodes `doc`.
pub open spec fn last_element(doc: Seq<MarkupChild>) -> Option<MarkupElement>
    decreases doc.len(),
{
    if doc.len() == 0 {
        None
    } else {
        match doc.last() {
            MarkupChild::Element(e) => Some(e),
            _ => last_element(doc.drop_last()),
        }
    }
}

/// The component tree of a document: the conversion of its last top-level element, or
/// none when it has no element.
pub fn to_swc_ast(doc: &Vec<MarkupChild>) -> (r: Option<Element>)
    ensures
        r is None <==> last_element(doc@) is None,
        last_element(doc@) matches Some(m) ==> (r matches Some(e) && is_converted(
            attr_mappings(),
            m,
            e,
        )),
{
    let mut v = HastVisitor::new();
    v.visit_document(doc);
    v.get_jsx()
}

} // verus!
