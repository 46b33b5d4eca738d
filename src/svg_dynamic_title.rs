//! The `title` and `desc` props: a child element rendered from the prop, falling back to
//! the element the markup already has.
use vstd::prelude::*;
use crate::ast::{attr_has_name, is_svg_element, is_svg_name, AttrItem, AttrValue, Child, Element, Expr};
use crate::text::str_eq;

verus! {

pub open spec fn is_ident(x: Expr, n: Seq<char>) -> bool {
    x matches Expr::Ident(m) && m@ == n
}

/// The id given to the rendered element: `{tagId}`, or `{tagId || "fallback"}` when the
/// markup's element had a literal id.
pub open spec fn is_id_value(v: Expr, tag_id: Seq<char>, fallback: Option<Seq<char>>) -> bool {
    match fallback {
        Some(x) => v matches Expr::Or(l, r) && is_ident(*l, tag_id) && (*r matches Expr::Str(s) && s@ == x),
        None => is_ident(v, tag_id),
    }
}

/// `{tag ? <tag id={...}>{tag}</tag> : null}`
pub open spec fn is_tag_expr(x: Expr, tag: Seq<char>, tag_id: Seq<char>, fallback: Option<Seq<char>>) -> bool {
    &&& x matches Expr::Cond(t, c, a)
    &&& is_ident(*t, tag)
    &&& *a is Null
    &&& *c matches Expr::Element(el)
    &&& el.name@ == tag
    &&& el.attrs@.len() == 1
    &&& el.attrs@[0] matches AttrItem::Attr(an, Some(AttrValue::Expr(v)))
    &&& an@ == "id"@
    &&& is_id_value(v, tag_id, fallback)
    &&& el.children@.len() == 1
    &&& el.children@[0] matches Child::Expr(ce)
    &&& is_ident(ce, tag)
}

pub open spec fn is_id_attr(a: AttrItem) -> bool {
    a matches AttrItem::Attr(n, _) && n@ == "id"@
}

pub open spec fn is_tag_child_spec(c: Child, tag: Seq<char>) -> bool {
    c matches Child::Element(e) && e.name@ == tag
}

/// Position of the first attribute named `id`.
pub open spec fn first_id(attrs: Seq<AttrItem>) -> Option<int> {
    if exists|j: int| 0 <= j < attrs.len() && is_id_attr(#[trigger] attrs[j]) {
        Some(
            choose|j: int|
                0 <= j < attrs.len() && is_id_attr(#[trigger] attrs[j])
                    && forall|k: int| 0 <= k < j ==> !is_id_attr(#[trigger] attrs[k]),
        )
    } else {
        None
    }
}

/// The literal id of an element, when its first `id` attribute is a string.
pub open spec fn literal_id(attrs: Seq<AttrItem>) -> Option<Seq<char>> {
    match first_id(attrs) {
        Some(j) => match attrs[j] {
            AttrItem::Attr(_, Some(AttrValue::Str(x))) => Some(x@),
            _ => None,
        },
        None => None,
    }
}

/// `e2` is `e` with its id set to the rendered element's id value.
pub open spec fn is_with_id(e: Element, e2: Element, tag_id: Seq<char>) -> bool {
    let fb = literal_id(e.attrs@);
    &&& e2.name == e.name
    &&& e2.children == e.children
    &&& match first_id(e.attrs@) {
        Some(j) => {
            &&& e2.attrs@.len() == e.attrs@.len()
            &&& forall|k: int| 0 <= k < e.attrs@.len() && k != j ==> e2.attrs@[k] == e.attrs@[k]
            &&& e2.attrs@[j] matches AttrItem::Attr(n, Some(AttrValue::Expr(v)))
            &&& n@ == "id"@
            &&& is_id_value(v, tag_id, fb)
        },
        None => {
            &&& e2.attrs@.len() == e.attrs@.len() + 1
            &&& e2.attrs@.subrange(0, e.attrs@.len() as int) == e.attrs@
            &&& e2.attrs@[e.attrs@.len() as int] matches AttrItem::Attr(n, Some(AttrValue::Expr(v)))
            &&& n@ == "id"@
            &&& is_ident(v, tag_id)
        },
    }
}

/// The child that replaces the markup's element `e`: the prop's element alone when `e` is
/// empty, else `{tag === undefined ? <e with id> : tag ? ... : null}`.
pub open spec fn is_fallback_child(c: Child, e: Element, tag: Seq<char>, tag_id: Seq<char>) -> bool {
    let fb = literal_id(e.attrs@);
    &&& c matches Child::Expr(x)
    &&& if e.children@.len() == 0 {
        is_tag_expr(x, tag, tag_id, fb)
    } else {
        &&& x matches Expr::Cond(t, cons, alt)
        &&& *t matches Expr::StrictEq(l, r)
        &&& is_ident(*l, tag)
        &&& is_ident(*r, "undefined"@)
        &&& *cons matches Expr::Element(e2)
        &&& is_with_id(e, *e2, tag_id)
        &&& is_tag_expr(*alt, tag, tag_id, fb)
    }
}

/// Position of the first child element named `tag`.
pub open spec fn first_tag_child(children: Seq<Child>, tag: Seq<char>) -> Option<int> {
    if exists|i: int| 0 <= i < children.len() && is_tag_child_spec(#[trigger] children[i], tag) {
        Some(
            choose|i: int|
                0 <= i < children.len() && is_tag_child_spec(#[trigger] children[i], tag)
                    && forall|k: int| 0 <= k < i ==> !is_tag_child_spec(#[trigger] children[k], tag),
        )
    } else {
        None
    }
}

pub open spec fn opt_view(o: Option<String>) -> Option<Seq<char>> {
    match o {
        Some(x) => Some(x@),
        None => None,
    }
}

/// `new` is the root `old` with the prop's element in place of its first `tag` child, or
/// added first when there is none, when it is named `svg` or `Svg`; otherwise it is
/// unchanged.
pub open spec fn is_titled(old: Element, new: Element, tag: Seq<char>, tag_id: Seq<char>) -> bool {
    &&& new.name == old.name
    &&& new.attrs == old.attrs
    &&& !is_svg_element(old) ==> new.children == old.children
    &&& is_svg_element(old) ==> match first_tag_child(old.children@, tag) {
                None => {
                    &&& new.children@.len() == old.children@.len() + 1
                    &&& new.children@[0] matches Child::Expr(x)
                    &&& is_tag_expr(x, tag, tag_id, None)
                    &&& new.children@.skip(1) == old.children@
                },
                Some(i) => {
                    &&& new.children@.len() == old.children@.len()
                    &&& forall|k: int| 0 <= k < old.children@.len() && k != i ==> new.children@[k] == old.children@[k]
                    &&& old.children@[i] matches Child::Element(e)
                    &&& is_fallback_child(new.children@[i], e, tag, tag_id)
                },
            }
}

/// Renders the `title` (or `desc`) prop inside a root named `svg` or `Svg`.
pub struct Visitor {
    tag: String,
    tag_id: String,
}

impl Visitor {
    pub closed spec fn tag(&self) -> Seq<char> {
        self.tag@
    }

    pub closed spec fn tag_id(&self) -> Seq<char> {
        self.tag_id@
    }

    /// A visitor for element `tag`, whose id prop is `tag` followed by `Id`.
    pub fn new(tag: &str) -> (r: Self)
        ensures
            r.tag() == tag@,
            r.tag_id() == tag@ + "Id"@,
    {
        let t = String::from_str(tag);
        let id = String::from_str(tag).concat("Id");
        Visitor { tag: t, tag_id: id }
    }

    fn ident(s: &String) -> (r: Expr)
        ensures
            is_ident(r, s@),
    {
        Expr::Ident(s.clone())
    }

    fn id_value(&self, fallback: &Option<String>) -> (r: Expr)
        ensures
            is_id_value(r, self.tag_id(), opt_view(*fallback)),
    {
        match fallback {
            Some(x) => Expr::Or(Box::new(Self::ident(&self.tag_id)), Box::new(Expr::Str(x.clone()))),
            None => Self::ident(&self.tag_id),
        }
    }

    /// `{tag ? <tag id={value}>{tag}</tag> : null}`
    fn get_tag_expr(&self, value: Expr, fallback: Ghost<Option<Seq<char>>>) -> (r: Expr)
        requires
            is_id_value(value, self.tag_id(), fallback@),
        ensures
            is_tag_expr(r, self.tag(), self.tag_id(), fallback@),
    {
        let mut attrs: Vec<AttrItem> = Vec::new();
        attrs.push(AttrItem::Attr(String::from_str("id"), Some(AttrValue::Expr(value))));
        let mut children: Vec<Child> = Vec::new();
        children.push(Child::Expr(Self::ident(&self.tag)));
        let el = Element { name: self.tag.clone(), attrs, children };
        Expr::Cond(Box::new(Self::ident(&self.tag)), Box::new(Expr::Element(Box::new(el))), Box::new(Expr::Null))
    }

    /// The child added when the markup has no such element.
    pub fn get_tag_element(&self) -> (r: Child)
        ensures
            r matches Child::Expr(x) && is_tag_expr(x, self.tag(), self.tag_id(), None),
    {
        let v = self.id_value(&None);
        Child::Expr(self.get_tag_expr(v, Ghost(None)))
    }

    /// The child that takes the place of the markup's own element.
    pub fn get_tag_element_with_existing_title(&self, existing: Element) -> (r: Child)
        ensures
            is_fallback_child(r, existing, self.tag(), self.tag_id()),
    {
        let ghost e = existing;
        let mut existing = existing;
        let mut j: usize = 0;
        while j < existing.attrs.len() && !attr_has_name(&existing.attrs[j], "id")
            invariant
                j <= existing.attrs@.len(),
                existing == e,
                forall|k: int| 0 <= k < j ==> !is_id_attr(#[trigger] e.attrs@[k]),
            decreases existing.attrs@.len() - j,
        {
            j += 1;
        }
        let fallback: Option<String> = if j < existing.attrs.len() {
            proof {
                let c = choose|c: int|
                    0 <= c < e.attrs@.len() && is_id_attr(#[trigger] e.attrs@[c])
                        && forall|k: int| 0 <= k < c ==> !is_id_attr(#[trigger] e.attrs@[k]);
                assert(c == j) by {
                    if c < j {
                        assert(!is_id_attr(e.attrs@[c]));
                    }
                    if c > j {
                        assert(!is_id_attr(e.attrs@[j as int]));
                    }
                }
            }
            let fb = match &existing.attrs[j] {
                AttrItem::Attr(_, Some(AttrValue::Str(x))) => Some(x.clone()),
                _ => None,
            };
            let v = self.id_value(&fb);
            existing.attrs.set(j, AttrItem::Attr(String::from_str("id"), Some(AttrValue::Expr(v))));
            fb
        } else {
            let v = Self::ident(&self.tag_id);
            existing.attrs.push(AttrItem::Attr(String::from_str("id"), Some(AttrValue::Expr(v))));
            assert(existing.attrs@.subrange(0, e.attrs@.len() as int) =~= e.attrs@);
            None
        };
        let ghost fb = opt_view(fallback);
        assert(fb == literal_id(e.attrs@));
        let v = self.id_value(&fallback);
        let alt = self.get_tag_expr(v, Ghost(fb));
        if existing.children.len() == 0 {
            return Child::Expr(alt);
        }
        let test = Expr::StrictEq(
            Box::new(Self::ident(&self.tag)),
            Box::new(Expr::Ident(String::from_str("undefined"))),
        );
        Child::Expr(Expr::Cond(Box::new(test), Box::new(Expr::Element(Box::new(existing))), Box::new(alt)))
    }

    /// Replaces the root's first child element named after the tag by the prop's element
    /// with that element as fallback, or adds the prop's element first when there is none.
    pub fn visit(&self, root: &mut Element)
        ensures
            is_titled(*old(root), *final(root), self.tag(), self.tag_id()),
    {
        if !is_svg_name(&root.name) {
            return;
        }
        let ghost oc = root.children@;
        let mut i: usize = 0;
        while i < root.children.len() && !self.is_tag_child(&root.children[i])
            invariant
                i <= root.children@.len(),
                root.children@ == oc,
                oc == old(root).children@,
                root.name == old(root).name,
                root.attrs == old(root).attrs,
                forall|k: int| 0 <= k < i ==> !is_tag_child_spec(#[trigger] oc[k], self.tag()),
            decreases root.children@.len() - i,
        {
            i += 1;
        }
        if i == root.children.len() {
            root.children.insert(0, self.get_tag_element());
            assert(root.children@.skip(1) =~= oc);
            return;
        }
        proof {
            let c = choose|c: int|
                0 <= c < oc.len() && is_tag_child_spec(#[trigger] oc[c], self.tag())
                    && forall|k: int| 0 <= k < c ==> !is_tag_child_spec(#[trigger] oc[k], self.tag());
            assert(c == i) by {
                if c < i {
                    assert(!is_tag_child_spec(oc[c], self.tag()));
                }
                if c > i {
                    assert(!is_tag_child_spec(oc[i as int], self.tag()));
                }
            }
        }
        let c = root.children.remove(i);
        match c {
            Child::Element(e) => {
                let n = self.get_tag_element_with_existing_title(e);
                root.children.insert(i, n);
            },
            other => {
                root.children.insert(i, other);
            },
        }
        assert(forall|k: int| 0 <= k < oc.len() && k != i ==> root.children@[k] == oc[k]);
    }

    fn is_tag_child(&self, c: &Child) -> (r: bool)
        ensures
            r == is_tag_child_spec(*c, self.tag()),
    {
        match c {
            Child::Element(e) => str_eq(e.name.as_str(), self.tag.as_str()),
            _ => false,
        }
    }
}

} // verus!
