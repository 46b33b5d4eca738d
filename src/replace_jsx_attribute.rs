//! Replacement of attribute values throughout the tree.
use vstd::prelude::*;
use crate::ast::{AttrItem, AttrValue, Child, Element, Expr};
use crate::attr_name::{lookup, pairs_view};
use crate::text::{is_braced, str_eq, unbrace};

verus! {

/// `new` is the value written for the replacement `x`: an expression for `{expr}`, else a
/// string.
pub open spec fn is_replacement(new: AttrValue, x: Seq<char>) -> bool {
    if is_braced(x) {
        new matches AttrValue::Expr(Expr::Ident(n)) && n@ == x.subrange(1, x.len() - 1)
    } else {
        new matches AttrValue::Str(n) && n@ == x
    }
}

/// A string value with a replacement is replaced; any other item is left as it is.
pub open spec fn is_replaced_attr(t: Seq<(Seq<char>, Seq<char>)>, old: AttrItem, new: AttrItem) -> bool {
    match old {
        AttrItem::Attr(n, Some(AttrValue::Str(s))) => match lookup(t, s@) {
            Some(x) => new matches AttrItem::Attr(m, Some(w)) && m == n && is_replacement(w, x),
            None => new == old,
        },
        _ => new == old,
    }
}

/// `new` is `old` with the values of every element's attributes replaced; expression
/// children are left as they are.
pub open spec fn is_replaced(t: Seq<(Seq<char>, Seq<char>)>, old: Element, new: Element) -> bool
    decreases old,
{
    &&& new.name == old.name
    &&& new.attrs@.len() == old.attrs@.len()
    &&& forall|k: int| 0 <= k < old.attrs@.len() ==> is_replaced_attr(t, #[trigger] old.attrs@[k], new.attrs@[k])
    &&& new.children@.len() == old.children@.len()
    &&& forall|k: int|
        0 <= k < old.children@.len() ==> match #[trigger] old.children@[k] {
            Child::Element(oe) => new.children@[k] matches Child::Element(ne) && is_replaced(t, oe, ne),
            _ => new.children@[k] == old.children@[k],
        }
}

/// Replaces attribute values by the configured ones.
pub struct Visitor {
    values: Vec<(String, String)>,
}

impl Visitor {
    pub closed spec fn table(&self) -> Seq<(Seq<char>, Seq<char>)> {
        pairs_view(self.values@)
    }

    pub fn new(values: &Vec<(String, String)>) -> (r: Self)
        ensures
            r.table() == pairs_view(values@),
    {
        let mut v: Vec<(String, String)> = Vec::new();
        let mut i: usize = 0;
        while i < values.len()
            invariant
                i <= values@.len(),
                v@.len() == i,
                forall|k: int| 0 <= k < i ==> #[trigger] v@[k].0@ == values@[k].0@ && v@[k].1@ == values@[k].1@,
            decreases values@.len() - i,
        {
            v.push((values[i].0.clone(), values[i].1.clone()));
            i += 1;
        }
        assert(pairs_view(v@) =~= pairs_view(values@));
        Visitor { values: v }
    }

    fn find(&self, s: &str) -> (r: Option<String>)
        ensures
            r matches Some(x) ==> lookup(self.table(), s@) == Some(x@),
            r is None ==> lookup(self.table(), s@) is None,
    {
        let mut i: usize = 0;
        assert(self.table().skip(0) =~= self.table());
        while i < self.values.len()
            invariant
                i <= self.values@.len(),
                lookup(self.table(), s@) == lookup(self.table().skip(i as int), s@),
            decreases self.values@.len() - i,
        {
            let ghost t = self.table().skip(i as int);
            assert(t[0] == (self.values@[i as int].0@, self.values@[i as int].1@));
            if str_eq(self.values[i].0.as_str(), s) {
                return Some(self.values[i].1.clone());
            }
            assert(t.skip(1) =~= self.table().skip(i + 1));
            i += 1;
        }
        None
    }

    /// The value written for a replacement.
    pub fn get_attr_value(new: &str) -> (r: AttrValue)
        ensures
            is_replacement(r, new@),
    {
        let (literal, inner) = unbrace(new);
        if literal {
            AttrValue::Expr(Expr::Ident(inner))
        } else {
            AttrValue::Str(inner)
        }
    }

    fn replace_attr(&self, a: AttrItem) -> (r: AttrItem)
        ensures
            is_replaced_attr(self.table(), a, r),
    {
        match a {
            AttrItem::Attr(n, Some(AttrValue::Str(s))) => match self.find(s.as_str()) {
                Some(x) => AttrItem::Attr(n, Some(Self::get_attr_value(x.as_str()))),
                None => AttrItem::Attr(n, Some(AttrValue::Str(s))),
            },
            other => other,
        }
    }

    /// Replaces the values of the element's attributes and, recursively, of its children.
    pub fn visit(&self, e: Element) -> (r: Element)
        ensures
            is_replaced(self.table(), e, r),
        decreases e,
    {
        let Element { name, attrs, children } = e;
        let ghost oa = attrs@;
        let ghost oc = children@;
        let mut attrs = attrs;
        let mut children = children;
        let mut new_attrs: Vec<AttrItem> = Vec::new();
        let ghost mut n: int = 0;
        while attrs.len() > 0
            invariant
                0 <= n <= oa.len(),
                attrs@ == oa.skip(n),
                new_attrs@.len() == n,
                forall|k: int| 0 <= k < n ==> is_replaced_attr(self.table(), #[trigger] oa[k], new_attrs@[k]),
            decreases attrs@.len(),
        {
            let a = attrs.remove(0);
            assert(a == oa[n]);
            assert(oa.skip(n + 1) =~= oa.skip(n).remove(0));
            new_attrs.push(self.replace_attr(a));
            proof {
                n = n + 1;
            }
        }
        let mut new_children: Vec<Child> = Vec::new();
        let ghost mut m: int = 0;
        while children.len() > 0
            invariant
                0 <= m <= oc.len(),
                oc == e.children@,
                children@ == oc.skip(m),
                new_children@.len() == m,
                forall|k: int|
                    0 <= k < m ==> match #[trigger] oc[k] {
                        Child::Element(oe) => new_children@[k] matches Child::Element(ne) && is_replaced(self.table(), oe, ne),
                        _ => new_children@[k] == oc[k],
                    },
            decreases children@.len(),
        {
            let c = children.remove(0);
            assert(c == oc[m]);
            assert(oc.skip(m + 1) =~= oc.skip(m).remove(0));
            match c {
                Child::Element(ce) => {
                    proof {
                        assert(decreases_to!(e => e.children));
                        assert(decreases_to!(e.children => e.children@));
                        assert(decreases_to!(e.children@ => e.children@[m]));
                    }
                    let r = self.visit(ce);
                    new_children.push(Child::Element(r));
                },
                other => {
                    new_children.push(other);
                },
            }
            proof {
                m = m + 1;
            }
        }
        Element { name, attrs: new_attrs, children: new_children }
    }
}

} // verus!
