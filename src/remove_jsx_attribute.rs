//! Removal of attributes from the root element.
use vstd::prelude::*;
use crate::ast::{attr_has_name, is_attr_named, is_svg_element, is_svg_name, AttrItem, Element};
use crate::config::Config;
use crate::module::names_view;

verus! {

/// The attributes removed from the root: `version`, and `width` and `height` when the
/// dimensions are not kept.
pub open spec fn removed_names(c: Config) -> Seq<Seq<char>> {
    if c.dimensions {
        seq!["version"@]
    } else {
        seq!["version"@, "width"@, "height"@]
    }
}

/// Whether `a` is a named attribute whose name is one of `names`.
pub open spec fn is_removed(a: AttrItem, names: Seq<Seq<char>>) -> bool {
    exists|k: int| 0 <= k < names.len() && is_attr_named(a, #[trigger] names[k])
}

/// The attributes without those named in `names`, in order.
pub open spec fn without_named(attrs: Seq<AttrItem>, names: Seq<Seq<char>>) -> Seq<AttrItem>
    decreases attrs.len(),
{
    if attrs.len() == 0 {
        Seq::empty()
    } else if is_removed(attrs.last(), names) {
        without_named(attrs.drop_last(), names)
    } else {
        without_named(attrs.drop_last(), names).push(attrs.last())
    }
}

/// `new` is the root `old` without the attributes named in `names`, when it is named `svg`
/// or `Svg`; otherwise it is unchanged.
pub open spec fn is_stripped(old: Element, new: Element, names: Seq<Seq<char>>) -> bool {
    &&& new.name == old.name
    &&& new.children == old.children
    &&& if is_svg_element(old) {
        new.attrs@ == without_named(old.attrs@, names)
    } else {
        new.attrs == old.attrs
    }
}

/// Removes attributes from a root named `svg` or `Svg`.
pub struct Visitor {
    attributes: Vec<String>,
}

impl Visitor {
    pub closed spec fn names(&self) -> Seq<Seq<char>> {
        names_view(self.attributes@)
    }

    pub fn new(config: &Config) -> (r: Self)
        ensures
            r.names() == removed_names(*config),
    {
        let mut attributes: Vec<String> = Vec::new();
        attributes.push(String::from_str("version"));
        if !config.dimensions {
            attributes.push(String::from_str("width"));
            attributes.push(String::from_str("height"));
        }
        assert(names_view(attributes@) =~= removed_names(*config));
        Visitor { attributes }
    }

    fn removes(&self, a: &AttrItem) -> (r: bool)
        ensures
            r == is_removed(*a, self.names()),
    {
        let mut k: usize = 0;
        while k < self.attributes.len()
            invariant
                k <= self.attributes@.len(),
                forall|j: int| 0 <= j < k ==> !is_attr_named(*a, #[trigger] self.names()[j]),
            decreases self.attributes@.len() - k,
        {
            if attr_has_name(a, self.attributes[k].as_str()) {
                assert(is_attr_named(*a, self.names()[k as int]));
                return true;
            }
            k += 1;
        }
        false
    }

    /// Drops the listed attributes from the root when it is named `svg` or `Svg`; other
    /// attributes keep their order.
    pub fn visit(&self, root: &mut Element)
        ensures
            is_stripped(*old(root), *final(root), self.names()),
    {
        if !is_svg_name(&root.name) {
            return;
        }
        let mut rest: Vec<AttrItem> = Vec::new();
        core::mem::swap(&mut root.attrs, &mut rest);
        let ghost orig = rest@;
        let mut kept: Vec<AttrItem> = Vec::new();
        let ghost mut n: int = 0;
        assert(orig.subrange(0, 0) =~= Seq::<AttrItem>::empty());
        while rest.len() > 0
            invariant
                0 <= n <= orig.len(),
                rest@ == orig.skip(n),
                kept@ == without_named(orig.subrange(0, n), self.names()),
            decreases rest@.len(),
        {
            let a = rest.remove(0);
            proof {
                assert(orig.subrange(0, n + 1).drop_last() =~= orig.subrange(0, n));
                assert(orig.subrange(0, n + 1).last() == orig[n]);
                assert(orig.skip(n + 1) =~= orig.skip(n).remove(0));
            }
            if !self.removes(&a) {
                kept.push(a);
            }
            proof {
                n = n + 1;
            }
        }
        assert(orig.subrange(0, n) =~= orig);
        root.attrs = kept;
    }
}

} // verus!
