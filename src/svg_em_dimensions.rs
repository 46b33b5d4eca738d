//! Replacement of the root's `width` and `height` by the icon size.
use vstd::prelude::*;
use crate::ast::{attr_has_name, is_attr_named, is_svg_element, is_svg_name, AttrItem, AttrValue, Element, Expr};
use crate::config::{Config, Icon};

verus! {

/// `v` is the icon size of the configuration: its string, its number, or `1em`.
pub open spec fn is_icon_value(v: AttrValue, icon: Option<Icon>) -> bool {
    match icon {
        Some(Icon::Str(s)) => v matches AttrValue::Str(t) && t@ == s@,
        Some(Icon::Num(n)) => v matches AttrValue::Expr(Expr::Num(t)) && t@ == n@,
        _ => v matches AttrValue::Str(t) && t@ == "1em"@,
    }
}

/// `item` is attribute `name` with the icon size as its value.
pub open spec fn is_sized(item: AttrItem, name: Seq<char>, icon: Option<Icon>) -> bool {
    item matches AttrItem::Attr(n, Some(v)) && n@ == name && is_icon_value(v, icon)
}

pub open spec fn has_attr(attrs: Seq<AttrItem>, name: Seq<char>) -> bool {
    exists|k: int| 0 <= k < attrs.len() && is_attr_named(#[trigger] attrs[k], name)
}

/// `new` is `old` with every `width` and `height` set to the icon size, and those that are
/// missing appended, `width` first.
pub open spec fn is_resized(old: Seq<AttrItem>, new: Seq<AttrItem>, icon: Option<Icon>) -> bool {
    let w = !has_attr(old, "width"@);
    let h = !has_attr(old, "height"@);
    &&& new.len() == old.len() + (if w { 1int } else { 0int }) + (if h { 1int } else { 0int })
    &&& forall|k: int|
        0 <= k < old.len() ==> if is_attr_named(#[trigger] old[k], "width"@) {
            is_sized(new[k], "width"@, icon)
        } else if is_attr_named(old[k], "height"@) {
            is_sized(new[k], "height"@, icon)
        } else {
            new[k] == old[k]
        }
    &&& w ==> is_sized(new[old.len() as int], "width"@, icon)
    &&& h ==> is_sized(new[new.len() - 1], "height"@, icon)
}

/// `new` is the root `old` resized to the icon size, when it is named `svg` or `Svg`;
/// otherwise it is unchanged.
pub open spec fn is_sized_root(old: Element, new: Element, icon: Option<Icon>) -> bool {
    &&& new.name == old.name
    &&& new.children == old.children
    &&& if is_svg_element(old) {
        is_resized(old.attrs@, new.attrs@, icon)
    } else {
        new.attrs == old.attrs
    }
}

/// Sets the dimensions of a root named `svg` or `Svg`.
pub struct Visitor {
    icon: Option<Icon>,
}

impl Visitor {
    pub closed spec fn icon(&self) -> Option<Icon> {
        self.icon
    }

    pub fn new(config: &Config) -> (r: Self)
        ensures
            forall|v: AttrValue| #[trigger] is_icon_value(v, r.icon()) == is_icon_value(v, config.icon),
    {
        let icon = match &config.icon {
            Some(Icon::Str(s)) => Some(Icon::Str(s.clone())),
            Some(Icon::Num(n)) => Some(Icon::Num(n.clone())),
            _ => None,
        };
        Visitor { icon }
    }

    /// The icon size as an attribute value.
    pub fn get_value(&self) -> (r: AttrValue)
        ensures
            is_icon_value(r, self.icon()),
    {
        match &self.icon {
            Some(Icon::Str(s)) => AttrValue::Str(s.clone()),
            Some(Icon::Num(n)) => AttrValue::Expr(Expr::Num(n.clone())),
            _ => AttrValue::Str(String::from_str("1em")),
        }
    }

    /// Sets `width` and `height` of a root named `svg` or `Svg` to the icon size, adding
    /// them when they are missing.
    pub fn visit(&self, root: &mut Element)
        ensures
            is_sized_root(*old(root), *final(root), self.icon()),
    {
        if !is_svg_name(&root.name) {
            return;
        }
        let ghost o = root.attrs@;
        let mut has_width = false;
        let mut has_height = false;
        let mut i: usize = 0;
        while i < root.attrs.len()
            invariant
                i <= root.attrs@.len(),
                root.attrs@.len() == o.len(),
                o == old(root).attrs@,
                root.name == old(root).name,
                root.children == old(root).children,
                has_width == exists|k: int| 0 <= k < i && is_attr_named(#[trigger] o[k], "width"@),
                has_height == exists|k: int| 0 <= k < i && is_attr_named(#[trigger] o[k], "height"@),
                forall|k: int|
                    0 <= k < i ==> if is_attr_named(#[trigger] o[k], "width"@) {
                        is_sized(root.attrs@[k], "width"@, self.icon())
                    } else if is_attr_named(o[k], "height"@) {
                        is_sized(root.attrs@[k], "height"@, self.icon())
                    } else {
                        root.attrs@[k] == o[k]
                    },
                forall|k: int| i <= k < o.len() ==> root.attrs@[k] == o[k],
            decreases o.len() - i,
        {
            let ghost oi = o[i as int];
            let is_w = attr_has_name(&root.attrs[i], "width");
            let is_h = attr_has_name(&root.attrs[i], "height");
            proof {
                reveal_strlit("width");
                reveal_strlit("height");
                assert("width"@.len() != "height"@.len());
                assert(!(is_w && is_h));
            }
            if is_w {
                root.attrs.set(i, AttrItem::Attr(String::from_str("width"), Some(self.get_value())));
                has_width = true;
            } else if is_h {
                root.attrs.set(i, AttrItem::Attr(String::from_str("height"), Some(self.get_value())));
                has_height = true;
            }
            proof {
                if is_w {
                    assert(is_attr_named(o[i as int], "width"@));
                }
                if is_h {
                    assert(is_attr_named(o[i as int], "height"@));
                }
            }
            i += 1;
        }
        let ghost mid = root.attrs@;
        if !has_width {
            root.attrs.push(AttrItem::Attr(String::from_str("width"), Some(self.get_value())));
        }
        if !has_height {
            root.attrs.push(AttrItem::Attr(String::from_str("height"), Some(self.get_value())));
        }
        assert(forall|k: int| 0 <= k < mid.len() ==> root.attrs@[k] == mid[k]);
    }
}

} // verus!
