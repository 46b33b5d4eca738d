//! The input element tree and the component tree built from it.
use vstd::prelude::*;
use crate::text::str_eq;

verus! {

/// A child of a node of the parsed markup tree.
pub enum MarkupChild {
    Element(MarkupElement),
    Text(String),
    Comment(String),
}

/// An element of the parsed markup tree: a tag, its attributes in source order
/// (a name and an optional raw value) and its children.
pub struct MarkupElement {
    pub tag_name: String,
    pub attributes: Vec<(String, Option<String>)>,
    pub children: Vec<MarkupChild>,
}

/// The key of a property of an object expression.
pub enum PropKey {
    /// A bare identifier key.
    Ident(String),
    /// A quoted string key.
    Str(String),
}

/// An expression of the component module.
pub enum Expr {
    Ident(String),
    Str(String),
    /// A numeric literal, kept as the decimal text it was written with.
    Num(String),
    Bool(bool),
    Null,
    Object(Vec<(PropKey, Expr)>),
    /// `test ? cons : alt`
    Cond(Box<Expr>, Box<Expr>, Box<Expr>),
    /// `left === right`
    StrictEq(Box<Expr>, Box<Expr>),
    /// `left || right`
    Or(Box<Expr>, Box<Expr>),
    Element(Box<Element>),
}

/// The value of an attribute: a string literal, or an expression in braces.
pub enum AttrValue {
    Str(String),
    Expr(Expr),
}

/// An item of an element's attribute list.
pub enum AttrItem {
    /// `name`, `name="..."` or `name={...}`; no value is the boolean shorthand.
    Attr(String, Option<AttrValue>),
    /// `{...name}`
    Spread(String),
}

/// A child of a component-tree element.
pub enum Child {
    Element(Element),
    /// `{expr}`
    Expr(Expr),
    /// Literal text.
    Text(String),
}

/// An element of the component tree. It is self-closing exactly when it has no children.
pub struct Element {
    pub name: String,
    pub attrs: Vec<AttrItem>,
    pub children: Vec<Child>,
}

impl Element {
    pub open spec fn self_closing_spec(&self) -> bool {
        self.children@.len() == 0
    }

    /// Whether the element is written self-closing.
    pub fn self_closing(&self) -> (r: bool)
        ensures
            r == self.self_closing_spec(),
    {
        self.children.len() == 0
    }
}

/// Whether the element is a root that the attribute passes apply to.
pub open spec fn is_svg_element(e: Element) -> bool {
    e.name@ == "svg"@ || e.name@ == "Svg"@
}

/// Whether the element's name is `svg` or `Svg`.
pub fn is_svg_name(name: &String) -> (r: bool)
    ensures
        r == (name@ == "svg"@ || name@ == "Svg"@),
{
    str_eq(name.as_str(), "svg") || str_eq(name.as_str(), "Svg")
}

/// Whether `a` is a named attribute called `n`.
pub open spec fn is_attr_named(a: AttrItem, n: Seq<char>) -> bool {
    a matches AttrItem::Attr(m, _) && m@ == n
}

/// Whether `a` is a named attribute called `n`.
pub fn attr_has_name(a: &AttrItem, n: &str) -> (r: bool)
    ensures
        r == is_attr_named(*a, n@),
{
    match a {
        AttrItem::Attr(m, _) => str_eq(m.as_str(), n),
        AttrItem::Spread(_) => false,
    }
}

} // verus!
