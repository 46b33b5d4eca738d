//! Addition of attributes to the root element.
use vstd::prelude::*;
use crate::ast::{AttrItem, AttrValue, Element, Expr};
use crate::module::names_view;
use crate::config::{Config, ExpandProps, SvgProp};
use crate::text::{is_braced, str_eq, unbrace};

verus! {

pub enum AttributeValue {
    Bool(bool),
    /// A number, as its decimal text.
    Num(String),
    Str(String),
}

pub enum AttributePosition {
    Start,
    End,
}

/// An attribute to add: a spread of `name`, or `name` with an optional value; a `literal`
/// string value is written as an expression.
pub struct Attribute {
    pub name: String,
    pub value: Option<AttributeValue>,
    pub spread: bool,
    pub literal: bool,
    pub position: Option<AttributePosition>,
}

pub enum AttributeValueView {
    Bool(bool),
    Num(Seq<char>),
    Str(Seq<char>),
}

/// An attribute to add, as plain values: spread, name, value, literal, and whether it goes
/// first when it is new.
pub type AttributeView = (bool, Seq<char>, Option<AttributeValueView>, bool, bool);

pub open spec fn value_view(v: Option<AttributeValue>) -> Option<AttributeValueView> {
    match v {
        Some(AttributeValue::Bool(b)) => Some(AttributeValueView::Bool(b)),
        Some(AttributeValue::Num(n)) => Some(AttributeValueView::Num(n@)),
        Some(AttributeValue::Str(s)) => Some(AttributeValueView::Str(s@)),
        None => None,
    }
}

impl View for Attribute {
    type V = AttributeView;

    open spec fn view(&self) -> AttributeView {
        (self.spread, self.name@, value_view(self.value), self.literal, self.position matches Some(
            AttributePosition::Start,
        ))
    }
}

pub open spec fn attributes_view(v: Seq<Attribute>) -> Seq<AttributeView> {
    v.map_values(|a: Attribute| a@)
}

/// The attribute for an entry of `svg_props`.
pub open spec fn svg_prop_view(key: Seq<char>, v: Seq<char>) -> AttributeView {
    if is_braced(v) {
        (false, key, Some(AttributeValueView::Str(v.subrange(1, v.len() - 1))), true, false)
    } else {
        (false, key, Some(AttributeValueView::Str(v)), false, false)
    }
}

/// The attributes the configuration adds, in order: the `svg_props`, `ref`,
/// `aria-labelledby`, `aria-describedby`, and the spread of `props`.
pub open spec fn expected_attributes(c: Config) -> Seq<AttributeView> {
    c.svg_props@.map_values(|p: SvgProp| svg_prop_view(p.key@, p.value@)) + (if c._ref {
        seq![(false, "ref"@, Some(AttributeValueView::Str("ref"@)), true, false)]
    } else {
        Seq::empty()
    }) + (if c.title_prop {
        seq![(false, "aria-labelledby"@, Some(AttributeValueView::Str("titleId"@)), true, false)]
    } else {
        Seq::empty()
    }) + (if c.desc_prop {
        seq![(false, "aria-describedby"@, Some(AttributeValueView::Str("descId"@)), true, false)]
    } else {
        Seq::empty()
    }) + (if c.expands() {
        seq![(true, "props"@, None, false, c.expand_props is Start)]
    } else {
        Seq::empty()
    })
}

/// `item` is the attribute item written for `a`.
pub open spec fn is_item_for(item: AttrItem, a: AttributeView) -> bool {
    if a.0 {
        item matches AttrItem::Spread(n) && n@ == a.1
    } else {
        item matches AttrItem::Attr(n, v) && n@ == a.1 && match a.2 {
            None => v is None,
            Some(AttributeValueView::Bool(b)) => v matches Some(AttrValue::Expr(Expr::Bool(c))) && c == b,
            Some(AttributeValueView::Num(x)) => v matches Some(AttrValue::Expr(Expr::Num(t))) && t@ == x,
            Some(AttributeValueView::Str(x)) => if a.3 {
                v matches Some(AttrValue::Expr(Expr::Ident(t))) && t@ == x
            } else {
                v matches Some(AttrValue::Str(t)) && t@ == x
            },
        }
    }
}

/// `item` has the same key as `a`: a spread of the same name, or an attribute of that name.
pub open spec fn same_key(item: AttrItem, a: AttributeView) -> bool {
    if a.0 {
        item matches AttrItem::Spread(n) && n@ == a.1
    } else {
        item matches AttrItem::Attr(n, _) && n@ == a.1
    }
}

/// `new` is `old` with `a` added: in place of the first item with the same key, else first
/// or last as `a` asks.
pub open spec fn is_added(old: Seq<AttrItem>, new: Seq<AttrItem>, a: AttributeView) -> bool {
    if exists|i: int| 0 <= i < old.len() && same_key(#[trigger] old[i], a) {
        let i = choose|i: int|
            0 <= i < old.len() && same_key(#[trigger] old[i], a) && forall|j: int|
                0 <= j < i ==> !same_key(#[trigger] old[j], a);
        new.len() == old.len() && is_item_for(new[i], a) && forall|k: int|
            0 <= k < old.len() && k != i ==> new[k] == old[k]
    } else if a.4 {
        new.len() == old.len() + 1 && is_item_for(new[0], a) && new.skip(1) == old
    } else {
        new.len() == old.len() + 1 && is_item_for(new[old.len() as int], a) && new.subrange(
            0,
            old.len() as int,
        ) == old
    }
}

/// `new` is `old` with each of `attrs` added in turn.
pub open spec fn is_added_all(old: Seq<AttrItem>, new: Seq<AttrItem>, attrs: Seq<AttributeView>) -> bool {
    exists|states: Seq<Seq<AttrItem>>|
        #![trigger states.len()]
        states.len() == attrs.len() + 1 && states[0] == old && states[attrs.len() as int] == new
            && forall|k: int| 0 <= k < attrs.len() ==> is_added(#[trigger] states[k], states[k + 1], attrs[k])
}

/// `new` is the root `old` with `attrs` added, when its name is one of `elements`;
/// otherwise it is unchanged.
pub open spec fn is_extended(old: Element, new: Element, elements: Seq<Seq<char>>, attrs: Seq<AttributeView>) -> bool {
    &&& new.name == old.name
    &&& new.children == old.children
    &&& if elements.contains(old.name@) {
        is_added_all(old.attrs@, new.attrs@, attrs)
    } else {
        new.attrs == old.attrs
    }
}

/// The attribute for an entry of `svg_props`: a value written `{expr}` is an expression.
pub fn svg_prop_to_attr(key: &str, value: &str) -> (r: Attribute)
    ensures
        r@ == svg_prop_view(key@, value@),
{
    let (literal, inner) = unbrace(value);
    Attribute {
        name: String::from_str(key),
        value: Some(AttributeValue::Str(inner)),
        spread: false,
        literal,
        position: None,
    }
}

fn lit(s: &str) -> (r: String)
    ensures
        r@ == s@,
{
    String::from_str(s)
}

/// Adds attributes to a root whose name is one of the given elements.
pub struct Visitor {
    elements: Vec<String>,
    attributes: Vec<Attribute>,
}

impl Visitor {
    pub closed spec fn attributes(&self) -> Seq<AttributeView> {
        attributes_view(self.attributes@)
    }

    pub closed spec fn elements(&self) -> Seq<Seq<char>> {
        names_view(self.elements@)
    }

    /// A visitor adding `attributes` to roots named one of `elements`.
    pub fn with_attributes(elements: Vec<String>, attributes: Vec<Attribute>) -> (r: Self)
        ensures
            r.elements() == names_view(elements@),
            r.attributes() == attributes_view(attributes@),
    {
        Visitor { elements, attributes }
    }

    fn applies_to(&self, name: &String) -> (r: bool)
        ensures
            r == self.elements().contains(name@),
    {
        let mut i: usize = 0;
        while i < self.elements.len()
            invariant
                i <= self.elements@.len(),
                forall|k: int| 0 <= k < i ==> (#[trigger] self.elements@[k])@ != name@,
            decreases self.elements@.len() - i,
        {
            if str_eq(self.elements[i].as_str(), name.as_str()) {
                assert(self.elements()[i as int] == name@);
                return true;
            }
            i += 1;
        }
        assert(!self.elements().contains(name@)) by {
            if self.elements().contains(name@) {
                let k = choose|k: int| 0 <= k < self.elements().len() && self.elements()[k] == name@;
                assert(self.elements@[k]@ == name@);
            }
        }
        false
    }

    /// The attributes the configuration asks for, added to a root named `svg` or `Svg`.
    pub fn new(config: &Config) -> (r: Self)
        ensures
            r.attributes() == expected_attributes(*config),
            r.elements() == seq!["svg"@, "Svg"@],
    {
        let mut elements: Vec<String> = Vec::new();
        elements.push(lit("svg"));
        elements.push(lit("Svg"));
        assert(names_view(elements@) =~= seq!["svg"@, "Svg"@]);
        let mut attributes: Vec<Attribute> = Vec::new();
        let mut i: usize = 0;
        while i < config.svg_props.len()
            invariant
                i <= config.svg_props@.len(),
                attributes@.len() == i,
                forall|k: int| 0 <= k < i ==> (#[trigger] attributes@[k])@ == svg_prop_view(config.svg_props@[k].key@, config.svg_props@[k].value@),
            decreases config.svg_props@.len() - i,
        {
            let p = &config.svg_props[i];
            let a = svg_prop_to_attr(p.key.as_str(), p.value.as_str());
            attributes.push(a);
            i += 1;
        }
        assert(attributes_view(attributes@) =~= config.svg_props@.map_values(
            |p: SvgProp| svg_prop_view(p.key@, p.value@),
        ));
        let ghost a0 = attributes_view(attributes@);
        if config._ref {
            attributes.push(
                Attribute {
                    name: lit("ref"),
                    value: Some(AttributeValue::Str(lit("ref"))),
                    spread: false,
                    literal: true,
                    position: None,
                },
            );
        }
        let ghost a1 = attributes_view(attributes@);
        if config.title_prop {
            attributes.push(
                Attribute {
                    name: lit("aria-labelledby"),
                    value: Some(AttributeValue::Str(lit("titleId"))),
                    spread: false,
                    literal: true,
                    position: None,
                },
            );
        }
        let ghost a2 = attributes_view(attributes@);
        if config.desc_prop {
            attributes.push(
                Attribute {
                    name: lit("aria-describedby"),
                    value: Some(AttributeValue::Str(lit("descId"))),
                    spread: false,
                    literal: true,
                    position: None,
                },
            );
        }
        let ghost a3 = attributes_view(attributes@);
        let (expand, position) = match config.expand_props {
            ExpandProps::Off => (false, None),
            ExpandProps::Bool(b) => (b, None),
            ExpandProps::Start => (true, Some(AttributePosition::Start)),
            ExpandProps::End => (true, Some(AttributePosition::End)),
        };
        if expand {
            attributes.push(
                Attribute { name: lit("props"), value: None, spread: true, literal: false, position },
            );
        }
        assert(attributes_view(attributes@) =~= expected_attributes(*config));
        Visitor { elements, attributes }
    }

    fn matches_key(item: &AttrItem, a: &Attribute) -> (r: bool)
        ensures
            r == same_key(*item, a@),
    {
        match item {
            AttrItem::Spread(n) => a.spread && str_eq(n.as_str(), a.name.as_str()),
            AttrItem::Attr(n, _) => !a.spread && str_eq(n.as_str(), a.name.as_str()),
        }
    }

    /// The attribute item written for `a`.
    pub fn get_attr(a: &Attribute) -> (r: AttrItem)
        ensures
            is_item_for(r, a@),
    {
        if a.spread {
            return AttrItem::Spread(a.name.clone());
        }
        let value = match &a.value {
            None => None,
            Some(AttributeValue::Bool(b)) => Some(AttrValue::Expr(Expr::Bool(*b))),
            Some(AttributeValue::Num(n)) => Some(AttrValue::Expr(Expr::Num(n.clone()))),
            Some(AttributeValue::Str(v)) => if a.literal {
                Some(AttrValue::Expr(Expr::Ident(v.clone())))
            } else {
                Some(AttrValue::Str(v.clone()))
            },
        };
        AttrItem::Attr(a.name.clone(), value)
    }

    /// Adds one attribute.
    fn add_one(attrs: &mut Vec<AttrItem>, a: &Attribute)
        ensures
            is_added(old(attrs)@, final(attrs)@, a@),
    {
        let item = Self::get_attr(a);
        let ghost o = attrs@;
        let mut i: usize = 0;
        while i < attrs.len()
            invariant
                i <= attrs@.len(),
                attrs@ == o,
                o == old(attrs)@,
                is_item_for(item, a@),
                forall|j: int| 0 <= j < i ==> !same_key(#[trigger] o[j], a@),
            decreases attrs@.len() - i,
        {
            if Self::matches_key(&attrs[i], a) {
                assert(same_key(o[i as int], a@));
                proof {
                    let c = choose|c: int|
                        0 <= c < o.len() && same_key(#[trigger] o[c], a@) && forall|j: int|
                            0 <= j < c ==> !same_key(#[trigger] o[j], a@);
                    assert(c == i) by {
                        if c < i {
                            assert(!same_key(o[c], a@));
                        }
                        if c > i {
                            assert(!same_key(o[i as int], a@));
                        }
                    }
                }
                attrs.set(i, item);
                assert(forall|k: int| 0 <= k < o.len() && k != i ==> attrs@[k] == o[k]);
                return;
            }
            i += 1;
        }
        match a.position {
            Some(AttributePosition::Start) => {
                attrs.insert(0, item);
                assert(attrs@.skip(1) =~= o);
            },
            _ => {
                attrs.push(item);
                assert(attrs@.subrange(0, o.len() as int) =~= o);
            },
        }
    }

    /// Adds each attribute in turn to the root when its name is one of the elements: it
    /// replaces the first item with the same key, or else goes first or last.
    pub fn visit(&self, root: &mut Element)
        ensures
            is_extended(*old(root), *final(root), self.elements(), self.attributes()),
    {
        if !self.applies_to(&root.name) {
            return;
        }
        let ghost mut states: Seq<Seq<AttrItem>> = seq![root.attrs@];
        let mut k: usize = 0;
        while k < self.attributes.len()
            invariant
                k <= self.attributes@.len(),
                root.name == old(root).name,
                root.children == old(root).children,
                states.len() == k + 1,
                states[0] == old(root).attrs@,
                states[k as int] == root.attrs@,
                forall|j: int| 0 <= j < k ==> is_added(#[trigger] states[j], states[j + 1], self.attributes()[j]),
            decreases self.attributes@.len() - k,
        {
            Self::add_one(&mut root.attrs, &self.attributes[k]);
            proof {
                let ns = states.push(root.attrs@);
                assert forall|j: int| 0 <= j < k + 1 implies is_added(#[trigger] ns[j], ns[j + 1], self.attributes()[j]) by {
                    if j < k {
                        assert(ns[j] == states[j]);
                        assert(ns[j + 1] == states[j + 1]);
                    }
                }
                states = ns;
            }
            k += 1;
        }
        assert(states.len() == self.attributes().len() + 1);
    }
}

} // verus!
