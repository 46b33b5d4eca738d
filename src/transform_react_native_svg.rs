//! Conversion of the component tree to react-native-svg components.
use vstd::prelude::*;
use crate::ast::{Child, Element};
use crate::attr_name::{lookup, pairs_view};
use crate::text::str_eq;

verus! {

/// The markup elements that react-native-svg supports, and its component for each.
pub open spec fn native_mappings() -> Seq<(Seq<char>, Seq<char>)> {
    seq![
        ("svg"@, "Svg"@),
        ("circle"@, "Circle"@),
        ("clipPath"@, "ClipPath"@),
        ("ellipse"@, "Ellipse"@),
        ("g"@, "G"@),
        ("linearGradient"@, "LinearGradient"@),
        ("radialGradient"@, "RadialGradient"@),
        ("line"@, "Line"@),
        ("path"@, "Path"@),
        ("pattern"@, "Pattern"@),
        ("polygon"@, "Polygon"@),
        ("polyline"@, "Polyline"@),
        ("rect"@, "Rect"@),
        ("symbol"@, "Symbol"@),
        ("text"@, "Text"@),
        ("textPath"@, "TextPath"@),
        ("tspan"@, "TSpan"@),
        ("use"@, "Use"@),
        ("defs"@, "Defs"@),
        ("stop"@, "Stop"@),
        ("mask"@, "Mask"@),
        ("image"@, "Image"@),
        ("foreignObject"@, "ForeignObject"@),
    ]
}

/// The element table as owned strings.
pub fn create_native_mappings() -> (r: Vec<(String, String)>)
    ensures
        pairs_view(r@) == native_mappings(),
{
    let v = vec![
        (String::from_str("svg"), String::from_str("Svg")),
        (String::from_str("circle"), String::from_str("Circle")),
        (String::from_str("clipPath"), String::from_str("ClipPath")),
        (String::from_str("ellipse"), String::from_str("Ellipse")),
        (String::from_str("g"), String::from_str("G")),
        (String::from_str("linearGradient"), String::from_str("LinearGradient")),
        (String::from_str("radialGradient"), String::from_str("RadialGradient")),
        (String::from_str("line"), String::from_str("Line")),
        (String::from_str("path"), String::from_str("Path")),
        (String::from_str("pattern"), String::from_str("Pattern")),
        (String::from_str("polygon"), String::from_str("Polygon")),
        (String::from_str("polyline"), String::from_str("Polyline")),
        (String::from_str("rect"), String::from_str("Rect")),
        (String::from_str("symbol"), String::from_str("Symbol")),
        (String::from_str("text"), String::from_str("Text")),
        (String::from_str("textPath"), String::from_str("TextPath")),
        (String::from_str("tspan"), String::from_str("TSpan")),
        (String::from_str("use"), String::from_str("Use")),
        (String::from_str("defs"), String::from_str("Defs")),
        (String::from_str("stop"), String::from_str("Stop")),
        (String::from_str("mask"), String::from_str("Mask")),
        (String::from_str("image"), String::from_str("Image")),
        (String::from_str("foreignObject"), String::from_str("ForeignObject")),
    ];
    assert(pairs_view(v@) =~= native_mappings());
    v
}

/// `new` is `old` renamed to its component, with its children converted.
pub open spec fn is_native(old: Element, new: Element) -> bool
    decreases old,
{
    &&& lookup(native_mappings(), old.name@) == Some(new.name@)
    &&& new.attrs == old.attrs
    &&& native_children(old.children@, new.children@)
}

/// `news` are the children `olds` with unsupported elements dropped and the others
/// converted; expression children are kept.
pub open spec fn native_children(olds: Seq<Child>, news: Seq<Child>) -> bool
    decreases olds,
{
    if olds.len() == 0 {
        news.len() == 0
    } else {
        let rest = olds.subrange(0, olds.len() - 1);
        match olds[olds.len() - 1] {
            Child::Element(oe) => if lookup(native_mappings(), oe.name@) is None {
                native_children(rest, news)
            } else {
                &&& news.len() > 0
                &&& news[news.len() - 1] matches Child::Element(ne)
                &&& is_native(oe, ne)
                &&& native_children(rest, news.subrange(0, news.len() - 1))
            },
            other => {
                &&& news.len() > 0
                &&& news[news.len() - 1] == other
                &&& native_children(rest, news.subrange(0, news.len() - 1))
            },
        }
    }
}

/// Renames elements to react-native-svg components and drops the unsupported ones.
pub struct Visitor {
    table: Vec<(String, String)>,
}

impl Visitor {
    pub closed spec fn table(&self) -> Seq<(Seq<char>, Seq<char>)> {
        pairs_view(self.table@)
    }

    pub fn new() -> (r: Self)
        ensures
            r.table() == native_mappings(),
    {
        Visitor { table: create_native_mappings() }
    }

    pub fn component_of(&self, tag: &str) -> (r: Option<String>)
        ensures
            r matches Some(v) ==> lookup(self.table(), tag@) == Some(v@),
            r is None ==> lookup(self.table(), tag@) is None,
    {
        let mut i: usize = 0;
        assert(self.table().skip(0) =~= self.table());
        while i < self.table.len()
            invariant
                i <= self.table@.len(),
                lookup(self.table(), tag@) == lookup(self.table().skip(i as int), tag@),
            decreases self.table@.len() - i,
        {
            let ghost t = self.table().skip(i as int);
            assert(t[0] == (self.table@[i as int].0@, self.table@[i as int].1@));
            if str_eq(self.table[i].0.as_str(), tag) {
                return Some(self.table[i].1.clone());
            }
            assert(t.skip(1) =~= self.table().skip(i + 1));
            i += 1;
        }
        None
    }

    /// The component for an element and its children, or none when react-native-svg has
    /// no such element.
    pub fn convert(&self, e: Element) -> (r: Option<Element>)
        requires
            self.table() == native_mappings(),
        ensures
            lookup(native_mappings(), e.name@) is None <==> r is None,
            r matches Some(n) ==> is_native(e, n),
        decreases e,
    {
        let name = match self.component_of(e.name.as_str()) {
            Some(n) => n,
            None => {
                return None;
            },
        };
        let Element { name: _, attrs, children } = e;
        let ghost oc = children@;
        let mut rest = children;
        let mut out: Vec<Child> = Vec::new();
        let ghost mut m: int = 0;
        assert(oc.subrange(0, 0) =~= Seq::<Child>::empty());
        while rest.len() > 0
            invariant
                self.table() == native_mappings(),
                0 <= m <= oc.len(),
                oc == e.children@,
                rest@ == oc.skip(m),
                native_children(oc.subrange(0, m), out@),
            decreases rest@.len(),
        {
            let c = rest.remove(0);
            let ghost old_out = out@;
            let ghost p = oc.subrange(0, m + 1);
            assert(c == oc[m]);
            assert(oc.skip(m + 1) =~= oc.skip(m).remove(0));
            assert(p.subrange(0, m) =~= oc.subrange(0, m));
            assert(p[m] == oc[m]);
            match c {
                Child::Element(ce) => {
                    proof {
                        assert(decreases_to!(e => e.children));
                        assert(decreases_to!(e.children => e.children@));
                        assert(decreases_to!(e.children@ => e.children@[m]));
                    }
                    match self.convert(ce) {
                        Some(n) => {
                            out.push(Child::Element(n));
                            assert(out@.subrange(0, out@.len() - 1) =~= old_out);
                        },
                        None => {},
                    }
                },
                other => {
                    out.push(other);
                    assert(out@.subrange(0, out@.len() - 1) =~= old_out);
                },
            }
            proof {
                m = m + 1;
            }
        }
        assert(oc.subrange(0, m) =~= oc);
        Some(Element { name, attrs, children: out })
    }
}

} // verus!
