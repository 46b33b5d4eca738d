use svgr_rs::add_jsx_attribute::{Attribute, AttributePosition, AttributeValue, Visitor as AddVisitor};
use svgr_rs::ast::{AttrItem, AttrValue, Child, Element, Expr, MarkupChild, MarkupElement, PropKey};
use svgr_rs::config::{Config, ExpandProps, ExportType, Icon, JSXRuntime, JSXRuntimeImport, SvgProp, SvgrError};
use svgr_rs::hast_to_ast::to_swc_ast;
use svgr_rs::module::{Export, ImportSpecifier, Module, Param};
use svgr_rs::replace_jsx_attribute::Visitor as ReplaceVisitor;
use svgr_rs::state::{Caller, InternalConfig};
use svgr_rs::svg_dynamic_title::Visitor as TitleVisitor;
use svgr_rs::svg_em_dimensions::Visitor as EmVisitor;
use svgr_rs::transform;
use svgr_rs::transform_svg_component;

// ---- reading markup and JSX for the cases below ----

struct Reader {
    c: Vec<char>,
    i: usize,
}

impl Reader {
    fn new(s: &str) -> Reader {
        Reader { c: s.chars().collect(), i: 0 }
    }
    fn peek(&self) -> Option<char> {
        self.c.get(self.i).copied()
    }
    fn starts(&self, p: &str) -> bool {
        let p: Vec<char> = p.chars().collect();
        self.c.len() >= self.i + p.len() && self.c[self.i..self.i + p.len()] == p[..]
    }
    fn skip_ws(&mut self) {
        while matches!(self.peek(), Some(c) if c.is_whitespace()) {
            self.i += 1;
        }
    }
    fn name(&mut self) -> String {
        let mut s = String::new();
        while let Some(c) = self.peek() {
            if c.is_alphanumeric() || c == '-' || c == ':' || c == '_' {
                s.push(c);
                self.i += 1;
            } else {
                break;
            }
        }
        s
    }
    fn until(&mut self, end: char) -> String {
        let mut s = String::new();
        while let Some(c) = self.peek() {
            if c == end {
                break;
            }
            s.push(c);
            self.i += 1;
        }
        s
    }
    fn quoted(&mut self) -> String {
        self.i += 1;
        let s = self.until('"');
        self.i += 1;
        s
    }
    fn braced(&mut self) -> String {
        self.i += 1;
        let mut depth = 1;
        let mut s = String::new();
        while let Some(c) = self.peek() {
            self.i += 1;
            if c == '{' {
                depth += 1;
            } else if c == '}' {
                depth -= 1;
                if depth == 0 {
                    break;
                }
            }
            s.push(c);
        }
        s
    }

    fn markup_element(&mut self) -> MarkupElement {
        self.i += 1;
        let tag_name = self.name();
        let mut attributes = vec![];
        loop {
            self.skip_ws();
            if self.starts("/>") {
                self.i += 2;
                return MarkupElement { tag_name, attributes, children: vec![] };
            }
            if self.starts(">") {
                self.i += 1;
                break;
            }
            let n = self.name();
            if self.starts("=") {
                self.i += 1;
                attributes.push((n, Some(self.quoted())));
            } else {
                attributes.push((n, None));
            }
        }
        let mut children = vec![];
        loop {
            if self.starts("</") {
                self.until('>');
                self.i += 1;
                break;
            } else if self.starts("<!--") {
                self.i += 4;
                let mut s = String::new();
                while !self.starts("-->") {
                    s.push(self.peek().unwrap());
                    self.i += 1;
                }
                self.i += 3;
                children.push(MarkupChild::Comment(s));
            } else if self.starts("<") {
                children.push(MarkupChild::Element(self.markup_element()));
            } else {
                children.push(MarkupChild::Text(self.until('<')));
            }
        }
        MarkupElement { tag_name, attributes, children }
    }

    fn expr(src: &str) -> Expr {
        let t = src.trim();
        if t.starts_with('"') && t.ends_with('"') && t.len() >= 2 {
            Expr::Str(t[1..t.len() - 1].to_string())
        } else if !t.is_empty() && t.chars().all(|c| c.is_ascii_digit() || c == '.') {
            Expr::Num(t.to_string())
        } else if t == "true" || t == "false" {
            Expr::Bool(t == "true")
        } else {
            Expr::Ident(t.to_string())
        }
    }

    fn jsx_element(&mut self) -> Element {
        self.i += 1;
        let name = self.name();
        let mut attrs = vec![];
        loop {
            self.skip_ws();
            if self.starts("/>") {
                self.i += 2;
                return Element { name, attrs, children: vec![] };
            }
            if self.starts(">") {
                self.i += 1;
                break;
            }
            if self.starts("{...") {
                let inner = self.braced();
                attrs.push(AttrItem::Spread(inner[3..].to_string()));
                continue;
            }
            let n = self.name();
            if self.starts("=\"") {
                self.i += 1;
                attrs.push(AttrItem::Attr(n, Some(AttrValue::Str(self.quoted()))));
            } else if self.starts("={") {
                self.i += 1;
                let inner = self.braced();
                attrs.push(AttrItem::Attr(n, Some(AttrValue::Expr(Reader::expr(&inner)))));
            } else {
                attrs.push(AttrItem::Attr(n, None));
            }
        }
        let mut children = vec![];
        loop {
            if self.starts("</") {
                self.until('>');
                self.i += 1;
                break;
            } else if self.starts("<") {
                children.push(Child::Element(self.jsx_element()));
            } else if self.starts("{") {
                let inner = self.braced();
                children.push(Child::Expr(Reader::expr(&inner)));
            } else {
                let mut s = String::new();
                while let Some(c) = self.peek() {
                    if c == '<' || c == '{' {
                        break;
                    }
                    s.push(c);
                    self.i += 1;
                }
                children.push(Child::Text(s));
            }
        }
        Element { name, attrs, children }
    }
}

fn markup(s: &str) -> Vec<MarkupChild> {
    let mut r = Reader::new(s);
    vec![MarkupChild::Element(r.markup_element())]
}

fn jsx(s: &str) -> Element {
    let mut r = Reader::new(s.trim_end_matches(';'));
    r.jsx_element()
}

// ---- writing JSX and modules ----

fn quote(s: &str) -> String {
    format!("\"{}\"", s.replace('\\', "\\\\").replace('"', "\\\""))
}

fn print_expr(e: &Expr, minify: bool) -> String {
    match e {
        Expr::Ident(n) => n.clone(),
        Expr::Str(s) => quote(s),
        Expr::Num(n) => n.clone(),
        Expr::Bool(b) => b.to_string(),
        Expr::Null => "null".to_string(),
        Expr::Object(props) => {
            let parts: Vec<String> = props
                .iter()
                .map(|(k, v)| {
                    let key = match k {
                        PropKey::Ident(n) => n.clone(),
                        PropKey::Str(s) => quote(s),
                    };
                    if minify {
                        format!("{}:{}", key, print_expr(v, minify))
                    } else {
                        format!("{}: {}", key, print_expr(v, minify))
                    }
                })
                .collect();
            if minify {
                format!("{{{}}}", parts.join(","))
            } else {
                format!("{{ {} }}", parts.join(", "))
            }
        }
        Expr::Cond(t, c, a) => format!(
            "{} ? {} : {}",
            print_expr(t, minify),
            print_expr(c, minify),
            print_expr(a, minify)
        ),
        Expr::StrictEq(l, r) => format!("{} === {}", print_expr(l, minify), print_expr(r, minify)),
        Expr::Or(l, r) => format!("{} || {}", print_expr(l, minify), print_expr(r, minify)),
        Expr::Element(e) => print_element(e, minify),
    }
}

fn print_element(e: &Element, minify: bool) -> String {
    let mut s = format!("<{}", e.name);
    for a in &e.attrs {
        match a {
            AttrItem::Spread(n) => s.push_str(&format!(" {{...{}}}", n)),
            AttrItem::Attr(n, None) => s.push_str(&format!(" {}", n)),
            AttrItem::Attr(n, Some(AttrValue::Str(v))) => s.push_str(&format!(" {}={}", n, quote(v))),
            AttrItem::Attr(n, Some(AttrValue::Expr(x))) => {
                s.push_str(&format!(" {}={{{}}}", n, print_expr(x, minify)))
            }
        }
    }
    if e.children.is_empty() {
        s.push_str("/>");
        return s;
    }
    s.push('>');
    for c in &e.children {
        match c {
            Child::Element(el) => s.push_str(&print_element(el, minify)),
            Child::Expr(x) => s.push_str(&format!("{{{}}}", print_expr(x, minify))),
            Child::Text(t) => s.push_str(t),
        }
    }
    s.push_str(&format!("</{}>", e.name));
    s
}

fn print_module(m: &Module) -> String {
    let mut out = String::new();
    for d in &m.imports {
        let mut parts: Vec<String> = vec![];
        let mut named: Vec<String> = vec![];
        for sp in &d.specifiers {
            match sp {
                ImportSpecifier::Namespace(n) => parts.push(format!("* as {}", n)),
                ImportSpecifier::Default(n) => parts.push(n.clone()),
                ImportSpecifier::Named(n) => named.push(n.clone()),
            }
        }
        if !named.is_empty() {
            parts.push(format!("{{ {} }}", named.join(", ")));
        }
        out.push_str(&format!("import {} from {};\n", parts.join(", "), quote(&d.source)));
    }
    let params: Vec<String> = m
        .params
        .iter()
        .map(|p| match p {
            Param::Ident(n, _) => n.clone(),
            Param::Object(fields, rest, _) => {
                let mut s = format!("{{ {}", fields.join(" , "));
                if *rest {
                    s.push_str(" , ...props");
                } else {
                    s.push(' ');
                }
                s.push_str(" }");
                s
            }
        })
        .collect();
    out.push_str(&format!(
        "const {} = ({})=>{};\n",
        m.component_name,
        params.join(", "),
        print_element(&m.root, false)
    ));
    for h in &m.hocs {
        out.push_str(&format!("const {} = {}({});\n", h.name, h.callee, h.arg));
    }
    match &m.export {
        Export::Default(n) => out.push_str(&format!("export default {};\n", n)),
        Export::Named(l, e) => out.push_str(&format!("export {{ {} as {} }};\n", l, e)),
    }
    if let Some(p) = &m.previous_export {
        for st in p.split(';').map(|s| s.trim()).filter(|s| !s.is_empty()) {
            out.push_str(&format!("{};\n", st));
        }
    }
    out
}

fn convert(input: &str) -> String {
    let e = to_swc_ast(&markup(input)).unwrap();
    format!("{};", print_element(&e, true))
}

// ---- conversion of markup ----

#[test]
fn transforms_data_x() {
    assert_eq!(convert(r#"<svg data-hidden="true"></svg>"#), r#"<svg data-hidden="true"/>;"#);
}

#[test]
fn preserves_mask_type() {
    assert_eq!(
        convert(r#"<svg><mask mask-type="alpha"/></svg>"#),
        r#"<svg><mask mask-type="alpha"/></svg>;"#
    );
}

#[test]
fn string_literals_children_of_text_nodes_should_have_decoded_xml_entities() {
    assert_eq!(convert(r#"<svg><text>&lt;</text></svg>"#), r#"<svg><text>{"<"}</text></svg>;"#);
}

#[test]
fn string_literals_children_of_tspan_nodes_should_have_decoded_xml_entities() {
    assert_eq!(
        convert(r#"<svg><text><tspan>&lt;</tspan></text></svg>"#),
        r#"<svg><text><tspan>{"<"}</tspan></text></svg>;"#
    );
}

#[test]
fn mod_transforms_style() {
    assert_eq!(
        convert(r#"<svg><path style="--index: 1; font-size: 24px;"></path><path style="--index: 2"></path></svg>"#),
        r#"<svg><path style={{"--index":1,fontSize:24}}/><path style={{"--index":2}}/></svg>;"#
    );
}

#[test]
fn transforms_class() {
    assert_eq!(convert(r#"<svg><path class="icon"/></svg>"#), r#"<svg><path className="icon"/></svg>;"#);
}

#[test]
fn transforms_aria_x() {
    assert_eq!(convert(r#"<svg aria-hidden="true"></svg>"#), r#"<svg aria-hidden="true"/>;"#);
}

#[test]
fn hast_to_swc_ast_transforms_style() {
    assert_eq!(
        convert(r#"<svg><path style="--index: 1; font-size: 24px;"></path><path style="--index: 2"></path></svg>"#),
        r#"<svg><path style={{"--index":1,fontSize:24}}/><path style={{"--index":2}}/></svg>;"#
    );
}

#[test]
fn drops_comments_and_blank_text() {
    assert_eq!(
        convert("<svg>\n  <!-- a comment -->\n  <g/>\n  <text> hi &amp; bye </text>\n</svg>"),
        r#"<svg><g/><text>{" hi & bye "}</text></svg>;"#
    );
}

#[test]
fn maps_numbers_and_folds_line_breaks() {
    assert_eq!(
        convert("<svg width=\"24\" opacity=\"-0.5\" d=\"M0\n\n0\tL1\" x=\"1e3\"/>"),
        r#"<svg width={24} opacity={-0.5} d="M0 0 L1" x="1e3"/>;"#
    );
}

#[test]
fn maps_element_overrides_and_dictionary_names() {
    assert_eq!(
        convert(r##"<form enctype="a"><input checked value="v" maxlength="3" stroke-width="2" xlink:href="#a"/></form>"##),
        r##"<form encType="a"><input defaultChecked defaultValue="v" maxLength={3} strokeWidth={2} xlinkHref="#a"/></form>;"##
    );
}

#[test]
fn keeps_unknown_attribute_names() {
    assert_eq!(convert(r#"<g customAttr="x" foo-bar="y"/>"#), r#"<g customAttr="x" foo-bar="y"/>;"#);
}

#[test]
fn normalizes_aria_names() {
    assert_eq!(convert(r#"<svg ariaHidden="true" aria-Label="x"/>"#), r#"<svg aria-hidden="true" aria-label="x"/>;"#);
}

#[test]
fn style_keys_and_values() {
    assert_eq!(
        convert(r#"<g style="-ms-transform: none; BACKGROUND-COLOR: red; margin-top:10px;broken; width: 1.5"/>"#),
        r#"<g style={{msTransform:"none",backgroundColor:"red",marginTop:10,width:1.5}}/>;"#
    );
}

#[test]
fn document_without_element_is_invalid() {
    assert!(to_swc_ast(&vec![MarkupChild::Comment("x".to_string())]).is_none());
    let r = transform(&vec![MarkupChild::Text("  ".to_string())], &Config::default(), None);
    assert!(matches!(r, Err(SvgrError::InvalidSvg)));
}

// ---- replacement of values ----

fn replace_test(input: &str, values: Vec<(&str, &str)>, expected: &str) {
    let values: Vec<(String, String)> =
        values.into_iter().map(|(a, b)| (a.to_string(), b.to_string())).collect();
    let v = ReplaceVisitor::new(&values);
    let e = v.visit(jsx(input));
    assert_eq!(format!("{};", print_element(&e, false)), expected);
}

#[test]
fn should_replace_attribute_values_1() {
    replace_test(r#"<div something="cool"/>;"#, vec![("cool", "not cool")], r#"<div something="not cool"/>;"#);
}

#[test]
fn should_replace_attribute_values_2() {
    replace_test(r#"<div something="cool"/>;"#, vec![("cool", "{props.color}")], r#"<div something={props.color}/>;"#);
}

#[test]
fn replaces_values_in_nested_elements() {
    replace_test(
        r##"<svg fill="#000"><path fill="#000" stroke="#fff"/></svg>"##,
        vec![("#000", "currentColor")],
        r##"<svg fill="currentColor"><path fill="currentColor" stroke="#fff"/></svg>;"##,
    );
}

// ---- addition of attributes ----

fn add_test(input: &str, elements: Vec<&str>, attributes: Vec<Attribute>, expected: &str) {
    let v = AddVisitor::with_attributes(elements.into_iter().map(|s| s.to_string()).collect(), attributes);
    let mut e = jsx(input);
    v.visit(&mut e);
    assert_eq!(format!("{};", print_element(&e, false)), expected);
}

fn attribute(name: &str) -> Attribute {
    Attribute { name: name.to_string(), value: None, spread: false, literal: false, position: None }
}

#[test]
fn should_add_simple_attribute() {
    add_test(r#"<div/>;"#, vec!["div"], vec![attribute("disabled")], r#"<div disabled/>;"#);
}

#[test]
fn should_add_attribute_with_value() {
    add_test(
        r#"<div/>;"#,
        vec!["div"],
        vec![Attribute { value: Some(AttributeValue::Bool(true)), ..attribute("disabled") }],
        r#"<div disabled={true}/>;"#,
    );
    add_test(
        r#"<div/>;"#,
        vec!["div"],
        vec![Attribute { value: Some(AttributeValue::Str("true".to_string())), ..attribute("disabled") }],
        r#"<div disabled="true"/>;"#,
    );
    add_test(
        r#"<div/>;"#,
        vec!["div"],
        vec![Attribute { value: Some(AttributeValue::Num("200".to_string())), ..attribute("disabled") }],
        r#"<div disabled={200}/>;"#,
    );
}

#[test]
fn should_add_literal_attribute() {
    add_test(
        r#"<div/>;"#,
        vec!["div"],
        vec![Attribute { value: Some(AttributeValue::Str("ref".to_string())), literal: true, ..attribute("ref") }],
        r#"<div ref={ref}/>;"#,
    );
    add_test(
        r#"<div/>;"#,
        vec!["div"],
        vec![Attribute {
            value: Some(AttributeValue::Str("ref ? ref : null".to_string())),
            literal: true,
            ..attribute("ref")
        }],
        r#"<div ref={ref ? ref : null}/>;"#,
    );
}

#[test]
fn should_add_spread_attribute() {
    add_test(
        r#"<div foo><span/></div>;"#,
        vec!["div"],
        vec![Attribute { spread: true, position: Some(AttributePosition::Start), ..attribute("props") }],
        r#"<div {...props} foo><span/></div>;"#,
    );
    // the pass rewrites the root element only
    add_test(
        r#"<div><span foo="bar"/></div>;"#,
        vec!["span"],
        vec![Attribute { spread: true, position: Some(AttributePosition::End), ..attribute("props") }],
        r#"<div><span foo="bar"/></div>;"#,
    );
    add_test(
        r#"<span foo="bar"/>;"#,
        vec!["span"],
        vec![Attribute { spread: true, position: Some(AttributePosition::End), ..attribute("props") }],
        r#"<span foo="bar" {...props}/>;"#,
    );
}

#[test]
fn should_replace_attribute() {
    add_test(
        r#"<div disabled/>;"#,
        vec!["div"],
        vec![Attribute { value: Some(AttributeValue::Bool(false)), ..attribute("disabled") }],
        r#"<div disabled={false}/>;"#,
    );
}

#[test]
fn adds_configured_attributes_to_svg_root() {
    let config = Config {
        _ref: true,
        title_prop: true,
        desc_prop: true,
        expand_props: ExpandProps::Start,
        svg_props: vec![
            SvgProp { key: "role".to_string(), value: "img".to_string() },
            SvgProp { key: "fill".to_string(), value: "{color}".to_string() },
        ],
        ..Config::default()
    };
    let v = AddVisitor::new(&config);
    let mut e = jsx(r#"<svg fill="red"/>"#);
    v.visit(&mut e);
    assert_eq!(
        print_element(&e, false),
        r#"<svg {...props} fill={color} role="img" ref={ref} aria-labelledby={titleId} aria-describedby={descId}/>"#
    );
    let mut other = jsx(r#"<g fill="red"/>"#);
    v.visit(&mut other);
    assert_eq!(print_element(&other, false), r#"<g fill="red"/>"#);
}

// ---- dimensions ----

fn em_test(input: &str, icon: Option<Icon>, expected: &str) {
    let config = Config { icon, ..Config::default() };
    let v = EmVisitor::new(&config);
    let mut e = jsx(input);
    v.visit(&mut e);
    assert_eq!(format!("{};", print_element(&e, false)), expected);
}

#[test]
fn replaces_width_or_height_attributes() {
    em_test(r#"<svg foo="bar" width={100} height={200}/>;"#, None, r#"<svg foo="bar" width="1em" height="1em"/>;"#);
}

#[test]
fn adds_em_if_they_are_not_present() {
    em_test(r#"<svg foo="bar"/>;"#, None, r#"<svg foo="bar" width="1em" height="1em"/>;"#);
}

#[test]
fn accepts_numeric_values() {
    em_test(r#"<svg foo="bar"/>;"#, Some(Icon::Num("24".to_string())), r#"<svg foo="bar" width={24} height={24}/>;"#);
}

#[test]
fn accepts_string_values() {
    em_test(r#"<svg foo="bar"/>;"#, Some(Icon::Str("2em".to_string())), r#"<svg foo="bar" width="2em" height="2em"/>;"#);
}

#[test]
fn adds_only_the_missing_dimension() {
    em_test(r#"<svg height="3" foo="bar"/>;"#, Some(Icon::Bool(true)), r#"<svg height="1em" foo="bar" width="1em"/>;"#);
}

// ---- title and description ----

fn title_test(input: &str, tag: &str, expected: &str) {
    let v = TitleVisitor::new(tag);
    let mut e = jsx(input);
    v.visit(&mut e);
    assert_eq!(format!("{};", print_element(&e, false)), expected);
}

#[test]
fn title_plugin_should_add_title_attribute_if_not_present() {
    title_test(r#"<svg></svg>;"#, "title", r#"<svg>{title ? <title id={titleId}>{title}</title> : null}</svg>;"#);
}

#[test]
fn title_plugin_should_add_title_element_and_fallback_to_existing_title() {
    title_test(
        r#"<svg><title>Hello</title></svg>;"#,
        "title",
        r#"<svg>{title === undefined ? <title id={titleId}>Hello</title> : title ? <title id={titleId}>{title}</title> : null}</svg>;"#,
    );
    title_test(
        r#"<svg><title>{"Hello"}</title></svg>;"#,
        "title",
        r#"<svg>{title === undefined ? <title id={titleId}>{"Hello"}</title> : title ? <title id={titleId}>{title}</title> : null}</svg>;"#,
    );
}

#[test]
fn title_plugin_should_preserve_any_existing_title_attributes() {
    title_test(
        r#"<svg><title id="a">Hello</title></svg>;"#,
        "title",
        r#"<svg>{title === undefined ? <title id={titleId || "a"}>Hello</title> : title ? <title id={titleId || "a"}>{title}</title> : null}</svg>;"#,
    );
}

#[test]
fn title_plugin_should_support_empty_title() {
    title_test(r#"<svg><title></title></svg>;"#, "title", r#"<svg>{title ? <title id={titleId}>{title}</title> : null}</svg>;"#);
}

#[test]
fn title_plugin_should_support_self_closing_title() {
    title_test(r#"<svg><title/></svg>;"#, "title", r#"<svg>{title ? <title id={titleId}>{title}</title> : null}</svg>;"#);
}

#[test]
fn title_plugin_should_work_if_an_attribute_is_already_present() {
    title_test(
        r#"<svg><foo/></svg>;"#,
        "title",
        r#"<svg>{title ? <title id={titleId}>{title}</title> : null}<foo/></svg>;"#,
    );
}

#[test]
fn desc_plugin_uses_desc_id() {
    title_test(
        r#"<svg><g/><desc>About</desc></svg>;"#,
        "desc",
        r#"<svg><g/>{desc === undefined ? <desc id={descId}>About</desc> : desc ? <desc id={descId}>{desc}</desc> : null}</svg>;"#,
    );
}

// ---- assembly of the module ----

fn assemble(input: &str, config: &Config, state: &InternalConfig) -> String {
    let m = transform_svg_component::transform(jsx(input), config, state).ok().unwrap();
    print_module(&m)
}

fn default_state() -> InternalConfig {
    InternalConfig { file_path: None, component_name: "SvgComponent".to_string(), caller: None }
}

#[test]
fn transforms_whole_program() {
    assert_eq!(
        assemble("<svg><g/></svg>", &Config::default(), &default_state()),
        "import * as React from \"react\";\nconst SvgComponent = ()=><svg><g/></svg>;\nexport default SvgComponent;\n"
    );
}

#[test]
fn with_native_option_adds_import_from_react_native_svg() {
    let config = Config { native: true, ..Config::default() };
    assert_eq!(
        assemble("<Svg><g/></Svg>", &config, &default_state()),
        "import * as React from \"react\";\nimport Svg from \"react-native-svg\";\nconst SvgComponent = ()=><Svg><g/></Svg>;\nexport default SvgComponent;\n"
    );
}

#[test]
fn with_ref_option_adds_forward_ref_component() {
    let config = Config { _ref: true, ..Config::default() };
    assert_eq!(
        assemble("<svg><g/></svg>", &config, &default_state()),
        "import * as React from \"react\";\nimport { forwardRef } from \"react\";\nconst SvgComponent = (_, ref)=><svg><g/></svg>;\nconst ForwardRef = forwardRef(SvgComponent);\nexport default ForwardRef;\n"
    );
}

#[test]
fn with_title_prop_adds_title_and_title_id_prop() {
    let config = Config { title_prop: true, ..Config::default() };
    assert_eq!(
        assemble("<svg><g/></svg>", &config, &default_state()),
        "import * as React from \"react\";\nconst SvgComponent = ({ title , titleId  })=><svg><g/></svg>;\nexport default SvgComponent;\n"
    );
}

#[test]
fn with_title_prop_and_expand_props_adds_title_title_id_props_and_expands_props() {
    let config = Config { title_prop: true, expand_props: ExpandProps::Bool(true), ..Config::default() };
    assert_eq!(
        assemble("<svg><g/></svg>", &config, &default_state()),
        "import * as React from \"react\";\nconst SvgComponent = ({ title , titleId , ...props })=><svg><g/></svg>;\nexport default SvgComponent;\n"
    );
}

#[test]
fn with_desc_prop_adds_desc_and_desc_id_prop() {
    let config = Config { desc_prop: true, ..Config::default() };
    assert_eq!(
        assemble("<svg><g/></svg>", &config, &default_state()),
        "import * as React from \"react\";\nconst SvgComponent = ({ desc , descId  })=><svg><g/></svg>;\nexport default SvgComponent;\n"
    );
}

#[test]
fn with_desc_prop_and_expand_props_adds_desc_desc_id_props_and_expands_prop() {
    let config = Config { desc_prop: true, expand_props: ExpandProps::Bool(true), ..Config::default() };
    assert_eq!(
        assemble("<svg><g/></svg>", &config, &default_state()),
        "import * as React from \"react\";\nconst SvgComponent = ({ desc , descId , ...props })=><svg><g/></svg>;\nexport default SvgComponent;\n"
    );
}

#[test]
fn with_title_prop_and_desc_prop_adds_title_title_id_desc_and_desc_id_prop() {
    let config = Config { title_prop: true, desc_prop: true, ..Config::default() };
    assert_eq!(
        assemble("<svg><g/></svg>", &config, &default_state()),
        "import * as React from \"react\";\nconst SvgComponent = ({ title , titleId , desc , descId  })=><svg><g/></svg>;\nexport default SvgComponent;\n"
    );
}

#[test]
fn with_title_prop_desc_prop_and_expand_props_adds_title_title_id_desc_desc_id_props_and_expands_props() {
    let config = Config {
        title_prop: true,
        desc_prop: true,
        expand_props: ExpandProps::Bool(true),
        ..Config::default()
    };
    assert_eq!(
        assemble("<svg><g/></svg>", &config, &default_state()),
        "import * as React from \"react\";\nconst SvgComponent = ({ title , titleId , desc , descId , ...props })=><svg><g/></svg>;\nexport default SvgComponent;\n"
    );
}

#[test]
fn with_expand_props_add_props() {
    let config = Config { expand_props: ExpandProps::Bool(true), ..Config::default() };
    assert_eq!(
        assemble("<svg><g/></svg>", &config, &default_state()),
        "import * as React from \"react\";\nconst SvgComponent = (props)=><svg><g/></svg>;\nexport default SvgComponent;\n"
    );
}

#[test]
fn with_ref_and_expand_props_option_expands_props() {
    let config = Config { expand_props: ExpandProps::Bool(true), _ref: true, ..Config::default() };
    assert_eq!(
        assemble("<svg><g/></svg>", &config, &default_state()),
        "import * as React from \"react\";\nimport { forwardRef } from \"react\";\nconst SvgComponent = (props, ref)=><svg><g/></svg>;\nconst ForwardRef = forwardRef(SvgComponent);\nexport default ForwardRef;\n"
    );
}

#[test]
fn with_native_ref_option_adds_import_from_react_native_svg_and_adds_forward_ref_component() {
    let config = Config { native: true, _ref: true, ..Config::default() };
    assert_eq!(
        assemble("<Svg><g/></Svg>", &config, &default_state()),
        "import * as React from \"react\";\nimport Svg from \"react-native-svg\";\nimport { forwardRef } from \"react\";\nconst SvgComponent = (_, ref)=><Svg><g/></Svg>;\nconst ForwardRef = forwardRef(SvgComponent);\nexport default ForwardRef;\n"
    );
}

#[test]
fn with_native_and_expand_props_option() {
    let config = Config { native: true, expand_props: ExpandProps::Bool(true), ..Config::default() };
    assert_eq!(
        assemble("<Svg><g/></Svg>", &config, &default_state()),
        "import * as React from \"react\";\nimport Svg from \"react-native-svg\";\nconst SvgComponent = (props)=><Svg><g/></Svg>;\nexport default SvgComponent;\n"
    );
}

#[test]
fn with_native_ref_and_expand_props_option_adds_import_from_react_native_svg_and_adds_props_and_adds_forward_ref_component() {
    let config = Config { native: true, expand_props: ExpandProps::Bool(true), _ref: true, ..Config::default() };
    assert_eq!(
        assemble("<Svg><g/></Svg>", &config, &default_state()),
        "import * as React from \"react\";\nimport Svg from \"react-native-svg\";\nimport { forwardRef } from \"react\";\nconst SvgComponent = (props, ref)=><Svg><g/></Svg>;\nconst ForwardRef = forwardRef(SvgComponent);\nexport default ForwardRef;\n"
    );
}

#[test]
fn with_memo_option_wrap_component_in_react_memo() {
    let config = Config { memo: true, ..Config::default() };
    assert_eq!(
        assemble("<svg><g/></svg>", &config, &default_state()),
        "import * as React from \"react\";\nimport { memo } from \"react\";\nconst SvgComponent = ()=><svg><g/></svg>;\nconst Memo = memo(SvgComponent);\nexport default Memo;\n"
    );
}

#[test]
fn with_both_memo_and_ref_option_wrap_component_in_react_memo_and_react_forward_ref() {
    let config = Config { memo: true, _ref: true, ..Config::default() };
    assert_eq!(
        assemble("<svg><g/></svg>", &config, &default_state()),
        "import * as React from \"react\";\nimport { forwardRef, memo } from \"react\";\nconst SvgComponent = (_, ref)=><svg><g/></svg>;\nconst ForwardRef = forwardRef(SvgComponent);\nconst Memo = memo(ForwardRef);\nexport default Memo;\n"
    );
}

#[test]
fn with_named_export_option_and_previous_export_state_has_custom_named_export() {
    let config = Config { named_export: Some("Component".to_string()), ..Config::default() };
    let state = InternalConfig {
        file_path: None,
        component_name: "SvgComponent".to_string(),
        caller: Some(Caller {
            name: None,
            previous_export: Some("var img = new Image(); img.src = '...'; export default img;".to_string()),
        }),
    };
    assert_eq!(
        assemble("<svg><g/></svg>", &config, &state),
        "import * as React from \"react\";\nconst SvgComponent = ()=><svg><g/></svg>;\nexport { SvgComponent as Component };\nvar img = new Image();\nimg.src = '...';\nexport default img;\n"
    );
}

#[test]
fn with_named_export_and_export_type_option_and_without_previous_export_state_exports_via_named_export() {
    let config = Config {
        named_export: Some("ReactComponent".to_string()),
        export_type: ExportType::Named,
        ..Config::default()
    };
    assert_eq!(
        assemble("<svg><g/></svg>", &config, &default_state()),
        "import * as React from \"react\";\nconst SvgComponent = ()=><svg><g/></svg>;\nexport { SvgComponent as ReactComponent };\n"
    );
}

#[test]
fn jsx_runtime_supports_automatic_jsx_runtime() {
    let config = Config { jsx_runtime: JSXRuntime::Automatic, ..Config::default() };
    assert_eq!(
        assemble("<svg><g/></svg>", &config, &default_state()),
        "const SvgComponent = ()=><svg><g/></svg>;\nexport default SvgComponent;\n"
    );
}

#[test]
fn jsx_runtime_supports_classic_jsx_runtime() {
    let config = Config { jsx_runtime: JSXRuntime::Classic, ..Config::default() };
    assert_eq!(
        assemble("<svg><g/></svg>", &config, &default_state()),
        "import * as React from \"react\";\nconst SvgComponent = ()=><svg><g/></svg>;\nexport default SvgComponent;\n"
    );
}

fn runtime_import(source: &str) -> JSXRuntimeImport {
    JSXRuntimeImport { source: source.to_string(), namespace: None, default_specifier: None, specifiers: None }
}

#[test]
fn allows_to_specify_a_custom_classic_jsx_runtime_using_specifiers() {
    let config = Config {
        jsx_runtime: JSXRuntime::Classic,
        jsx_runtime_import: Some(JSXRuntimeImport { specifiers: Some(vec!["h".to_string()]), ..runtime_import("preact") }),
        ..Config::default()
    };
    assert_eq!(
        assemble("<svg><g/></svg>", &config, &default_state()),
        "import { h } from \"preact\";\nconst SvgComponent = ()=><svg><g/></svg>;\nexport default SvgComponent;\n"
    );
}

#[test]
fn allows_to_specify_a_custom_classic_jsx_runtime_using_namespace() {
    let config = Config {
        jsx_runtime: JSXRuntime::Classic,
        jsx_runtime_import: Some(JSXRuntimeImport { namespace: Some("Preact".to_string()), ..runtime_import("preact") }),
        ..Config::default()
    };
    assert_eq!(
        assemble("<svg><g/></svg>", &config, &default_state()),
        "import * as Preact from \"preact\";\nconst SvgComponent = ()=><svg><g/></svg>;\nexport default SvgComponent;\n"
    );
}

#[test]
fn allows_to_specify_a_custom_classic_jsx_runtime_using_default_specifier() {
    let config = Config {
        jsx_runtime: JSXRuntime::Classic,
        jsx_runtime_import: Some(JSXRuntimeImport {
            default_specifier: Some("h".to_string()),
            ..runtime_import("hyperapp-jsx-pragma")
        }),
        ..Config::default()
    };
    assert_eq!(
        assemble("<svg><g/></svg>", &config, &default_state()),
        "import h from \"hyperapp-jsx-pragma\";\nconst SvgComponent = ()=><svg><g/></svg>;\nexport default SvgComponent;\n"
    );
}

#[test]
fn invalid_runtime_import_is_an_error() {
    let config = Config {
        jsx_runtime: JSXRuntime::Classic,
        jsx_runtime_import: Some(runtime_import("preact")),
        ..Config::default()
    };
    let r = transform_svg_component::transform(jsx("<svg><g/></svg>"), &config, &default_state());
    assert!(matches!(r, Err(SvgrError::InvalidJsxRuntimeImport)));
}

#[test]
fn named_export_without_name_is_an_error() {
    let config = Config { export_type: ExportType::Named, named_export: None, ..Config::default() };
    let r = transform_svg_component::transform(jsx("<svg><g/></svg>"), &config, &default_state());
    assert!(matches!(r, Err(SvgrError::MissingNamedExport)));
}

#[test]
fn caller_forces_named_export() {
    let state = InternalConfig {
        caller: Some(Caller { name: Some("webpack".to_string()), previous_export: None }),
        ..default_state()
    };
    assert_eq!(
        assemble("<svg/>", &Config::default(), &state),
        "import * as React from \"react\";\nconst SvgComponent = ()=><svg/>;\nexport { SvgComponent as ReactComponent };\n"
    );
}

#[test]
fn preact_runtime_imports_h_and_merges_named_imports() {
    let config = Config { jsx_runtime: JSXRuntime::ClassicPreact, _ref: true, memo: true, ..Config::default() };
    assert_eq!(
        assemble("<svg/>", &config, &default_state()),
        "import { h, forwardRef, memo } from \"preact\";\nconst SvgComponent = (_, ref)=><svg/>;\nconst ForwardRef = forwardRef(SvgComponent);\nconst Memo = memo(ForwardRef);\nexport default Memo;\n"
    );
}

#[test]
fn typescript_parameters_and_interface() {
    let config = Config {
        typescript: true,
        title_prop: true,
        expand_props: ExpandProps::End,
        _ref: true,
        ..Config::default()
    };
    let m = transform_svg_component::transform(jsx("<svg/>"), &config, &default_state()).ok().unwrap();
    assert_eq!(m.interface, Some(vec!["title".to_string(), "titleId".to_string()]));
    assert_eq!(m.params.len(), 2);
    assert_eq!(
        print_module(&m),
        "import * as React from \"react\";\nimport { SVGProps, Ref, forwardRef } from \"react\";\nconst SvgComponent = ({ title , titleId , ...props }, ref)=><svg/>;\nconst ForwardRef = forwardRef(SvgComponent);\nexport default ForwardRef;\n"
    );
}

// ---- the whole pipeline ----

#[test]
fn end_to_end_default_config() {
    let r = transform(&markup("<svg><g/></svg>"), &Config::default(), None).ok().unwrap();
    assert_eq!(
        print_module(&r),
        "import * as React from \"react\";\nconst SvgComponent = ()=><svg><g/></svg>;\nexport default SvgComponent;\n"
    );
}

#[test]
fn end_to_end_with_all_passes() {
    let config = Config {
        _ref: true,
        title_prop: true,
        expand_props: ExpandProps::End,
        icon: Some(Icon::Bool(true)),
        replace_attr_values: Some(vec![("#000".to_string(), "{color}".to_string())]),
        native: true,
        ..Config::default()
    };
    let state = svgr_rs::state::Config {
        file_path: Some("icons/star-fill.svg".to_string()),
        component_name: None,
        caller: None,
    };
    let r = transform(
        &markup(r##"<svg version="1.1" width="24"><path fill="#000"/><unknown/></svg>"##),
        &config,
        Some(&state),
    )
    .ok()
    .unwrap();
    assert_eq!(
        print_module(&r),
        "import * as React from \"react\";\nimport Svg from \"react-native-svg\";\nimport { forwardRef } from \"react\";\nconst SvgStarFill = ({ title , titleId , ...props }, ref)=><Svg width=\"1em\" ref={ref} aria-labelledby={titleId} {...props} height=\"1em\">{title ? <title id={titleId}>{title}</title> : null}<Path fill={color}/></Svg>;\nconst ForwardRef = forwardRef(SvgStarFill);\nexport default ForwardRef;\n"
    );
}

#[test]
fn dimensions_off_removes_width_and_height() {
    let config = Config { dimensions: false, ..Config::default() };
    let r = transform(&markup(r#"<svg width="24" height="24" viewBox="0 0 24 24"/>"#), &config, None).ok().unwrap();
    assert_eq!(print_element(&r.root, false), r#"<svg viewBox="0 0 24 24"/>"#);
}

#[test]
fn attribute_names_are_matched_case_insensitively() {
    assert_eq!(convert(r#"<svg Class="a" VIEWBOX="0 0 1 1"/>"#), r#"<svg className="a" viewBox="0 0 1 1"/>;"#);
}

#[test]
fn long_attribute_values_convert_in_linear_time() {
    let d = "M0 0L1 1".repeat(20000);
    let e = to_swc_ast(&markup(&format!(r#"<svg><path d="{}"/></svg>"#, d))).unwrap();
    match &e.children[0] {
        Child::Element(p) => match &p.attrs[0] {
            AttrItem::Attr(n, Some(AttrValue::Str(v))) => {
                assert_eq!(n, "d");
                assert_eq!(v.len(), d.len());
            }
            _ => panic!("expected a string attribute"),
        },
        _ => panic!("expected an element"),
    }
}
