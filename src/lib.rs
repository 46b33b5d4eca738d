//! Conversion of a parsed SVG element tree into a React component module.
//!
//! The markup tree is converted into a component tree (attribute names mapped to prop
//! names, styles into objects, entities decoded), the module is assembled around it
//! (imports, parameters, wrappers, export), and a fixed sequence of passes rewrites the
//! root: attributes removed and added, dimensions set, values replaced, title and
//! description props rendered, and names converted for react-native-svg.
pub mod add_jsx_attribute;
pub mod ast;
pub mod binding;
pub mod attr_name;
pub mod config;
pub mod decode_xml;
pub mod hast_to_ast;
pub mod mappings;
pub mod module;
pub mod remove_jsx_attribute;
pub mod replace_jsx_attribute;
pub mod state;
pub mod style;
pub mod svg_dynamic_title;
pub mod svg_em_dimensions;
pub mod text;
pub mod transform_react_native_svg;
pub mod transform_svg_component;

use vstd::prelude::*;
use crate::add_jsx_attribute::{expected_attributes, is_extended};
use crate::ast::{Element, MarkupChild, MarkupElement};
use crate::attr_name::{lookup, pairs_view};
use crate::config::{Config, SvgrError};
use crate::hast_to_ast::{is_converted, last_element, to_swc_ast};
use crate::mappings::attr_mappings;
use crate::module::Module;
use crate::remove_jsx_attribute::{is_stripped, removed_names};
use crate::replace_jsx_attribute::is_replaced;
use crate::state::{expand_state, expanded_name};
use crate::svg_dynamic_title::is_titled;
use crate::svg_em_dimensions::is_sized_root;
use crate::transform_react_native_svg::{is_native, native_mappings};
use crate::transform_svg_component::{is_module_shell, runtime_imports};

verus! {

/// The caller's previous export, if the state has one.
pub open spec fn state_previous_export(state: Option<&state::Config>) -> Option<Seq<char>> {
    match state {
        Some(s) => match s.caller {
            Some(cl) => match cl.previous_export {
                Some(p) => Some(p@),
                None => None,
            },
            None => None,
        },
        None => None,
    }
}

pub open spec fn state_has_caller(state: Option<&state::Config>) -> bool {
    state matches Some(s) && s.caller is Some
}

/// The root's path through the passes: converted from the markup, then each pass in
/// order, each skipped when the configuration does not ask for it.
pub open spec fn root_chain(
    c: Config,
    markup: MarkupElement,
    r0: Element,
    r1: Element,
    r2: Element,
    r3: Element,
    r4: Element,
    r5: Element,
    r6: Element,
    out: Element,
) -> bool {
    &&& is_converted(attr_mappings(), markup, r0)
    &&& is_stripped(r0, r1, removed_names(c))
    &&& is_extended(r1, r2, seq!["svg"@, "Svg"@], expected_attributes(c))
    &&& if c.has_icon() && c.dimensions {
        is_sized_root(r2, r3, c.icon)
    } else {
        r3 == r2
    }
    &&& match c.replace_attr_values {
        Some(v) => is_replaced(pairs_view(v@), r3, r4),
        None => r4 == r3,
    }
    &&& if c.title_prop {
        is_titled(r4, r5, "title"@, "title"@ + "Id"@)
    } else {
        r5 == r4
    }
    &&& if c.desc_prop {
        is_titled(r5, r6, "desc"@, "desc"@ + "Id"@)
    } else {
        r6 == r5
    }
    &&& if c.native && lookup(native_mappings(), r6.name@) is Some {
        is_native(r6, out)
    } else {
        out == r6
    }
}

/// Some path through the passes leads from the markup element to `out`.
pub open spec fn is_transformed_root(c: Config, markup: MarkupElement, out: Element) -> bool {
    exists|r0: Element, r1: Element, r2: Element, r3: Element, r4: Element, r5: Element, r6: Element|
        #[trigger] root_chain(c, markup, r0, r1, r2, r3, r4, r5, r6, out)
}

/// Converts a parsed SVG document into a component module. Fails when the document has no
/// element, when a custom runtime import is invalid, and when a named export is required
/// but no name is configured.
pub fn transform(doc: &Vec<MarkupChild>, config: &Config, state: Option<&state::Config>) -> (r: Result<Module, SvgrError>)
    ensures
        last_element(doc@) is None ==> (r matches Err(e) && e is InvalidSvg),
        last_element(doc@) is Some && runtime_imports(*config) is None ==> (r matches Err(e)
            && e is InvalidJsxRuntimeImport),
        last_element(doc@) is Some && runtime_imports(*config) is Some && (state_has_caller(state)
            || config.export_type is Named) && config.named_export is None ==> (r matches Err(e)
            && e is MissingNamedExport),
        last_element(doc@) is Some && runtime_imports(*config) is Some && !((state_has_caller(state)
            || config.export_type is Named) && config.named_export is None) ==> (r matches Ok(m)
            && is_module_shell(*config, expanded_name(state), state_has_caller(state), state_previous_export(state), m)
            && is_transformed_root(*config, last_element(doc@)->0, m.root)),
{
    let st = expand_state(state);
    let r0 = match to_swc_ast(doc) {
        Some(e) => e,
        None => {
            return Err(SvgrError::InvalidSvg);
        },
    };
    let ghost g0 = r0;
    let mut m = match transform_svg_component::transform(r0, config, &st) {
        Ok(m) => m,
        Err(e) => {
            return Err(e);
        },
    };
    remove_jsx_attribute::Visitor::new(config).visit(&mut m.root);
    let ghost g1 = m.root;
    add_jsx_attribute::Visitor::new(config).visit(&mut m.root);
    let ghost g2 = m.root;
    let icon = match &config.icon {
        Some(config::Icon::Bool(b)) => *b,
        Some(_) => true,
        None => false,
    };
    if icon && config.dimensions {
        svg_em_dimensions::Visitor::new(config).visit(&mut m.root);
    }
    let ghost g3 = m.root;
    match &config.replace_attr_values {
        Some(values) => {
            let v = replace_jsx_attribute::Visitor::new(values);
            let mut root = Element { name: String::new(), attrs: Vec::new(), children: Vec::new() };
            core::mem::swap(&mut root, &mut m.root);
            m.root = v.visit(root);
        },
        None => {},
    }
    let ghost g4 = m.root;
    if config.title_prop {
        svg_dynamic_title::Visitor::new("title").visit(&mut m.root);
    }
    let ghost g5 = m.root;
    if config.desc_prop {
        svg_dynamic_title::Visitor::new("desc").visit(&mut m.root);
    }
    let ghost g6 = m.root;
    if config.native {
        let nv = transform_react_native_svg::Visitor::new();
        if nv.component_of(m.root.name.as_str()).is_some() {
            let mut root = Element { name: String::new(), attrs: Vec::new(), children: Vec::new() };
            core::mem::swap(&mut root, &mut m.root);
            match nv.convert(root) {
                Some(n) => {
                    m.root = n;
                },
                None => {},
            }
        }
    }
    assert(root_chain(*config, last_element(doc@)->0, g0, g1, g2, g3, g4, g5, g6, m.root));
    Ok(m)
}

} // verus!
