//! The options and state as a JavaScript caller hands them over, and their conversion.
use vstd::prelude::*;
use crate::config::{Config, ExpandProps, ExportType, Icon, JSXRuntime, JSXRuntimeImport, SvgProp};
use crate::state::{Caller, Config as State};
use crate::text::str_eq;

verus! {

/// One of two kinds of value.
pub enum Either<A, B> {
    A(A),
    B(B),
}

/// The `svg_props` object, its entries in order.
pub struct JsSvgProps(pub Vec<SvgProp>);

/// The `replace_attr_values` object, its entries in order.
pub struct JsReplaceAttrValues(pub Vec<(String, String)>);

pub struct JsJSXRuntimeImport {
    pub source: String,
    pub namespace: Option<String>,
    pub default_specifier: Option<String>,
    pub specifiers: Option<Vec<String>>,
}

/// The options as a JavaScript caller writes them; unset options take their defaults.
pub struct JsConfig {
    pub _ref: Option<bool>,
    pub title_prop: Option<bool>,
    pub desc_prop: Option<bool>,
    /// `true`, `false`, `"start"` or `"end"`.
    pub expand_props: Option<Either<bool, String>>,
    pub dimensions: Option<bool>,
    pub icon: Option<Icon>,
    pub native: Option<bool>,
    pub svg_props: Option<JsSvgProps>,
    pub typescript: Option<bool>,
    pub memo: Option<bool>,
    pub replace_attr_values: Option<JsReplaceAttrValues>,
    /// `"classic"`, `"classic-preact"` or `"automatic"`.
    pub jsx_runtime: Option<String>,
    pub jsx_runtime_import: Option<JsJSXRuntimeImport>,
    pub named_export: Option<String>,
    /// `"named"` or `"default"`.
    pub export_type: Option<String>,
}

pub struct JsCaller {
    pub name: Option<String>,
    pub previous_export: Option<String>,
}

pub struct JsState {
    pub file_path: Option<String>,
    pub component_name: Option<String>,
    pub caller: Option<JsCaller>,
}

pub open spec fn flag(b: Option<bool>, default: bool) -> bool {
    match b {
        Some(v) => v,
        None => default,
    }
}

/// `ExpandProps` for the caller's value: `start` places the props first, any other string
/// and an unset value place them last.
pub open spec fn expand_props_of(v: Option<Either<bool, String>>) -> ExpandProps {
    match v {
        Some(Either::A(b)) => ExpandProps::Bool(b),
        Some(Either::B(s)) => if s@ == "start"@ {
            ExpandProps::Start
        } else {
            ExpandProps::End
        },
        None => ExpandProps::End,
    }
}

/// The runtime for the caller's value; anything unknown is the classic runtime.
pub open spec fn jsx_runtime_of(v: Option<String>) -> JSXRuntime {
    match v {
        Some(s) => if s@ == "automatic"@ {
            JSXRuntime::Automatic
        } else if s@ == "classic-preact"@ {
            JSXRuntime::ClassicPreact
        } else {
            JSXRuntime::Classic
        },
        None => JSXRuntime::Classic,
    }
}

pub open spec fn export_type_of(v: Option<String>) -> ExportType {
    match v {
        Some(s) => if s@ == "named"@ {
            ExportType::Named
        } else {
            ExportType::Default
        },
        None => ExportType::Default,
    }
}

impl JsConfig {
    /// The options with every unset one at its default: no ref, title, description,
    /// native, TypeScript or memo; dimensions kept; props spread at the end; the classic
    /// runtime; a default export, and `ReactComponent` as the named export.
    pub fn into_config(self) -> (r: Config)
        ensures
            r._ref == flag(self._ref, false),
            r.title_prop == flag(self.title_prop, false),
            r.desc_prop == flag(self.desc_prop, false),
            r.expand_props == expand_props_of(self.expand_props),
            r.dimensions == flag(self.dimensions, true),
            r.icon == self.icon,
            r.native == flag(self.native, false),
            r.svg_props@ == match self.svg_props {
                Some(p) => p.0@,
                None => Seq::empty(),
            },
            r.typescript == flag(self.typescript, false),
            r.memo == flag(self.memo, false),
            r.replace_attr_values == match self.replace_attr_values {
                Some(v) => Some(v.0),
                None => None,
            },
            r.jsx_runtime == jsx_runtime_of(self.jsx_runtime),
            r.jsx_runtime_import == match self.jsx_runtime_import {
                Some(i) => Some(
                    JSXRuntimeImport {
                        source: i.source,
                        namespace: i.namespace,
                        default_specifier: i.default_specifier,
                        specifiers: i.specifiers,
                    },
                ),
                None => None,
            },
            r.named_export matches Some(n) && n@ == match self.named_export {
                Some(s) => s@,
                None => "ReactComponent"@,
            },
            r.export_type == export_type_of(self.export_type),
    {
        let expand_props = match self.expand_props {
            Some(Either::A(b)) => ExpandProps::Bool(b),
            Some(Either::B(s)) => if str_eq(s.as_str(), "start") {
                ExpandProps::Start
            } else {
                ExpandProps::End
            },
            None => ExpandProps::End,
        };
        let jsx_runtime = match &self.jsx_runtime {
            Some(s) => if str_eq(s.as_str(), "automatic") {
                JSXRuntime::Automatic
            } else if str_eq(s.as_str(), "classic-preact") {
                JSXRuntime::ClassicPreact
            } else {
                JSXRuntime::Classic
            },
            None => JSXRuntime::Classic,
        };
        let export_type = match &self.export_type {
            Some(s) => if str_eq(s.as_str(), "named") {
                ExportType::Named
            } else {
                ExportType::Default
            },
            None => ExportType::Default,
        };
        let named_export = match self.named_export {
            Some(s) => s,
            None => String::from_str("ReactComponent"),
        };
        let jsx_runtime_import = match self.jsx_runtime_import {
            Some(i) => Some(
                JSXRuntimeImport {
                    source: i.source,
                    namespace: i.namespace,
                    default_specifier: i.default_specifier,
                    specifiers: i.specifiers,
                },
            ),
            None => None,
        };
        Config {
            _ref: unwrap_flag(self._ref, false),
            title_prop: unwrap_flag(self.title_prop, false),
            desc_prop: unwrap_flag(self.desc_prop, false),
            expand_props,
            dimensions: unwrap_flag(self.dimensions, true),
            icon: self.icon,
            native: unwrap_flag(self.native, false),
            svg_props: match self.svg_props {
                Some(p) => p.0,
                None => Vec::new(),
            },
            typescript: unwrap_flag(self.typescript, false),
            memo: unwrap_flag(self.memo, false),
            replace_attr_values: match self.replace_attr_values {
                Some(v) => Some(v.0),
                None => None,
            },
            jsx_runtime,
            jsx_runtime_import,
            named_export: Some(named_export),
            export_type,
        }
    }
}

fn unwrap_flag(b: Option<bool>, default: bool) -> (r: bool)
    ensures
        r == flag(b, default),
{
    match b {
        Some(v) => v,
        None => default,
    }
}

impl From<JsCaller> for Caller {
    fn from(val: JsCaller) -> (r: Caller) {
        Caller { name: val.name, previous_export: val.previous_export }
    }
}

impl vstd::std_specs::convert::FromSpecImpl<JsCaller> for Caller {
    open spec fn obeys_from_spec() -> bool {
        true
    }

    open spec fn from_spec(val: JsCaller) -> Caller {
        Caller { name: val.name, previous_export: val.previous_export }
    }
}

impl From<JsState> for State {
    fn from(val: JsState) -> (r: State) {
        State {
            file_path: val.file_path,
            component_name: val.component_name,
            caller: match val.caller {
                Some(c) => Some(Caller::from(c)),
                None => None,
            },
        }
    }
}

impl vstd::std_specs::convert::FromSpecImpl<JsState> for State {
    open spec fn obeys_from_spec() -> bool {
        true
    }

    open spec fn from_spec(val: JsState) -> State {
        State {
            file_path: val.file_path,
            component_name: val.component_name,
            caller: match val.caller {
                Some(c) => Some(Caller { name: c.name, previous_export: c.previous_export }),
                None => None,
            },
        }
    }
}

} // verus!
