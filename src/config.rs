//! The options of a conversion.
use vstd::prelude::*;

verus! {

/// Replacement for the root's `width` and `height`.
pub enum Icon {
    /// `true` uses the default `1em`; `false` leaves the dimensions alone.
    Bool(bool),
    Str(String),
    /// A number, as its decimal text.
    Num(String),
}

impl Default for Icon {
    fn default() -> (r: Self)
        ensures
            r == Icon::Bool(false),
    {
        Icon::Bool(false)
    }
}

/// Whether and where the component's extra props are spread onto the root.
pub enum ExpandProps {
    Off,
    Bool(bool),
    Start,
    End,
}

/// Which JSX runtime the module is written for.
pub enum JSXRuntime {
    /// `import * as React from "react"`
    Classic,
    /// `import { h } from "preact"`
    ClassicPreact,
    /// No import.
    Automatic,
}

/// A custom import for the JSX runtime.
pub struct JSXRuntimeImport {
    pub source: String,
    pub namespace: Option<String>,
    pub default_specifier: Option<String>,
    pub specifiers: Option<Vec<String>>,
}

pub enum ExportType {
    Named,
    Default,
}

/// A prop added to the root element; a value written `{expr}` is an expression.
pub struct SvgProp {
    pub key: String,
    pub value: String,
}

/// The options of a conversion.
pub struct Config {
    /// Forward a ref to the root element.
    pub _ref: bool,
    /// Add a `title` prop rendered as the root's `<title>`.
    pub title_prop: bool,
    /// Add a `desc` prop rendered as the root's `<desc>`.
    pub desc_prop: bool,
    pub expand_props: ExpandProps,
    /// Keep `width` and `height`; with an icon they are replaced.
    pub dimensions: bool,
    pub icon: Option<Icon>,
    /// Write for react-native-svg.
    pub native: bool,
    pub svg_props: Vec<SvgProp>,
    pub typescript: bool,
    /// Wrap the component in `memo`.
    pub memo: bool,
    /// Attribute values to replace, first matching entry first; a value written `{expr}`
    /// is an expression.
    pub replace_attr_values: Option<Vec<(String, String)>>,
    pub jsx_runtime: JSXRuntime,
    pub jsx_runtime_import: Option<JSXRuntimeImport>,
    pub named_export: Option<String>,
    pub export_type: ExportType,
}

impl Config {
    /// Whether extra props are accepted and spread.
    pub open spec fn expands(&self) -> bool {
        match self.expand_props {
            ExpandProps::Off => false,
            ExpandProps::Bool(b) => b,
            _ => true,
        }
    }

    /// Whether an icon size is configured.
    pub open spec fn has_icon(&self) -> bool {
        match self.icon {
            Some(Icon::Bool(b)) => b,
            Some(_) => true,
            None => false,
        }
    }
}

impl Default for Config {
    /// No ref, title or description props; no props spread; dimensions kept; the
    /// classic runtime; a default export, and `ReactComponent` as the named export.
    fn default() -> (r: Self)
        ensures
            !r._ref && !r.title_prop && !r.desc_prop && !r.native && !r.typescript && !r.memo,
            r.expand_props is Off,
            r.dimensions,
            r.icon is None,
            r.svg_props@.len() == 0,
            r.replace_attr_values is None,
            r.jsx_runtime is Classic,
            r.jsx_runtime_import is None,
            r.named_export matches Some(n) && n@ == "ReactComponent"@,
            r.export_type is Default,
    {
        Config {
            _ref: false,
            title_prop: false,
            desc_prop: false,
            expand_props: ExpandProps::Off,
            dimensions: true,
            icon: None,
            native: false,
            svg_props: Vec::new(),
            typescript: false,
            memo: false,
            replace_attr_values: None,
            jsx_runtime: JSXRuntime::Classic,
            jsx_runtime_import: None,
            named_export: Some(String::from_str("ReactComponent")),
            export_type: ExportType::Default,
        }
    }
}

/// The ways a conversion fails.
pub enum SvgrError {
    /// The markup could not be parsed.
    Parse(String),
    /// The markup has no root element.
    InvalidSvg,
    /// A named export is required but no name is configured.
    MissingNamedExport,
    /// A custom runtime import names no namespace, default or specifiers.
    InvalidJsxRuntimeImport,
    /// The caller's previous export could not be parsed.
    PreviousExportParse(String),
}

} // verus!
