use svgr_rs::binding::{Either, JsCaller, JsConfig, JsJSXRuntimeImport, JsReplaceAttrValues, JsState, JsSvgProps};
use svgr_rs::config::{ExpandProps, ExportType, Icon, JSXRuntime, SvgProp};
use svgr_rs::state::{expand_state, Caller, Config as State};

fn empty() -> JsConfig {
    JsConfig {
        _ref: None,
        title_prop: None,
        desc_prop: None,
        expand_props: None,
        dimensions: None,
        icon: None,
        native: None,
        svg_props: None,
        typescript: None,
        memo: None,
        replace_attr_values: None,
        jsx_runtime: None,
        jsx_runtime_import: None,
        named_export: None,
        export_type: None,
    }
}

#[test]
fn unset_options_take_defaults() {
    let c = empty().into_config();
    assert!(!c._ref && !c.title_prop && !c.desc_prop && !c.native && !c.typescript && !c.memo);
    assert!(c.dimensions);
    assert!(matches!(c.expand_props, ExpandProps::End));
    assert!(matches!(c.jsx_runtime, JSXRuntime::Classic));
    assert!(matches!(c.export_type, ExportType::Default));
    assert_eq!(c.named_export, Some("ReactComponent".to_string()));
    assert!(c.svg_props.is_empty());
    assert!(c.replace_attr_values.is_none());
}

#[test]
fn string_options_are_read() {
    let c = JsConfig {
        expand_props: Some(Either::B("start".to_string())),
        jsx_runtime: Some("classic-preact".to_string()),
        export_type: Some("named".to_string()),
        named_export: Some("Icon".to_string()),
        ..empty()
    }
    .into_config();
    assert!(matches!(c.expand_props, ExpandProps::Start));
    assert!(matches!(c.jsx_runtime, JSXRuntime::ClassicPreact));
    assert!(matches!(c.export_type, ExportType::Named));
    assert_eq!(c.named_export, Some("Icon".to_string()));
    let c = JsConfig {
        expand_props: Some(Either::B("sideways".to_string())),
        jsx_runtime: Some("automatic".to_string()),
        export_type: Some("other".to_string()),
        ..empty()
    }
    .into_config();
    assert!(matches!(c.expand_props, ExpandProps::End));
    assert!(matches!(c.jsx_runtime, JSXRuntime::Automatic));
    assert!(matches!(c.export_type, ExportType::Default));
    let c = JsConfig { expand_props: Some(Either::A(false)), ..empty() }.into_config();
    assert!(matches!(c.expand_props, ExpandProps::Bool(false)));
}

#[test]
fn object_options_are_moved() {
    let c = JsConfig {
        _ref: Some(true),
        dimensions: Some(false),
        icon: Some(Icon::Str("2em".to_string())),
        svg_props: Some(JsSvgProps(vec![SvgProp { key: "role".to_string(), value: "img".to_string() }])),
        replace_attr_values: Some(JsReplaceAttrValues(vec![("#000".to_string(), "currentColor".to_string())])),
        jsx_runtime_import: Some(JsJSXRuntimeImport {
            source: "preact".to_string(),
            namespace: None,
            default_specifier: None,
            specifiers: Some(vec!["h".to_string()]),
        }),
        ..empty()
    }
    .into_config();
    assert!(c._ref);
    assert!(!c.dimensions);
    assert!(matches!(c.icon, Some(Icon::Str(ref s)) if s == "2em"));
    assert_eq!(c.svg_props[0].key, "role");
    assert_eq!(c.replace_attr_values.unwrap()[0].1, "currentColor");
    let i = c.jsx_runtime_import.unwrap();
    assert_eq!(i.source, "preact");
    assert_eq!(i.specifiers, Some(vec!["h".to_string()]));
}

#[test]
fn state_conversion_keeps_fields() {
    let s: State = JsState {
        file_path: Some("a/b.svg".to_string()),
        component_name: None,
        caller: Some(JsCaller { name: Some("webpack".to_string()), previous_export: Some("export default x;".to_string()) }),
    }
    .into();
    let c: Caller = JsCaller { name: None, previous_export: None }.into();
    assert!(c.name.is_none() && c.previous_export.is_none());
    let st = expand_state(Some(&s));
    assert_eq!(st.component_name, "SvgB");
    assert_eq!(st.caller.unwrap().previous_export, Some("export default x;".to_string()));
}

#[test]
fn icon_defaults_to_false() {
    assert!(matches!(Icon::default(), Icon::Bool(false)));
}
