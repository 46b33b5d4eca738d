//! Assembly of the component module around the converted root element.
use vstd::prelude::*;
use crate::ast::Element;
use crate::config::{Config, ExportType, JSXRuntime, JSXRuntimeImport, SvgrError};
use crate::module::{
    hocs_view, imports_view, names_view, params_view, specifiers_view, Export, ExportView, Hoc,
    ImportDecl, ImportSpecifier, Module, Param, ParamView, SpecifierView, TypeAnn, TypeAnnView,
    TypeRef, TypeRefView,
};
use crate::state::InternalConfig;
use crate::text::str_eq;

verus! {

pub type ImportView = (Seq<char>, Seq<SpecifierView>);

/// The declaration imports a whole namespace.
pub open spec fn is_namespace_import(d: ImportView) -> bool {
    exists|j: int| 0 <= j < d.1.len() && #[trigger] d.1[j] is Namespace
}

/// A declaration that a new specifier for `source` may join.
pub open spec fn mergeable(d: ImportView, source: Seq<char>) -> bool {
    d.0 == source && !is_namespace_import(d)
}

/// The first declaration that a specifier for `source` may join.
pub open spec fn find_mergeable(imps: Seq<ImportView>, source: Seq<char>) -> Option<int>
    decreases imps.len(),
{
    if imps.len() == 0 {
        None
    } else if mergeable(imps[0], source) {
        Some(0)
    } else {
        match find_mergeable(imps.skip(1), source) {
            Some(i) => Some(i + 1),
            None => None,
        }
    }
}

/// The imports with `s` added for `source`: joined to the first declaration of that source
/// that is not a namespace import, else in a new declaration at the end.
pub open spec fn add_import(imps: Seq<ImportView>, source: Seq<char>, s: SpecifierView) -> Seq<
    ImportView,
> {
    match find_mergeable(imps, source) {
        Some(i) => imps.update(i, (imps[i].0, imps[i].1.push(s))),
        None => imps.push((source, seq![s])),
    }
}

proof fn lemma_find_mergeable(imps: Seq<ImportView>, source: Seq<char>, i: int)
    requires
        0 <= i <= imps.len(),
        forall|j: int| 0 <= j < i ==> !mergeable(#[trigger] imps[j], source),
    ensures
        i == imps.len() ==> find_mergeable(imps, source) is None,
        i < imps.len() && mergeable(imps[i], source) ==> find_mergeable(imps, source) == Some(i),
    decreases imps.len(),
{
    if imps.len() > 0 && i > 0 {
        assert forall|j: int| 0 <= j < i - 1 implies !mergeable(#[trigger] imps.skip(1)[j], source) by {
            assert(imps.skip(1)[j] == imps[j + 1]);
        }
        lemma_find_mergeable(imps.skip(1), source, i - 1);
        if i < imps.len() {
            assert(imps.skip(1)[i - 1] == imps[i]);
        }
    }
}

fn has_namespace(d: &ImportDecl) -> (r: bool)
    ensures
        r == is_namespace_import(d@),
{
    let mut j: usize = 0;
    while j < d.specifiers.len()
        invariant
            j <= d.specifiers@.len(),
            forall|k: int| 0 <= k < j ==> !(#[trigger] d@.1[k] is Namespace),
        decreases d.specifiers@.len() - j,
    {
        match &d.specifiers[j] {
            ImportSpecifier::Namespace(_) => {
                assert(d@.1[j as int] is Namespace);
                return true;
            },
            _ => {},
        }
        j += 1;
    }
    false
}

/// Adds an import specifier for `source`, joining the first declaration of that source
/// that is not a namespace import, or else adding a declaration at the end.
pub fn get_or_create_import(imports: &mut Vec<ImportDecl>, source: &str, specifier: ImportSpecifier)
    ensures
        imports_view(final(imports)@) == add_import(imports_view(old(imports)@), source@, specifier@),
{
    let ghost iv = imports_view(imports@);
    let mut i: usize = 0;
    while i < imports.len()
        invariant
            i <= imports@.len(),
            imports_view(imports@) == iv,
            imports@ == old(imports)@,
            forall|j: int| 0 <= j < i ==> !mergeable(#[trigger] iv[j], source@),
        decreases imports@.len() - i,
    {
        assert(iv[i as int] == imports@[i as int]@);
        if str_eq(imports[i].source.as_str(), source) && !has_namespace(&imports[i]) {
            proof {
                lemma_find_mergeable(iv, source@, i as int);
            }
            let mut d = imports.remove(i);
            let ghost old_d = d@;
            d.specifiers.push(specifier);
            assert(specifiers_view(d.specifiers@) =~= old_d.1.push(specifier@));
            imports.insert(i, d);
            assert(imports_view(imports@) =~= add_import(iv, source@, specifier@));
            return;
        }
        i += 1;
    }
    proof {
        lemma_find_mergeable(iv, source@, i as int);
    }
    let mut specs: Vec<ImportSpecifier> = Vec::new();
    specs.push(specifier);
    let d = ImportDecl { source: String::from_str(source), specifiers: specs };
    assert(specifiers_view(d.specifiers@) =~= seq![specifier@]);
    imports.push(d);
    assert(imports_view(imports@) =~= add_import(iv, source@, specifier@));
}

/// Adds the named specifier `name` for `source`.
pub fn get_or_create_named_import(imports: &mut Vec<ImportDecl>, source: &str, name: &str)
    ensures
        imports_view(final(imports)@) == add_import(
            imports_view(old(imports)@),
            source@,
            SpecifierView::Named(name@),
        ),
{
    get_or_create_import(imports, source, ImportSpecifier::Named(String::from_str(name)))
}

/// Importing two named specifiers from one source that has no namespace import yields one
/// declaration holding both; a namespace import of that source is never joined.
pub proof fn lemma_named_imports_merge(
    imps: Seq<ImportView>,
    source: Seq<char>,
    a: Seq<char>,
    b: Seq<char>,
)
    requires
        forall|j: int| 0 <= j < imps.len() ==> (#[trigger] imps[j]).0 == source ==> is_namespace_import(imps[j]),
    ensures
        ({
            let once = add_import(imps, source, SpecifierView::Named(a));
            let twice = add_import(once, source, SpecifierView::Named(b));
            &&& once.len() == imps.len() + 1
            &&& twice.len() == once.len()
            &&& twice[imps.len() as int] == (source, seq![SpecifierView::Named(a), SpecifierView::Named(b)])
            &&& forall|j: int| 0 <= j < imps.len() ==> twice[j] == #[trigger] imps[j]
        }),
{
    assert forall|j: int| 0 <= j < imps.len() implies !mergeable(#[trigger] imps[j], source) by {}
    lemma_find_mergeable(imps, source, imps.len() as int);
    let once = add_import(imps, source, SpecifierView::Named(a));
    assert(once == imps.push((source, seq![SpecifierView::Named(a)])));
    assert forall|j: int| 0 <= j < imps.len() implies !mergeable(#[trigger] once[j], source) by {
        assert(once[j] == imps[j]);
    }
    assert(mergeable(once[imps.len() as int], source)) by {
        if is_namespace_import(once[imps.len() as int]) {
            let j = choose|j: int| 0 <= j < once[imps.len() as int].1.len() && #[trigger] once[imps.len() as int].1[j] is Namespace;
        }
    }
    lemma_find_mergeable(once, source, imps.len() as int);
    let twice = add_import(once, source, SpecifierView::Named(b));
    assert(twice[imps.len() as int].1 =~= seq![SpecifierView::Named(a), SpecifierView::Named(b)]);
}

/// A namespace import is never joined: a named specifier for the same source goes into a
/// declaration of its own when every declaration of that source is a namespace import.
pub proof fn lemma_namespace_import_kept(imps: Seq<ImportView>, source: Seq<char>, a: Seq<char>)
    requires
        forall|j: int| 0 <= j < imps.len() ==> (#[trigger] imps[j]).0 == source ==> is_namespace_import(imps[j]),
    ensures
        add_import(imps, source, SpecifierView::Named(a)) == imps.push((source, seq![SpecifierView::Named(a)])),
{
    lemma_find_mergeable(imps, source, imps.len() as int);
}

/// The source that runtime helpers (`forwardRef`, `memo`, `SVGProps`) are imported from.
pub open spec fn import_source(c: Config) -> Seq<char> {
    match c.jsx_runtime_import {
        Some(i) => i.source@,
        None => match c.jsx_runtime {
            JSXRuntime::ClassicPreact => "preact"@,
            _ => "react"@,
        },
    }
}

/// The specifiers of a custom runtime import: its namespace, else its default, else its
/// named specifiers; none when it gives none of them.
pub open spec fn runtime_specifiers(i: JSXRuntimeImport) -> Option<Seq<SpecifierView>> {
    match i.namespace {
        Some(n) => Some(seq![SpecifierView::Namespace(n@)]),
        None => match i.default_specifier {
            Some(d) => Some(seq![SpecifierView::Default(d@)]),
            None => match i.specifiers {
                Some(v) => Some(v@.map_values(|s: String| SpecifierView::Named(s@))),
                None => None,
            },
        },
    }
}

/// The import of the JSX runtime; none when the custom import is invalid.
pub open spec fn runtime_imports(c: Config) -> Option<Seq<ImportView>> {
    match c.jsx_runtime {
        JSXRuntime::Automatic => Some(Seq::empty()),
        _ => match c.jsx_runtime_import {
            Some(i) => match runtime_specifiers(i) {
                Some(sp) => Some(seq![(i.source@, sp)]),
                None => None,
            },
            None => match c.jsx_runtime {
                JSXRuntime::ClassicPreact => Some(
                    seq![("preact"@, seq![SpecifierView::Named("h"@)])],
                ),
                _ => Some(seq![("react"@, seq![SpecifierView::Namespace("React"@)])]),
            },
        },
    }
}

/// The fields of the accessibility props: `title`, `titleId`, then `desc`, `descId`.
pub open spec fn svgr_fields(c: Config) -> Seq<Seq<char>> {
    (if c.title_prop {
        seq!["title"@, "titleId"@]
    } else {
        Seq::empty()
    }) + (if c.desc_prop {
        seq!["desc"@, "descId"@]
    } else {
        Seq::empty()
    })
}

/// The type of the spread props.
pub open spec fn svg_props_type(c: Config) -> TypeRefView {
    if c.native {
        TypeRefView::Named("SvgProps"@)
    } else {
        TypeRefView::Generic("SVGProps"@, "SVGSVGElement"@)
    }
}

/// Where the type of the spread props comes from, and its name.
pub open spec fn svg_props_import(c: Config) -> (Seq<char>, Seq<char>) {
    if c.native {
        ("react-native-svg"@, "SvgProps"@)
    } else {
        (import_source(c), "SVGProps"@)
    }
}

pub open spec fn has_accessibility_props(c: Config) -> bool {
    c.title_prop || c.desc_prop
}

/// The parameters of the component function.
pub open spec fn expected_params(c: Config) -> Seq<ParamView> {
    let ann = if !c.typescript {
        None
    } else if c.expands() {
        Some(TypeAnnView::Intersection(svg_props_type(c), TypeRefView::Named("SVGRProps"@)))
    } else {
        Some(TypeAnnView::Ref(TypeRefView::Named("SVGRProps"@)))
    };
    let p0 = if has_accessibility_props(c) {
        seq![ParamView::Object(svgr_fields(c), c.expands(), ann)]
    } else {
        Seq::empty()
    };
    let p1 = if c.expands() && !has_accessibility_props(c) {
        p0.push(
            ParamView::Ident(
                "props"@,
                if c.typescript {
                    Some(TypeAnnView::Ref(svg_props_type(c)))
                } else {
                    None
                },
            ),
        )
    } else {
        p0
    };
    if c._ref {
        let p2 = if p1.len() == 0 {
            p1.push(ParamView::Ident("_"@, None))
        } else {
            p1
        };
        p2.push(
            ParamView::Ident(
                "ref"@,
                if c.typescript {
                    Some(TypeAnnView::Ref(TypeRefView::Generic("Ref"@, "SVGSVGElement"@)))
                } else {
                    None
                },
            ),
        )
    } else {
        p1
    }
}

/// With a ref and spread props but no accessibility props the component takes
/// `(props, ref)`; with a ref alone it takes `(_, ref)`.
pub proof fn lemma_ref_parameters(c: Config)
    requires
        c._ref,
        !has_accessibility_props(c),
    ensures
        expected_params(c).len() == 2,
        expected_params(c)[1] matches ParamView::Ident(n, _) && n == "ref"@,
        c.expands() ==> (expected_params(c)[0] matches ParamView::Ident(n, _) && n == "props"@),
        !c.expands() ==> expected_params(c)[0] == ParamView::Ident("_"@, None),
{
}

/// The imports that follow the runtime import `base`.
pub open spec fn expected_imports(c: Config, base: Seq<ImportView>) -> Seq<ImportView> {
    let i1 = if c.native {
        add_import(base, "react-native-svg"@, SpecifierView::Default("Svg"@))
    } else {
        base
    };
    let i2 = if c.expands() && c.typescript {
        add_import(i1, svg_props_import(c).0, SpecifierView::Named(svg_props_import(c).1))
    } else {
        i1
    };
    let i3 = if c._ref {
        let a = if c.typescript {
            add_import(i2, "react"@, SpecifierView::Named("Ref"@))
        } else {
            i2
        };
        add_import(a, import_source(c), SpecifierView::Named("forwardRef"@))
    } else {
        i2
    };
    if c.memo {
        add_import(i3, import_source(c), SpecifierView::Named("memo"@))
    } else {
        i3
    }
}

/// The identifier exported: the component, or its last wrapper.
pub open spec fn export_identifier(c: Config, name: Seq<char>) -> Seq<char> {
    if c.memo {
        "Memo"@
    } else if c._ref {
        "ForwardRef"@
    } else {
        name
    }
}

/// The wrapping calls: `forwardRef` first, then `memo`.
pub open spec fn expected_hocs(c: Config, name: Seq<char>) -> Seq<(Seq<char>, Seq<char>, Seq<char>)> {
    let ref_id = if c._ref {
        "ForwardRef"@
    } else {
        name
    };
    (if c._ref {
        seq![("ForwardRef"@, "forwardRef"@, name)]
    } else {
        Seq::empty()
    }) + (if c.memo {
        seq![("Memo"@, "memo"@, ref_id)]
    } else {
        Seq::empty()
    })
}

/// A named export is required by the configuration or by the presence of a caller.
pub open spec fn needs_named_export(c: Config, state: InternalConfig) -> bool {
    state.caller is Some || c.export_type is Named
}

/// The previous export that a caller hands over, if any.
pub open spec fn previous_export_of(state: InternalConfig) -> Option<Seq<char>> {
    match state.caller {
        Some(cl) => match cl.previous_export {
            Some(p) => Some(p@),
            None => None,
        },
        None => None,
    }
}

/// Everything of the module but its root: the imports, the parameters and the interface,
/// the wrappers, and the export, for a component `name` of a call with or without a caller.
pub open spec fn is_module_shell(
    c: Config,
    name: Seq<char>,
    has_caller: bool,
    previous: Option<Seq<char>>,
    m: Module,
) -> bool {
    let id = export_identifier(c, name);
    &&& imports_view(m.imports@) == expected_imports(c, runtime_imports(c).unwrap())
    &&& params_view(m.params@) == expected_params(c)
    &&& m.component_name@ == name
    &&& hocs_view(m.hocs@) == expected_hocs(c, name)
    &&& (if has_accessibility_props(c) && c.typescript {
        m.interface matches Some(f) && names_view(f@) == svgr_fields(c)
    } else {
        m.interface is None
    })
    &&& (if has_caller || c.export_type is Named {
        m.export@ == ExportView::Named(id, c.named_export->0@)
    } else {
        m.export@ == ExportView::Default(id)
    })
    &&& (match previous {
        Some(p) => m.previous_export matches Some(q) && q@ == p,
        None => m.previous_export is None,
    })
}

/// The export is named exactly when a caller is present or a named export is configured,
/// and it exports the last wrapper (or the component) under the configured name;
/// otherwise that identifier is the default export.
pub proof fn lemma_export_shape(
    c: Config,
    name: Seq<char>,
    has_caller: bool,
    previous: Option<Seq<char>>,
    m: Module,
)
    requires
        is_module_shell(c, name, has_caller, previous, m),
    ensures
        (m.export is Named) <==> (has_caller || c.export_type is Named),
        m.export matches Export::Named(l, e) ==> l@ == export_identifier(c, name) && e@
            == c.named_export->0@,
        m.export matches Export::Default(l) ==> l@ == export_identifier(c, name),
        !c._ref && !c.memo ==> export_identifier(c, name) == name,
{
}

/// The module assembled around `root`.
pub open spec fn is_assembled(c: Config, state: InternalConfig, root: Element, m: Module) -> bool {
    &&& is_module_shell(c, state.component_name@, state.caller is Some, previous_export_of(state), m)
    &&& m.root == root
}

fn s(lit: &str) -> (r: String)
    ensures
        r@ == lit@,
{
    String::from_str(lit)
}

fn clone_str(x: &String) -> (r: String)
    ensures
        r@ == x@,
{
    x.clone()
}

/// The specifiers of a custom runtime import.
pub fn get_jsx_runtime_import_specifiers(cfg: &JSXRuntimeImport) -> (r: Option<Vec<ImportSpecifier>>)
    ensures
        r is Some <==> runtime_specifiers(*cfg) is Some,
        r matches Some(v) ==> specifiers_view(v@) == runtime_specifiers(*cfg)->0,
{
    if let Some(n) = &cfg.namespace {
        let mut v = Vec::new();
        v.push(ImportSpecifier::Namespace(clone_str(n)));
        assert(specifiers_view(v@) =~= runtime_specifiers(*cfg)->0);
        return Some(v);
    }
    if let Some(d) = &cfg.default_specifier {
        let mut v = Vec::new();
        v.push(ImportSpecifier::Default(clone_str(d)));
        assert(specifiers_view(v@) =~= runtime_specifiers(*cfg)->0);
        return Some(v);
    }
    if let Some(names) = &cfg.specifiers {
        let mut v: Vec<ImportSpecifier> = Vec::new();
        let mut i: usize = 0;
        while i < names.len()
            invariant
                i <= names@.len(),
                v@.len() == i,
                forall|k: int| 0 <= k < i ==> (#[trigger] v@[k])@ == SpecifierView::Named(names@[k]@),
            decreases names@.len() - i,
        {
            v.push(ImportSpecifier::Named(clone_str(&names[i])));
            i += 1;
        }
        assert(specifiers_view(v@) =~= runtime_specifiers(*cfg)->0);
        return Some(v);
    }
    None
}

/// The import of the JSX runtime: none for the automatic runtime, an error for an invalid
/// custom import.
pub fn get_jsx_runtime_import(config: &Config) -> (r: Result<Vec<ImportDecl>, SvgrError>)
    ensures
        r is Ok <==> runtime_imports(*config) is Some,
        r matches Ok(v) ==> imports_view(v@) == runtime_imports(*config)->0,
        r matches Err(e) ==> e is InvalidJsxRuntimeImport,
{
    let mut v: Vec<ImportDecl> = Vec::new();
    match config.jsx_runtime {
        JSXRuntime::Automatic => {
            assert(imports_view(v@) =~= Seq::<ImportView>::empty());
            return Ok(v);
        },
        _ => {},
    }
    match &config.jsx_runtime_import {
        Some(i) => match get_jsx_runtime_import_specifiers(i) {
            Some(specs) => {
                v.push(ImportDecl { source: clone_str(&i.source), specifiers: specs });
            },
            None => {
                return Err(SvgrError::InvalidJsxRuntimeImport);
            },
        },
        None => {
            let mut specs: Vec<ImportSpecifier> = Vec::new();
            match config.jsx_runtime {
                JSXRuntime::ClassicPreact => {
                    specs.push(ImportSpecifier::Named(s("h")));
                    assert(specifiers_view(specs@) =~= seq![SpecifierView::Named("h"@)]);
                    v.push(ImportDecl { source: s("preact"), specifiers: specs });
                },
                _ => {
                    specs.push(ImportSpecifier::Namespace(s("React")));
                    assert(specifiers_view(specs@) =~= seq![SpecifierView::Namespace("React"@)]);
                    v.push(ImportDecl { source: s("react"), specifiers: specs });
                },
            }
        },
    }
    assert(imports_view(v@) =~= runtime_imports(*config)->0);
    Ok(v)
}

/// The helper source as an owned string.
fn get_import_source(config: &Config) -> (r: String)
    ensures
        r@ == import_source(*config),
{
    match &config.jsx_runtime_import {
        Some(i) => clone_str(&i.source),
        None => match config.jsx_runtime {
            JSXRuntime::ClassicPreact => s("preact"),
            _ => s("react"),
        },
    }
}

/// The type of the spread props, importing it.
fn ts_type_reference_svg_props(imports: &mut Vec<ImportDecl>, config: &Config, import_source: &str) -> (r: TypeRef)
    requires
        import_source@ == crate::transform_svg_component::import_source(*config),
    ensures
        r@ == svg_props_type(*config),
        imports_view(final(imports)@) == add_import(
            imports_view(old(imports)@),
            svg_props_import(*config).0,
            SpecifierView::Named(svg_props_import(*config).1),
        ),
{
    if config.native {
        get_or_create_named_import(imports, "react-native-svg", "SvgProps");
        TypeRef::Named(s("SvgProps"))
    } else {
        get_or_create_named_import(imports, import_source, "SVGProps");
        TypeRef::Generic(s("SVGProps"), s("SVGSVGElement"))
    }
}

/// `const <var_name> = <callee>(<component_name>)`
pub fn create_var_decl_init_hoc(var_name: &str, callee: &str, component_name: &str) -> (r: Hoc)
    ensures
        r@ == (var_name@, callee@, component_name@),
{
    Hoc { name: s(var_name), callee: s(callee), arg: s(component_name) }
}

/// The fields of the accessibility props.
fn svgr_fields_vec(config: &Config) -> (r: Vec<String>)
    ensures
        names_view(r@) == svgr_fields(*config),
{
    let mut v: Vec<String> = Vec::new();
    if config.title_prop {
        v.push(s("title"));
        v.push(s("titleId"));
    }
    if config.desc_prop {
        v.push(s("desc"));
        v.push(s("descId"));
    }
    assert(names_view(v@) =~= svgr_fields(*config));
    v
}

fn expands(config: &Config) -> (r: bool)
    ensures
        r == config.expands(),
{
    match config.expand_props {
        crate::config::ExpandProps::Off => false,
        crate::config::ExpandProps::Bool(b) => b,
        _ => true,
    }
}

/// Builds the module around `root`: the runtime import, the react-native-svg import, the
/// parameters (accessibility props, spread props, ref), the `forwardRef` and `memo`
/// wrappers, and a named or default export. Fails on an invalid custom runtime import, and
/// when a named export is required but no name is configured.
#[verifier::rlimit(60)]
pub fn transform(root: Element, config: &Config, state: &InternalConfig) -> (r: Result<Module, SvgrError>)
    ensures
        runtime_imports(*config) is None ==> (r matches Err(e) && e is InvalidJsxRuntimeImport),
        runtime_imports(*config) is Some && needs_named_export(*config, *state)
            && config.named_export is None ==> (r matches Err(e) && e is MissingNamedExport),
        runtime_imports(*config) is Some && !(needs_named_export(*config, *state)
            && config.named_export is None) ==> (r matches Ok(m) && is_assembled(
            *config,
            *state,
            root,
            m,
        )),
{
    let ghost c = *config;
    let mut imports = match get_jsx_runtime_import(config) {
        Ok(v) => v,
        Err(e) => {
            return Err(e);
        },
    };
    let ghost base = imports_view(imports@);
    let import_source = get_import_source(config);
    if config.native {
        get_or_create_import(&mut imports, "react-native-svg", ImportSpecifier::Default(s("Svg")));
    }
    let ghost i1 = imports_view(imports@);
    let exp = expands(config);
    let mut params: Vec<Param> = Vec::new();
    let mut interface: Option<Vec<String>> = None;
    if config.title_prop || config.desc_prop {
        let fields = svgr_fields_vec(config);
        let ann = if !config.typescript {
            None
        } else if exp {
            let t = ts_type_reference_svg_props(&mut imports, config, import_source.as_str());
            Some(TypeAnn::Intersection(t, TypeRef::Named(s("SVGRProps"))))
        } else {
            Some(TypeAnn::Ref(TypeRef::Named(s("SVGRProps"))))
        };
        if config.typescript {
            interface = Some(svgr_fields_vec(config));
        }
        params.push(Param::Object(fields, exp, ann));
    } else if exp {
        let ann = if config.typescript {
            let t = ts_type_reference_svg_props(&mut imports, config, import_source.as_str());
            Some(TypeAnn::Ref(t))
        } else {
            None
        };
        params.push(Param::Ident(s("props"), ann));
    }
    let ghost i2 = imports_view(imports@);
    let ghost p1 = params_view(params@);
    assert(i2 == expected_imports_upto_expand(c, base));
    assert(p1 =~= expected_params_upto_expand(c));
    let mut hocs: Vec<Hoc> = Vec::new();
    let mut export_id = clone_str(&state.component_name);
    if config._ref {
        if params.len() == 0 {
            params.push(Param::Ident(s("_"), None));
        }
        let ann = if config.typescript {
            get_or_create_named_import(&mut imports, "react", "Ref");
            Some(TypeAnn::Ref(TypeRef::Generic(s("Ref"), s("SVGSVGElement"))))
        } else {
            None
        };
        params.push(Param::Ident(s("ref"), ann));
        get_or_create_named_import(&mut imports, import_source.as_str(), "forwardRef");
        hocs.push(create_var_decl_init_hoc("ForwardRef", "forwardRef", state.component_name.as_str()));
        export_id = s("ForwardRef");
    }
    assert(params_view(params@) =~= expected_params(c));
    if config.memo {
        get_or_create_named_import(&mut imports, import_source.as_str(), "memo");
        hocs.push(create_var_decl_init_hoc("Memo", "memo", export_id.as_str()));
        export_id = s("Memo");
    }
    assert(imports_view(imports@) == expected_imports(c, base));
    assert(hocs_view(hocs@) =~= expected_hocs(c, state.component_name@));
    let need_named = state.caller.is_some() || match config.export_type {
        ExportType::Named => true,
        ExportType::Default => false,
    };
    let (export, previous_export) = if need_named {
        match &config.named_export {
            None => {
                return Err(SvgrError::MissingNamedExport);
            },
            Some(n) => {
                let prev = match &state.caller {
                    Some(cl) => match &cl.previous_export {
                        Some(p) => Some(clone_str(p)),
                        None => None,
                    },
                    None => None,
                };
                (Export::Named(export_id, clone_str(n)), prev)
            },
        }
    } else {
        (Export::Default(export_id), None)
    };
    Ok(
        Module {
            imports,
            interface,
            component_name: clone_str(&state.component_name),
            params,
            root,
            hocs,
            export,
            previous_export,
        },
    )
}

/// The imports up to and including those of the spread props' type.
pub open spec fn expected_imports_upto_expand(c: Config, base: Seq<ImportView>) -> Seq<ImportView> {
    let i1 = if c.native {
        add_import(base, "react-native-svg"@, SpecifierView::Default("Svg"@))
    } else {
        base
    };
    if c.expands() && c.typescript {
        add_import(i1, svg_props_import(c).0, SpecifierView::Named(svg_props_import(c).1))
    } else {
        i1
    }
}

/// The parameters before the ref.
pub open spec fn expected_params_upto_expand(c: Config) -> Seq<ParamView> {
    let ann = if !c.typescript {
        None
    } else if c.expands() {
        Some(TypeAnnView::Intersection(svg_props_type(c), TypeRefView::Named("SVGRProps"@)))
    } else {
        Some(TypeAnnView::Ref(TypeRefView::Named("SVGRProps"@)))
    };
    let p0 = if has_accessibility_props(c) {
        seq![ParamView::Object(svgr_fields(c), c.expands(), ann)]
    } else {
        Seq::empty()
    };
    if c.expands() && !has_accessibility_props(c) {
        p0.push(
            ParamView::Ident(
                "props"@,
                if c.typescript {
                    Some(TypeAnnView::Ref(svg_props_type(c)))
                } else {
                    None
                },
            ),
        )
    } else {
        p0
    }
}

} // verus!
