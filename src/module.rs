//! The module that holds the component: imports, the function's parameters, the wrapping
//! calls and the export.
use vstd::prelude::*;
use crate::ast::Element;

verus! {

pub enum ImportSpecifier {
    /// `* as name`
    Namespace(String),
    /// `name`
    Default(String),
    /// `{ name }`
    Named(String),
}

pub enum SpecifierView {
    Namespace(Seq<char>),
    Default(Seq<char>),
    Named(Seq<char>),
}

impl View for ImportSpecifier {
    type V = SpecifierView;

    open spec fn view(&self) -> SpecifierView {
        match self {
            ImportSpecifier::Namespace(n) => SpecifierView::Namespace(n@),
            ImportSpecifier::Default(n) => SpecifierView::Default(n@),
            ImportSpecifier::Named(n) => SpecifierView::Named(n@),
        }
    }
}

/// `import <specifiers> from "<source>"`
pub struct ImportDecl {
    pub source: String,
    pub specifiers: Vec<ImportSpecifier>,
}

pub open spec fn specifiers_view(v: Seq<ImportSpecifier>) -> Seq<SpecifierView> {
    v.map_values(|s: ImportSpecifier| s@)
}

impl View for ImportDecl {
    type V = (Seq<char>, Seq<SpecifierView>);

    open spec fn view(&self) -> (Seq<char>, Seq<SpecifierView>) {
        (self.source@, specifiers_view(self.specifiers@))
    }
}

pub open spec fn imports_view(v: Seq<ImportDecl>) -> Seq<(Seq<char>, Seq<SpecifierView>)> {
    v.map_values(|d: ImportDecl| d@)
}

/// A reference to a type: `Name` or `Name<Arg>`.
pub enum TypeRef {
    Named(String),
    Generic(String, String),
}

pub enum TypeRefView {
    Named(Seq<char>),
    Generic(Seq<char>, Seq<char>),
}

impl View for TypeRef {
    type V = TypeRefView;

    open spec fn view(&self) -> TypeRefView {
        match self {
            TypeRef::Named(n) => TypeRefView::Named(n@),
            TypeRef::Generic(n, a) => TypeRefView::Generic(n@, a@),
        }
    }
}

/// A parameter's type annotation.
pub enum TypeAnn {
    Ref(TypeRef),
    /// `A & B`
    Intersection(TypeRef, TypeRef),
}

pub enum TypeAnnView {
    Ref(TypeRefView),
    Intersection(TypeRefView, TypeRefView),
}

impl View for TypeAnn {
    type V = TypeAnnView;

    open spec fn view(&self) -> TypeAnnView {
        match self {
            TypeAnn::Ref(r) => TypeAnnView::Ref(r@),
            TypeAnn::Intersection(a, b) => TypeAnnView::Intersection(a@, b@),
        }
    }
}

pub open spec fn ann_view(a: Option<TypeAnn>) -> Option<TypeAnnView> {
    match a {
        Some(t) => Some(t@),
        None => None,
    }
}

/// A parameter of the component function.
pub enum Param {
    /// `name` or `name: Type`
    Ident(String, Option<TypeAnn>),
    /// `{ a, b, ...props }: Type`; the flag says whether the rest binding `...props` ends it.
    Object(Vec<String>, bool, Option<TypeAnn>),
}

pub enum ParamView {
    Ident(Seq<char>, Option<TypeAnnView>),
    Object(Seq<Seq<char>>, bool, Option<TypeAnnView>),
}

pub open spec fn names_view(v: Seq<String>) -> Seq<Seq<char>> {
    v.map_values(|s: String| s@)
}

impl View for Param {
    type V = ParamView;

    open spec fn view(&self) -> ParamView {
        match self {
            Param::Ident(n, a) => ParamView::Ident(n@, ann_view(*a)),
            Param::Object(f, rest, a) => ParamView::Object(names_view(f@), *rest, ann_view(*a)),
        }
    }
}

pub open spec fn params_view(v: Seq<Param>) -> Seq<ParamView> {
    v.map_values(|p: Param| p@)
}

/// `const <name> = <callee>(<arg>)`
pub struct Hoc {
    pub name: String,
    pub callee: String,
    pub arg: String,
}

impl View for Hoc {
    type V = (Seq<char>, Seq<char>, Seq<char>);

    open spec fn view(&self) -> (Seq<char>, Seq<char>, Seq<char>) {
        (self.name@, self.callee@, self.arg@)
    }
}

pub open spec fn hocs_view(v: Seq<Hoc>) -> Seq<(Seq<char>, Seq<char>, Seq<char>)> {
    v.map_values(|h: Hoc| h@)
}

pub enum Export {
    /// `export default <name>`
    Default(String),
    /// `export { <local> as <exported> }`
    Named(String, String),
}

pub enum ExportView {
    Default(Seq<char>),
    Named(Seq<char>, Seq<char>),
}

impl View for Export {
    type V = ExportView;

    open spec fn view(&self) -> ExportView {
        match self {
            Export::Default(n) => ExportView::Default(n@),
            Export::Named(l, e) => ExportView::Named(l@, e@),
        }
    }
}

/// The generated module, before it is written out.
pub struct Module {
    pub imports: Vec<ImportDecl>,
    /// The fields of the `SVGRProps` interface, each an optional string.
    pub interface: Option<Vec<String>>,
    /// `const <component_name> = (<params>) => <root>`
    pub component_name: String,
    pub params: Vec<Param>,
    pub root: Element,
    pub hocs: Vec<Hoc>,
    pub export: Export,
    /// Statements to keep, verbatim, after the export.
    pub previous_export: Option<String>,
}

} // verus!
