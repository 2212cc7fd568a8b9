//! What a dependency specifier says, once parsed, and the mathematical
//! value that each part stands for: its view, in which every text is a
//! sequence of characters.

use vstd::prelude::*;
use crate::class::Class;
use crate::step::all_of;

verus! {

/// Whether `t` is a name: it starts with a letter or digit, holds besides
/// letters and digits only `-`, `_` and `.`, and after each of these comes
/// a letter or digit. So it ends with a letter or digit too.
pub open spec fn is_name(t: Seq<char>) -> bool {
    &&& t.len() > 0
    &&& Class::Alnum.has(t[0])
    &&& forall|k: int| 0 < k < t.len() ==> Class::Alnum.has(#[trigger] t[k]) || Class::Joiner.has(t[k])
    &&& forall|k: int|
        0 < k < t.len() && Class::Joiner.has(#[trigger] t[k]) ==> k + 1 < t.len()
            && Class::Alnum.has(t[k + 1])
}

/// Whether every element of `v` is a name.
pub open spec fn are_names(v: Seq<Seq<char>>) -> bool {
    forall|k: int| 0 <= k < v.len() ==> is_name(#[trigger] v[k])
}

/// Whether `t` is the token of a version: at least one character, and all
/// of them letters, digits or of `-_.*+!`.
pub open spec fn is_version(t: Seq<char>) -> bool {
    t.len() > 0 && all_of(t, 0, t.len() as int, Class::Version)
}

/// Whether `t` could stand between quotes: it holds characters that may,
/// and of the two quotes at most one.
pub open spec fn is_string(t: Seq<char>) -> bool {
    all_of(t, 0, t.len() as int, Class::InSingle) || all_of(t, 0, t.len() as int, Class::InDouble)
}

/// A relation between versions.
#[derive(Clone, Copy, Debug, PartialEq, Eq, Structural)]
pub enum Comparator {
    /// `<`
    Lt,
    /// `<=`
    Le,
    /// `!=`
    Ne,
    /// `==`
    Eq,
    /// `>=`
    Ge,
    /// `>`
    Gt,
    /// `~=`
    Cp,
    /// `===`
    Ae,
}

impl View for Comparator {
    type V = Comparator;

    open spec fn view(&self) -> Comparator {
        *self
    }
}

/// What stands between the two sides of a marker.
#[derive(Clone, Copy, Debug, PartialEq, Eq, Structural)]
pub enum Operator {
    Comparator(Comparator),
    /// `in`
    In,
    /// `not in`
    NotIn,
}

impl View for Operator {
    type V = Operator;

    open spec fn view(&self) -> Operator {
        *self
    }
}

/// One side of a marker: a name of the environment, or a quoted string.
#[derive(Debug, PartialEq, Eq)]
pub enum Variable {
    PythonVersion,
    PythonFullVersion,
    OsName,
    SysPlatform,
    PlatformRelease,
    PlatformSystem,
    PlatformVersion,
    PlatformMachine,
    PlatformPythonImplementation,
    ImplementationName,
    ImplementationVersion,
    Extra,
    /// What stood between the quotes.
    String(String),
}

/// The view of a [`Variable`].
pub enum VariableView {
    PythonVersion,
    PythonFullVersion,
    OsName,
    SysPlatform,
    PlatformRelease,
    PlatformSystem,
    PlatformVersion,
    PlatformMachine,
    PlatformPythonImplementation,
    ImplementationName,
    ImplementationVersion,
    Extra,
    String(Seq<char>),
}

impl VariableView {
    /// A string is one that could stand between quotes.
    pub open spec fn wf(self) -> bool {
        self matches VariableView::String(t) ==> is_string(t)
    }
}

impl View for Variable {
    type V = VariableView;

    open spec fn view(&self) -> VariableView {
        match self {
            Variable::PythonVersion => VariableView::PythonVersion,
            Variable::PythonFullVersion => VariableView::PythonFullVersion,
            Variable::OsName => VariableView::OsName,
            Variable::SysPlatform => VariableView::SysPlatform,
            Variable::PlatformRelease => VariableView::PlatformRelease,
            Variable::PlatformSystem => VariableView::PlatformSystem,
            Variable::PlatformVersion => VariableView::PlatformVersion,
            Variable::PlatformMachine => VariableView::PlatformMachine,
            Variable::PlatformPythonImplementation => VariableView::PlatformPythonImplementation,
            Variable::ImplementationName => VariableView::ImplementationName,
            Variable::ImplementationVersion => VariableView::ImplementationVersion,
            Variable::Extra => VariableView::Extra,
            Variable::String(s) => VariableView::String(s@),
        }
    }
}

impl Clone for Variable {
    fn clone(&self) -> (r: Variable)
        ensures
            r@ == self@,
    {
        match self {
            Variable::PythonVersion => Variable::PythonVersion,
            Variable::PythonFullVersion => Variable::PythonFullVersion,
            Variable::OsName => Variable::OsName,
            Variable::SysPlatform => Variable::SysPlatform,
            Variable::PlatformRelease => Variable::PlatformRelease,
            Variable::PlatformSystem => Variable::PlatformSystem,
            Variable::PlatformVersion => Variable::PlatformVersion,
            Variable::PlatformMachine => Variable::PlatformMachine,
            Variable::PlatformPythonImplementation => Variable::PlatformPythonImplementation,
            Variable::ImplementationName => Variable::ImplementationName,
            Variable::ImplementationVersion => Variable::ImplementationVersion,
            Variable::Extra => Variable::Extra,
            Variable::String(s) => Variable::String(s.clone()),
        }
    }
}

/// A condition on the environment.
#[derive(Debug, PartialEq, Eq)]
pub enum Marker {
    And(Box<Marker>, Box<Marker>),
    Or(Box<Marker>, Box<Marker>),
    Operator(Variable, Operator, Variable),
}

/// The view of a [`Marker`].
pub enum MarkerView {
    And(Box<MarkerView>, Box<MarkerView>),
    Or(Box<MarkerView>, Box<MarkerView>),
    Operator(VariableView, Operator, VariableView),
}

impl MarkerView {
    /// Every string in the marker is well formed.
    pub open spec fn wf(self) -> bool
        decreases self,
    {
        match self {
            MarkerView::And(a, b) => a.wf() && b.wf(),
            MarkerView::Or(a, b) => a.wf() && b.wf(),
            MarkerView::Operator(l, _, r) => l.wf() && r.wf(),
        }
    }
}

impl View for Marker {
    type V = MarkerView;

    open spec fn view(&self) -> MarkerView
        decreases self,
    {
        match self {
            Marker::And(a, b) => MarkerView::And(Box::new((**a).view()), Box::new((**b).view())),
            Marker::Or(a, b) => MarkerView::Or(Box::new((**a).view()), Box::new((**b).view())),
            Marker::Operator(l, o, r) => MarkerView::Operator(l@, *o, r@),
        }
    }
}

impl Clone for Marker {
    fn clone(&self) -> (r: Marker)
        ensures
            r@ == self@,
        decreases self,
    {
        match self {
            Marker::And(a, b) => Marker::And(Box::new((**a).clone()), Box::new((**b).clone())),
            Marker::Or(a, b) => Marker::Or(Box::new((**a).clone()), Box::new((**b).clone())),
            Marker::Operator(l, o, r) => Marker::Operator(l.clone(), *o, r.clone()),
        }
    }
}

/// A comparator and the version it compares with. The version is a token:
/// nothing here says what it means.
#[derive(Debug, PartialEq, Eq)]
pub struct VersionSpec {
    pub comparator: Comparator,
    pub version: String,
}

/// The view of a [`VersionSpec`].
pub struct VersionSpecView {
    pub comparator: Comparator,
    pub version: Seq<char>,
}

impl VersionSpecView {
    /// The version is a token of a version.
    pub open spec fn wf(self) -> bool {
        is_version(self.version)
    }
}

/// Whether `v` holds at least one clause, and well-formed ones only.
pub open spec fn are_clauses(v: Seq<VersionSpecView>) -> bool {
    v.len() > 0 && forall|k: int| 0 <= k < v.len() ==> (#[trigger] v[k]).wf()
}

impl View for VersionSpec {
    type V = VersionSpecView;

    open spec fn view(&self) -> VersionSpecView {
        VersionSpecView { comparator: self.comparator, version: self.version@ }
    }
}

impl Clone for VersionSpec {
    fn clone(&self) -> (r: VersionSpec)
        ensures
            r@ == self@,
    {
        VersionSpec { comparator: self.comparator, version: self.version.clone() }
    }
}

/// The views of the elements of `v`, in their order.
pub open spec fn views<T: View>(v: Seq<T>) -> Seq<T::V> {
    Seq::new(v.len(), |k: int| v[k]@)
}

/// Where the package comes from: a URL, kept as it was written, or the
/// versions that will do, of which there is at least one.
#[derive(Debug, PartialEq, Eq)]
pub enum Spec {
    Url(String),
    Version(Vec<VersionSpec>),
}

/// The view of a [`Spec`].
pub enum SpecView {
    Url(Seq<char>),
    Version(Seq<VersionSpecView>),
}

impl SpecView {
    /// A URL is not empty; of versions there is at least one clause, and
    /// each is well formed.
    pub open spec fn wf(self) -> bool {
        match self {
            SpecView::Url(u) => u.len() > 0,
            SpecView::Version(v) => are_clauses(v),
        }
    }
}

impl View for Spec {
    type V = SpecView;

    open spec fn view(&self) -> SpecView {
        match self {
            Spec::Url(u) => SpecView::Url(u@),
            Spec::Version(v) => SpecView::Version(views(v@)),
        }
    }
}

impl Clone for Spec {
    fn clone(&self) -> (r: Spec)
        ensures
            r@ == self@,
    {
        match self {
            Spec::Url(u) => Spec::Url(u.clone()),
            Spec::Version(v) => {
                let w = v.clone();
                assert(views(w@) =~= views(v@));
                Spec::Version(w)
            },
        }
    }
}

/// A dependency specifier: the name of a package, the extras asked of it in
/// the order in which they were written, and where given, its source or
/// versions and the condition under which it is wanted.
#[derive(Debug, PartialEq, Eq)]
pub struct Dependency {
    pub name: String,
    pub extras: Vec<String>,
    pub spec: Option<Spec>,
    pub marker: Option<Marker>,
}

/// The view of a [`Dependency`].
pub struct DependencyView {
    pub name: Seq<char>,
    pub extras: Seq<Seq<char>>,
    pub spec: Option<SpecView>,
    pub marker: Option<MarkerView>,
}

impl DependencyView {
    /// The name and the extras are names, and the rest is well formed where
    /// it is there.
    pub open spec fn wf(self) -> bool {
        &&& is_name(self.name)
        &&& are_names(self.extras)
        &&& self.spec matches Some(s) ==> s.wf()
        &&& self.marker matches Some(m) ==> m.wf()
    }
}

impl View for Dependency {
    type V = DependencyView;

    open spec fn view(&self) -> DependencyView {
        DependencyView {
            name: self.name@,
            extras: views(self.extras@),
            spec: match self.spec {
                Some(s) => Some(s@),
                None => None,
            },
            marker: match self.marker {
                Some(m) => Some(m@),
                None => None,
            },
        }
    }
}

impl Clone for Dependency {
    fn clone(&self) -> (r: Dependency)
        ensures
            r@ == self@,
    {
        let extras = self.extras.clone();
        assert(views(extras@) =~= views(self.extras@));
        Dependency {
            name: self.name.clone(),
            extras,
            spec: match &self.spec {
                Some(s) => Some(s.clone()),
                None => None,
            },
            marker: match &self.marker {
                Some(m) => Some(m.clone()),
                None => None,
            },
        }
    }
}

} // verus!
