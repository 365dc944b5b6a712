//! Package requirements, references to them, and the rule that keeps an
//! unconstrained version out of persisted lock state.

use vstd::prelude::*;
use crate::text::{clone_optional_text, clone_text, contains, contains_text};

verus! {

/// A package name with the version requirement asked of it, as written.
#[derive(Debug, PartialEq, Eq)]
pub struct PackageReq {
    pub name: String,
    pub version_req: String,
}

pub struct PackageReqView {
    pub name: Seq<char>,
    pub version_req: Seq<char>,
}

impl View for PackageReq {
    type V = PackageReqView;

    open spec fn view(&self) -> PackageReqView {
        PackageReqView { name: self.name@, version_req: self.version_req@ }
    }
}

impl DeepView for PackageReq {
    type V = PackageReqView;

    open spec fn deep_view(&self) -> PackageReqView {
        self@
    }
}

impl Clone for PackageReq {
    fn clone(&self) -> (res: Self)
        ensures
            res@ == self@,
    {
        PackageReq { name: clone_text(&self.name), version_req: clone_text(&self.version_req) }
    }
}

impl PackageReqView {
    /// Whether the requirement is the wildcard, which any version meets.
    pub open spec fn is_wildcard(self) -> bool {
        self.version_req == "*"@
    }
}

impl PackageReq {
    /// Whether the requirement is the wildcard, which any version meets.
    pub fn is_wildcard(&self) -> (res: bool)
        ensures
            res == self@.is_wildcard(),
    {
        let text = self.version_req.as_str();
        proof {
            reveal_strlit("*");
        }
        let res = text.unicode_len() == 1 && text.get_char(0) == '*';
        assert(res ==> text@ =~= "*"@);
        res
    }
}

/// A reference to a package of the npm registry: the requirement and, where
/// one was written, the path below the package's folder.
#[derive(Debug, PartialEq, Eq)]
pub struct NpmPackageReqReference {
    pub req: PackageReq,
    pub sub_path: Option<String>,
}

pub struct NpmPackageReqReferenceView {
    pub req: PackageReqView,
    pub sub_path: Option<Seq<char>>,
}

impl View for NpmPackageReqReference {
    type V = NpmPackageReqReferenceView;

    open spec fn view(&self) -> NpmPackageReqReferenceView {
        NpmPackageReqReferenceView { req: self.req@, sub_path: self.sub_path.deep_view() }
    }
}

impl DeepView for NpmPackageReqReference {
    type V = NpmPackageReqReferenceView;

    open spec fn deep_view(&self) -> NpmPackageReqReferenceView {
        self@
    }
}

impl Clone for NpmPackageReqReference {
    fn clone(&self) -> (res: Self)
        ensures
            res@ == self@,
    {
        NpmPackageReqReference {
            req: self.req.clone(),
            sub_path: clone_optional_text(&self.sub_path),
        }
    }
}

/// What the registry's reference grammar makes of a module specifier: the
/// reference it spells, or nothing where it spells none.
pub uninterp spec fn npm_package_req_reference(specifier: Seq<char>) -> Option<
    NpmPackageReqReferenceView,
>;

/// The digits of the largest number that a version of the registry's
/// grammar can hold. The grammar adds one to the numbers it reads.
pub open spec fn largest_version_number() -> Seq<char> {
    "18446744073709551615"@
}

/// Whether every number written in the text can be read and added to: the
/// text nowhere holds the digits of the largest number.
pub open spec fn numbers_fit(specifier: Seq<char>) -> bool {
    !contains_text(specifier, largest_version_number())
}

/// The reference that a module specifier is read as: what the registry's
/// grammar makes of it where its numbers fit, and nothing where they do not.
pub open spec fn reference_in(specifier: Seq<char>) -> Option<NpmPackageReqReferenceView> {
    if numbers_fit(specifier) {
        npm_package_req_reference(specifier)
    } else {
        None
    }
}

/// Reads a module specifier with the registry's reference grammar.
///
/// Calls `deno_semver::npm::NpmPackageReqReference::from_str`. Trusted: the
/// result is what that parser makes of the text, and depends on the text
/// alone. The requirement's version is kept as the text it was written with
/// (`version_text`), which is `*` where the specifier names no version. The
/// parser adds one to the numbers of a version without a check, so a text
/// that holds the largest number is not handed to it.
#[verifier::external_body]
pub(crate) fn parse_npm_package_req_reference(specifier: &str) -> (res: Option<
    NpmPackageReqReference,
>)
    requires
        numbers_fit(specifier@),
    ensures
        res.deep_view() == npm_package_req_reference(specifier@),
{
    match deno_semver::npm::NpmPackageReqReference::from_str(specifier) {
        Ok(reference) => {
            let inner = reference.into_inner();
            let version_req = inner.req.version_req.version_text().to_string();
            Some(NpmPackageReqReference {
                req: PackageReq { name: inner.req.name, version_req },
                sub_path: inner.sub_path,
            })
        },
        Err(_) => None,
    }
}

impl NpmPackageReqReference {
    /// Reads a module specifier as a reference to an npm package. A
    /// specifier with a number too large for the registry's grammar is no
    /// reference.
    pub fn from_specifier(specifier: &str) -> (res: Option<NpmPackageReqReference>)
        ensures
            res.deep_view() == reference_in(specifier@),
    {
        if contains(specifier, "18446744073709551615") {
            None
        } else {
            parse_npm_package_req_reference(specifier)
        }
    }
}

/// One dependency of the root manifest: the alias it is listed under and the
/// requirement its value spells, if the value could be read as one.
#[derive(Debug, PartialEq, Eq)]
pub struct PackageJsonDep {
    pub alias: String,
    pub req: Option<PackageReq>,
}

pub struct PackageJsonDepView {
    pub alias: Seq<char>,
    pub req: Option<PackageReqView>,
}

impl View for PackageJsonDep {
    type V = PackageJsonDepView;

    open spec fn view(&self) -> PackageJsonDepView {
        PackageJsonDepView { alias: self.alias@, req: self.req.deep_view() }
    }
}

impl DeepView for PackageJsonDep {
    type V = PackageJsonDepView;

    open spec fn deep_view(&self) -> PackageJsonDepView {
        self@
    }
}

impl Clone for PackageJsonDep {
    fn clone(&self) -> (res: Self)
        ensures
            res@ == self@,
    {
        PackageJsonDep {
            alias: clone_text(&self.alias),
            req: match &self.req {
                Some(req) => Some(req.clone()),
                None => None,
            },
        }
    }
}

/// The dependencies that the root manifest records, in the order in which it
/// lists them.
#[derive(Debug, PartialEq, Eq)]
pub struct PackageJsonDeps {
    pub entries: Vec<PackageJsonDep>,
}

impl View for PackageJsonDeps {
    type V = Seq<PackageJsonDepView>;

    open spec fn view(&self) -> Seq<PackageJsonDepView> {
        self.entries.deep_view()
    }
}

impl DeepView for PackageJsonDeps {
    type V = Seq<PackageJsonDepView>;

    open spec fn deep_view(&self) -> Seq<PackageJsonDepView> {
        self@
    }
}

impl Clone for PackageJsonDeps {
    fn clone(&self) -> (res: Self)
        ensures
            res@ == self@,
    {
        let mut entries: Vec<PackageJsonDep> = Vec::new();
        let mut i: usize = 0;
        while i < self.entries.len()
            invariant
                i <= self.entries.len(),
                entries.len() == i,
                forall|j: int| 0 <= j < i ==> entries[j]@ == self.entries[j]@,
            decreases self.entries.len() - i,
        {
            entries.push(self.entries[i].clone());
            i += 1;
        }
        assert(entries.deep_view() =~= self.entries.deep_view());
        PackageJsonDeps { entries }
    }
}

/// Whether a dependency holds a requirement on the package `name`.
pub open spec fn requires_package(dep: PackageJsonDepView, name: Seq<char>) -> bool {
    dep.req is Some && dep.req->0.name == name
}

/// Whether `i` is the place of the first dependency that holds a requirement
/// on the package `name`.
pub open spec fn is_first_requirement(
    deps: Seq<PackageJsonDepView>,
    name: Seq<char>,
    i: int,
) -> bool {
    &&& 0 <= i < deps.len()
    &&& requires_package(deps[i], name)
    &&& forall|j: int| 0 <= j < i ==> !requires_package(#[trigger] deps[j], name)
}

/// Whether any dependency holds a requirement on the package `name`.
pub open spec fn has_requirement(deps: Seq<PackageJsonDepView>, name: Seq<char>) -> bool {
    exists|i: int| is_first_requirement(deps, name, i)
}

/// The first requirement on the package `name` among the dependencies.
pub open spec fn first_requirement(deps: Seq<PackageJsonDepView>, name: Seq<char>) -> PackageReqView
    recommends
        has_requirement(deps, name),
{
    deps[choose|i: int| is_first_requirement(deps, name, i)].req->0
}

/// The reference that is registered for `reference`: where it asks for the
/// wildcard and the root manifest holds a requirement on the same package,
/// that requirement with the reference's own subpath; else the reference
/// itself.
pub open spec fn pinned_reference(
    reference: NpmPackageReqReferenceView,
    deps: Option<Seq<PackageJsonDepView>>,
) -> NpmPackageReqReferenceView {
    if reference.req.is_wildcard() && deps is Some && has_requirement(
        deps->0,
        reference.req.name,
    ) {
        NpmPackageReqReferenceView {
            req: first_requirement(deps->0, reference.req.name),
            sub_path: reference.sub_path,
        }
    } else {
        reference
    }
}

impl PackageJsonDeps {
    /// The place of the first dependency that holds a requirement on the
    /// package `name`, if there is one.
    pub fn find(&self, name: &String) -> (res: Option<usize>)
        ensures
            res is Some ==> is_first_requirement(self@, name@, res->0 as int),
            res is None ==> !has_requirement(self@, name@),
    {
        let mut i: usize = 0;
        while i < self.entries.len()
            invariant
                i <= self.entries.len(),
                self@.len() == self.entries.len(),
                forall|j: int| 0 <= j < i ==> !requires_package(#[trigger] self@[j], name@),
            decreases self.entries.len() - i,
        {
            assert(self@[i as int] == self.entries[i as int]@);
            match &self.entries[i].req {
                Some(req) => {
                    if req.name == *name {
                        return Some(i);
                    }
                },
                None => {},
            }
            i += 1;
        }
        None
    }
}

/// The first requirement on a package is the one at every place that is
/// first.
pub proof fn lemma_first_requirement_at(deps: Seq<PackageJsonDepView>, name: Seq<char>, i: int)
    requires
        is_first_requirement(deps, name, i),
    ensures
        has_requirement(deps, name),
        first_requirement(deps, name) == deps[i].req->0,
{
    let k = choose|k: int| is_first_requirement(deps, name, k);
    assert(k == i) by {
        if k < i {
            assert(!requires_package(deps[k], name));
        } else if i < k {
            assert(!requires_package(deps[i], name));
        }
    }
}

/// Settles the version of a reference before it is registered: a wildcard is
/// replaced by the requirement that the root manifest already holds on the
/// same package, so that no new version enters the lock state; the subpath
/// stays as it was.
pub fn pin_wildcard_version(
    reference: NpmPackageReqReference,
    deps: &Option<PackageJsonDeps>,
) -> (res: NpmPackageReqReference)
    ensures
        res@ == pinned_reference(reference@, deps.deep_view()),
{
    if !reference.req.is_wildcard() {
        return reference;
    }
    match deps {
        Some(deps) => {
            match deps.find(&reference.req.name) {
                Some(i) => {
                    proof {
                        lemma_first_requirement_at(deps@, reference@.req.name, i as int);
                        assert(deps@[i as int] == deps.entries[i as int]@);
                    }
                    match &deps.entries[i].req {
                        Some(req) => NpmPackageReqReference {
                            req: req.clone(),
                            sub_path: reference.sub_path,
                        },
                        None => reference,
                    }
                },
                None => reference,
            }
        },
        None => reference,
    }
}

/// A wildcard reference is registered with the requirement of the first
/// same-named dependency of the root manifest, and with its own subpath.
pub proof fn law_wildcard_takes_manifest_requirement(
    reference: NpmPackageReqReferenceView,
    deps: Seq<PackageJsonDepView>,
    i: int,
)
    requires
        reference.req.is_wildcard(),
        is_first_requirement(deps, reference.req.name, i),
    ensures
        pinned_reference(reference, Some(deps)).req == deps[i].req->0,
        pinned_reference(reference, Some(deps)).req.name == reference.req.name,
        pinned_reference(reference, Some(deps)).sub_path == reference.sub_path,
{
    lemma_first_requirement_at(deps, reference.req.name, i);
}

/// A reference that names its version, or whose package the root manifest
/// does not hold, is registered as it is.
pub proof fn law_other_references_stay(
    reference: NpmPackageReqReferenceView,
    deps: Option<Seq<PackageJsonDepView>>,
)
    requires
        !reference.req.is_wildcard() || deps is None || !has_requirement(
            deps->0,
            reference.req.name,
        ),
    ensures
        pinned_reference(reference, deps) == reference,
{
}

} // verus!
