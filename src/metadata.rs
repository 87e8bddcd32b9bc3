//! What a project reports about itself: the packages that `cargo metadata`
//! lists, and the `package.json` manifests of a JavaScript project, each with
//! the inline configuration a package may declare for itself.
use vstd::prelude::*;

use crate::model::str_views;
use crate::target::RustDependencyData;

verus! {

/// The part of `cargo metadata --format-version 1` that matters here.
pub struct CargoMetadata {
    pub packages: Vec<CargoMetadataPackage>,
}

pub struct CargoMetadataPackage {
    pub name: String,
    pub metadata: Option<RiffMetadata>,
}

/// `package.metadata` of a crate.
pub struct RiffMetadata {
    pub riff: Option<RustDependencyData>,
}

/// The part of a `package.json` that matters here.
pub struct PackageJson {
    pub name: Option<String>,
    pub config: Option<PackageJsonConfig>,
}

pub struct PackageJsonConfig {
    pub riff: Option<RustDependencyData>,
}

/// The configuration a crate declares for itself, if any.
pub open spec fn cargo_inline_of(p: CargoMetadataPackage) -> Option<RustDependencyData> {
    match p.metadata {
        Some(m) => m.riff,
        None => None,
    }
}

/// The names of the packages, in order.
pub open spec fn cargo_names(pkgs: Seq<CargoMetadataPackage>) -> Seq<Seq<char>> {
    pkgs.map_values(|p: CargoMetadataPackage| p.name@)
}


/// The configuration a JavaScript package declares for itself, if any.
pub open spec fn package_json_inline_of(p: PackageJson) -> Option<RustDependencyData> {
    match p.config {
        Some(c) => c.riff,
        None => None,
    }
}

/// The names of the manifests that have one, in order.
pub open spec fn package_json_names(pkgs: Seq<PackageJson>) -> Seq<Seq<char>>
    decreases pkgs.len(),
{
    if pkgs.len() == 0 {
        Seq::empty()
    } else {
        match pkgs.last().name {
            Some(n) => package_json_names(pkgs.drop_last()).push(n@),
            None => package_json_names(pkgs.drop_last()),
        }
    }
}


/// Each package's name, with the configuration it declares for itself.
pub open spec fn cargo_entries(pkgs: Seq<CargoMetadataPackage>) -> Seq<(Seq<char>, Option<RustDependencyData>)> {
    pkgs.map_values(|p: CargoMetadataPackage| (p.name@, cargo_inline_of(p)))
}

/// The name a manifest's own configuration is ordered by: its name, or the
/// empty text when it has none.
pub open spec fn package_json_key(p: PackageJson) -> Seq<char> {
    match p.name {
        Some(n) => n@,
        None => Seq::empty(),
    }
}

/// Each manifest's key, with the configuration it declares for itself.
pub open spec fn package_json_entries(pkgs: Seq<PackageJson>) -> Seq<(Seq<char>, Option<RustDependencyData>)> {
    pkgs.map_values(|p: PackageJson| (package_json_key(p), package_json_inline_of(p)))
}

/// The keys of the manifests, in order.
pub open spec fn package_json_keys(pkgs: Seq<PackageJson>) -> Seq<Seq<char>> {
    pkgs.map_values(|p: PackageJson| package_json_key(p))
}

impl CargoMetadataPackage {
    /// The configuration the crate declares for itself, if any.
    pub fn riff_config(&self) -> (r: Option<&RustDependencyData>)
        ensures
            match r {
                Some(c) => cargo_inline_of(*self) == Some(*c),
                None => cargo_inline_of(*self) is None,
            },
    {
        match &self.metadata {
            Some(m) => match &m.riff {
                Some(c) => Some(c),
                None => None,
            },
            None => None,
        }
    }
}

impl CargoMetadata {
    /// The names of the packages, in order.
    pub fn package_names(&self) -> (r: Vec<String>)
        ensures
            str_views(r@) == cargo_names(self.packages@),
    {
        let mut r: Vec<String> = Vec::new();
        let mut i: usize = 0;
        while i < self.packages.len()
            invariant
                i <= self.packages@.len(),
                r@.len() == i,
                forall|j: int| 0 <= j < i ==> r@[j]@ == self.packages@[j].name@,
            decreases self.packages@.len() - i,
        {
            r.push(self.packages[i].name.clone());
            i = i + 1;
        }
        assert(str_views(r@) =~= cargo_names(self.packages@));
        r
    }
}

impl PackageJson {
    /// The configuration the manifest declares for itself, if any.
    pub fn riff_config(&self) -> (r: Option<&RustDependencyData>)
        ensures
            match r {
                Some(c) => package_json_inline_of(*self) == Some(*c),
                None => package_json_inline_of(*self) is None,
            },
    {
        match &self.config {
            Some(c) => match &c.riff {
                Some(d) => Some(d),
                None => None,
            },
            None => None,
        }
    }
}

/// The names of the manifests that have one, in order.
pub fn package_json_names_of(pkgs: &Vec<PackageJson>) -> (r: Vec<String>)
    ensures
        str_views(r@) == package_json_names(pkgs@),
{
    let mut r: Vec<String> = Vec::new();
    let mut i: usize = 0;
    while i < pkgs.len()
        invariant
            i <= pkgs@.len(),
            str_views(r@) == package_json_names(pkgs@.take(i as int)),
        decreases pkgs@.len() - i,
    {
        assert(pkgs@.take(i + 1).drop_last() =~= pkgs@.take(i as int));
        if let Some(n) = &pkgs[i].name {
            r.push(n.clone());
        }
        assert(str_views(r@) =~= package_json_names(pkgs@.take(i + 1)));
        i = i + 1;
    }
    assert(pkgs@.take(i as int) =~= pkgs@);
    r
}

/// The keys of the manifests, in order.
pub fn package_json_keys_of(pkgs: &Vec<PackageJson>) -> (r: Vec<String>)
    ensures
        str_views(r@) == package_json_keys(pkgs@),
{
    let mut r: Vec<String> = Vec::new();
    let mut i: usize = 0;
    while i < pkgs.len()
        invariant
            i <= pkgs@.len(),
            r@.len() == i,
            forall|j: int| 0 <= j < i ==> r@[j]@ == package_json_key(pkgs@[j]),
        decreases pkgs@.len() - i,
    {
        match &pkgs[i].name {
            Some(n) => r.push(n.clone()),
            None => r.push(String::new()),
        }
        i = i + 1;
    }
    assert(str_views(r@) =~= package_json_keys(pkgs@));
    r
}

/// Whether the path made of `components` names a `package.json` that is not
/// part of a test tree (no component is `tests` or `test`).
pub fn is_package_json_path(components: &Vec<String>) -> (r: bool)
    ensures
        r == (components@.len() > 0 && components@.last()@ == "package.json"@
            && forall|i: int| 0 <= i < components@.len() ==> components@[i]@ != "tests"@
                && components@[i]@ != "test"@),
{
    let tests = "tests".to_owned();
    let test = "test".to_owned();
    let manifest = "package.json".to_owned();
    let mut i: usize = 0;
    while i < components.len()
        invariant
            i <= components@.len(),
            tests@ == "tests"@,
            test@ == "test"@,
            forall|j: int| 0 <= j < i ==> components@[j]@ != "tests"@ && components@[j]@ != "test"@,
        decreases components@.len() - i,
    {
        if components[i] == tests || components[i] == test {
            return false;
        }
        i = i + 1;
    }
    components.len() > 0 && components[components.len() - 1] == manifest
}

} // verus!
