use vstd::prelude::*;

use crate::vuln::Vulnerability;

verus! {

/// A pointer to a package: its URL, where to look it up, its trust verdict
/// and, where there is one, where to fetch its bill of materials.
#[derive(Clone, Debug, PartialEq, Eq)]
pub struct PackageRef {
    pub purl: String,
    pub href: String,
    pub trusted: Option<bool>,
    pub sbom: Option<String>,
}

/// The aggregated view of one package.
#[derive(Clone, Debug, PartialEq, Eq)]
pub struct Package {
    pub purl: Option<String>,
    pub href: Option<String>,
    pub trusted: Option<bool>,
    pub trusted_versions: Vec<PackageRef>,
    pub vulnerabilities: Vec<Vulnerability>,
    pub sbom: Option<String>,
}

/// One package and the packages one hop away from it in the dependency
/// graph (what it depends on, or what depends on it).
#[derive(Clone, Debug, PartialEq, Eq)]
pub struct PackageDependencies {
    pub purl: String,
    pub packages: Vec<String>,
}

/// A collaborator call that did not complete. What went wrong is not kept:
/// callers only ever see an internal error.
#[derive(Clone, Copy, Debug, PartialEq, Eq)]
pub struct UpstreamFailure;

}
