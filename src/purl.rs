use std::str::FromStr;
use packageurl::PackageUrl;
use vstd::prelude::*;

use crate::error::ApiError;

verus! {

/// What the `packageurl` crate makes of a string: `None` where the string
/// breaks the package-URL grammar, otherwise its type, namespace, name,
/// version and canonical rendering, in that order.
pub uninterp spec fn parsed_purl(s: Seq<char>) -> Option<
    (Seq<char>, Option<Seq<char>>, Seq<char>, Option<Seq<char>>, Seq<char>),
>;

/// The string has no `:`, so it names no scheme.
pub open spec fn lacks_scheme(s: Seq<char>) -> bool {
    forall|i: int| 0 <= i < s.len() ==> s[i] != ':'
}

pub open spec fn opt_view(o: Option<String>) -> Option<Seq<char>> {
    match o {
        Some(s) => Some(s@),
        None => None,
    }
}

/// A parsed package URL.
#[derive(Clone, Debug)]
pub struct PackageId {
    pub ty: String,
    pub namespace: Option<String>,
    pub name: String,
    pub version: Option<String>,
    /// The canonical rendering of the whole package URL.
    pub canonical: String,
}

impl PackageId {
    pub open spec fn parts(&self) -> (
        Seq<char>,
        Option<Seq<char>>,
        Seq<char>,
        Option<Seq<char>>,
        Seq<char>,
    ) {
        (self.ty@, opt_view(self.namespace), self.name@, opt_view(self.version), self.canonical@)
    }

    /// These are the parts of some string that parsed as a package URL.
    pub open spec fn validated(&self) -> bool {
        exists|s: Seq<char>| parsed_purl(s) == Some(self.parts())
    }
}

/// Relies on `PackageUrl::from_str` to accept exactly the package URLs and
/// to split them into parts, and on its `Display` for the canonical form.
/// A string without `:` has no scheme and is refused (`parse_scheme`).
#[verifier::external_body]
fn packageurl_parse(s: &str) -> (r: Option<PackageId>)
    ensures
        match r {
            Some(id) => parsed_purl(s@) == Some(id.parts()),
            None => parsed_purl(s@) is None,
        },
        lacks_scheme(s@) ==> r is None,
{
    match PackageUrl::from_str(s) {
        Ok(p) => Some(PackageId {
            ty: p.ty().to_string(),
            namespace: p.namespace().map(|n| n.to_string()),
            name: p.name().to_string(),
            version: p.version().map(|v| v.to_string()),
            canonical: p.to_string(),
        }),
        Err(_) => None,
    }
}

/// Parses a package URL; a string outside the grammar is rejected with an
/// error that carries it unchanged.
pub fn parse(input: &str) -> (r: Result<PackageId, ApiError>)
    ensures
        r is Ok <==> parsed_purl(input@) is Some,
        r matches Ok(id) ==> parsed_purl(input@) == Some(id.parts()) && id.validated(),
        r matches Err(e) ==> (e matches ApiError::InvalidPackageUrl { purl } && purl@ == input@),
        lacks_scheme(input@) ==> r is Err,
{
    match packageurl_parse(input) {
        Some(id) => {
            assert(parsed_purl(input@) == Some(id.parts()));
            Ok(id)
        },
        None => Err(ApiError::InvalidPackageUrl { purl: input.to_string() }),
    }
}

}
