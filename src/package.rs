use vstd::prelude::*;
use vstd::utf8::encode_utf8;

use crate::error::ApiError;
use crate::model::{Package, PackageRef, UpstreamFailure};
use crate::purl::{opt_view, parse, parsed_purl, PackageId};
use crate::trust::{has_substring, is_trusted, trusted_by_rule};
use crate::vuln::{merge, Vulnerability};

verus! {

/// A byte that URL encoding leaves as it is: an ASCII letter or digit, or
/// one of `-`, `.`, `_`, `~`.
pub open spec fn unreserved(b: u8) -> bool {
    (0x30 <= b <= 0x39) || (0x41 <= b <= 0x5a) || (0x61 <= b <= 0x7a) || b == 0x2d || b == 0x2e
        || b == 0x5f || b == 0x7e
}

/// The upper-case hexadecimal digit of a value below sixteen.
pub open spec fn hex_digit(d: u8) -> char {
    if d < 10 {
        ((0x30 + d) as u8) as char
    } else {
        ((0x37 + d) as u8) as char
    }
}

/// Bytes percent-encoded: unreserved bytes stay, each other byte becomes
/// `%` and its two upper-case hexadecimal digits.
pub open spec fn percent_encoded(bytes: Seq<u8>) -> Seq<char>
    decreases bytes.len(),
{
    if bytes.len() == 0 {
        Seq::empty()
    } else {
        let b = bytes[0];
        let head = if unreserved(b) {
            seq![b as char]
        } else {
            seq!['%', hex_digit(b / 16), hex_digit(b % 16)]
        };
        head + percent_encoded(bytes.skip(1))
    }
}

/// The URL encoding of a string: its UTF-8 bytes percent-encoded.
pub open spec fn url_encoded(s: Seq<char>) -> Seq<char> {
    percent_encoded(encode_utf8(s))
}

/// Relies on `urlencoding::encode`, which percent-encodes every byte of the
/// string's UTF-8 form but ASCII letters, digits and `-_.~`, with upper-case
/// hexadecimal digits.
#[verifier::external_body]
fn percent_encode(s: &str) -> (r: String)
    ensures
        r@ == url_encoded(s@),
{
    urlencoding::encode(s).into_owned()
}

pub open spec fn lookup_link(canonical: Seq<char>) -> Seq<char> {
    "/api/package?purl="@ + url_encoded(canonical)
}

pub open spec fn sbom_link(canonical: Seq<char>) -> Seq<char> {
    "/api/package/sbom?purl="@ + url_encoded(canonical)
}

/// The link to a package's bill of materials holds the URL-encoded package
/// URL.
pub proof fn lemma_sbom_link_names_package(canonical: Seq<char>)
    ensures
        has_substring(sbom_link(canonical), url_encoded(canonical)),
{
    let head = "/api/package/sbom?purl="@;
    let link = sbom_link(canonical);
    let e = url_encoded(canonical);
    assert(link.subrange(head.len() as int, (head.len() + e.len()) as int) =~= e);
}

/// The link under which a package is looked up.
pub fn lookup_href(canonical: &str) -> (r: String)
    ensures
        r@ == lookup_link(canonical@),
{
    proof {
        reveal_strlit("/api/package?purl=");
    }
    let encoded = percent_encode(canonical);
    String::from_str("/api/package?purl=").concat(encoded.as_str())
}

/// The link under which a package's bill of materials is fetched.
pub fn sbom_href(canonical: &str) -> (r: String)
    ensures
        r@ == sbom_link(canonical@),
{
    proof {
        reveal_strlit("/api/package/sbom?purl=");
    }
    let encoded = percent_encode(canonical);
    String::from_str("/api/package/sbom?purl=").concat(encoded.as_str())
}

/// A collaborator's answer as the caller sees it: its value, or an internal
/// error that says nothing of the cause.
pub fn from_upstream<T>(answer: Result<T, UpstreamFailure>) -> (r: Result<T, ApiError>)
    ensures
        answer matches Ok(v) ==> r == Ok::<T, ApiError>(v),
        answer is Err ==> r == Err::<T, ApiError>(ApiError::InternalError),
{
    match answer {
        Ok(v) => Ok(v),
        Err(_) => Err(ApiError::InternalError),
    }
}

/// The package URL of a single lookup, which must be there.
pub fn required_purl(query: Option<String>) -> (r: Result<String, ApiError>)
    ensures
        query matches Some(p) ==> r == Ok::<String, ApiError>(p),
        query is None ==> r == Err::<String, ApiError>(ApiError::MissingQueryArgument),
{
    match query {
        Some(p) => Ok(p),
        None => Err(ApiError::MissingQueryArgument),
    }
}

/// The package URL of a request that needs one: it must be there, and it
/// must parse, before any collaborator hears of it.
pub fn validated_query(query: Option<String>) -> (r: Result<String, ApiError>)
    ensures
        query is None ==> r == Err::<String, ApiError>(ApiError::MissingQueryArgument),
        query matches Some(p) ==> if parsed_purl(p@) is Some {
            r == Ok::<String, ApiError>(p)
        } else {
            r matches Err(e) && e matches ApiError::InvalidPackageUrl { purl } && purl@ == p@
        },
{
    let p = required_purl(query)?;
    match parse(p.as_str()) {
        Ok(_) => Ok(p),
        Err(e) => Err(e),
    }
}

/// The package record built from a parsed URL and the collaborators'
/// answers about it: the graph's vulnerabilities, the feed's
/// vulnerabilities, the graph's related versions, and whether the registry
/// holds a bill of materials. Any failed answer fails the whole lookup.
pub fn build_package(
    id: &PackageId,
    graph_vulns: Result<Vec<Vulnerability>, UpstreamFailure>,
    feed_vulns: Result<Vec<Vulnerability>, UpstreamFailure>,
    versions: Result<Vec<PackageRef>, UpstreamFailure>,
    sbom_exists: bool,
) -> (r: Result<Package, ApiError>)
    requires
        id.validated(),
    ensures
        r is Ok <==> (graph_vulns is Ok && feed_vulns is Ok && versions is Ok),
        r is Err ==> r == Err::<Package, ApiError>(ApiError::InternalError),
        r matches Ok(p) ==> {
            &&& opt_view(p.purl) == Some(id.canonical@)
            &&& opt_view(p.href) == Some(lookup_link(id.canonical@))
            &&& p.trusted == Some(trusted_by_rule(id.parts().1, id.parts().3))
            &&& versions matches Ok(vs) && p.trusted_versions == vs
            &&& graph_vulns matches Ok(g) && feed_vulns matches Ok(f)
                && p.vulnerabilities@ == g@ + f@
            &&& opt_view(p.sbom) == if sbom_exists {
                Some(sbom_link(id.canonical@))
            } else {
                None
            }
        },
{
    let graph_vulns = match graph_vulns {
        Ok(v) => v,
        Err(_) => return Err(ApiError::InternalError),
    };
    let feed_vulns = match feed_vulns {
        Ok(v) => v,
        Err(_) => return Err(ApiError::InternalError),
    };
    let trusted_versions = match versions {
        Ok(v) => v,
        Err(_) => return Err(ApiError::InternalError),
    };
    let sbom = if sbom_exists {
        Some(sbom_href(id.canonical.as_str()))
    } else {
        None
    };
    Ok(Package {
        purl: Some(id.canonical.clone()),
        href: Some(lookup_href(id.canonical.as_str())),
        trusted: Some(is_trusted(id)),
        trusted_versions,
        vulnerabilities: merge(graph_vulns, feed_vulns),
        sbom,
    })
}

/// The packages of the successful lookups, in the order they were asked for.
pub open spec fn successes(s: Seq<Result<Package, ApiError>>) -> Seq<Package>
    decreases s.len(),
{
    if s.len() == 0 {
        Seq::empty()
    } else {
        let rest = successes(s.skip(1));
        match s[0] {
            Ok(p) => seq![p] + rest,
            Err(_) => rest,
        }
    }
}

proof fn lemma_successes_empty(s: Seq<Result<Package, ApiError>>)
    ensures
        successes(s).len() == 0 <==> forall|i: int| 0 <= i < s.len() ==> #[trigger] s[i] is Err,
    decreases s.len(),
{
    if s.len() > 0 {
        lemma_successes_empty(s.skip(1));
        assert forall|i: int| 0 < i < s.len() implies #[trigger] s[i] == s.skip(1)[i - 1] by {}
        if successes(s).len() == 0 {
            assert forall|i: int| 0 <= i < s.len() implies #[trigger] s[i] is Err by {
                if i > 0 {
                    assert(s.skip(1)[i - 1] is Err);
                }
            }
        }
        if forall|i: int| 0 <= i < s.len() ==> #[trigger] s[i] is Err {
            assert(s[0] is Err);
            assert forall|i: int| 0 <= i < s.skip(1).len() implies #[trigger] s.skip(1)[i] is Err by {
                assert(s[i + 1] is Err);
            }
        }
    }
}

/// A batch lookup, given the outcome of the single lookup of each requested
/// package URL in order. Failed lookups are dropped. Where none succeeded the
/// batch fails, naming the first requested URL whatever the reason was, or
/// reporting a missing argument when nothing was requested.
pub fn query_package(purls: &Vec<String>, outcomes: Vec<Result<Package, ApiError>>) -> (r: Result<
    Vec<Package>,
    ApiError,
>)
    requires
        outcomes@.len() == purls@.len(),
    ensures
        r is Ok <==> exists|i: int| 0 <= i < outcomes@.len() && #[trigger] outcomes@[i] is Ok,
        r matches Ok(ps) ==> ps@ == successes(outcomes@),
        r matches Err(e) ==> if purls@.len() == 0 {
            e == ApiError::MissingQueryArgument
        } else {
            e matches ApiError::PackageNotFound { purl } && purl@ == purls@[0]@
        },
{
    let ghost all = outcomes@;
    let mut rest = outcomes;
    let mut found: Vec<Package> = Vec::new();
    while rest.len() > 0
        invariant
            found@ + successes(rest@) == successes(all),
        decreases rest.len(),
    {
        let ghost before = rest@;
        let o = rest.remove(0);
        assert(rest@ == before.skip(1));
        match o {
            Ok(p) => {
                found.push(p);
                assert(found@ + successes(rest@) =~= successes(all));
            },
            Err(_) => {},
        }
    }
    assert(found@ =~= successes(all));
    proof {
        lemma_successes_empty(all);
    }
    if found.len() == 0 {
        if purls.len() == 0 {
            Err(ApiError::MissingQueryArgument)
        } else {
            Err(ApiError::PackageNotFound { purl: purls[0].clone() })
        }
    } else {
        Ok(found)
    }
}

/// The outcome of a request for a package's bill of materials, given what
/// the registry found under the package URL (one that `validated_query`
/// let through).
pub fn found_sbom<D>(purl: &str, found: Option<D>) -> (r: Result<D, ApiError>)
    ensures
        found matches Some(d) ==> r == Ok::<D, ApiError>(d),
        found is None ==> (r matches Err(e) && e matches ApiError::PackageNotFound { purl: p }
            && p@ == purl@),
{
    match found {
        Some(d) => Ok(d),
        None => Err(ApiError::PackageNotFound { purl: purl.to_string() }),
    }
}

}
