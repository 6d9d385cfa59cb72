use trusted_content::batch::PurlBatch;
use trusted_content::error::ApiError;
use trusted_content::model::{Package, PackageDependencies, PackageRef, UpstreamFailure};
use trusted_content::package::{
    build_package, found_sbom, from_upstream, lookup_href, query_package, required_purl,
    sbom_href, validated_query,
};
use trusted_content::purl::{parse, PackageId};
use trusted_content::server::Server;
use trusted_content::trust::{contains_substring, is_trusted};
use trusted_content::vuln::{merge, Vulnerability};

fn vuln(id: &str) -> Vulnerability {
    Vulnerability {
        id: id.to_string(),
        summary: format!("summary of {}", id),
        severity: Some("high".to_string()),
        advisory: None,
    }
}

fn version_ref(purl: &str) -> PackageRef {
    PackageRef {
        purl: purl.to_string(),
        href: lookup_href(purl),
        trusted: Some(true),
        sbom: None,
    }
}

fn lookup(purl: &str, sbom_exists: bool) -> Result<Package, ApiError> {
    let id = parse(purl)?;
    build_package(
        &id,
        Ok(vec![vuln("CVE-1")]),
        Ok(vec![vuln("SNYK-1")]),
        Ok(vec![]),
        sbom_exists,
    )
}

#[test]
fn parse_splits_a_package_url() {
    let id = parse("pkg:rpm/redhat/openssl@1.1.1k-7.el8_9").unwrap();
    assert_eq!(id.ty, "rpm");
    assert_eq!(id.namespace.as_deref(), Some("redhat"));
    assert_eq!(id.name, "openssl");
    assert_eq!(id.version.as_deref(), Some("1.1.1k-7.el8_9"));
    assert_eq!(id.canonical, "pkg:rpm/redhat/openssl@1.1.1k-7.el8_9");
}

#[test]
fn parse_without_namespace_or_version() {
    let id = parse("pkg:npm/lodash").unwrap();
    assert_eq!(id.namespace, None);
    assert_eq!(id.version, None);
    assert_eq!(id.canonical, "pkg:npm/lodash");
}

#[test]
fn parse_rejects_with_the_input() {
    for bad in ["not-a-purl", "pkg:invalid", "http:npm/lodash", ""] {
        assert_eq!(
            parse(bad).unwrap_err(),
            ApiError::InvalidPackageUrl { purl: bad.to_string() }
        );
    }
}

#[test]
fn trusted_by_namespace_alone() {
    let id = parse("pkg:rpm/redhat/openssl@1.1.1k-7.el8_9").unwrap();
    assert!(is_trusted(&id));
}

#[test]
fn trusted_by_version() {
    let id = parse("pkg:maven/io.vertx/vertx-web@4.3.4.redhat-00007").unwrap();
    assert!(is_trusted(&id));
}

#[test]
fn untrusted_cases() {
    for purl in [
        "pkg:npm/lodash@4.17.21",
        "pkg:npm/lodash",
        "pkg:maven/redhatx/lib@1.0",
        "pkg:maven/io.vertx/vertx-web@4.3.4.RedHat-00007",
    ] {
        assert!(!is_trusted(&parse(purl).unwrap()), "{}", purl);
    }
    let id = PackageId {
        ty: "rpm".to_string(),
        namespace: Some("Redhat".to_string()),
        name: "x".to_string(),
        version: None,
        canonical: "pkg:rpm/Redhat/x".to_string(),
    };
    assert!(!is_trusted(&id));
}

#[test]
fn substring_search() {
    assert!(contains_substring("4.3.4.redhat-00007", "redhat"));
    assert!(contains_substring("redhat", "redhat"));
    assert!(contains_substring("abc", ""));
    assert!(!contains_substring("redha", "redhat"));
    assert!(!contains_substring("rxedhat", "redhat"));
    assert!(!contains_substring("", "a"));
}

#[test]
fn merge_keeps_source_order() {
    let m = merge(vec![vuln("a"), vuln("b")], vec![vuln("c"), vuln("a")]);
    let ids: Vec<&str> = m.iter().map(|v| v.id.as_str()).collect();
    assert_eq!(ids, vec!["a", "b", "c", "a"]);
    assert_eq!(merge(vec![], vec![vuln("x")]), vec![vuln("x")]);
    assert_eq!(merge(vec![vuln("x")], vec![]), vec![vuln("x")]);
    assert!(merge(vec![], vec![]).is_empty());
}

#[test]
fn error_status_and_message() {
    let missing = ApiError::MissingQueryArgument;
    let not_found = ApiError::PackageNotFound { purl: "pkg:npm/a".to_string() };
    let invalid = ApiError::InvalidPackageUrl { purl: "zzz".to_string() };
    let internal = ApiError::InternalError;
    assert_eq!(missing.status_code(), 400);
    assert_eq!(not_found.status_code(), 404);
    assert_eq!(invalid.status_code(), 400);
    assert_eq!(internal.status_code(), 500);
    assert_eq!(missing.message(), "No query argument was specified");
    assert_eq!(not_found.message(), "Package pkg:npm/a was not found");
    assert_eq!(invalid.message(), "zzz is not a valid package URL");
    assert_eq!(internal.message(), "Error processing error internally");
}

#[test]
fn links_are_url_encoded() {
    assert_eq!(
        lookup_href("pkg:npm/lodash@4.17.21"),
        "/api/package?purl=pkg%3Anpm%2Flodash%404.17.21"
    );
    assert_eq!(
        sbom_href("pkg:npm/lodash@4.17.21"),
        "/api/package/sbom?purl=pkg%3Anpm%2Flodash%404.17.21"
    );
}

#[test]
fn package_without_sbom() {
    let p = lookup("pkg:npm/lodash@4.17.21", false).unwrap();
    assert_eq!(p.sbom, None);
    assert_eq!(p.purl.as_deref(), Some("pkg:npm/lodash@4.17.21"));
    assert_eq!(
        p.href.as_deref(),
        Some("/api/package?purl=pkg%3Anpm%2Flodash%404.17.21")
    );
    assert_eq!(p.trusted, Some(false));
}

#[test]
fn package_with_sbom() {
    let p = lookup("pkg:rpm/redhat/openssl@1.1.1k-7.el8_9", true).unwrap();
    let link = p.sbom.unwrap();
    assert!(link.contains("pkg%3Arpm%2Fredhat%2Fopenssl%401.1.1k-7.el8_9"));
    assert_eq!(
        link,
        "/api/package/sbom?purl=pkg%3Arpm%2Fredhat%2Fopenssl%401.1.1k-7.el8_9"
    );
    assert_eq!(p.trusted, Some(true));
}

#[test]
fn package_vulnerabilities_graph_first() {
    let id = parse("pkg:npm/lodash@4.17.21").unwrap();
    let versions = vec![version_ref("pkg:npm/lodash@4.17.20")];
    let p = build_package(
        &id,
        Ok(vec![vuln("g1"), vuln("g2")]),
        Ok(vec![vuln("s1")]),
        Ok(versions.clone()),
        false,
    )
    .unwrap();
    assert_eq!(p.vulnerabilities, vec![vuln("g1"), vuln("g2"), vuln("s1")]);
    assert_eq!(p.trusted_versions, versions);
}

#[test]
fn package_fails_on_any_collaborator_failure() {
    let id = parse("pkg:npm/lodash@4.17.21").unwrap();
    let r1 = build_package(&id, Err(UpstreamFailure), Ok(vec![]), Ok(vec![]), true);
    let r2 = build_package(&id, Ok(vec![]), Err(UpstreamFailure), Ok(vec![]), true);
    let r3 = build_package(&id, Ok(vec![]), Ok(vec![]), Err(UpstreamFailure), true);
    for r in [r1, r2, r3] {
        assert_eq!(r.unwrap_err(), ApiError::InternalError);
    }
}

#[test]
fn batch_drops_invalid_entries() {
    let purls = vec!["pkg:invalid".to_string(), "pkg:npm/lodash@4.17.21".to_string()];
    let outcomes: Vec<Result<Package, ApiError>> =
        purls.iter().map(|p| lookup(p, false)).collect();
    let found = query_package(&purls, outcomes).unwrap();
    assert_eq!(found.len(), 1);
    assert_eq!(found[0].purl.as_deref(), Some("pkg:npm/lodash@4.17.21"));
}

#[test]
fn batch_that_fails_names_first_purl() {
    let purls = vec!["pkg:invalid".to_string(), "also-bad".to_string()];
    let outcomes: Vec<Result<Package, ApiError>> =
        purls.iter().map(|p| lookup(p, false)).collect();
    assert_eq!(
        query_package(&purls, outcomes).unwrap_err(),
        ApiError::PackageNotFound { purl: "pkg:invalid".to_string() }
    );
    let purls = vec!["pkg:npm/a@1".to_string(), "pkg:npm/b@2".to_string()];
    let outcomes = vec![Err(ApiError::InternalError), Err(ApiError::InternalError)];
    assert_eq!(
        query_package(&purls, outcomes).unwrap_err(),
        ApiError::PackageNotFound { purl: "pkg:npm/a@1".to_string() }
    );
}

#[test]
fn empty_batch_is_a_missing_argument() {
    assert_eq!(
        query_package(&vec![], vec![]).unwrap_err(),
        ApiError::MissingQueryArgument
    );
}

#[test]
fn versions_batch_keeps_last_answer() {
    let a = "pkg:npm/a@1".to_string();
    let b = "pkg:npm/b@2".to_string();
    let answer_a = vec![version_ref("pkg:npm/a@0")];
    let answer_b = vec![version_ref("pkg:npm/b@1"), version_ref("pkg:npm/b@0")];
    let mut batch = PurlBatch::new(vec![a.clone(), b.clone()]);
    assert_eq!(batch.next_query(), Some(a));
    batch.deliver(Ok(answer_a));
    assert_eq!(batch.next_query(), Some(b));
    batch.deliver(Ok(answer_b.clone()));
    assert_eq!(batch.next_query(), None);
    let single = from_upstream(Ok::<Vec<PackageRef>, UpstreamFailure>(answer_b.clone()));
    assert_eq!(batch.finish_last(), single);
    assert_eq!(single, Ok(answer_b));
}

#[test]
fn versions_batch_of_nothing_is_empty() {
    let mut batch: PurlBatch<Vec<PackageRef>> = PurlBatch::new(vec![]);
    assert_eq!(batch.next_query(), None);
    assert_eq!(batch.finish_last(), Ok(vec![]));
}

#[test]
fn dependency_batch_stops_at_first_invalid() {
    let a = "pkg:npm/a@1".to_string();
    let b = "pkg:npm/b@2".to_string();
    let mut batch = PurlBatch::new(vec![a.clone(), "not-a-purl".to_string(), b]);
    let mut asked = Vec::new();
    while let Some(p) = batch.next_query() {
        asked.push(p.clone());
        batch.deliver(Ok(PackageDependencies { purl: p, packages: vec![] }));
    }
    assert_eq!(asked, vec![a]);
    assert_eq!(batch.next_query(), None);
    assert_eq!(
        batch.finish().unwrap_err(),
        ApiError::InvalidPackageUrl { purl: "not-a-purl".to_string() }
    );
}

#[test]
fn dependency_batch_keeps_every_answer() {
    let purls = vec!["pkg:npm/a@1".to_string(), "pkg:npm/b@2".to_string()];
    let mut batch = PurlBatch::new(purls.clone());
    while let Some(p) = batch.next_query() {
        let packages = vec![format!("{}-dep", p)];
        batch.deliver(Ok(PackageDependencies { purl: p, packages }));
    }
    let records = batch.finish().unwrap();
    assert_eq!(records.len(), 2);
    assert_eq!(records[0].purl, purls[0]);
    assert_eq!(records[1].packages, vec!["pkg:npm/b@2-dep".to_string()]);
}

#[test]
fn dependency_batch_stops_on_collaborator_failure() {
    let mut batch = PurlBatch::new(vec!["pkg:npm/a@1".to_string(), "pkg:npm/b@2".to_string()]);
    assert!(batch.next_query().is_some());
    batch.deliver(Err::<PackageDependencies, UpstreamFailure>(UpstreamFailure));
    assert_eq!(batch.next_query(), None);
    assert_eq!(batch.finish().unwrap_err(), ApiError::InternalError);
}

#[test]
fn collaborator_answers_and_arguments() {
    assert_eq!(from_upstream(Ok::<u8, UpstreamFailure>(3)), Ok(3));
    assert_eq!(
        from_upstream(Err::<u8, UpstreamFailure>(UpstreamFailure)),
        Err(ApiError::InternalError)
    );
    assert_eq!(required_purl(Some("p".to_string())), Ok("p".to_string()));
    assert_eq!(required_purl(None), Err(ApiError::MissingQueryArgument));
    assert_eq!(found_sbom("pkg:npm/a", Some(7)), Ok(7));
    assert_eq!(
        found_sbom::<u8>("pkg:npm/a", None),
        Err(ApiError::PackageNotFound { purl: "pkg:npm/a".to_string() })
    );
}

#[test]
fn server_keeps_its_address() {
    let s = Server::new("0.0.0.0".to_string(), 8080);
    assert_eq!(s.bind, "0.0.0.0");
    assert_eq!(s.port, 8080);
}

#[test]
fn sbom_request_is_validated_first() {
    assert_eq!(validated_query(None), Err(ApiError::MissingQueryArgument));
    assert_eq!(
        validated_query(Some("not-a-purl".to_string())),
        Err(ApiError::InvalidPackageUrl { purl: "not-a-purl".to_string() })
    );
    assert_eq!(
        validated_query(Some("pkg:npm/lodash@4.17.21".to_string())),
        Ok("pkg:npm/lodash@4.17.21".to_string())
    );
}

#[test]
fn links_encode_utf8_bytes() {
    assert_eq!(lookup_href("a \u{e9}~-_.Z9"), "/api/package?purl=a%20%C3%A9~-_.Z9");
}
