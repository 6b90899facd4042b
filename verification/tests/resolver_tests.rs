use sample_scaffold::errors::ResolutionError;
use sample_scaffold::resolver::{
    classify_reference, parse_vcs_revision, repository_url, resolve_record, select_package,
    PackageRecord, PackageReference,
};

fn record(name: &str, repository: Option<&str>) -> PackageRecord {
    PackageRecord {
        name: name.to_string(),
        repository: repository.map(|s| s.to_string()),
        manifest_path: format!("/registry/{}/Cargo.toml", name),
    }
}

#[test]
fn a_url_is_used_directly() {
    let r = classify_reference("https://github.com/someone/sometool".to_string());
    assert!(matches!(r, PackageReference::Url(u) if u == "https://github.com/someone/sometool"));
}

#[test]
fn a_bare_name_is_a_package_reference() {
    let r = classify_reference("serde".to_string());
    assert!(matches!(r, PackageReference::Package(p) if p == "serde"));
}

#[test]
fn exactly_one_match_is_selected() {
    let packages = vec![record("serde", None), record("rand", None)];
    let i = select_package(&packages, &"rand".to_string()).unwrap();
    assert_eq!(i, 1);
}

#[test]
fn no_match_is_package_not_found() {
    let packages = vec![record("serde", None)];
    let r = select_package(&packages, &"tokio".to_string());
    assert_eq!(r.unwrap_err(), ResolutionError::PackageNotFound);
}

#[test]
fn two_matches_are_ambiguous() {
    let packages = vec![record("serde", None), record("serde", None)];
    let r = select_package(&packages, &"serde".to_string());
    assert_eq!(r.unwrap_err(), ResolutionError::AmbiguousPackage);
}

#[test]
fn repository_url_gets_a_git_suffix() {
    let pkg = record("serde", Some("https://github.com/serde-rs/serde"));
    let url = repository_url(&pkg).unwrap();
    assert_eq!(url, "https://github.com/serde-rs/serde.git");
}

#[test]
fn missing_repository_is_an_error() {
    let pkg = record("serde", None);
    let r = repository_url(&pkg);
    assert_eq!(r.unwrap_err(), ResolutionError::MissingRepositoryMetadata);
}

#[test]
fn revision_is_read_from_the_vcs_info_document() {
    let text = "{\"git\":{\"sha1\":\"0123abcd\"},\"path_in_vcs\":\"\"}".to_string();
    let sha = parse_vcs_revision(&text).unwrap();
    assert_eq!(sha, "0123abcd");
}

#[test]
fn missing_revision_is_an_error() {
    let text = "{\"path_in_vcs\":\"\"}".to_string();
    let r = parse_vcs_revision(&text);
    assert_eq!(r.unwrap_err(), ResolutionError::MissingRevisionMetadata);
}

#[test]
fn unparseable_vcs_info_is_a_missing_revision() {
    let text = "not json at all".to_string();
    let r = parse_vcs_revision(&text);
    assert_eq!(r.unwrap_err(), ResolutionError::MissingRevisionMetadata);
}

#[test]
fn a_record_resolves_to_url_and_revision() {
    let pkg = record("sometool", Some("https://github.com/someone/sometool"));
    let text = "{\"git\":{\"sha1\":\"feedbeef\"}}".to_string();
    let (url, sha) = resolve_record(&pkg, &text).unwrap();
    assert_eq!(url, "https://github.com/someone/sometool.git");
    assert_eq!(sha, "feedbeef");
}

#[test]
fn missing_repository_is_reported_before_the_revision() {
    let pkg = record("sometool", None);
    let text = "{\"git\":{\"sha1\":\"feedbeef\"}}".to_string();
    let r = resolve_record(&pkg, &text);
    assert_eq!(r.unwrap_err(), ResolutionError::MissingRepositoryMetadata);
}
