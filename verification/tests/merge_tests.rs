use sample_scaffold::errors::MergeError;
use sample_scaffold::merge::merge_manifest_texts;

fn dep_str(text: &str, key: &str) -> Option<String> {
    let doc: toml_edit::DocumentMut = text.parse().unwrap();
    doc.as_table()
        .get("dependencies")
        .and_then(|d| d.get(key))
        .and_then(|i| i.as_str())
        .map(|s| s.to_owned())
}

fn package_name(text: &str) -> Option<String> {
    let doc: toml_edit::DocumentMut = text.parse().unwrap();
    doc.as_table()
        .get("package")
        .and_then(|p| p.get("name"))
        .and_then(|i| i.as_str())
        .map(|s| s.to_owned())
}

#[test]
fn scenario_destination_wins_union_otherwise() {
    let dst = "[package]\nname = \"mine\"\n\n[dependencies]\nserde = \"1.0\"\n";
    let src = "[package]\nname = \"example\"\n\n[dependencies]\nserde = \"2.0\"\nrand = \"0.8\"\n";
    let out = merge_manifest_texts(dst, src).unwrap();
    assert_eq!(dep_str(&out, "serde"), Some("1.0".to_owned()));
    assert_eq!(dep_str(&out, "rand"), Some("0.8".to_owned()));
    let doc: toml_edit::DocumentMut = out.parse().unwrap();
    let deps = doc.as_table().get("dependencies").unwrap().as_table().unwrap();
    assert_eq!(deps.len(), 2);
}

#[test]
fn scenario_no_destination_dependency_section() {
    let dst = "[package]\nname = \"mine\"\n";
    let src = "[package]\nname = \"example\"\n\n[dependencies]\ntokio = \"1\"\n";
    let out = merge_manifest_texts(dst, src).unwrap();
    assert_eq!(dep_str(&out, "tokio"), Some("1".to_owned()));
    let doc: toml_edit::DocumentMut = out.parse().unwrap();
    let deps = doc.as_table().get("dependencies").unwrap().as_table().unwrap();
    assert_eq!(deps.len(), 1);
}

#[test]
fn no_source_dependency_section_is_not_synthesized() {
    let dst = "[package]\nname = \"mine\"\n\n[dependencies]\nserde = \"1.0\"\n";
    let src = "[package]\nname = \"example\"\n";
    let out = merge_manifest_texts(dst, src).unwrap();
    let doc: toml_edit::DocumentMut = out.parse().unwrap();
    assert!(doc.as_table().get("dependencies").is_none());
}

#[test]
fn identity_name_comes_from_destination() {
    let dst = "[package]\nname = \"mine\"\nversion = \"0.9.9\"\n";
    let src = "[package]\nname = \"example\"\nversion = \"0.1.0\"\n";
    let out = merge_manifest_texts(dst, src).unwrap();
    assert_eq!(package_name(&out), Some("mine".to_owned()));
    // Every other identity field follows the source document.
    let doc: toml_edit::DocumentMut = out.parse().unwrap();
    let version = doc.as_table().get("package").unwrap().get("version").unwrap();
    assert_eq!(version.as_str(), Some("0.1.0"));
}

#[test]
fn identity_name_kept_when_destination_has_none() {
    let dst = "[dependencies]\nserde = \"1.0\"\n";
    let src = "[package]\nname = \"example\"\n";
    let out = merge_manifest_texts(dst, src).unwrap();
    assert_eq!(package_name(&out), Some("example".to_owned()));
}

#[test]
fn name_is_not_grafted_without_a_source_package_table() {
    let dst = "[package]\nname = \"mine\"\n";
    let src = "[dependencies]\nrand = \"0.8\"\n";
    let out = merge_manifest_texts(dst, src).unwrap();
    // There is no package table in the source to graft the name into, so
    // the merged document has none either.
    let doc: toml_edit::DocumentMut = out.parse().unwrap();
    assert!(doc.as_table().get("package").is_none());
}

#[test]
fn merging_identical_manifests_is_a_noop() {
    let text = "# a scaffolded project\n[package]\nname = \"mine\"\nversion = \"0.1.0\"\n\n[dependencies]\nserde = \"1.0\"\nrand = \"0.8\"\n\n[features]\ndefault = []\n";
    let out = merge_manifest_texts(text, text).unwrap();
    assert_eq!(out, text);
}

#[test]
fn sections_follow_the_source_document() {
    let dst = "[package]\nname = \"mine\"\n\n[profile.release]\nlto = true\n\n[dependencies]\nserde = \"1.0\"\n";
    let src = "[package]\nname = \"example\"\n\n[features]\nfancy = []\n\n[dependencies]\nserde = \"2.0\"\n";
    let out = merge_manifest_texts(dst, src).unwrap();
    let doc: toml_edit::DocumentMut = out.parse().unwrap();
    // A section only the destination carries does not survive: the merged
    // document is the source document with two fields reconciled.
    assert!(doc.as_table().get("profile").is_none());
    assert!(doc.as_table().get("features").is_some());
    assert_eq!(dep_str(&out, "serde"), Some("1.0".to_owned()));
}

#[test]
fn comments_and_layout_of_the_source_survive() {
    let dst = "[package]\nname = \"mine\"\n\n[dependencies]\nserde = \"1.0\"\n";
    let src = "# example manifest\n[package]\nname = \"example\" # will be replaced\n\n[dependencies]\nrand = \"0.8\" # kept as is\n";
    let out = merge_manifest_texts(dst, src).unwrap();
    assert!(out.starts_with("# example manifest\n"));
    assert!(out.contains("# kept as is"));
    assert_eq!(dep_str(&out, "serde"), Some("1.0".to_owned()));
    assert_eq!(dep_str(&out, "rand"), Some("0.8".to_owned()));
}

#[test]
fn unparseable_destination_is_an_error() {
    let out = merge_manifest_texts("not [valid toml", "[package]\nname = \"x\"\n");
    assert_eq!(out.unwrap_err(), MergeError::ManifestParseError);
}

#[test]
fn unparseable_source_is_an_error() {
    let out = merge_manifest_texts("[package]\nname = \"x\"\n", "also = not = valid");
    assert_eq!(out.unwrap_err(), MergeError::ManifestParseError);
}

#[test]
fn self_merge_is_a_noop_even_with_decorated_entries() {
    // Reconciliation replaces values in place, keeping each entry's key,
    // decor and position, so merging a manifest with an identical one
    // returns the very same bytes — comments on and above the reconciled
    // entries included.
    let text = "[package]\nname = \"mine\"\n\n[dependencies]\n# pinned on purpose\nserde = \"1.0\"\nrand = \"0.8\"  # trailing note\n";
    let out = merge_manifest_texts(text, text).unwrap();
    assert_eq!(out, text);
}

#[test]
fn an_overridden_entry_keeps_its_place_and_comments() {
    let dst = "[dependencies]\nserde = \"1.0\"\n";
    let src = "[package]\nname = \"example\"\n\n[dependencies]\n# pinned on purpose\nserde = \"2.0\"\nrand = \"0.8\"\n";
    let out = merge_manifest_texts(dst, src).unwrap();
    // The destination's value replaces the source's in place: the entry
    // stays first in the table and its comment survives.
    assert_eq!(
        out,
        "[package]\nname = \"example\"\n\n[dependencies]\n# pinned on purpose\nserde = \"1.0\"\nrand = \"0.8\"\n"
    );
}
