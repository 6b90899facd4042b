use sample_scaffold::catalog::ExampleCatalog;
use sample_scaffold::errors::CatalogError;

fn names(list: &[&str]) -> Vec<String> {
    list.iter().map(|s| s.to_string()).collect()
}

#[test]
fn catalog_lists_every_entry_and_resolves_each() {
    let found = names(&["hello", "echo-server", "custom_keys"]);
    let catalog = ExampleCatalog::new(true, found.clone()).unwrap();
    assert_eq!(catalog.len(), 3);
    assert_eq!(catalog.entries(), &found);
    let root = "/tmp/checkout".to_string();
    for name in &found {
        let path = catalog.resolve_choice(&root, name).unwrap();
        assert_eq!(path, format!("/tmp/checkout/examples/{}", name));
    }
}

#[test]
fn missing_examples_directory_is_an_error() {
    let r = ExampleCatalog::new(false, Vec::new());
    assert_eq!(r.unwrap_err(), CatalogError::NoExamplesDirectory);
}

#[test]
fn unknown_selection_is_an_error() {
    let catalog = ExampleCatalog::new(true, names(&["hello", "echo-server"])).unwrap();
    let root = "/tmp/checkout".to_string();
    let r = catalog.resolve_choice(&root, &"does-not-exist".to_string());
    assert_eq!(r.unwrap_err(), CatalogError::ExampleNotFound);
}

#[test]
fn empty_catalog_resolves_nothing() {
    let catalog = ExampleCatalog::new(true, Vec::new()).unwrap();
    assert_eq!(catalog.len(), 0);
    let root = "/tmp/checkout".to_string();
    let r = catalog.resolve_choice(&root, &"anything".to_string());
    assert_eq!(r.unwrap_err(), CatalogError::ExampleNotFound);
}
