use stof_cli::manifest::{Manifest, Registry, RegistryEntry};

fn entry(name: &str, url: &str, is_default: bool) -> RegistryEntry {
    RegistryEntry {
        name: name.to_string(),
        registry: Registry { url: Some(url.to_string()) },
        is_default,
    }
}

fn manifest_with(registries: Vec<RegistryEntry>) -> Manifest {
    Manifest {
        name: "@acme/tool".to_string(),
        dependencies: Vec::new(),
        registries,
        publish: Vec::new(),
        included: Vec::new(),
        excluded: Vec::new(),
    }
}

#[test]
fn no_default_picks_first() {
    let m = manifest_with(vec![
        entry("a", "http://a", false),
        entry("b", "http://b", false),
        entry("c", "http://c", false),
    ]);
    assert_eq!(stof_cli::manifest::resolve_registry(&m, None), Some(0));
}

#[test]
fn single_default_wins() {
    let m = manifest_with(vec![
        entry("a", "http://a", false),
        entry("b", "http://b", true),
        entry("c", "http://c", false),
    ]);
    assert_eq!(stof_cli::manifest::resolve_registry(&m, None), Some(1));
}

#[test]
fn last_default_wins() {
    let m = manifest_with(vec![
        entry("a", "http://a", false),
        entry("b", "http://b", true),
        entry("c", "http://c", true),
    ]);
    assert_eq!(stof_cli::manifest::resolve_registry(&m, None), Some(2));
}

#[test]
fn named_lookup_finds_exact_entry() {
    let m = manifest_with(vec![
        entry("a", "http://a", true),
        entry("alt", "http://alt", false),
    ]);
    assert_eq!(stof_cli::manifest::resolve_registry(&m, Some("alt")), Some(1));
}

#[test]
fn named_lookup_first_match_wins() {
    let m = manifest_with(vec![
        entry("alt", "http://first", false),
        entry("alt", "http://second", true),
    ]);
    assert_eq!(stof_cli::manifest::resolve_registry(&m, Some("alt")), Some(0));
}

#[test]
fn named_lookup_missing_is_none() {
    let m = manifest_with(vec![entry("a", "http://a", false)]);
    assert_eq!(stof_cli::manifest::resolve_registry(&m, Some("other")), None);
}

#[test]
fn empty_registries_resolve_to_none() {
    let m = manifest_with(Vec::new());
    assert_eq!(stof_cli::manifest::resolve_registry(&m, None), None);
}

#[test]
fn publishable_needs_name_and_targets() {
    let mut m = manifest_with(Vec::new());
    assert!(!stof_cli::manifest::check_publishable(&m));
    m.publish.push(Registry { url: Some("http://a".to_string()) });
    assert!(stof_cli::manifest::check_publishable(&m));
    m.name = String::new();
    assert!(!stof_cli::manifest::check_publishable(&m));
}
