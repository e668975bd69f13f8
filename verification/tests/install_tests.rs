use stof_cli::installer::{
    accept_download, prepare_download, InstallError, InstallRequest, Installer,
};
use stof_cli::manifest::{Dependency, Manifest, Registry, RegistryEntry};

fn manifest(registries: Vec<RegistryEntry>) -> Manifest {
    Manifest {
        name: "@acme/tool".to_string(),
        dependencies: Vec::new(),
        registries,
        publish: Vec::new(),
        included: Vec::new(),
        excluded: Vec::new(),
    }
}

fn entry(name: &str, url: Option<&str>, is_default: bool) -> RegistryEntry {
    RegistryEntry {
        name: name.to_string(),
        registry: Registry { url: url.map(|u| u.to_string()) },
        is_default,
    }
}

#[test]
fn install_resolves_default_registry_and_builds_url() {
    // manifest {name: "@acme/tool", registries: {main: {url, default}}};
    // installing "@acme/base" with no explicit registry
    let root = manifest(vec![entry("main", Some("https://reg.example.com"), true)]);
    let req = InstallRequest { name: "@acme/base".to_string(), registry: None };
    let plan = prepare_download(&root, &req, &None, &None).unwrap();
    assert_eq!(plan.url, "https://reg.example.com/registry/acme/base");
    assert_eq!(plan.dest, "__stof__/acme/base");
    assert_eq!(plan.auth, None);
}

#[test]
fn dependency_with_registry_name_resolves_that_registry() {
    // dependency entry {name: "@x/y", registry: "alt"} resolves "alt",
    // not the default
    let root = manifest(vec![
        entry("main", Some("https://main.example.com"), true),
        entry("alt", Some("https://alt.example.com"), false),
    ]);
    let mut installer = Installer::new("@acme/tool", None);
    installer.pop_next().unwrap();
    installer.push_dependencies(vec![Dependency {
        name: "@x/y".to_string(),
        registry: Some("alt".to_string()),
    }]);
    let req = installer.pop_next().unwrap();
    assert_eq!(req.name, "@x/y");
    assert_eq!(req.registry.as_deref(), Some("alt"));
    let plan = prepare_download(&root, &req, &None, &None).unwrap();
    assert_eq!(plan.url, "https://alt.example.com/registry/x/y");
}

#[test]
fn missing_registry_reports_not_found() {
    let root = manifest(Vec::new());
    let req = InstallRequest { name: "@a/b".to_string(), registry: None };
    assert_eq!(
        prepare_download(&root, &req, &None, &None).unwrap_err(),
        InstallError::RegistryNotFound
    );
    let root = manifest(vec![entry("main", Some("https://m"), false)]);
    let req = InstallRequest { name: "@a/b".to_string(), registry: Some("alt".to_string()) };
    assert_eq!(
        prepare_download(&root, &req, &None, &None).unwrap_err(),
        InstallError::RegistryNotFound
    );
}

#[test]
fn registry_without_url_reports_url_missing() {
    let root = manifest(vec![entry("main", None, true)]);
    let req = InstallRequest { name: "@a/b".to_string(), registry: None };
    assert_eq!(
        prepare_download(&root, &req, &None, &None).unwrap_err(),
        InstallError::RegistryUrlMissing
    );
}

#[test]
fn credentials_attach_only_when_complete() {
    let root = manifest(vec![entry("main", Some("https://m"), true)]);
    let req = InstallRequest { name: "@a/b".to_string(), registry: None };
    let user = Some("u".to_string());
    let pass = Some("p".to_string());
    let plan = prepare_download(&root, &req, &user, &pass).unwrap();
    assert_eq!(plan.auth.as_deref(), Some("Basic dTpw"));
    let plan = prepare_download(&root, &req, &user, &None).unwrap();
    assert_eq!(plan.auth, None);
    let plan = prepare_download(&root, &req, &None, &pass).unwrap();
    assert_eq!(plan.auth, None);
}

#[test]
fn worklist_visits_each_package_once() {
    let mut installer = Installer::new("@acme/base", None);
    let first = installer.pop_next().unwrap();
    assert_eq!(first.name, "@acme/base");
    assert!(installer.begin(&first.name));
    // the installed package depends on itself through a cycle
    installer.push_dependencies(vec![Dependency {
        name: "@acme/base".to_string(),
        registry: None,
    }]);
    let again = installer.pop_next().unwrap();
    assert_eq!(again.name, "@acme/base");
    assert!(!installer.begin(&again.name));
    assert!(installer.pop_next().is_none());
}

#[test]
fn visited_set_keys_by_stripped_name() {
    let mut installer = Installer::new("@acme/base", None);
    installer.pop_next().unwrap();
    assert!(installer.begin("@acme/base"));
    assert!(!installer.begin("acme/base"));
}

#[test]
fn dependencies_install_in_declaration_order() {
    let mut installer = Installer::new("@acme/tool", None);
    installer.pop_next().unwrap();
    installer.push_dependencies(vec![
        Dependency { name: "@one".to_string(), registry: None },
        Dependency { name: "@two".to_string(), registry: Some("alt".to_string()) },
        Dependency { name: "@three".to_string(), registry: None },
    ]);
    assert_eq!(installer.pop_next().unwrap().name, "@one");
    assert_eq!(installer.pop_next().unwrap().name, "@two");
    assert_eq!(installer.pop_next().unwrap().name, "@three");
    assert!(installer.pop_next().is_none());
}

#[test]
fn reinstall_produces_the_same_download_plan() {
    // a second install of the same package resolves to the same download
    // and the same destination directory, which is replaced wholesale:
    // the resulting contents match a single install
    let root = manifest(vec![entry("main", Some("https://reg.example.com"), true)]);
    let req = InstallRequest { name: "@acme/base".to_string(), registry: None };
    let first = prepare_download(&root, &req, &None, &None).unwrap();
    let second = prepare_download(&root, &req, &None, &None).unwrap();
    assert_eq!(first.url, second.url);
    assert_eq!(first.dest, second.dest);
    assert_eq!(first.auth, second.auth);
}

#[test]
fn download_outcomes_are_judged() {
    assert!(accept_download(200, &vec![1u8]).is_ok());
    assert!(accept_download(299, &vec![1u8]).is_ok());
    assert_eq!(accept_download(404, &vec![1u8]).unwrap_err(), InstallError::DownloadFailed);
    assert_eq!(accept_download(500, &Vec::new()).unwrap_err(), InstallError::DownloadFailed);
    assert_eq!(accept_download(200, &Vec::new()).unwrap_err(), InstallError::EmptyResponse);
}
