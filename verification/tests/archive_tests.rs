use stof_cli::archive::{
    extraction_files, is_selected, normalize_archive_path, select_entries, ArchiveEntry,
};

fn file(path: &str, data: &[u8]) -> ArchiveEntry {
    ArchiveEntry { path: path.to_string(), data: data.to_vec(), is_dir: false }
}

fn dir(path: &str) -> ArchiveEntry {
    ArchiveEntry { path: path.to_string(), data: Vec::new(), is_dir: true }
}

fn pats(ps: &[&str]) -> Vec<String> {
    ps.iter().map(|p| p.to_string()).collect()
}

fn paths(entries: &[ArchiveEntry]) -> Vec<String> {
    entries.iter().map(|e| e.path.clone()).collect()
}

#[test]
fn exclude_beats_keep() {
    // a path matching both a keep and an exclude pattern stays out
    let keep = pats(&["\\.txt$"]);
    let drop = pats(&["^notes"]);
    assert!(!is_selected("notes.txt", &keep, &drop));
    let entries = vec![file("notes.txt", b"x"), file("readme.txt", b"y")];
    let out = select_entries(entries, &keep, &drop);
    assert_eq!(paths(&out), vec!["readme.txt".to_string()]);
}

#[test]
fn reserved_directory_never_archived() {
    let none: Vec<String> = Vec::new();
    let entries = vec![
        file("src/main.stof", b"a"),
        dir("__stof__"),
        file("__stof__/dep/pkg.stof", b"b"),
        file("nested/__stof__/x", b"c"),
    ];
    let out = select_entries(entries, &none, &none);
    assert_eq!(paths(&out), vec!["src/main.stof".to_string()]);
}

#[test]
fn keep_patterns_restrict_when_present() {
    let keep = pats(&["\\.stof$"]);
    let none: Vec<String> = Vec::new();
    let entries = vec![file("pkg.stof", b"a"), file("target/out.bin", b"b")];
    let out = select_entries(entries, &keep, &none);
    assert_eq!(paths(&out), vec!["pkg.stof".to_string()]);
}

#[test]
fn empty_keep_set_keeps_everything_unexcluded() {
    let none: Vec<String> = Vec::new();
    let drop = pats(&["secret"]);
    let entries = vec![file("a.txt", b"a"), file("secret.txt", b"b"), dir("docs")];
    let out = select_entries(entries, &none, &drop);
    assert_eq!(paths(&out), vec!["a.txt".to_string(), "docs".to_string()]);
}

#[test]
fn selection_preserves_contents_for_round_trip() {
    // archiving then extracting reproduces the original file set minus
    // the excluded paths and the reserved install directory
    let none: Vec<String> = Vec::new();
    let drop = pats(&["\\.log$"]);
    let entries = vec![
        file("pkg.stof", b"name"),
        file("run.log", b"noise"),
        file("__stof__/dep/pkg.stof", b"dep"),
        file("src/lib.stof", b"code"),
    ];
    let out = select_entries(entries, &none, &drop);
    assert_eq!(paths(&out), vec!["pkg.stof".to_string(), "src/lib.stof".to_string()]);
    assert_eq!(out[0].data, b"name".to_vec());
    assert_eq!(out[1].data, b"code".to_vec());
}

#[test]
fn extracting_twice_replaces_rather_than_accumulates() {
    // the same archive applied twice produces exactly the files of a
    // single application
    let once = extraction_files(vec![file("a.txt", b"1"), file("b.txt", b"2")]);
    let twice = extraction_files(vec![
        file("a.txt", b"1"),
        file("b.txt", b"2"),
        file("a.txt", b"1"),
        file("b.txt", b"2"),
    ]);
    assert_eq!(paths(&once), vec!["a.txt".to_string(), "b.txt".to_string()]);
    assert_eq!(paths(&twice), paths(&once));
    assert_eq!(twice[0].data, b"1".to_vec());
    assert_eq!(twice[1].data, b"2".to_vec());
}

#[test]
fn later_entry_for_a_path_wins() {
    let out = extraction_files(vec![file("a.txt", b"old"), file("a.txt", b"new")]);
    assert_eq!(out.len(), 1);
    assert_eq!(out[0].data, b"new".to_vec());
}

#[test]
fn round_trip_reproduces_the_kept_file_set() {
    // archive a directory, extract into an empty directory: the original
    // file set comes back, minus excluded paths and the reserved install
    // directory, with its contents intact
    let none: Vec<String> = Vec::new();
    let drop = pats(&["\\.log$"]);
    let entries = vec![
        file("pkg.stof", b"name"),
        dir("src"),
        file("src/lib.stof", b"code"),
        file("run.log", b"noise"),
        file("__stof__/dep/pkg.stof", b"dep"),
    ];
    let archive = select_entries(entries, &none, &drop);
    let extracted = extraction_files(archive);
    assert_eq!(paths(&extracted), vec!["pkg.stof".to_string(), "src/lib.stof".to_string()]);
    assert_eq!(extracted[0].data, b"name".to_vec());
    assert_eq!(extracted[1].data, b"code".to_vec());
}

#[test]
fn unparsable_pattern_matches_nothing() {
    let none: Vec<String> = Vec::new();
    let drop = pats(&["("]);
    let entries = vec![file("a(1).txt", b"a")];
    let out = select_entries(entries, &none, &drop);
    assert_eq!(paths(&out), vec!["a(1).txt".to_string()]);
}

#[test]
fn archive_path_gets_the_fixed_extension() {
    assert_eq!(normalize_archive_path("out"), "out.pkg");
    assert_eq!(normalize_archive_path("out.pkg"), "out.pkg");
    assert_eq!(normalize_archive_path("dir/out"), "dir/out.pkg");
}

#[test]
fn package_file_argument_gets_the_extension_when_dotless() {
    assert_eq!(stof_cli::archive::pkg_file_arg("out"), "out.pkg");
    assert_eq!(stof_cli::archive::pkg_file_arg("out.pkg"), "out.pkg");
    assert_eq!(stof_cli::archive::pkg_file_arg("v1.2"), "v1.2");
}

#[test]
fn file_stems() {
    assert_eq!(stof_cli::paths::file_stem("a/b/name.pkg"), "name");
    assert_eq!(stof_cli::paths::file_stem("name"), "name");
    assert_eq!(stof_cli::paths::file_stem(".hidden"), ".hidden");
    assert_eq!(stof_cli::paths::file_stem("v1.2.pkg"), "v1.2");
}

#[test]
fn default_unpack_directory_comes_from_the_stem() {
    assert_eq!(stof_cli::archive::unpkg_default_dir("dist/tool.pkg"), "./stof/tool");
    assert_eq!(stof_cli::archive::unpkg_default_dir("v1.2.pkg"), "./stof/v1_2");
    assert_eq!(stof_cli::archive::unpkg_default_dir("plain"), "./stof/plain");
}
