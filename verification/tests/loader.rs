use std::io::Write;
use std::path::{Path, PathBuf};
use stempelkarten::error::{ErrorKind, RunError};
use stempelkarten::loader::{
    discover_volunteer_files, literal_directory, load_volunteers, search_pattern,
    search_validated, search_volunteer_files, sift_matches, Source,
};

fn description(first_name: &str, picture: &str) -> String {
    format!(
        "first_name = \"{first_name}\"\nlast_name = \"Doe\"\nbarcode = \"B-{first_name}\"\n\
         qualified = false\npicture = \"{picture}\"\ndeployment = []\nlicenses = []\n\
         qualifications = []\n"
    )
}

fn write_file(dir: &Path, stem: &str, suffix: &str, content: &str) -> PathBuf {
    let mut file = tempfile::Builder::new()
        .prefix(stem)
        .suffix(suffix)
        .rand_bytes(0)
        .disable_cleanup(true)
        .tempfile_in(dir)
        .unwrap();
    file.write_all(content.as_bytes()).unwrap();
    file.path().to_path_buf()
}

fn make_dir(parent: &Path, name: &str) -> PathBuf {
    tempfile::Builder::new()
        .prefix(name)
        .rand_bytes(0)
        .disable_cleanup(true)
        .tempdir_in(parent)
        .unwrap()
        .path()
        .to_path_buf()
}

fn source(path: &Path, text: String) -> Source {
    Source { path: path.to_path_buf(), contents: Ok(text) }
}

#[test]
fn files_are_found_at_any_depth() {
    let root = tempfile::tempdir().unwrap();
    let a = write_file(root.path(), "a", ".toml", "");
    let sub = make_dir(root.path(), "sub");
    let sub2 = make_dir(&sub, "sub2");
    let b = write_file(&sub2, "b", ".toml", "");
    write_file(&sub, "notes", ".txt", "");

    let discovery = discover_volunteer_files(root.path().to_str().unwrap()).unwrap();
    let mut files = discovery.files;
    files.sort();
    assert_eq!(files, vec![a, b]);
    assert!(discovery.warnings.is_empty());
}

#[test]
fn directory_without_description_files_has_none() {
    let root = tempfile::tempdir().unwrap();
    write_file(root.path(), "readme", ".md", "");
    let discovery = discover_volunteer_files(root.path().to_str().unwrap()).unwrap();
    assert!(discovery.files.is_empty());
    assert!(discovery.warnings.is_empty());
}

#[test]
fn directory_with_the_suffix_is_found_too() {
    let root = tempfile::tempdir().unwrap();
    let folder = make_dir(root.path(), "folder.toml");
    let discovery = search_volunteer_files(&root.path().to_path_buf()).unwrap();
    assert_eq!(discovery.files, vec![folder]);
}

#[test]
fn discovery_in_a_missing_directory_is_not_found() {
    let root = tempfile::tempdir().unwrap();
    let missing = root.path().join("nowhere");
    let error = discover_volunteer_files(missing.to_str().unwrap()).unwrap_err();
    assert_eq!(error.kind, ErrorKind::NotFound);
    assert_eq!(
        error.message,
        format!(
            "the file system does not contain the input directory '{}'",
            missing.display()
        )
    );
}

#[test]
fn discovery_in_a_file_is_an_invalid_target() {
    let root = tempfile::tempdir().unwrap();
    let file = write_file(root.path(), "a", ".toml", "");
    let error = discover_volunteer_files(file.to_str().unwrap()).unwrap_err();
    assert_eq!(error.kind, ErrorKind::InvalidTarget);
}

#[test]
fn discovery_without_a_directory_is_a_configuration_error() {
    let error = discover_volunteer_files("").unwrap_err();
    assert_eq!(error.kind, ErrorKind::Configuration);
    assert_eq!(
        error.context,
        vec![String::from(
            "could not construct absolute path from the given input directory"
        )]
    );
}

#[test]
fn directory_with_pattern_characters_is_taken_literally() {
    let root = tempfile::tempdir().unwrap();
    let bracketed = make_dir(root.path(), "v[1]");
    let plain = make_dir(root.path(), "v1");
    let wanted = write_file(&bracketed, "a", ".toml", "");
    write_file(&plain, "b", ".toml", "");

    let discovery = discover_volunteer_files(bracketed.to_str().unwrap()).unwrap();
    assert_eq!(discovery.files, vec![wanted]);
    assert!(discovery.warnings.is_empty());
}

#[test]
fn directory_with_a_lone_bracket_is_searched() {
    let root = tempfile::tempdir().unwrap();
    let odd = make_dir(root.path(), "odd[");
    let sub = make_dir(&odd, "sub*");
    let wanted = write_file(&sub, "a?", ".toml", "");
    let discovery = search_volunteer_files(&odd).unwrap();
    assert_eq!(discovery.files, vec![wanted]);
}

#[test]
fn directory_is_escaped() {
    assert_eq!(
        literal_directory(&PathBuf::from("/d/v[1]")),
        Some(PathBuf::from("/d/v[[]1[]]"))
    );
    assert_eq!(
        literal_directory(&PathBuf::from("/d/what?/*")),
        Some(PathBuf::from("/d/what[?]/[*]"))
    );
    assert_eq!(
        literal_directory(&PathBuf::from("/plain/dir")),
        Some(PathBuf::from("/plain/dir"))
    );
    assert_eq!(literal_directory(&PathBuf::new()), Some(PathBuf::new()));
}

#[test]
fn search_pattern_is_the_escaped_directory_and_the_suffix_at_any_depth() {
    assert_eq!(
        search_pattern(&PathBuf::from("/d/v[1]")),
        Some(String::from("/d/v[[]1[]]/**/*.toml"))
    );
    assert_eq!(
        search_pattern(&PathBuf::from("/data/volunteers")),
        Some(String::from("/data/volunteers/**/*.toml"))
    );
}

#[test]
fn failed_validation_is_handed_on() {
    let refused = RunError::new(ErrorKind::NotFound, String::from("no such directory"))
        .with_context("outer");
    let error = search_validated(Err(refused)).unwrap_err();
    assert_eq!(error.kind, ErrorKind::NotFound);
    assert_eq!(error.message, "no such directory");
    assert_eq!(error.context, vec![String::from("outer")]);
}

#[test]
fn validated_directory_is_searched() {
    let root = tempfile::tempdir().unwrap();
    let wanted = write_file(root.path(), "a", ".toml", "");
    let discovery = search_validated(Ok(root.path().to_path_buf())).unwrap();
    assert_eq!(discovery.files, vec![wanted]);
}

#[test]
fn matches_keep_their_order() {
    let entries = vec![
        Ok(PathBuf::from("/v/b.toml")),
        Ok(PathBuf::from("/v/a.toml")),
        Ok(PathBuf::from("/v/sub/c.toml")),
    ];
    let discovery = sift_matches(entries);
    assert_eq!(
        discovery.files,
        vec![
            PathBuf::from("/v/b.toml"),
            PathBuf::from("/v/a.toml"),
            PathBuf::from("/v/sub/c.toml"),
        ]
    );
    assert!(discovery.warnings.is_empty());
}

#[test]
fn no_matches_give_an_empty_discovery() {
    let discovery = sift_matches(Vec::new());
    assert!(discovery.files.is_empty());
    assert!(discovery.warnings.is_empty());
}

#[test]
fn empty_roster_is_no_error() {
    let pictures = tempfile::tempdir().unwrap();
    let volunteers = load_volunteers(Vec::new(), &pictures.path().to_path_buf()).unwrap();
    assert!(volunteers.is_empty());
}

#[test]
fn sources_are_loaded_in_their_order() {
    let root = tempfile::tempdir().unwrap();
    let pictures = make_dir(root.path(), "pictures");
    write_file(&pictures, "zoe", ".png", "");
    write_file(&pictures, "abe", ".png", "");
    let zoe = write_file(root.path(), "zoe", ".toml", "");
    let abe = write_file(root.path(), "abe", ".toml", "");

    let sources = vec![
        source(&zoe, description("Zoe", "zoe.png")),
        source(&abe, description("Abe", "abe.png")),
    ];
    let volunteers = load_volunteers(sources, &pictures).unwrap();
    assert_eq!(volunteers.len(), 2);
    assert_eq!(volunteers[0].first_name, "Zoe");
    assert_eq!(volunteers[1].first_name, "Abe");
}

#[test]
fn first_rejected_source_ends_the_run() {
    let root = tempfile::tempdir().unwrap();
    let pictures = make_dir(root.path(), "pictures");
    write_file(&pictures, "abe", ".png", "");
    let abe = write_file(root.path(), "abe", ".toml", "");
    let bea = write_file(root.path(), "bea", ".toml", "");
    let cy = write_file(root.path(), "cy", ".toml", "");

    let sources = vec![
        source(&abe, description("Abe", "abe.png")),
        source(&bea, description("Bea", "bea.png")),
        source(&cy, String::from("not a description")),
    ];
    let error = load_volunteers(sources, &pictures).unwrap_err();
    assert_eq!(error.kind, ErrorKind::NotFound);
    assert_eq!(
        error.message,
        format!(
            "the volunteer picture path does not exist '{}'",
            pictures.join("bea.png").display()
        )
    );
}

#[test]
fn invalid_description_ends_the_run() {
    let root = tempfile::tempdir().unwrap();
    let pictures = make_dir(root.path(), "pictures");
    let abe = write_file(root.path(), "abe", ".toml", "");
    let sources = vec![source(&abe, String::from("first_name = 3"))];
    let error = load_volunteers(sources, &pictures).unwrap_err();
    assert_eq!(error.kind, ErrorKind::Validation);
    assert!(error.message.contains(abe.to_str().unwrap()));
}

#[test]
fn unreadable_source_ends_the_run() {
    let root = tempfile::tempdir().unwrap();
    let abe = write_file(root.path(), "abe", ".toml", "");
    let sources = vec![Source { path: abe, contents: Err(String::from("interrupted")) }];
    let error = load_volunteers(sources, &root.path().to_path_buf()).unwrap_err();
    assert_eq!(error.kind, ErrorKind::Io);
    assert_eq!(error.message, "interrupted");
}

#[test]
fn vanished_source_ends_the_run() {
    let root = tempfile::tempdir().unwrap();
    let sources = vec![source(&root.path().join("gone.toml"), description("Abe", "abe.png"))];
    let error = load_volunteers(sources, &root.path().to_path_buf()).unwrap_err();
    assert_eq!(error.kind, ErrorKind::InvalidSource);
}
