use std::io::Write;
use std::path::{Path, PathBuf};
use stempelkarten::error::ErrorKind;
use stempelkarten::volunteers::{picture_verdict, source_verdict, Volunteer};

const ADA: &str = r#"
first_name = "Ada"
last_name = "Lovelace"
barcode = "V-0001"
qualified = true
picture = "ada.png"
deployment = ["A", "B", "C"]
licenses = []
qualifications = ["first aid"]
"#;

fn write_file(dir: &Path, stem: &str, suffix: &str, content: &str) -> PathBuf {
    let mut file = tempfile::Builder::new()
        .prefix(stem)
        .suffix(suffix)
        .rand_bytes(0)
        .disable_cleanup(true)
        .tempfile_in(dir)
        .unwrap();
    file.write_all(content.as_bytes()).unwrap();
    file.path().to_path_buf()
}

fn make_dir(parent: &Path, name: &str) -> PathBuf {
    tempfile::Builder::new()
        .prefix(name)
        .rand_bytes(0)
        .disable_cleanup(true)
        .tempdir_in(parent)
        .unwrap()
        .path()
        .to_path_buf()
}

fn ada() -> Volunteer {
    Volunteer::from_contents(&PathBuf::from("ada.toml"), Ok(String::from(ADA))).unwrap()
}

#[test]
fn contents_of_a_valid_file_give_the_record() {
    let volunteer = ada();
    assert_eq!(volunteer.first_name, "Ada");
    assert_eq!(volunteer.last_name, "Lovelace");
    assert_eq!(volunteer.barcode, "V-0001");
    assert!(volunteer.qualified);
    assert_eq!(volunteer.picture, "ada.png");
    assert_eq!(volunteer.deployment, vec!["A", "B", "C"]);
    assert!(volunteer.licenses.is_empty());
    assert_eq!(volunteer.qualifications, vec!["first aid"]);
    assert_eq!(volunteer.hide_indicator, None);
}

#[test]
fn hide_indicator_of_the_file_is_kept() {
    let text = format!("{ADA}hide_indicator = true\n");
    let volunteer = Volunteer::from_contents(&PathBuf::from("ada.toml"), Ok(text)).unwrap();
    assert_eq!(volunteer.hide_indicator, Some(true));
    let text = format!("{ADA}hide_indicator = false\n");
    let volunteer = Volunteer::from_contents(&PathBuf::from("ada.toml"), Ok(text)).unwrap();
    assert_eq!(volunteer.hide_indicator, Some(false));
}

#[test]
fn missing_barcode_is_a_validation_error_that_names_the_file() {
    let text = ADA.replace("barcode = \"V-0001\"\n", "");
    let path = PathBuf::from("/data/volunteers/ada.toml");
    let error = Volunteer::from_contents(&path, Ok(text)).unwrap_err();
    assert_eq!(error.kind, ErrorKind::Validation);
    assert_eq!(
        error.message,
        "invalid volunteer description file '/data/volunteers/ada.toml'\nmissing field `barcode`"
    );
    assert!(error.context.is_empty());
}

#[test]
fn wrong_type_is_a_validation_error() {
    let text = ADA.replace("qualified = true", "qualified = \"yes\"");
    let path = PathBuf::from("ada.toml");
    let error = Volunteer::from_contents(&path, Ok(text)).unwrap_err();
    assert_eq!(error.kind, ErrorKind::Validation);
    assert_eq!(
        error.message,
        "invalid volunteer description file 'ada.toml'\ninvalid type for field `qualified`, expected a boolean"
    );
}

#[test]
fn malformed_text_is_a_validation_error_that_names_the_file() {
    let path = PathBuf::from("/data/volunteers/broken.toml");
    let error =
        Volunteer::from_contents(&path, Ok(String::from("first_name = \"Ada"))).unwrap_err();
    assert_eq!(error.kind, ErrorKind::Validation);
    assert!(error
        .message
        .starts_with("invalid volunteer description file '/data/volunteers/broken.toml'\n"));
    assert!(error.message.len() > "invalid volunteer description file '/data/volunteers/broken.toml'\n".len());
}

#[test]
fn empty_text_misses_the_first_field() {
    let error = Volunteer::from_contents(&PathBuf::from("e.toml"), Ok(String::new())).unwrap_err();
    assert_eq!(error.kind, ErrorKind::Validation);
    assert_eq!(
        error.message,
        "invalid volunteer description file 'e.toml'\nmissing field `first_name`"
    );
}

#[test]
fn unreadable_file_is_an_io_error() {
    let error = Volunteer::from_contents(
        &PathBuf::from("ada.toml"),
        Err(String::from("permission denied")),
    )
    .unwrap_err();
    assert_eq!(error.kind, ErrorKind::Io);
    assert_eq!(error.message, "permission denied");
    assert_eq!(
        error.context,
        vec![String::from("could not read volunteer description file")]
    );
    assert_eq!(
        error.report(),
        "could not read volunteer description file: permission denied"
    );
}

#[test]
fn file_on_disk_is_loaded() {
    let root = tempfile::tempdir().unwrap();
    let path = write_file(root.path(), "ada", ".toml", ADA);
    let volunteer = Volunteer::from_file(&path, Ok(String::from(ADA))).unwrap();
    assert_eq!(volunteer.barcode, "V-0001");
}

#[test]
fn missing_source_is_invalid() {
    let root = tempfile::tempdir().unwrap();
    let path = root.path().join("ghost.toml");
    let error = Volunteer::from_file(&path, Ok(String::from(ADA))).unwrap_err();
    assert_eq!(error.kind, ErrorKind::InvalidSource);
    assert_eq!(error.message, "volunteer description path does not exist");
    let error = Volunteer::ensure_volunteer_file_exists(&path).unwrap_err();
    assert_eq!(error.kind, ErrorKind::InvalidSource);
}

#[test]
fn directory_as_source_is_invalid() {
    let root = tempfile::tempdir().unwrap();
    let path = make_dir(root.path(), "folder.toml");
    let error = Volunteer::from_file(&path, Err(String::from("is a directory"))).unwrap_err();
    assert_eq!(error.kind, ErrorKind::InvalidSource);
    assert_eq!(error.message, "volunteer description path is not a file");
}

#[test]
fn existing_source_passes() {
    let root = tempfile::tempdir().unwrap();
    let path = write_file(root.path(), "ada", ".toml", ADA);
    assert!(Volunteer::ensure_volunteer_file_exists(&path).is_ok());
}

#[test]
fn source_verdicts() {
    assert!(source_verdict(true, true).is_ok());
    let error = source_verdict(false, false).unwrap_err();
    assert_eq!(error.kind, ErrorKind::InvalidSource);
    assert_eq!(error.message, "volunteer description path does not exist");
    let error = source_verdict(false, true).unwrap_err();
    assert_eq!(error.message, "volunteer description path does not exist");
    let error = source_verdict(true, false).unwrap_err();
    assert_eq!(error.kind, ErrorKind::InvalidSource);
    assert_eq!(error.message, "volunteer description path is not a file");
}

#[test]
fn existing_picture_passes() {
    let root = tempfile::tempdir().unwrap();
    write_file(root.path(), "ada", ".png", "not really a picture");
    assert!(ada().ensure_picture_exists(&root.path().to_path_buf()).is_ok());
}

#[test]
fn missing_picture_is_not_found_at_the_computed_path() {
    let root = tempfile::tempdir().unwrap();
    let error = ada()
        .ensure_picture_exists(&root.path().to_path_buf())
        .unwrap_err();
    assert_eq!(error.kind, ErrorKind::NotFound);
    assert_eq!(
        error.message,
        format!(
            "the volunteer picture path does not exist '{}'",
            root.path().join("ada.png").display()
        )
    );
}

#[test]
fn picture_that_is_a_directory_is_an_invalid_target() {
    let root = tempfile::tempdir().unwrap();
    make_dir(root.path(), "ada.png");
    let error = ada()
        .ensure_picture_exists(&root.path().to_path_buf())
        .unwrap_err();
    assert_eq!(error.kind, ErrorKind::InvalidTarget);
    assert_eq!(
        error.message,
        format!(
            "the volunteer picture is not a file '{}'",
            root.path().join("ada.png").display()
        )
    );
}

#[test]
fn picture_verdicts() {
    let path = PathBuf::from("/pictures/ada.png");
    assert!(picture_verdict(&path, true, true).is_ok());
    let error = picture_verdict(&path, false, false).unwrap_err();
    assert_eq!(error.kind, ErrorKind::NotFound);
    assert_eq!(
        error.message,
        "the volunteer picture path does not exist '/pictures/ada.png'"
    );
    let error = picture_verdict(&path, true, false).unwrap_err();
    assert_eq!(error.kind, ErrorKind::InvalidTarget);
    assert_eq!(
        error.message,
        "the volunteer picture is not a file '/pictures/ada.png'"
    );
}

#[test]
fn path_is_judged_before_the_contents() {
    let path = PathBuf::from("/data/volunteers/ada.toml");
    let error = Volunteer::from_checked_file(
        &path,
        false,
        false,
        Err(String::from("no such file or directory")),
    )
    .unwrap_err();
    assert_eq!(error.kind, ErrorKind::InvalidSource);
    assert_eq!(error.message, "volunteer description path does not exist");
    assert!(error.context.is_empty());

    let error = Volunteer::from_checked_file(
        &path,
        true,
        false,
        Err(String::from("is a directory")),
    )
    .unwrap_err();
    assert_eq!(error.kind, ErrorKind::InvalidSource);
    assert_eq!(error.message, "volunteer description path is not a file");

    let error =
        Volunteer::from_checked_file(&path, false, true, Ok(String::from("not a description")))
            .unwrap_err();
    assert_eq!(error.kind, ErrorKind::InvalidSource);
}

#[test]
fn contents_are_judged_for_a_regular_file() {
    let path = PathBuf::from("/data/volunteers/ada.toml");
    let volunteer =
        Volunteer::from_checked_file(&path, true, true, Ok(String::from(ADA))).unwrap();
    assert_eq!(volunteer.barcode, "V-0001");

    let error =
        Volunteer::from_checked_file(&path, true, true, Err(String::from("interrupted")))
            .unwrap_err();
    assert_eq!(error.kind, ErrorKind::Io);
    assert_eq!(error.message, "interrupted");

    let error = Volunteer::from_checked_file(&path, true, true, Ok(String::from("barcode = 1")))
        .unwrap_err();
    assert_eq!(error.kind, ErrorKind::Validation);
    assert!(error.message.contains("/data/volunteers/ada.toml"));
}

#[test]
fn missing_file_with_failed_read_is_an_invalid_source() {
    let root = tempfile::tempdir().unwrap();
    let path = root.path().join("ghost.toml");
    let error =
        Volunteer::from_file(&path, Err(String::from("no such file or directory"))).unwrap_err();
    assert_eq!(error.kind, ErrorKind::InvalidSource);
    assert_eq!(error.message, "volunteer description path does not exist");
}
