//! Paths and the questions asked of the file system about them, and the
//! validation of an input directory.

use crate::error::{plain_error, ErrorKind, RunError, RunErrorView};
use std::path::PathBuf;
use vstd::prelude::*;

verus! {

/// `std::path::PathBuf`, carried through as an opaque value.
#[verifier::external_type_specification]
#[verifier::external_body]
pub struct ExPathBuf(PathBuf);

/// `std::io::Error`, carried through as an opaque value.
#[verifier::external_type_specification]
#[verifier::external_body]
pub struct ExIoError(std::io::Error);

/// What `Path::display` prints for a path.
pub uninterp spec fn display_text(path: PathBuf) -> Seq<char>;

/// What `Path::join` returns for a base path and a component.
pub uninterp spec fn joined_path(base: PathBuf, component: Seq<char>) -> PathBuf;

/// What `Path::to_str` returns for a path: its text where it is valid
/// Unicode.
pub uninterp spec fn unicode_text(path: PathBuf) -> Option<Seq<char>>;

/// What `PathBuf::from` makes of a text.
pub uninterp spec fn path_of_text(text: Seq<char>) -> PathBuf;

/// What `Path::is_absolute` says of a path.
pub uninterp spec fn is_absolute_path(path: PathBuf) -> bool;

/// Calls `std::path::absolute`. The result depends on the current
/// directory, so only what the documentation promises of every call is
/// stated: an empty path is refused, and a path that comes back is
/// absolute.
#[verifier::external_body]
pub(crate) fn resolve_absolute(dir: &str) -> (resolved: Result<PathBuf, std::io::Error>)
    ensures
        dir@.len() == 0 ==> resolved is Err,
        resolved matches Ok(path) ==> is_absolute_path(path),
{
    std::path::absolute(dir)
}

/// Calls `Path::exists`. The answer depends on the disk; nothing is stated.
#[verifier::external_body]
pub(crate) fn path_exists(path: &PathBuf) -> bool {
    path.exists()
}

/// Calls `Path::is_file`. The answer depends on the disk; nothing is stated.
#[verifier::external_body]
pub(crate) fn path_is_file(path: &PathBuf) -> bool {
    path.is_file()
}

/// Calls `Path::is_dir`. The answer depends on the disk; nothing is stated.
#[verifier::external_body]
pub(crate) fn path_is_dir(path: &PathBuf) -> bool {
    path.is_dir()
}

/// Calls `Path::join`; the result is named [`joined_path`].
#[verifier::external_body]
pub(crate) fn path_join(base: &PathBuf, component: &str) -> (joined: PathBuf)
    ensures
        joined == joined_path(*base, component@),
{
    base.join(component)
}

/// Formats a path with `Path::display`; the result is named
/// [`display_text`].
#[verifier::external_body]
pub(crate) fn path_display(path: &PathBuf) -> (text: String)
    ensures
        text@ == display_text(*path),
{
    path.display().to_string()
}

/// Calls `Path::to_str`; the result is named [`unicode_text`].
#[verifier::external_body]
pub(crate) fn path_to_str(path: &PathBuf) -> (text: Option<&str>)
    ensures
        match text {
            Some(t) => unicode_text(*path) == Some(t@),
            None => unicode_text(*path) is None,
        },
{
    path.to_str()
}

/// Converts a string into a path with `PathBuf::from`; the result is named
/// [`path_of_text`].
#[verifier::external_body]
pub(crate) fn path_from_text(text: &str) -> (path: PathBuf)
    ensures
        path == path_of_text(text@),
{
    PathBuf::from(text)
}

/// A message that ends in a path between single quotes.
pub open spec fn path_message(prefix: Seq<char>, path: PathBuf) -> Seq<char> {
    prefix + display_text(path) + "'"@
}

/// A text with one part before a middle part and one after it.
pub open spec fn around(before: Seq<char>, middle: Seq<char>, after: Seq<char>) -> Seq<char> {
    before + middle + after
}

/// Whether a message holds a path as `Path::display` prints it.
pub open spec fn names_path(message: Seq<char>, path: PathBuf) -> bool {
    exists|before: Seq<char>, after: Seq<char>|
        message == #[trigger] around(before, display_text(path), after)
}

/// Builds [`path_message`].
pub fn describe_path(prefix: &str, path: &PathBuf) -> (text: String)
    ensures
        text@ == path_message(prefix@, *path),
{
    let mut text = String::from_str(prefix);
    let shown = path_display(path);
    text.append(shown.as_str());
    text.append("'");
    text
}

/// The error for an input directory that the file system does not hold.
pub open spec fn missing_directory(resolved: PathBuf) -> RunErrorView {
    plain_error(
        ErrorKind::NotFound,
        path_message("the file system does not contain the input directory '"@, resolved),
    )
}

/// The error for an input directory that is a regular file.
pub open spec fn directory_is_file() -> RunErrorView {
    plain_error(ErrorKind::InvalidTarget, "the provided directory must not be a file"@)
}

/// Whether an error says that the absolute path of an input directory
/// could not be formed.
pub open spec fn is_unresolvable(error: RunErrorView) -> bool {
    error.kind == ErrorKind::Configuration && error.context == seq![
        "could not construct absolute path from the given input directory"@,
    ]
}

/// What is wrong with an input directory whose absolute path is `resolved`,
/// given whether that path exists and whether it is a regular file; `None`
/// where nothing is.
pub open spec fn directory_failure(resolved: PathBuf, present: bool, file: bool) -> Option<
    RunErrorView,
> {
    if !present {
        Some(missing_directory(resolved))
    } else if file {
        Some(directory_is_file())
    } else {
        None
    }
}

/// Whether `checked` is the verdict on an input directory: the failure where
/// there is one, and otherwise the absolute path itself.
pub open spec fn is_directory_verdict(
    checked: Result<PathBuf, RunError>,
    resolved: PathBuf,
    present: bool,
    file: bool,
) -> bool {
    match directory_failure(resolved, present, file) {
        Some(expected) => checked matches Err(e) && e@ == expected,
        None => checked == Ok::<PathBuf, RunError>(resolved),
    }
}

/// Decides on an input directory from its absolute path and from what the
/// file system said of that path.
pub fn directory_verdict(resolved: PathBuf, present: bool, file: bool) -> (checked: Result<
    PathBuf,
    RunError,
>)
    ensures
        is_directory_verdict(checked, resolved, present, file),
        present && !file ==> checked == Ok::<PathBuf, RunError>(resolved),
        !present ==> (checked matches Err(e) && e@.kind == ErrorKind::NotFound && names_path(
            e@.message,
            resolved,
        )),
        present && file ==> (checked matches Err(e) && e@.kind == ErrorKind::InvalidTarget),
{
    if !present {
        let message = describe_path(
            "the file system does not contain the input directory '",
            &resolved,
        );
        assert(message@ == around(
            "the file system does not contain the input directory '"@,
            display_text(resolved),
            "'"@,
        ));
        return Err(RunError::new(ErrorKind::NotFound, message));
    }
    if file {
        let message = String::from_str("the provided directory must not be a file");
        return Err(RunError::new(ErrorKind::InvalidTarget, message));
    }
    Ok(resolved)
}

/// Whether `checked` is the verdict on an input directory whose absolute
/// path is `resolved`.
pub open spec fn is_absolute_verdict(
    checked: Result<PathBuf, RunError>,
    resolved: PathBuf,
    present: bool,
    file: bool,
) -> bool {
    is_absolute_path(resolved) && is_directory_verdict(checked, resolved, present, file)
}

/// Whether `checked` can be what the validation of `dir` comes to: an error
/// that says that the path could not be made absolute, which an empty
/// `dir` always gets, or the verdict on some absolute path for some answers
/// of the file system. A path that is returned is absolute.
pub open spec fn is_validation(checked: Result<PathBuf, RunError>, dir: Seq<char>) -> bool {
    &&& (checked matches Err(e) && is_unresolvable(e@)) || exists|
        resolved: PathBuf,
        present: bool,
        file: bool,
    | is_absolute_verdict(checked, resolved, present, file)
    &&& dir.len() == 0 ==> (checked matches Err(e) && is_unresolvable(e@))
    &&& checked matches Ok(path) ==> is_absolute_path(path)
}

/// Ensures that the volunteer input directory exists. Returns its absolute
/// path, or says why it cannot be used: the path cannot be made absolute,
/// it does not exist, or it is a regular file.
///
/// Whatever the file system answers, the result is the verdict of
/// [`directory_verdict`] on the absolute path and those answers.
pub fn validate_volunteer_directory(dir: &str) -> (checked: Result<PathBuf, RunError>)
    ensures
        is_validation(checked, dir@),
{
    match resolve_absolute(dir) {
        Err(cause) => {
            let error = RunError::new(ErrorKind::Configuration, cause.to_string());
            Err(
                error.with_context(
                    "could not construct absolute path from the given input directory",
                ),
            )
        },
        Ok(resolved) => {
            let ghost absolute = resolved;
            let present = path_exists(&resolved);
            let file = path_is_file(&resolved);
            let checked = directory_verdict(resolved, present, file);
            assert(is_absolute_verdict(checked, absolute, present, file));
            checked
        },
    }
}

/// The glob pattern that finds the volunteer files of a directory: every
/// `.toml` file in it or in a directory below it, at any depth. The
/// directory is read as part of the pattern; a search that takes it
/// literally escapes it first.
pub fn build_volunteer_search_path(dir: &PathBuf) -> (search: PathBuf)
    ensures
        search == joined_path(*dir, "**/*.toml"@),
{
    path_join(dir, "**/*.toml")
}

} // verus!
