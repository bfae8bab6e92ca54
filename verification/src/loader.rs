//! Finding the description files of a directory and loading the roster.

use crate::document::{document_of, Item};
use crate::error::{plain_error, ErrorKind, RunError, RunErrorView};
use crate::paths::{
    around, build_volunteer_search_path, display_text, is_unresolvable, is_validation,
    joined_path, names_path, path_from_text, path_of_text, path_to_str, unicode_text,
    validate_volunteer_directory,
};
use crate::schema::{fault_text, field_key, Field};
use crate::volunteers::{
    first_fault, is_contents_failure, picture_failure, source_failure, stated_record, Volunteer,
};
use std::path::PathBuf;
use vstd::prelude::*;

verus! {

/// `glob::PatternError`, kept opaque.
#[verifier::external_type_specification]
#[verifier::external_body]
pub struct ExPatternError(glob::PatternError);

/// `glob::GlobError`, kept opaque.
#[verifier::external_type_specification]
#[verifier::external_body]
pub struct ExGlobError(glob::GlobError);

/// Calls `glob::glob` and collects what its iterator yields, in the order
/// in which it yields it. Which paths match depends on the disk; nothing is
/// stated of them.
#[verifier::external_body]
pub(crate) fn glob_matches(pattern: &str) -> (matches: Result<
    Vec<Result<PathBuf, glob::GlobError>>,
    glob::PatternError,
>) {
    Ok(glob::glob(pattern)?.collect())
}

/// One character as a pattern that matches it and nothing else: the
/// characters `?`, `*`, `[` and `]`, which a pattern reads as its own, stand
/// between brackets.
pub open spec fn escaped_char(c: char) -> Seq<char> {
    if c == '?' || c == '*' || c == '[' || c == ']' {
        seq!['[', c, ']']
    } else {
        seq![c]
    }
}

/// A text as a pattern that matches it and nothing else: each character
/// escaped, in the same order.
pub open spec fn escaped_text(text: Seq<char>) -> Seq<char>
    decreases text.len(),
{
    if text.len() == 0 {
        Seq::empty()
    } else {
        escaped_text(text.drop_last()) + escaped_char(text.last())
    }
}

/// Calls `glob::Pattern::escape`, which goes through the characters of the
/// text and puts each of `?`, `*`, `[` and `]` between brackets.
#[verifier::external_body]
pub(crate) fn escape_pattern(text: &str) -> (escaped: String)
    ensures
        escaped@ == escaped_text(text@),
{
    glob::Pattern::escape(text)
}

/// What a search of the volunteer directory found: the description files,
/// in the order of discovery, and a warning for each entry that could not
/// be looked at.
#[derive(Debug)]
pub struct Discovery {
    pub files: Vec<PathBuf>,
    pub warnings: Vec<String>,
}

/// A description file that was discovered and read: its path, and its text
/// or the cause for which it could not be read.
#[derive(Debug)]
pub struct Source {
    pub path: PathBuf,
    pub contents: Result<String, String>,
}

/// The paths among the entries of a search, in their order.
pub open spec fn found_files(entries: Seq<Result<PathBuf, glob::GlobError>>) -> Seq<PathBuf>
    decreases entries.len(),
{
    if entries.len() == 0 {
        Seq::empty()
    } else {
        match entries.last() {
            Ok(path) => found_files(entries.drop_last()).push(path),
            Err(_) => found_files(entries.drop_last()),
        }
    }
}

/// The failures among the entries of a search, in their order.
pub open spec fn failed_entries(entries: Seq<Result<PathBuf, glob::GlobError>>) -> Seq<
    glob::GlobError,
>
    decreases entries.len(),
{
    if entries.len() == 0 {
        Seq::empty()
    } else {
        match entries.last() {
            Ok(_) => failed_entries(entries.drop_last()),
            Err(cause) => failed_entries(entries.drop_last()).push(cause),
        }
    }
}

/// The warning about an entry of the search that failed, given the words of
/// the failure.
pub open spec fn search_warning(words: Seq<char>) -> Seq<char> {
    "volunteer directory search run into an error: "@ + words
}

/// Whether a text is the warning about a failed entry, whatever the words of
/// the failure.
pub open spec fn is_search_warning(text: Seq<char>) -> bool {
    exists|words: Seq<char>| text == #[trigger] search_warning(words)
}

/// Whether `warning` is the warning about the failure `cause`: the fixed
/// words, then the failure as it prints itself.
pub open spec fn is_warning_about(warning: String, cause: glob::GlobError) -> bool {
    exists|words: String| #[trigger]
        vstd::string::to_string_from_display_ensures::<glob::GlobError>(&cause, words)
            && warning@ == search_warning(words@)
}

/// Parts the entries of a search: the paths are kept in their order, and
/// each failed entry leaves a warning instead of ending the search.
pub fn sift_matches(entries: Vec<Result<PathBuf, glob::GlobError>>) -> (discovery: Discovery)
    ensures
        discovery.files@ == found_files(entries@),
        discovery.warnings@.len() == failed_entries(entries@).len(),
        forall|k: int|
            0 <= k < discovery.warnings@.len() ==> is_warning_about(
                #[trigger] discovery.warnings@[k],
                failed_entries(entries@)[k],
            ),
{
    let mut files: Vec<PathBuf> = Vec::new();
    let mut warnings: Vec<String> = Vec::new();
    let ghost all = entries@;
    for entry in it: entries
        invariant
            it.seq() == all,
            files@ == found_files(all.take(it.index() as int)),
            warnings@.len() == failed_entries(all.take(it.index() as int)).len(),
            forall|k: int|
                0 <= k < warnings@.len() ==> is_warning_about(
                    #[trigger] warnings@[k],
                    failed_entries(all.take(it.index() as int))[k],
                ),
    {
        proof {
            let seen = all.take(it.index() + 1);
            assert(seen.drop_last() =~= all.take(it.index() as int));
            assert(seen.last() == entry);
        }
        match entry {
            Ok(path) => {
                files.push(path);
            },
            Err(cause) => {
                let mut warning = String::from_str("volunteer directory search run into an error: ");
                let words = cause.to_string();
                warning.append(words.as_str());
                assert(is_warning_about(warning, cause)) by {
                    assert(vstd::string::to_string_from_display_ensures::<glob::GlobError>(
                        &cause,
                        words,
                    ));
                }
                warnings.push(warning);
            },
        }
    }
    proof {
        assert(all.take(all.len() as int) =~= all);
    }
    Discovery { files, warnings }
}

/// The error for a search path that is not valid Unicode.
pub open spec fn unsearchable_directory() -> RunErrorView {
    plain_error(
        ErrorKind::Configuration,
        "the volunteer directory contains invalid characters"@,
    )
}

/// Whether `error` says that the search pattern was refused.
pub open spec fn is_invalid_search(error: RunErrorView) -> bool {
    error.kind == ErrorKind::Configuration && error.context == seq![
        "the constructed search term is invalid"@,
    ]
}

/// The directory as a pattern that matches this directory and no other:
/// its text escaped, where it is valid Unicode.
pub open spec fn literal_path(dir: PathBuf) -> Option<PathBuf> {
    match unicode_text(dir) {
        None => None,
        Some(text) => Some(path_of_text(escaped_text(text))),
    }
}

/// The pattern that is searched for under a directory: the directory taken
/// literally, joined with the pattern for every `.toml` entry at any depth.
/// There is none where the directory or the joined path is not valid
/// Unicode.
pub open spec fn search_term(dir: PathBuf) -> Option<Seq<char>> {
    match literal_path(dir) {
        None => None,
        Some(literal) => unicode_text(joined_path(literal, "**/*.toml"@)),
    }
}

/// Escapes a directory, so that a search takes every character of its path
/// literally.
pub fn literal_directory(dir: &PathBuf) -> (literal: Option<PathBuf>)
    ensures
        literal == literal_path(*dir),
{
    match path_to_str(dir) {
        None => None,
        Some(text) => {
            let escaped = escape_pattern(text);
            Some(path_from_text(escaped.as_str()))
        },
    }
}

/// Builds the pattern that is searched for under a directory.
pub fn search_pattern(dir: &PathBuf) -> (pattern: Option<String>)
    ensures
        match pattern {
            Some(term) => search_term(*dir) == Some(term@),
            None => search_term(*dir) is None,
        },
{
    let literal = match literal_directory(dir) {
        None => { return None; },
        Some(literal) => literal,
    };
    let search_path = build_volunteer_search_path(&literal);
    match path_to_str(&search_path) {
        None => None,
        Some(term) => Some(String::from_str(term)),
    }
}

/// Whether `found` can be what the search of a validated directory comes
/// to. A directory without a search pattern is refused as unsearchable, and
/// no other is. Otherwise glob decides: it refuses the pattern, or the
/// search yields a discovery whose warnings are those of failed entries.
pub open spec fn is_search_outcome(found: Result<Discovery, RunError>, input_path: PathBuf) -> bool {
    match found {
        Ok(discovery) => search_term(input_path) is Some && forall|k: int|
            0 <= k < discovery.warnings@.len() ==> is_search_warning(
                #[trigger] discovery.warnings@[k]@,
            ),
        Err(error) => if search_term(input_path) is None {
            error@ == unsearchable_directory()
        } else {
            is_invalid_search(error@)
        },
    }
}

/// Whether `found` can be what a discovery comes to after the validation of
/// the directory came to `validated`: the validation's own error, handed on
/// as it is, or the outcome of the search of the validated directory.
pub open spec fn is_discovery(
    found: Result<Discovery, RunError>,
    validated: Result<PathBuf, RunError>,
) -> bool {
    match validated {
        Err(error) => found matches Err(e) && e@ == error@,
        Ok(input_path) => is_search_outcome(found, input_path),
    }
}

/// Searches a validated directory for description files: every entry whose
/// name ends in `.toml`, in the directory or anywhere below it. The
/// directory is taken literally, whatever characters its path holds.
///
/// A directory whose search path is not valid Unicode is refused. What the
/// search finds depends on the disk: entries that fail are left out with a
/// warning each, and never end the search.
pub fn search_volunteer_files(input_path: &PathBuf) -> (found: Result<Discovery, RunError>)
    ensures
        is_search_outcome(found, *input_path),
{
    let search_term = match search_pattern(input_path) {
        Some(term) => term,
        None => {
            let message = String::from_str("the volunteer directory contains invalid characters");
            return Err(RunError::new(ErrorKind::Configuration, message));
        },
    };
    match glob_matches(search_term.as_str()) {
        Err(cause) => {
            let error = RunError::new(ErrorKind::Configuration, cause.to_string());
            Err(error.with_context("the constructed search term is invalid"))
        },
        Ok(entries) => {
            let discovery = sift_matches(entries);
            assert forall|k: int| 0 <= k < discovery.warnings@.len() implies is_search_warning(
                #[trigger] discovery.warnings@[k]@,
            ) by {
                assert(is_warning_about(discovery.warnings@[k], failed_entries(entries@)[k]));
            }
            Ok(discovery)
        },
    }
}

/// Goes on from the validation of the volunteer directory: a directory that
/// was refused is not searched and its error is handed on unchanged; a
/// validated directory is searched.
pub fn search_validated(validated: Result<PathBuf, RunError>) -> (found: Result<
    Discovery,
    RunError,
>)
    ensures
        is_discovery(found, validated),
        validated matches Err(error) ==> found == Err::<Discovery, RunError>(error),
{
    match validated {
        Err(error) => Err(error),
        Ok(input_path) => search_volunteer_files(&input_path),
    }
}

/// Finds the description files of the volunteer directory `dir`: validates
/// the directory, then searches it.
///
/// Whatever the file system answers, the result is what
/// [`search_validated`] makes of the validation's outcome: a failure of the
/// validation is the failure of the discovery.
pub fn discover_volunteer_files(dir: &str) -> (found: Result<Discovery, RunError>)
    ensures
        exists|validated: Result<PathBuf, RunError>|
            is_validation(validated, dir@) && #[trigger] is_discovery(found, validated),
        dir@.len() == 0 ==> (found matches Err(e) && is_unresolvable(e@)),
{
    search_validated(validate_volunteer_directory(dir))
}

/// Whether `error` is a reason to reject a source: its path is no regular
/// file, its contents state no record, or the picture that its record names
/// is not a regular file in the picture directory.
pub open spec fn is_rejection(error: RunErrorView, source: Source, picture_dir: PathBuf) -> bool {
    ||| exists|present: bool, file: bool| #[trigger]
        source_failure(present, file) == Some(error)
    ||| stated_record(source.contents) is None && is_contents_failure(
        error,
        source.path,
        source.contents,
    )
    ||| stated_record(source.contents) matches Some(record) && exists|present: bool, file: bool|
     #[trigger]
        picture_failure(joined_path(picture_dir, record.picture), present, file) == Some(error)
}

/// Whether `loaded` can be what loading the sources comes to: one record
/// for each source, in their order, each the record that its source states;
/// or the rejection of one source, every source before which states a
/// record.
pub open spec fn is_roster_outcome(
    loaded: Result<Vec<Volunteer>, RunError>,
    sources: Seq<Source>,
    picture_dir: PathBuf,
) -> bool {
    match loaded {
        Ok(volunteers) => volunteers@.len() == sources.len() && forall|i: int|
            0 <= i < sources.len() ==> stated_record(sources[i].contents) == Some(
                #[trigger] volunteers@[i]@,
            ),
        Err(error) => exists|i: int|
            0 <= i < sources.len() && is_rejection(error@, #[trigger] sources[i], picture_dir)
                && forall|j: int|
                0 <= j < i ==> stated_record(#[trigger] sources[j].contents) is Some,
    }
}

/// Loads the volunteers of the given sources, in their order, and checks
/// each one's picture against the picture directory.
///
/// The run ends at the first source that is rejected, with its error; no
/// source is passed over. Without sources the roster is empty.
pub fn load_volunteers(sources: Vec<Source>, picture_dir: &PathBuf) -> (loaded: Result<
    Vec<Volunteer>,
    RunError,
>)
    ensures
        is_roster_outcome(loaded, sources@, *picture_dir),
        sources@.len() == 0 ==> (loaded matches Ok(volunteers) && volunteers@.len() == 0),
{
    let mut volunteers: Vec<Volunteer> = Vec::new();
    let ghost all = sources@;
    for source in it: sources
        invariant
            it.seq() == all,
            all == sources@,
            volunteers@.len() == it.index(),
            forall|i: int|
                0 <= i < it.index() ==> stated_record(all[i].contents) == Some(
                    #[trigger] volunteers@[i]@,
                ),
    {
        let ghost index = it.index() as int;
        assert(all[index] == source);
        assert forall|j: int| 0 <= j < index implies stated_record(
            #[trigger] all[j].contents,
        ) is Some by {
            assert(stated_record(all[j].contents) == Some(volunteers@[j]@));
        }
        let Source { path, contents } = source;
        let volunteer = match Volunteer::from_file(&path, contents) {
            Err(error) => {
                assert(is_rejection(error@, all[index], *picture_dir));
                return Err(error);
            },
            Ok(volunteer) => volunteer,
        };
        match volunteer.ensure_picture_exists(picture_dir) {
            Err(error) => {
                assert(is_rejection(error@, all[index], *picture_dir));
                return Err(error);
            },
            Ok(()) => {},
        }
        volunteers.push(volunteer);
    }
    Ok(volunteers)
}

/// No roster comes back while one of the sources lacks a required field,
/// not even of the other records. Where the error is about the contents of
/// that source, it is a `Validation` error whose message holds the path of
/// the source.
pub proof fn law_roster_needs_every_field(
    loaded: Result<Vec<Volunteer>, RunError>,
    sources: Seq<Source>,
    picture_dir: PathBuf,
    at: int,
    text: String,
    doc: Map<Seq<char>, Item>,
    field: Field,
)
    requires
        is_roster_outcome(loaded, sources, picture_dir),
        0 <= at < sources.len(),
        sources[at].contents == Ok::<String, String>(text),
        document_of(text@) == Ok::<Map<Seq<char>, Item>, Seq<char>>(doc),
        field != Field::HideIndicator,
        !doc.contains_key(field_key(field)),
    ensures
        loaded matches Err(error) && (is_contents_failure(
            error@,
            sources[at].path,
            sources[at].contents,
        ) ==> error@.kind == ErrorKind::Validation && names_path(
            error@.message,
            sources[at].path,
        )),
{
    assert(first_fault(doc) is Some);
    assert(stated_record(sources[at].contents) is None);
    match loaded {
        Ok(volunteers) => {
            assert(stated_record(sources[at].contents) == Some(volunteers@[at]@));
        },
        Err(error) => {
            if is_contents_failure(error@, sources[at].path, sources[at].contents) {
                assert(error@.message == around(
                    "invalid volunteer description file '"@,
                    display_text(sources[at].path),
                    "'"@ + "\n"@ + fault_text(first_fault(doc)->Some_0),
                ));
            }
        },
    }
}

} // verus!
