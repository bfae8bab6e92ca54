//! Volunteer records: reading one from a description file and checking
//! its picture.

use crate::document::{document_of, parse_document, table_items, Item};
use crate::error::{is_outcome, plain_error, ErrorKind, RunError, RunErrorView};
use crate::text::texts_of;
use crate::paths::{
    around, describe_path, display_text, joined_path, names_path, path_exists, path_is_file,
    path_join, path_message,
};
use crate::schema::{
    fault_text, field_key, flag_at, optional_flag_at, read_flag, read_optional_flag, read_text,
    read_texts, text_at, texts_at, Field, SchemaFault,
};
use std::path::PathBuf;
use vstd::prelude::*;

verus! {

/// One volunteer, as a description file states it.
#[derive(Debug)]
pub struct Volunteer {
    pub first_name: String,
    pub last_name: String,
    pub barcode: String,
    pub qualified: bool,
    pub picture: String,
    pub deployment: Vec<String>,
    pub licenses: Vec<String>,
    pub qualifications: Vec<String>,
    pub hide_indicator: Option<bool>,
}

/// The mathematical content of a [`Volunteer`].
pub struct VolunteerView {
    pub first_name: Seq<char>,
    pub last_name: Seq<char>,
    pub barcode: Seq<char>,
    pub qualified: bool,
    pub picture: Seq<char>,
    pub deployment: Seq<Seq<char>>,
    pub licenses: Seq<Seq<char>>,
    pub qualifications: Seq<Seq<char>>,
    pub hide_indicator: Option<bool>,
}

impl View for Volunteer {
    type V = VolunteerView;

    open spec fn view(&self) -> VolunteerView {
        VolunteerView {
            first_name: self.first_name@,
            last_name: self.last_name@,
            barcode: self.barcode@,
            qualified: self.qualified,
            picture: self.picture@,
            deployment: texts_of(self.deployment@),
            licenses: texts_of(self.licenses@),
            qualifications: texts_of(self.qualifications@),
            hide_indicator: self.hide_indicator,
        }
    }
}

/// The first fault of a document against the schema, the fields taken in
/// the order in which the record lists them; `None` where it has none.
pub open spec fn first_fault(doc: Map<Seq<char>, Item>) -> Option<SchemaFault> {
    if text_at(doc, Field::FirstName) is Err {
        Some(text_at(doc, Field::FirstName)->Err_0)
    } else if text_at(doc, Field::LastName) is Err {
        Some(text_at(doc, Field::LastName)->Err_0)
    } else if text_at(doc, Field::Barcode) is Err {
        Some(text_at(doc, Field::Barcode)->Err_0)
    } else if flag_at(doc, Field::Qualified) is Err {
        Some(flag_at(doc, Field::Qualified)->Err_0)
    } else if text_at(doc, Field::Picture) is Err {
        Some(text_at(doc, Field::Picture)->Err_0)
    } else if texts_at(doc, Field::Deployment) is Err {
        Some(texts_at(doc, Field::Deployment)->Err_0)
    } else if texts_at(doc, Field::Licenses) is Err {
        Some(texts_at(doc, Field::Licenses)->Err_0)
    } else if texts_at(doc, Field::Qualifications) is Err {
        Some(texts_at(doc, Field::Qualifications)->Err_0)
    } else if optional_flag_at(doc, Field::HideIndicator) is Err {
        Some(optional_flag_at(doc, Field::HideIndicator)->Err_0)
    } else {
        None
    }
}

/// The record that a document without fault states.
pub open spec fn record_of(doc: Map<Seq<char>, Item>) -> VolunteerView {
    VolunteerView {
        first_name: text_at(doc, Field::FirstName)->Ok_0,
        last_name: text_at(doc, Field::LastName)->Ok_0,
        barcode: text_at(doc, Field::Barcode)->Ok_0,
        qualified: flag_at(doc, Field::Qualified)->Ok_0,
        picture: text_at(doc, Field::Picture)->Ok_0,
        deployment: texts_at(doc, Field::Deployment)->Ok_0,
        licenses: texts_at(doc, Field::Licenses)->Ok_0,
        qualifications: texts_at(doc, Field::Qualifications)->Ok_0,
        hide_indicator: optional_flag_at(doc, Field::HideIndicator)->Ok_0,
    }
}

/// What the schema makes of a document: its record, or its first fault.
pub open spec fn schema_outcome(doc: Map<Seq<char>, Item>) -> Result<VolunteerView, SchemaFault> {
    match first_fault(doc) {
        Some(fault) => Err(fault),
        None => Ok(record_of(doc)),
    }
}

/// Whether `read` is what the schema makes of a document.
pub open spec fn is_schema_outcome(
    read: Result<Volunteer, SchemaFault>,
    doc: Map<Seq<char>, Item>,
) -> bool {
    match read {
        Ok(volunteer) => schema_outcome(doc) == Ok::<VolunteerView, SchemaFault>(volunteer@),
        Err(fault) => schema_outcome(doc) == Err::<VolunteerView, SchemaFault>(fault),
    }
}

/// The message for a description file that cannot be accepted.
pub open spec fn invalid_file_message(path: PathBuf, diagnostic: Seq<char>) -> Seq<char> {
    path_message("invalid volunteer description file '"@, path) + "\n"@ + diagnostic
}

/// The error for a description file that could not be read.
pub open spec fn unreadable_file(cause: Seq<char>) -> RunErrorView {
    RunErrorView {
        kind: ErrorKind::Io,
        message: cause,
        context: seq!["could not read volunteer description file"@],
    }
}

/// The record that the contents of a description file state: there is one
/// where the file could be read, its text is a TOML document, and the
/// document has no fault.
pub open spec fn stated_record(contents: Result<String, String>) -> Option<VolunteerView> {
    match contents {
        Err(_) => None,
        Ok(text) => match document_of(text@) {
            Err(_) => None,
            Ok(doc) => match schema_outcome(doc) {
                Err(_) => None,
                Ok(record) => Some(record),
            },
        },
    }
}

/// Whether `error` says what is wrong with the contents of the description
/// file at `path`. A file that could not be read is an `Io` error with the
/// cause. A text that is no TOML document, or a document with a fault, is a
/// `Validation` error whose message names the file and gives the diagnostic:
/// the words of the parser, or [`fault_text`] of the fault.
pub open spec fn is_contents_failure(
    error: RunErrorView,
    path: PathBuf,
    contents: Result<String, String>,
) -> bool {
    match contents {
        Err(cause) => error == unreadable_file(cause@),
        Ok(text) => match document_of(text@) {
            Err(words) => error == plain_error(
                ErrorKind::Validation,
                invalid_file_message(path, words),
            ),
            Ok(doc) => match schema_outcome(doc) {
                Err(fault) => error == plain_error(
                    ErrorKind::Validation,
                    invalid_file_message(path, fault_text(fault)),
                ),
                Ok(_) => false,
            },
        },
    }
}

/// Whether `loaded` is what the contents of the description file at `path`
/// come to: the record that they state, or else what is wrong with them.
pub open spec fn is_contents_outcome(
    loaded: Result<Volunteer, RunError>,
    path: PathBuf,
    contents: Result<String, String>,
) -> bool {
    match loaded {
        Ok(volunteer) => stated_record(contents) == Some(volunteer@),
        Err(error) => stated_record(contents) is None && is_contents_failure(
            error@,
            path,
            contents,
        ),
    }
}

/// What is wrong with a discovered description path, given whether it
/// exists and whether it is a regular file; `None` where nothing is.
pub open spec fn source_failure(present: bool, file: bool) -> Option<RunErrorView> {
    if !present {
        Some(plain_error(ErrorKind::InvalidSource, "volunteer description path does not exist"@))
    } else if !file {
        Some(plain_error(ErrorKind::InvalidSource, "volunteer description path is not a file"@))
    } else {
        None
    }
}

/// Whether `loaded` is what a description file comes to, given whether its
/// path exists and whether it is a regular file: the failure of the path
/// where there is one, and only otherwise what its contents come to.
pub open spec fn is_file_outcome(
    loaded: Result<Volunteer, RunError>,
    path: PathBuf,
    present: bool,
    file: bool,
    contents: Result<String, String>,
) -> bool {
    match source_failure(present, file) {
        Some(failure) => loaded matches Err(e) && e@ == failure,
        None => is_contents_outcome(loaded, path, contents),
    }
}

/// What is wrong with a picture path, given whether it exists and whether
/// it is a regular file; `None` where nothing is.
pub open spec fn picture_failure(picture_path: PathBuf, present: bool, file: bool) -> Option<
    RunErrorView,
> {
    if !present {
        Some(
            plain_error(
                ErrorKind::NotFound,
                path_message("the volunteer picture path does not exist '"@, picture_path),
            ),
        )
    } else if !file {
        Some(
            plain_error(
                ErrorKind::InvalidTarget,
                path_message("the volunteer picture is not a file '"@, picture_path),
            ),
        )
    } else {
        None
    }
}

/// Decides on a discovered description path from what the file system said
/// of it.
pub fn source_verdict(present: bool, file: bool) -> (checked: Result<(), RunError>)
    ensures
        is_outcome(checked, source_failure(present, file)),
{
    if !present {
        let message = String::from_str("volunteer description path does not exist");
        return Err(RunError::new(ErrorKind::InvalidSource, message));
    }
    if !file {
        let message = String::from_str("volunteer description path is not a file");
        return Err(RunError::new(ErrorKind::InvalidSource, message));
    }
    Ok(())
}

/// Decides on a picture path from what the file system said of it.
pub fn picture_verdict(picture_path: &PathBuf, present: bool, file: bool) -> (checked: Result<
    (),
    RunError,
>)
    ensures
        is_outcome(checked, picture_failure(*picture_path, present, file)),
{
    if !present {
        let message = describe_path("the volunteer picture path does not exist '", picture_path);
        return Err(RunError::new(ErrorKind::NotFound, message));
    }
    if !file {
        let message = describe_path("the volunteer picture is not a file '", picture_path);
        return Err(RunError::new(ErrorKind::InvalidTarget, message));
    }
    Ok(())
}

impl Volunteer {
    /// Reads a volunteer from a parsed description file: every required
    /// field must be there with its type, and the hide indicator, where it
    /// is there, must be a boolean. Keys that the schema does not know are
    /// passed over.
    pub fn from_table(table: &toml::Table) -> (read: Result<Volunteer, SchemaFault>)
        ensures
            is_schema_outcome(read, table_items(*table)),
    {
        let first_name = match read_text(table, Field::FirstName) {
            Ok(text) => text,
            Err(fault) => { return Err(fault); },
        };
        let last_name = match read_text(table, Field::LastName) {
            Ok(text) => text,
            Err(fault) => { return Err(fault); },
        };
        let barcode = match read_text(table, Field::Barcode) {
            Ok(text) => text,
            Err(fault) => { return Err(fault); },
        };
        let qualified = match read_flag(table, Field::Qualified) {
            Ok(flag) => flag,
            Err(fault) => { return Err(fault); },
        };
        let picture = match read_text(table, Field::Picture) {
            Ok(text) => text,
            Err(fault) => { return Err(fault); },
        };
        let deployment = match read_texts(table, Field::Deployment) {
            Ok(texts) => texts,
            Err(fault) => { return Err(fault); },
        };
        let licenses = match read_texts(table, Field::Licenses) {
            Ok(texts) => texts,
            Err(fault) => { return Err(fault); },
        };
        let qualifications = match read_texts(table, Field::Qualifications) {
            Ok(texts) => texts,
            Err(fault) => { return Err(fault); },
        };
        let hide_indicator = match read_optional_flag(table, Field::HideIndicator) {
            Ok(flag) => flag,
            Err(fault) => { return Err(fault); },
        };
        Ok(
            Volunteer {
                first_name,
                last_name,
                barcode,
                qualified,
                picture,
                deployment,
                licenses,
                qualifications,
                hide_indicator,
            },
        )
    }

    /// Turns what was read at `path` into a volunteer: `contents` is the
    /// text of the file, or the cause for which it could not be read.
    pub fn from_contents(path: &PathBuf, contents: Result<String, String>) -> (loaded: Result<
        Volunteer,
        RunError,
    >)
        ensures
            is_contents_outcome(loaded, *path, contents),
    {
        let text = match contents {
            Err(cause) => {
                let error = RunError::new(ErrorKind::Io, cause);
                return Err(error.with_context("could not read volunteer description file"));
            },
            Ok(text) => text,
        };
        let diagnostic = match parse_document(text.as_str()) {
            Err(cause) => cause.to_string(),
            Ok(table) => match Volunteer::from_table(&table) {
                Ok(volunteer) => { return Ok(volunteer); },
                Err(fault) => fault.describe(),
            },
        };
        let mut message = describe_path("invalid volunteer description file '", path);
        message.append("\n");
        message.append(diagnostic.as_str());
        assert(message@ == invalid_file_message(*path, diagnostic@));
        Err(RunError::new(ErrorKind::Validation, message))
    }

    /// Loads a volunteer from a description file, given what the file
    /// system said of its path and what was read at it. The path is judged
    /// first: where it does not exist or is no regular file, that is the
    /// error, whatever the contents are. Only then are the contents judged,
    /// as [`Self::from_contents`] says.
    pub fn from_checked_file(
        path: &PathBuf,
        present: bool,
        file: bool,
        contents: Result<String, String>,
    ) -> (loaded: Result<Volunteer, RunError>)
        ensures
            is_file_outcome(loaded, *path, present, file, contents),
    {
        match source_verdict(present, file) {
            Err(error) => Err(error),
            Ok(()) => Volunteer::from_contents(path, contents),
        }
    }

    /// Loads a volunteer from the description file at `path`, whose
    /// contents the caller has read. The path must exist and be a regular
    /// file; the contents are then judged as [`Self::from_contents`] says.
    ///
    /// Whatever the file system answers, the result is what
    /// [`Self::from_checked_file`] makes of those answers and the contents.
    pub fn from_file(path: &PathBuf, contents: Result<String, String>) -> (loaded: Result<
        Volunteer,
        RunError,
    >)
        ensures
            exists|present: bool, file: bool| #[trigger]
                is_file_outcome(loaded, *path, present, file, contents),
    {
        let present = path_exists(path);
        let file = path_is_file(path);
        Volunteer::from_checked_file(path, present, file, contents)
    }

    /// Ensures that a discovered description path exists and is a regular
    /// file.
    pub fn ensure_volunteer_file_exists(volunteer_path: &PathBuf) -> (checked: Result<
        (),
        RunError,
    >)
        ensures
            exists|present: bool, file: bool| is_outcome(checked, source_failure(present, file)),
    {
        let present = path_exists(volunteer_path);
        let file = path_is_file(volunteer_path);
        source_verdict(present, file)
    }

    /// Ensures that the picture of the volunteer exists in the picture
    /// directory and is a regular file.
    pub fn ensure_picture_exists(&self, picture_dir: &PathBuf) -> (checked: Result<(), RunError>)
        ensures
            exists|present: bool, file: bool|
                is_outcome(
                    checked,
                    picture_failure(joined_path(*picture_dir, self.picture@), present, file),
                ),
    {
        let picture_path = path_join(picture_dir, self.picture.as_str());
        let present = path_exists(&picture_path);
        let file = path_is_file(&picture_path);
        picture_verdict(&picture_path, present, file)
    }
}

/// A description file that lacks a required field is never accepted: its
/// contents come to a `Validation` error whose message holds the path of
/// the file.
pub proof fn law_missing_field_is_refused(
    loaded: Result<Volunteer, RunError>,
    path: PathBuf,
    text: String,
    doc: Map<Seq<char>, Item>,
    field: Field,
)
    requires
        is_contents_outcome(loaded, path, Ok(text)),
        document_of(text@) == Ok::<Map<Seq<char>, Item>, Seq<char>>(doc),
        field != Field::HideIndicator,
        !doc.contains_key(field_key(field)),
    ensures
        loaded matches Err(error) && error@.kind == ErrorKind::Validation && names_path(
            error@.message,
            path,
        ),
{
    assert(first_fault(doc) is Some);
    let fault = first_fault(doc)->Some_0;
    let error = loaded->Err_0;
    assert(error@.message == around(
        "invalid volunteer description file '"@,
        display_text(path),
        "'"@ + "\n"@ + fault_text(fault),
    ));
}

/// A text that is no TOML document is never accepted either: it comes to a
/// `Validation` error whose message holds the path of the file.
pub proof fn law_malformed_text_is_refused(
    loaded: Result<Volunteer, RunError>,
    path: PathBuf,
    text: String,
)
    requires
        is_contents_outcome(loaded, path, Ok(text)),
        document_of(text@) is Err,
    ensures
        loaded matches Err(error) && error@.kind == ErrorKind::Validation && names_path(
            error@.message,
            path,
        ),
{
    let error = loaded->Err_0;
    assert(error@.message == around(
        "invalid volunteer description file '"@,
        display_text(path),
        "'"@ + "\n"@ + document_of(text@)->Err_0,
    ));
}

/// A volunteer whose picture does not exist in the picture directory is
/// refused with a `NotFound` error whose message holds the path that was
/// looked for: the picture directory joined with the picture's name.
pub proof fn law_missing_picture_is_not_found(
    checked: Result<(), RunError>,
    picture_dir: PathBuf,
    picture: Seq<char>,
    file: bool,
)
    requires
        is_outcome(checked, picture_failure(joined_path(picture_dir, picture), false, file)),
    ensures
        checked matches Err(error) && error@.kind == ErrorKind::NotFound && names_path(
            error@.message,
            joined_path(picture_dir, picture),
        ),
{
    let error = checked->Err_0;
    assert(error@.message == around(
        "the volunteer picture path does not exist '"@,
        display_text(joined_path(picture_dir, picture)),
        "'"@,
    ));
}

} // verus!
