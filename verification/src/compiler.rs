//! The template compiler: checking the template directory, building the
//! engine, and rendering the roster as PDF.

use crate::config::Config;
use crate::error::{is_outcome, plain_error, within, ErrorKind, RunError, RunErrorView};
use crate::paths::{
    joined_path, path_from_text, path_is_dir, path_is_file, path_join, path_of_text,
};
use crate::template::TemplateInputs;
use crate::text::is_printed;
use std::path::PathBuf;
use typst::foundations::Dict;
use typst_as_lib::cached_file_resolver::IntoCachedFileResolver;
use typst_as_lib::file_resolver::FileSystemResolver;
use typst_as_lib::typst_kit_options::TypstKitFontOptions;
use typst_as_lib::{TypstAsLibError, TypstEngine, TypstTemplateCollection};
use typst_layout::PagedDocument;
use vstd::prelude::*;

verus! {

/// `typst_as_lib::TypstEngine`, kept opaque.
#[verifier::external_type_specification]
#[verifier::external_body]
#[verifier::reject_recursive_types(T)]
pub struct ExTypstEngine<T>(TypstEngine<T>);

/// `typst_as_lib::TypstTemplateCollection`, the kind of engine that
/// compiles files by name.
#[verifier::external_type_specification]
#[verifier::external_body]
pub struct ExTypstTemplateCollection(TypstTemplateCollection);

/// `typst_as_lib::file_resolver::FileSystemResolver`, kept opaque.
#[verifier::external_type_specification]
#[verifier::external_body]
pub struct ExFileSystemResolver(FileSystemResolver);

/// `typst_as_lib::typst_kit_options::TypstKitFontOptions`, kept opaque.
#[verifier::external_type_specification]
#[verifier::external_body]
pub struct ExTypstKitFontOptions(TypstKitFontOptions);

/// `typst_as_lib::TypstAsLibError`, kept opaque.
#[verifier::external_type_specification]
#[verifier::external_body]
pub struct ExTypstAsLibError(TypstAsLibError);

/// `typst_layout::PagedDocument`, kept opaque.
#[verifier::external_type_specification]
#[verifier::external_body]
pub struct ExPagedDocument(PagedDocument);

/// Makes a resolver for the files below `root` with
/// `FileSystemResolver::new`, and sets where local packages lie with
/// `FileSystemResolver::local_package_root`.
#[verifier::external_body]
pub(crate) fn file_system_resolver(root: PathBuf, packages: PathBuf) -> FileSystemResolver {
    FileSystemResolver::new(root).local_package_root(packages)
}

/// Makes font options with `TypstKitFontOptions::new` that also search the
/// given directory (`TypstKitFontOptions::include_dirs`).
#[verifier::external_body]
pub(crate) fn font_options(fonts: PathBuf) -> TypstKitFontOptions {
    TypstKitFontOptions::new().include_dirs([fonts])
}

/// Builds an engine with `TypstEngine::builder`: the cached template
/// resolver, a resolver for the picture directory, and the font options.
#[verifier::external_body]
pub(crate) fn build_engine(
    files: FileSystemResolver,
    picture_dir: &str,
    fonts: TypstKitFontOptions,
) -> TypstEngine {
    TypstEngine::builder().add_file_resolver(files.into_cached()).with_file_system_resolver(
        picture_dir,
    ).search_fonts_with(fonts).build()
}

/// The name of the template's entry file.
pub open spec fn entry_name() -> Seq<char> {
    "template.typ"@
}

/// Compiles the file `entry` of the template with the given input:
/// `TypstEngine::compile_with_input`, of whose answer the warnings are
/// dropped. What it yields depends on the files of the template; nothing is
/// stated.
///
/// The engine takes the text of `entry` as a path inside the template and
/// panics on one that is none, such as a text that climbs out with `..` or
/// holds a backslash. So only the entry file's own name is admitted, which
/// is a plain file name.
#[verifier::external_body]
pub(crate) fn compile_document(engine: &TypstEngine, entry: &str, inputs: Dict) -> Result<
    PagedDocument,
    TypstAsLibError,
>
    requires
        entry@ == entry_name(),
{
    engine.compile_with_input(entry, inputs).output
}

/// The five bytes with which a PDF file begins: `%PDF-`.
pub open spec fn pdf_header() -> Seq<u8> {
    seq![0x25u8, 0x50u8, 0x44u8, 0x46u8, 0x2du8]
}

/// Whether bytes begin as a PDF file does.
pub open spec fn is_pdf_file(bytes: Seq<u8>) -> bool {
    bytes.len() >= 5 && bytes.subrange(0, 5) == pdf_header()
}

/// Exports a document with `typst_pdf::pdf` and its default options; the
/// engine's diagnostics, where it fails, are given as text.
///
/// The bytes of a success are those of a PDF file and begin with its
/// header: `typst_pdf::pdf` hands back what `krilla::Document::finish`
/// builds, and that is the buffer of a `pdf_writer::Pdf`, which holds
/// `%PDF-` from its creation on and is only added to after those bytes.
/// Nothing else is stated of the bytes.
#[verifier::external_body]
pub(crate) fn export_pdf(document: &PagedDocument) -> (exported: Result<Vec<u8>, String>)
    ensures
        exported matches Ok(bytes) ==> is_pdf_file(bytes@),
{
    typst_pdf::pdf(document, &Default::default()).map_err(|errors| format!("{errors:?}"))
}

/// The name of the template's entry file: the file that the template
/// directory must hold and that the engine is started on.
pub fn entry_file() -> (name: &'static str)
    ensures
        name@ == entry_name(),
{
    "template.typ"
}

/// The template directory of a configuration, as a path.
pub fn template_root(config: &Config) -> (root: PathBuf)
    ensures
        root == path_of_text(config.template_dir@),
{
    path_from_text(config.template_dir.as_str())
}

/// Where the packages of a template lie: `packages` in its directory.
pub fn packages_path(root: &PathBuf) -> (path: PathBuf)
    ensures
        path == joined_path(*root, "packages"@),
{
    path_join(root, "packages")
}

/// Where the fonts of a template lie: `fonts` in its directory.
pub fn fonts_path(root: &PathBuf) -> (path: PathBuf)
    ensures
        path == joined_path(*root, "fonts"@),
{
    path_join(root, "fonts")
}

/// Where the entry file of a template lies: under its name in the
/// template's directory.
pub fn entry_path(root: &PathBuf) -> (path: PathBuf)
    ensures
        path == joined_path(*root, entry_name()),
{
    path_join(root, entry_file())
}

/// Compiles templates into documents.
pub struct TemplateCompiler {
    typst_engine: TypstEngine,
}

/// What is wrong with the template directory for the file resolver, given
/// whether it is a directory and whether its `packages` entry is one;
/// `None` where nothing is.
pub open spec fn resolver_failure(template_is_dir: bool, packages_is_dir: bool) -> Option<
    RunErrorView,
> {
    if !template_is_dir {
        Some(
            plain_error(
                ErrorKind::Configuration,
                "the template directory is not a valid directory or does not exist"@,
            ),
        )
    } else if !packages_is_dir {
        Some(
            plain_error(
                ErrorKind::Configuration,
                "the template directory does not contain a 'packages' subdirectory"@,
            ),
        )
    } else {
        None
    }
}

/// What is wrong with the template directory for the fonts, given whether
/// its `fonts` entry is a directory; `None` where nothing is.
pub open spec fn fonts_failure(fonts_is_dir: bool) -> Option<RunErrorView> {
    if !fonts_is_dir {
        Some(
            plain_error(
                ErrorKind::Configuration,
                "the template directory does not contain a 'fonts' subdirectory"@,
            ),
        )
    } else {
        None
    }
}

/// What is wrong with the template directory for the entry file, given
/// whether its `template.typ` entry is a regular file; `None` where nothing
/// is.
pub open spec fn entry_failure(entry_is_file: bool) -> Option<RunErrorView> {
    if !entry_is_file {
        Some(
            plain_error(
                ErrorKind::Configuration,
                "the template directory does not contain a 'template.typ' file"@,
            ),
        )
    } else {
        None
    }
}

/// What is wrong with the template directory, given what the file system
/// said of it and of its three parts: the first of the failures of the file
/// resolver, the fonts and the entry file, each resolver's under its
/// context; `None` where nothing is.
pub open spec fn template_failure(
    template_is_dir: bool,
    packages_is_dir: bool,
    fonts_is_dir: bool,
    entry_is_file: bool,
) -> Option<RunErrorView> {
    match resolver_failure(template_is_dir, packages_is_dir) {
        Some(failure) => Some(within(failure, "could not build template file resolver"@)),
        None => match fonts_failure(fonts_is_dir) {
            Some(failure) => Some(within(failure, "could not build font resolver"@)),
            None => entry_failure(entry_is_file),
        },
    }
}

/// Decides on the template directory for the file resolver.
pub fn resolver_verdict(template_is_dir: bool, packages_is_dir: bool) -> (checked: Result<
    (),
    RunError,
>)
    ensures
        is_outcome(checked, resolver_failure(template_is_dir, packages_is_dir)),
{
    if !template_is_dir {
        let message = String::from_str(
            "the template directory is not a valid directory or does not exist",
        );
        return Err(RunError::new(ErrorKind::Configuration, message));
    }
    if !packages_is_dir {
        let message = String::from_str(
            "the template directory does not contain a 'packages' subdirectory",
        );
        return Err(RunError::new(ErrorKind::Configuration, message));
    }
    Ok(())
}

/// Decides on the template directory for the fonts.
pub fn fonts_verdict(fonts_is_dir: bool) -> (checked: Result<(), RunError>)
    ensures
        is_outcome(checked, fonts_failure(fonts_is_dir)),
{
    if !fonts_is_dir {
        let message = String::from_str(
            "the template directory does not contain a 'fonts' subdirectory",
        );
        return Err(RunError::new(ErrorKind::Configuration, message));
    }
    Ok(())
}

/// Decides on the template directory for the entry file.
pub fn entry_verdict(entry_is_file: bool) -> (checked: Result<(), RunError>)
    ensures
        is_outcome(checked, entry_failure(entry_is_file)),
{
    if !entry_is_file {
        let message = String::from_str(
            "the template directory does not contain a 'template.typ' file",
        );
        return Err(RunError::new(ErrorKind::Configuration, message));
    }
    Ok(())
}

/// The error for an input that the engine could not compile.
pub open spec fn compile_failure(cause: Seq<char>) -> RunErrorView {
    RunErrorView {
        kind: ErrorKind::Render,
        message: cause,
        context: seq!["document generation failed with the provided input data"@],
    }
}

/// The error for a document that could not be exported.
pub open spec fn export_failure(cause: Seq<char>) -> RunErrorView {
    RunErrorView {
        kind: ErrorKind::Render,
        message: cause,
        context: seq!["could not generate the PDF from the generated document"@],
    }
}

/// Whether `error` says that the engine could not compile, for `cause`: a
/// `Render` error whose message is the engine's diagnostic, as the cause
/// prints it.
pub open spec fn is_compile_failure(error: RunErrorView, cause: TypstAsLibError) -> bool {
    &&& error == compile_failure(error.message)
    &&& is_printed(cause, error.message)
}

/// Whether an error says that the engine failed, at either step: at the
/// compile step with the diagnostic of some cause, or at the export.
pub open spec fn is_render_failure(error: RunErrorView) -> bool {
    ||| exists|cause: TypstAsLibError| #[trigger] is_compile_failure(error, cause)
    ||| exists|cause: Seq<char>| error == #[trigger] export_failure(cause)
}

/// What a compile step comes to: the document as it is, or a `Render`
/// error with the engine's diagnostic.
pub fn compile_outcome(compiled: Result<PagedDocument, TypstAsLibError>) -> (checked: Result<
    PagedDocument,
    RunError,
>)
    ensures
        match compiled {
            Ok(document) => checked == Ok::<PagedDocument, RunError>(document),
            Err(cause) => checked matches Err(e) && is_compile_failure(e@, cause),
        },
{
    match compiled {
        Ok(document) => Ok(document),
        Err(cause) => {
            let words = cause.to_string();
            assert(is_printed(cause, words@));
            let error = RunError::new(ErrorKind::Render, words);
            let error = error.with_context(
                "document generation failed with the provided input data",
            );
            assert(error@.context =~= compile_failure(error@.message).context);
            Err(error)
        },
    }
}

/// What an export comes to: the bytes as they are, or a `Render` error with
/// the engine's diagnostics.
pub fn export_outcome(exported: Result<Vec<u8>, String>) -> (rendered: Result<Vec<u8>, RunError>)
    ensures
        match exported {
            Ok(bytes) => rendered == Ok::<Vec<u8>, RunError>(bytes),
            Err(cause) => rendered matches Err(e) && e@ == export_failure(cause@),
        },
{
    match exported {
        Ok(bytes) => Ok(bytes),
        Err(cause) => {
            let error = RunError::new(ErrorKind::Render, cause);
            Err(error.with_context("could not generate the PDF from the generated document"))
        },
    }
}

impl TemplateCompiler {
    /// Builds the compiler for the configured template directory, which
    /// must hold the entry file `template.typ` and the directories `fonts`
    /// and `packages`.
    ///
    /// Whatever the file system answers, an error is the failure that
    /// [`template_failure`] gives for those answers, and there is none
    /// where it gives none.
    pub fn from_config(config: &Config) -> (built: Result<TemplateCompiler, RunError>)
        ensures
            exists|template_is_dir: bool, packages_is_dir: bool, fonts_is_dir: bool, entry_is_file: bool|
                is_outcome(
                    built,
                    #[trigger] template_failure(
                        template_is_dir,
                        packages_is_dir,
                        fonts_is_dir,
                        entry_is_file,
                    ),
                ),
    {
        let resolved = TemplateCompiler::build_file_resolver(config);
        let ghost (template_is_dir, packages_is_dir) = choose|t: bool, p: bool|
            is_outcome(resolved, #[trigger] resolver_failure(t, p));
        let file_resolver = match resolved {
            Err(error) => {
                let error = error.with_context("could not build template file resolver");
                assert(is_outcome(
                    Err::<TemplateCompiler, RunError>(error),
                    template_failure(template_is_dir, packages_is_dir, true, true),
                ));
                return Err(error);
            },
            Ok(file_resolver) => file_resolver,
        };
        let searched = TemplateCompiler::build_fonts_resolver(config);
        let ghost fonts_is_dir = choose|f: bool| is_outcome(searched, #[trigger] fonts_failure(f));
        let fonts_resolver = match searched {
            Err(error) => {
                let error = error.with_context("could not build font resolver");
                assert(is_outcome(
                    Err::<TemplateCompiler, RunError>(error),
                    template_failure(template_is_dir, packages_is_dir, fonts_is_dir, true),
                ));
                return Err(error);
            },
            Ok(fonts_resolver) => fonts_resolver,
        };
        let template_file = entry_path(&template_root(config));
        let entry_is_file = path_is_file(&template_file);
        let built = match entry_verdict(entry_is_file) {
            Err(error) => Err(error),
            Ok(()) => {
                let typst_engine = build_engine(
                    file_resolver,
                    config.picture_dir.as_str(),
                    fonts_resolver,
                );
                Ok(TemplateCompiler { typst_engine })
            },
        };
        assert(is_outcome(
            built,
            template_failure(template_is_dir, packages_is_dir, fonts_is_dir, entry_is_file),
        ));
        built
    }

    /// The resolver for the files of the template directory and of its
    /// `packages` directory.
    pub fn build_file_resolver(config: &Config) -> (built: Result<FileSystemResolver, RunError>)
        ensures
            exists|template_is_dir: bool, packages_is_dir: bool|
                is_outcome(built, #[trigger] resolver_failure(template_is_dir, packages_is_dir)),
    {
        let template_path = template_root(config);
        let template_is_dir = path_is_dir(&template_path);
        let package_path = packages_path(&template_path);
        let packages_is_dir = path_is_dir(&package_path);
        match resolver_verdict(template_is_dir, packages_is_dir) {
            Err(error) => Err(error),
            Ok(()) => Ok(file_system_resolver(template_path, package_path)),
        }
    }

    /// The font options that search the `fonts` directory of the template
    /// directory.
    pub fn build_fonts_resolver(config: &Config) -> (built: Result<TypstKitFontOptions, RunError>)
        ensures
            exists|fonts_is_dir: bool| is_outcome(built, #[trigger] fonts_failure(fonts_is_dir)),
    {
        let fonts_dir = fonts_path(&template_root(config));
        let fonts_is_dir = path_is_dir(&fonts_dir);
        match fonts_verdict(fonts_is_dir) {
            Err(error) => Err(error),
            Ok(()) => Ok(font_options(fonts_dir)),
        }
    }

    /// Compiles the template's entry file with the roster as its input and
    /// exports the document as PDF. What comes back is the file as the
    /// engine wrote it, which begins with the PDF header. A failure of
    /// either step is a `Render` error with the engine's diagnostics.
    pub fn generate_pdf(&self, template_inputs: TemplateInputs) -> (rendered: Result<
        Vec<u8>,
        RunError,
    >)
        ensures
            match rendered {
                Ok(bytes) => is_pdf_file(bytes@),
                Err(e) => is_render_failure(e@),
            },
    {
        let inputs = template_inputs.to_dict();
        let compiled = compile_document(&self.typst_engine, entry_file(), inputs);
        match compile_outcome(compiled) {
            Err(error) => Err(error),
            Ok(document) => {
                let exported = export_pdf(&document);
                let rendered = export_outcome(exported);
                assert(rendered matches Err(e) ==> e@ == export_failure(e@.message));
                rendered
            },
        }
    }
}

} // verus!
