//! A path parted into the directory to watch and the name to look for.

use vstd::prelude::*;
use vstd::string::*;

verus! {

/// The directory of a file, made canonical, and the file's name in it.
#[derive(Debug)]
pub struct FilePath {
    /// The canonical path of the directory; never empty.
    pub directory: String,
    /// The last part of the path; never empty.
    pub filename: String,
}

/// A `FilePath` with its strings as sequences of characters.
pub struct FilePathView {
    pub directory: Seq<char>,
    pub filename: Seq<char>,
}

impl View for FilePath {
    type V = FilePathView;

    open spec fn view(&self) -> FilePathView {
        FilePathView { directory: self.directory@, filename: self.filename@ }
    }
}

/// Why a path could not be parted.
#[derive(Debug)]
pub enum PathError {
    /// The path has no part before its last one.
    NoDirectory,
    /// The directory could not be made canonical; `reason` is the
    /// system's word on it.
    DirectoryNotResolved { reason: String },
    /// The canonical directory is no valid text.
    DirectoryNotText,
    /// The canonical directory is the empty string.
    DirectoryEmpty,
    /// The path ends in no file name.
    NoFileName,
    /// The file name is the empty string.
    FileNameEmpty,
}

/// A `PathError` with its string as a sequence of characters.
pub enum PathErrorView {
    NoDirectory,
    DirectoryNotResolved { reason: Seq<char> },
    DirectoryNotText,
    DirectoryEmpty,
    NoFileName,
    FileNameEmpty,
}

impl View for PathError {
    type V = PathErrorView;

    open spec fn view(&self) -> PathErrorView {
        match self {
            PathError::NoDirectory => PathErrorView::NoDirectory,
            PathError::DirectoryNotResolved { reason } => PathErrorView::DirectoryNotResolved {
                reason: reason@,
            },
            PathError::DirectoryNotText => PathErrorView::DirectoryNotText,
            PathError::DirectoryEmpty => PathErrorView::DirectoryEmpty,
            PathError::NoFileName => PathErrorView::NoFileName,
            PathError::FileNameEmpty => PathErrorView::FileNameEmpty,
        }
    }
}

impl PathErrorView {
    /// The sentence that reports this error.
    pub open spec fn message(self) -> Seq<char> {
        match self {
            PathErrorView::NoDirectory => "Unable to get directory name from file path"@,
            PathErrorView::DirectoryNotResolved { reason } => "Error parsing directory path: "@
                + reason,
            PathErrorView::DirectoryNotText => "Unable to convert directory name to string"@,
            PathErrorView::DirectoryEmpty => "Directory name is empty"@,
            PathErrorView::NoFileName => "Unable to get file name from file path"@,
            PathErrorView::FileNameEmpty => "File name is empty"@,
        }
    }
}

impl PathError {
    /// The sentence that reports this error.
    pub fn message(&self) -> (text: String)
        ensures
            text@ == self@.message(),
    {
        match self {
            PathError::NoDirectory => String::from_str(
                "Unable to get directory name from file path",
            ),
            PathError::DirectoryNotResolved { reason } => {
                let mut text = String::from_str("Error parsing directory path: ");
                text.append(reason.as_str());
                text
            },
            PathError::DirectoryNotText => String::from_str(
                "Unable to convert directory name to string",
            ),
            PathError::DirectoryEmpty => String::from_str("Directory name is empty"),
            PathError::NoFileName => String::from_str("Unable to get file name from file path"),
            PathError::FileNameEmpty => String::from_str("File name is empty"),
        }
    }
}

/// What `std::path::Path::parent` gives for the path `path`: the path
/// without its last part, or `None` where it has no such part.
pub uninterp spec fn path_parent(path: Seq<char>) -> Option<Seq<char>>;

/// What `std::path::Path::file_name` gives for the path `path`: its last
/// part, or `None` where the path ends in `..` or in a root.
pub uninterp spec fn path_file_name(path: Seq<char>) -> Option<Seq<char>>;

/// An optional string as an optional sequence of characters.
pub open spec fn optional_string_view(text: Option<String>) -> Option<Seq<char>> {
    match text {
        Some(text) => Some(text@),
        None => None,
    }
}

/// The outcome of making a directory canonical, with its strings as
/// sequences of characters.
pub open spec fn resolved_view(resolved: Result<Option<String>, String>) -> Result<
    Option<Seq<char>>,
    Seq<char>,
> {
    match resolved {
        Ok(directory) => Ok(optional_string_view(directory)),
        Err(reason) => Err(reason@),
    }
}

/// A string or an error, both with their strings as sequences.
pub open spec fn text_result_view(result: Result<String, PathError>) -> Result<
    Seq<char>,
    PathErrorView,
> {
    match result {
        Ok(text) => Ok(text@),
        Err(error) => Err(error@),
    }
}

/// A parted path or an error, both with their strings as sequences.
pub open spec fn file_path_result_view(result: Result<FilePath, PathError>) -> Result<
    FilePathView,
    PathErrorView,
> {
    match result {
        Ok(path) => Ok(path@),
        Err(error) => Err(error@),
    }
}

/// Calls `std::path::Path::parent` on `filepath`. Assumed: the result,
/// with the path as text, is `path_parent` of the characters of `filepath`.
#[verifier::external_body]
fn parent_of(filepath: &str) -> (parent: Option<String>)
    ensures
        optional_string_view(parent) == path_parent(filepath@),
{
    std::path::Path::new(filepath).parent()?.to_str().map(String::from)
}

/// Calls `std::path::Path::file_name` on `filepath`. Assumed: the result,
/// as text, is `path_file_name` of the characters of `filepath`.
#[verifier::external_body]
pub(crate) fn file_name_of(filepath: &str) -> (name: Option<String>)
    ensures
        optional_string_view(name) == path_file_name(filepath@),
{
    std::path::Path::new(filepath).file_name()?.to_str().map(String::from)
}

/// Calls `std::path::Path::canonicalize` on `directory`, which asks the
/// file system. Nothing is assumed of the outcome. `Ok(None)` stands for a
/// canonical path that is no valid text, and an error is handed out as the
/// sentence that the system gives for it.
#[verifier::external_body]
fn canonical_directory(directory: &str) -> (resolved: Result<Option<String>, String>) {
    match std::path::Path::new(directory).canonicalize() {
        Ok(path) => Ok(path.to_str().map(String::from)),
        Err(error) => Err(error.to_string()),
    }
}

/// The directory that the current directory goes by.
pub const CURRENT_DIRECTORY: &'static str = ".";

/// The directory that is made canonical for a path whose parent is
/// `parent`: the parent, or the current directory where the parent is
/// empty, as it is for a file name alone.
pub open spec fn directory_to_resolve(parent: Seq<char>) -> Seq<char> {
    if parent.len() == 0 {
        CURRENT_DIRECTORY@
    } else {
        parent
    }
}

/// The directory that comes of a path whose parent is `parent`, where
/// `resolved` is the outcome of making `directory_to_resolve` of that
/// parent canonical.
pub open spec fn directory_of(
    parent: Option<Seq<char>>,
    resolved: Result<Option<Seq<char>>, Seq<char>>,
) -> Result<Seq<char>, PathErrorView> {
    match parent {
        None => Err(PathErrorView::NoDirectory),
        Some(_) => match resolved {
            Err(reason) => Err(PathErrorView::DirectoryNotResolved { reason }),
            Ok(None) => Err(PathErrorView::DirectoryNotText),
            Ok(Some(directory)) => if directory.len() == 0 {
                Err(PathErrorView::DirectoryEmpty)
            } else {
                Ok(directory)
            },
        },
    }
}

/// The file name that comes of a path whose last part is `name`.
pub open spec fn filename_of(name: Option<Seq<char>>) -> Result<Seq<char>, PathErrorView> {
    match name {
        None => Err(PathErrorView::NoFileName),
        Some(name) => if name.len() == 0 {
            Err(PathErrorView::FileNameEmpty)
        } else {
            Ok(name)
        },
    }
}

/// The parted path that comes of `filepath` where `resolved` is the outcome
/// of making its parent canonical. An error of the directory comes before
/// one of the file name.
pub open spec fn file_path_of(
    filepath: Seq<char>,
    resolved: Result<Option<Seq<char>>, Seq<char>>,
) -> Result<FilePathView, PathErrorView> {
    match directory_of(path_parent(filepath), resolved) {
        Err(error) => Err(error),
        Ok(directory) => match filename_of(path_file_name(filepath)) {
            Err(error) => Err(error),
            Ok(filename) => Ok(FilePathView { directory, filename }),
        },
    }
}

impl FilePath {
    /// Parts `filepath` into the canonical path of its directory and its
    /// file name. The directory has to exist, the file need not; a file
    /// name alone lies in the current directory. The directory is made
    /// canonical by the file system, so the result is `file_path_of` for
    /// whatever the file system answered.
    pub fn from(filepath: &str) -> (result: Result<FilePath, PathError>)
        ensures
            exists|resolved: Result<Option<Seq<char>>, Seq<char>>|
                file_path_result_view(result) == #[trigger] file_path_of(filepath@, resolved),
            path_parent(filepath@) is None ==> file_path_result_view(result) == Err::<
                FilePathView,
                PathErrorView,
            >(PathErrorView::NoDirectory),
            result is Ok ==> result->Ok_0.directory@.len() > 0 && filename_of(
                path_file_name(filepath@),
            ) == Ok::<Seq<char>, PathErrorView>(result->Ok_0.filename@),
    {
        let found = Self::get_directory(filepath);
        let ghost resolved = choose|resolved: Result<Option<Seq<char>>, Seq<char>>|
            text_result_view(found) == #[trigger] directory_of(path_parent(filepath@), resolved);
        let directory = match found {
            Ok(directory) => directory,
            Err(error) => {
                let result = Err(error);
                assert(file_path_result_view(result) == file_path_of(filepath@, resolved));
                return result;
            },
        };
        let filename = match Self::get_filename(filepath) {
            Ok(filename) => filename,
            Err(error) => {
                let result = Err(error);
                assert(file_path_result_view(result) == file_path_of(filepath@, resolved));
                return result;
            },
        };
        let result = Ok(FilePath { directory, filename });
        assert(file_path_result_view(result) == file_path_of(filepath@, resolved));
        result
    }

    /// The directory to make canonical for a path whose parent is
    /// `parent`: a file name alone lies in the current directory.
    pub fn directory_to_resolve<'a>(parent: &'a str) -> (directory: &'a str)
        ensures
            directory@ == directory_to_resolve(parent@),
    {
        if parent.is_empty() {
            CURRENT_DIRECTORY
        } else {
            parent
        }
    }

    /// The canonical directory of `filepath`, as the file system gives it
    /// for the parent of `filepath`, or for the current directory where
    /// `filepath` is a file name alone.
    pub fn get_directory(filepath: &str) -> (result: Result<String, PathError>)
        ensures
            exists|resolved: Result<Option<Seq<char>>, Seq<char>>|
                text_result_view(result) == #[trigger] directory_of(
                    path_parent(filepath@),
                    resolved,
                ),
    {
        let parent = parent_of(filepath);
        let resolved = match &parent {
            Some(directory) => canonical_directory(Self::directory_to_resolve(directory.as_str())),
            None => Ok(None),
        };
        let result = Self::directory_from(parent, resolved);
        assert(text_result_view(result) == directory_of(
            path_parent(filepath@),
            resolved_view(resolved),
        ));
        result
    }

    /// The directory of a path whose parent is `parent`, where `resolved`
    /// is the outcome of making the parent canonical: the canonical path
    /// where there is one and it is not empty, else the error that says
    /// what is missing.
    pub fn directory_from(
        parent: Option<String>,
        resolved: Result<Option<String>, String>,
    ) -> (result: Result<String, PathError>)
        ensures
            text_result_view(result) == directory_of(
                optional_string_view(parent),
                resolved_view(resolved),
            ),
    {
        if parent.is_none() {
            return Err(PathError::NoDirectory);
        }
        match resolved {
            Err(reason) => Err(PathError::DirectoryNotResolved { reason }),
            Ok(None) => Err(PathError::DirectoryNotText),
            Ok(Some(directory)) => {
                if directory.as_str().is_empty() {
                    Err(PathError::DirectoryEmpty)
                } else {
                    Ok(directory)
                }
            },
        }
    }

    /// The file name of `filepath`: its last part, which must be there and
    /// must not be empty.
    pub fn get_filename(filepath: &str) -> (result: Result<String, PathError>)
        ensures
            text_result_view(result) == filename_of(path_file_name(filepath@)),
    {
        Self::filename_from(file_name_of(filepath))
    }

    /// The file name of a path whose last part is `name`.
    pub fn filename_from(name: Option<String>) -> (result: Result<String, PathError>)
        ensures
            text_result_view(result) == filename_of(optional_string_view(name)),
    {
        match name {
            None => Err(PathError::NoFileName),
            Some(name) => {
                if name.as_str().is_empty() {
                    Err(PathError::FileNameEmpty)
                } else {
                    Ok(name)
                }
            },
        }
    }
}

} // verus!
