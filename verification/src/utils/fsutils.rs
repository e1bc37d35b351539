//! Paths and what is known about the files behind them.
//!
//! Paths are texts. They are taken apart and put together by `std::path`,
//! by the rules of the platform that the library is built for; the library
//! decides what to do with the parts. Reading and writing the files
//! themselves is left to the program.

use vstd::prelude::*;
use vstd::string::StringExecFns;
use crate::constants::paths::APP_DATA_DIR_DEV_SUFFIX;
use crate::constants::paths::APP_DATA_DIR_NAME;
use crate::models::server_error::ServerError;
use crate::models::server_error::ServerErrorView;
use crate::utils::time::format_rfc3339_millis;
use crate::utils::time::rfc3339_millis;
use crate::utils::time::Timestamp;

verus! {

/// Said when a path names no file.
pub const NO_FILE_NAME: &'static str = "file_name not available!";

/// Said when a path has no parent.
pub const NO_PARENT: &'static str = "parent_path invalid!";

/// Said when the home directory is not known.
pub const NO_HOME_DIR: &'static str = "Home directory unavailable!";

/// The extension of markdown files.
pub const MARKDOWN_EXTENSION: &'static str = "md";

/// The type given to markdown files.
pub const MARKDOWN_TYPE: &'static str = "markdown";

/// The value of the debug level that asks for a data directory of its own.
pub const DEBUG_LEVEL_DEV: &'static str = "1";

/// What `std::path::Path::file_name` gives for `path`: the last component,
/// if it is a normal one.
pub uninterp spec fn path_file_name(path: Seq<char>) -> Option<Seq<char>>;

/// What `std::path::Path::parent` gives for `path`: the path without its
/// last component, if it has one that is not the root.
pub uninterp spec fn path_parent(path: Seq<char>) -> Option<Seq<char>>;

/// What `std::path::Path::extension` gives for `path`.
pub uninterp spec fn path_extension(path: Seq<char>) -> Option<Seq<char>>;

/// The last of the components that `std::path::Path::components` gives for
/// `path`, as text.
pub uninterp spec fn path_last_component(path: Seq<char>) -> Option<Seq<char>>;

/// What `std::path::Path::strip_prefix` gives for `path` and `base`: the
/// rest of `path` where `base` is a prefix of it, component by component.
pub uninterp spec fn path_strip_prefix(path: Seq<char>, base: Seq<char>) -> Option<Seq<char>>;

/// What `std::path::Path::join` gives for `base` and `name`.
pub uninterp spec fn path_join(base: Seq<char>, name: Seq<char>) -> Seq<char>;

/// Calls `std::path::Path::file_name` on the path that `path` spells out and
/// takes the name as text. The contract only names what comes back.
#[verifier::external_body]
pub(crate) fn file_name(path: &str) -> (name: Option<String>)
    ensures
        name.deep_view() == path_file_name(path@),
{
    match std::path::Path::new(path).file_name() {
        Some(name) => Some(name.to_string_lossy().into_owned()),
        None => None,
    }
}

/// Calls `std::path::Path::parent` on the path that `path` spells out and
/// takes the parent as text. The contract only names what comes back.
#[verifier::external_body]
pub(crate) fn parent(path: &str) -> (parent: Option<String>)
    ensures
        parent.deep_view() == path_parent(path@),
{
    match std::path::Path::new(path).parent() {
        Some(parent) => Some(parent.to_string_lossy().into_owned()),
        None => None,
    }
}

/// Calls `std::path::Path::extension` on the path that `path` spells out and
/// takes the extension as text. The contract only names what comes back.
#[verifier::external_body]
pub(crate) fn extension(path: &str) -> (extension: Option<String>)
    ensures
        extension.deep_view() == path_extension(path@),
{
    match std::path::Path::new(path).extension() {
        Some(extension) => Some(extension.to_string_lossy().into_owned()),
        None => None,
    }
}

/// Calls `std::path::Path::components` on the path that `path` spells out
/// and takes the last component as text. The contract only names what comes
/// back.
#[verifier::external_body]
pub(crate) fn last_component(path: &str) -> (component: Option<String>)
    ensures
        component.deep_view() == path_last_component(path@),
{
    match std::path::Path::new(path).components().last() {
        Some(component) => Some(component.as_os_str().to_string_lossy().into_owned()),
        None => None,
    }
}

/// Calls `std::path::Path::strip_prefix` on the paths that `path` and `base`
/// spell out and takes the rest as text; an error becomes `None`. The
/// contract only names what comes back.
#[verifier::external_body]
pub(crate) fn strip_prefix(path: &str, base: &str) -> (rest: Option<String>)
    ensures
        rest.deep_view() == path_strip_prefix(path@, base@),
{
    match std::path::Path::new(path).strip_prefix(base) {
        Ok(rest) => Some(rest.to_string_lossy().into_owned()),
        Err(_) => None,
    }
}

/// Calls `std::path::Path::join` on the paths that `base` and `name` spell
/// out and takes the result as text. The contract only names what comes back.
#[verifier::external_body]
pub(crate) fn join(base: &str, name: &str) -> (path: String)
    ensures
        path@ == path_join(base@, name@),
{
    std::path::Path::new(base).join(name).to_string_lossy().into_owned()
}

/// The type of a file with the given extension: `markdown` for `md`, none
/// otherwise.
pub open spec fn file_type_of(extension: Option<Seq<char>>) -> Option<Seq<char>> {
    if extension == Some(MARKDOWN_EXTENSION@) {
        Some(MARKDOWN_TYPE@)
    } else {
        None
    }
}

/// The type of a file with the given extension.
pub fn file_type(extension: &Option<String>) -> (file_type: Option<String>)
    ensures
        file_type.deep_view() == file_type_of(extension.deep_view()),
{
    match extension {
        Some(found) => {
            if *found == MARKDOWN_EXTENSION.to_string() {
                Some(MARKDOWN_TYPE.to_string())
            } else {
                None
            }
        },
        None => None,
    }
}

/// The name of the directory that holds the file at `path`: the last
/// component of its parent.
pub open spec fn path_file_dir(path: Seq<char>) -> Option<Seq<char>> {
    match path_parent(path) {
        Some(parent) => path_last_component(parent),
        None => None,
    }
}

/// The name of the directory that holds the file at `path`.
fn file_dir(path: &str) -> (dir: Option<String>)
    ensures
        dir.deep_view() == path_file_dir(path@),
{
    match parent(path) {
        Some(parent) => last_component(parent.as_str()),
        None => None,
    }
}

/// The application's data directory: `.mediocre` below the home directory,
/// with `dev` appended to its name where the debug level is `1`.
pub open spec fn app_root_dir(home: Seq<char>, debug_level: Seq<char>) -> Seq<char> {
    if debug_level == DEBUG_LEVEL_DEV@ {
        path_join(home, APP_DATA_DIR_NAME@) + APP_DATA_DIR_DEV_SUFFIX@
    } else {
        path_join(home, APP_DATA_DIR_NAME@)
    }
}

/// The path of the application's data directory, given the home directory
/// and the debug level. Without a home directory there is none.
pub fn get_app_root_dir_path(home_dir: Option<&str>, debug_level: &str) -> (path: Result<
    String,
    ServerError,
>)
    ensures
        match home_dir {
            Some(home) => path matches Ok(root) && root@ == app_root_dir(home@, debug_level@),
            None => path matches Err(error) && error@ == (ServerErrorView::UserError {
                message: NO_HOME_DIR@,
            }),
        },
{
    match home_dir {
        Some(home) => {
            let mut root = join(home, APP_DATA_DIR_NAME);
            if debug_level.to_string() == DEBUG_LEVEL_DEV.to_string() {
                root.append(APP_DATA_DIR_DEV_SUFFIX);
            }
            Ok(root)
        },
        None => Err(ServerError::UserError { message: NO_HOME_DIR.to_string() }),
    }
}

/// The directory that has to exist before `path` is written: its parent, or
/// `default_path` where it has none.
pub fn write_to_path(path: &str, default_path: &str) -> (dir: String)
    ensures
        dir@ == match path_parent(path@) {
            Some(parent) => parent,
            None => default_path@,
        },
{
    match parent(path) {
        Some(parent) => parent,
        None => default_path.to_string(),
    }
}

/// The path that a file gets when it is renamed to `new_file_name`: the new
/// name joined to the old parent. A path without a parent cannot be renamed.
pub fn rename_file(path: &str, new_file_name: &str) -> (new_path: Result<String, ServerError>)
    ensures
        match path_parent(path@) {
            Some(parent) => new_path matches Ok(renamed) && renamed@ == path_join(
                parent,
                new_file_name@,
            ),
            None => new_path matches Err(error) && error@ == (ServerErrorView::UserError {
                message: NO_PARENT@,
            }),
        },
{
    match parent(path) {
        Some(parent) => Ok(join(parent.as_str(), new_file_name)),
        None => Err(ServerError::UserError { message: NO_PARENT.to_string() }),
    }
}

/// What is known about a file.
#[derive(Debug, Clone, PartialEq, Eq)]
pub struct FileMetaInfo {
    pub file_name: String,
    pub file_path: String,
    pub file_relative_path: Option<String>,
    pub file_dir: Option<String>,
    pub file_type: Option<String>,
    pub modified: Option<String>,
}

/// `FileMetaInfo` with its texts as sequences of characters.
pub struct FileMetaInfoView {
    pub file_name: Seq<char>,
    pub file_path: Seq<char>,
    pub file_relative_path: Option<Seq<char>>,
    pub file_dir: Option<Seq<char>>,
    pub file_type: Option<Seq<char>>,
    pub modified: Option<Seq<char>>,
}

impl DeepView for FileMetaInfo {
    type V = FileMetaInfoView;

    open spec fn deep_view(&self) -> FileMetaInfoView {
        FileMetaInfoView {
            file_name: self.file_name@,
            file_path: self.file_path@,
            file_relative_path: self.file_relative_path.deep_view(),
            file_dir: self.file_dir.deep_view(),
            file_type: self.file_type.deep_view(),
            modified: self.modified.deep_view(),
        }
    }
}

/// A file that was found on disk: its path and, where known, the time of its
/// last modification.
#[derive(Debug, Clone, PartialEq, Eq)]
pub struct FileEntry {
    pub path: String,
    pub modified: Option<Timestamp>,
}

/// `FileEntry` with its path as a sequence of characters.
pub struct FileEntryView {
    pub path: Seq<char>,
    pub modified: Option<Timestamp>,
}

impl DeepView for FileEntry {
    type V = FileEntryView;

    open spec fn deep_view(&self) -> FileEntryView {
        FileEntryView { path: self.path@, modified: self.modified }
    }
}

/// What is known about a file, given the parts of its path and the time of
/// its last modification as text.
pub open spec fn meta_info(
    name: Seq<char>,
    path: Seq<char>,
    relative_path: Option<Seq<char>>,
    dir: Option<Seq<char>>,
    extension: Option<Seq<char>>,
    modified: Option<Seq<char>>,
) -> FileMetaInfoView {
    FileMetaInfoView {
        file_name: name,
        file_path: path,
        file_relative_path: relative_path,
        file_dir: dir,
        file_type: file_type_of(extension),
        modified,
    }
}

/// What is known about a file, given the parts of its path and the time of
/// its last modification as text. The type goes by the extension; the rest
/// is taken as given.
pub fn describe(
    name: String,
    path: &str,
    relative_path: Option<String>,
    dir: Option<String>,
    extension: Option<String>,
    modified: Option<String>,
) -> (info: FileMetaInfo)
    ensures
        info.deep_view() == meta_info(
            name@,
            path@,
            relative_path.deep_view(),
            dir.deep_view(),
            extension.deep_view(),
            modified.deep_view(),
        ),
{
    FileMetaInfo {
        file_name: name,
        file_path: path.to_string(),
        file_relative_path: relative_path,
        file_dir: dir,
        file_type: file_type(&extension),
        modified,
    }
}

/// The time of the last modification as text, where it is known and can be
/// written down.
pub open spec fn modified_text(modified: Option<Timestamp>) -> Option<Seq<char>> {
    match modified {
        Some(at) => rfc3339_millis(at.secs, at.nanos),
        None => None,
    }
}

/// What is known about the file at `path` under the name `name`: its path
/// relative to `base_path` where it lies below it, the name of its
/// directory, its type, and the time of its last modification.
pub open spec fn path_meta_info(
    name: Seq<char>,
    path: Seq<char>,
    base_path: Seq<char>,
    modified: Option<Timestamp>,
) -> FileMetaInfoView {
    meta_info(
        name,
        path,
        path_strip_prefix(path, base_path),
        path_file_dir(path),
        path_extension(path),
        modified_text(modified),
    )
}

/// The time of the last modification as text.
fn modified_message(modified: Option<Timestamp>) -> (text: Option<String>)
    ensures
        text.deep_view() == modified_text(modified),
{
    match modified {
        Some(at) => format_rfc3339_millis(at.secs, at.nanos),
        None => None,
    }
}

/// What is known about the file at `path` under the name `name`.
fn describe_path(name: String, path: &str, base_path: &str, modified: Option<Timestamp>) -> (info:
    FileMetaInfo)
    ensures
        info.deep_view() == path_meta_info(name@, path@, base_path@, modified),
{
    describe(
        name,
        path,
        strip_prefix(path, base_path),
        file_dir(path),
        extension(path),
        modified_message(modified),
    )
}

/// Get file meta info for the file at `path`, with its path relative to
/// `base_path` where it lies below it. A path that names no file is the
/// user's error.
pub fn get_file_meta_from_path(path: &str, base_path: &str, modified: Option<Timestamp>) -> (info:
    Result<FileMetaInfo, ServerError>)
    ensures
        match path_file_name(path@) {
            Some(name) => info matches Ok(found) && found.deep_view() == path_meta_info(
                name,
                path@,
                base_path@,
                modified,
            ),
            None => info matches Err(error) && error@ == (ServerErrorView::UserError {
                message: NO_FILE_NAME@,
            }),
        },
{
    match file_name(path) {
        Some(name) => Ok(describe_path(name, path, base_path, modified)),
        None => Err(ServerError::UserError { message: NO_FILE_NAME.to_string() }),
    }
}

/// The name under which a file that was found on disk is listed: its file
/// name, or its whole path where that names no file.
pub open spec fn listed_name(path: Seq<char>) -> Seq<char> {
    match path_file_name(path) {
        Some(name) => name,
        None => path,
    }
}

/// What is listed for one file that was found on disk.
pub open spec fn listed(entry: FileEntryView, base_path: Seq<char>) -> FileMetaInfoView {
    path_meta_info(listed_name(entry.path), entry.path, base_path, entry.modified)
}

/// Get the meta info of all the files that were found, in the order in which
/// they were found.
pub fn get_all_files_meta_from_path(files: &Vec<FileEntry>, base_path: &str) -> (infos: Vec<
    FileMetaInfo,
>)
    ensures
        infos.deep_view() == files.deep_view().map_values(
            |entry: FileEntryView| listed(entry, base_path@),
        ),
{
    let mut infos: Vec<FileMetaInfo> = Vec::new();
    let mut i: usize = 0;
    while i < files.len()
        invariant
            i <= files.len(),
            infos.len() == i,
            forall|j: int|
                0 <= j < i ==> (#[trigger] infos[j]).deep_view() == listed(
                    files[j].deep_view(),
                    base_path@,
                ),
        decreases files.len() - i,
    {
        let entry = &files[i];
        let name = match file_name(entry.path.as_str()) {
            Some(name) => name,
            None => entry.path.clone(),
        };
        infos.push(describe_path(name, entry.path.as_str(), base_path, entry.modified));
        i += 1;
    }
    assert(infos.deep_view() =~= files.deep_view().map_values(
        |entry: FileEntryView| listed(entry, base_path@),
    ));
    infos
}

} // verus!
