//! The answers of the commands that work on documents.
//!
//! Every command on a document is a filesystem operation: it asks the
//! coordinator for admission first and answers at once if another operation
//! is in flight.

use vstd::prelude::*;
use vstd::string::StrSliceExecFns;
use vstd::string::StringExecFns;
use crate::utils::fsutils::FileMetaInfo;
use crate::utils::sync_state_manager::SyncKind;

verus! {

/// What a command on a document says when it is turned away.
pub open spec fn busy_text(contender: SyncKind) -> Seq<char> {
    match contender {
        SyncKind::Cloud => "Cloud Sync in progress, Please re-try after some time!"@,
        SyncKind::Fs => "FileSystem sync in progress, Please re-try after some time!"@,
    }
}

/// What a command on a document says when it is turned away.
pub fn busy_message(contender: SyncKind) -> (message: String)
    ensures
        message@ == busy_text(contender),
{
    match contender {
        SyncKind::Cloud => "Cloud Sync in progress, Please re-try after some time!".to_string(),
        SyncKind::Fs => "FileSystem sync in progress, Please re-try after some time!".to_string(),
    }
}

/// The relative path `path` in the normal form that `relative-path` gives it:
/// without `.` components, and with each `..` resolved against the component
/// before it where there is one.
pub uninterp spec fn normalized_relative_path(path: Seq<char>) -> Seq<char>;

/// Calls `normalize` on the `relative_path::RelativePath` that `path` spells
/// out, and takes the result as text. The contract only names what comes
/// back: the normal form depends on the text alone.
#[verifier::external_body]
fn normalize_relative_path(path: &str) -> (normal: String)
    ensures
        normal@ == normalized_relative_path(path@),
{
    relative_path::RelativePath::new(path).normalize().into_string()
}

/// The path of a document whose normalized relative path is `normalized`,
/// below the documents directory `documents_dir`: the two joined by one `/`,
/// or the one that is not empty.
pub open spec fn placed_below(documents_dir: Seq<char>, normalized: Seq<char>) -> Seq<char> {
    if normalized.len() == 0 {
        documents_dir
    } else if documents_dir.len() == 0 {
        normalized
    } else {
        documents_dir + "/"@ + normalized
    }
}

/// The path of a document whose normalized relative path is `normalized`.
pub fn place_below(documents_dir: &str, normalized: &str) -> (path: String)
    ensures
        path@ == placed_below(documents_dir@, normalized@),
{
    if normalized.unicode_len() == 0 {
        documents_dir.to_string()
    } else if documents_dir.unicode_len() == 0 {
        normalized.to_string()
    } else {
        let mut path = String::from_str(documents_dir);
        path.append("/");
        path.append(normalized);
        path
    }
}

/// The path of the document that the window names by `relative_path`, below
/// the documents directory.
pub fn resolve_document_path(documents_dir: &str, relative_path: &str) -> (path: String)
    ensures
        path@ == placed_below(documents_dir@, normalized_relative_path(relative_path@)),
{
    let normalized = normalize_relative_path(relative_path);
    place_below(documents_dir, normalized.as_str())
}

/// The answer to a request for what is known about one document.
#[derive(Debug, Clone, PartialEq, Eq)]
pub struct FetchDocInfoResponse {
    pub file_meta_info: Option<FileMetaInfo>,
    /// `true` for success, `false` for failure.
    pub status: bool,
    /// Whether the window may offer another try.
    pub retry: bool,
    /// Success or error message.
    pub message: String,
}

impl FetchDocInfoResponse {
    /// The answer of a command that was turned away.
    pub fn busy(contender: SyncKind) -> (response: Self)
        ensures
            response.file_meta_info is None,
            !response.status,
            response.retry,
            response.message@ == busy_text(contender),
    {
        FetchDocInfoResponse {
            file_meta_info: None,
            status: false,
            retry: true,
            message: busy_message(contender),
        }
    }

    /// The answer that holds what is known about the document.
    pub fn success(file_meta_info: FileMetaInfo) -> (response: Self)
        ensures
            response.file_meta_info == Some(file_meta_info),
            response.status,
            !response.retry,
            response.message@ == "Success"@,
    {
        FetchDocInfoResponse {
            file_meta_info: Some(file_meta_info),
            status: true,
            retry: false,
            message: "Success".to_string(),
        }
    }
}

/// The answer to a request for what is known about all documents.
#[derive(Debug, Clone, PartialEq, Eq)]
pub struct FetchAllDocsInfoResponse {
    pub files_meta_info: Option<Vec<FileMetaInfo>>,
    /// `true` for success, `false` for failure.
    pub status: bool,
    /// Whether the window may offer another try.
    pub retry: bool,
    /// Success or error message.
    pub message: String,
}

impl FetchAllDocsInfoResponse {
    /// The answer of a command that was turned away.
    pub fn busy(contender: SyncKind) -> (response: Self)
        ensures
            response.files_meta_info is None,
            !response.status,
            response.retry,
            response.message@ == busy_text(contender),
    {
        FetchAllDocsInfoResponse {
            files_meta_info: None,
            status: false,
            retry: true,
            message: busy_message(contender),
        }
    }

    /// The answer that holds what is known about the documents.
    pub fn success(files_meta_info: Vec<FileMetaInfo>) -> (response: Self)
        ensures
            response.files_meta_info == Some(files_meta_info),
            response.status,
            !response.retry,
            response.message@ == "Success"@,
    {
        FetchAllDocsInfoResponse {
            files_meta_info: Some(files_meta_info),
            status: true,
            retry: false,
            message: "Success".to_string(),
        }
    }
}

/// The answer to a request to read a document.
#[derive(Debug, Clone, PartialEq, Eq)]
pub struct ReadDocumentResponse {
    /// `true` for success, `false` for failure.
    pub status: bool,
    /// The content of the document.
    pub content: String,
    /// Whether the window may offer another try.
    pub retry: bool,
    /// Success or error message.
    pub message: String,
}

impl ReadDocumentResponse {
    /// The answer of a command that was turned away.
    pub fn busy(contender: SyncKind) -> (response: Self)
        ensures
            !response.status,
            response.content@.len() == 0,
            response.retry,
            response.message@ == busy_text(contender),
    {
        ReadDocumentResponse {
            status: false,
            content: String::new(),
            retry: true,
            message: busy_message(contender),
        }
    }

    /// The answer that holds the content of the document.
    pub fn success(content: String) -> (response: Self)
        ensures
            response.status,
            response.content == content,
            !response.retry,
            response.message@ == "Success"@,
    {
        ReadDocumentResponse {
            status: true,
            content,
            retry: false,
            message: "Success".to_string(),
        }
    }
}

/// The answer to a request to write a document.
#[derive(Debug, Clone, PartialEq, Eq)]
pub struct WriteDocumentResponse {
    /// `true` for success, `false` for failure.
    pub status: bool,
    /// Whether the window may offer another try.
    pub retry: bool,
    /// Success or error message.
    pub message: String,
}

impl WriteDocumentResponse {
    /// The answer of a command that was turned away.
    pub fn busy(contender: SyncKind) -> (response: Self)
        ensures
            !response.status,
            response.retry,
            response.message@ == busy_text(contender),
    {
        WriteDocumentResponse { status: false, retry: true, message: busy_message(contender) }
    }

    /// The answer after the document was written.
    pub fn success() -> (response: Self)
        ensures
            response.status,
            !response.retry,
            response.message@ == "Success"@,
    {
        WriteDocumentResponse { status: true, retry: false, message: "Success".to_string() }
    }
}

/// The answer to a request to remove a document.
#[derive(Debug, Clone, PartialEq, Eq)]
pub struct RemoveDocumentResponse {
    /// `true` for success, `false` for failure.
    pub status: bool,
    /// Whether the window may offer another try.
    pub retry: bool,
    /// Success or error message.
    pub message: String,
}

impl RemoveDocumentResponse {
    /// The answer of a command that was turned away.
    pub fn busy(contender: SyncKind) -> (response: Self)
        ensures
            !response.status,
            response.retry,
            response.message@ == busy_text(contender),
    {
        RemoveDocumentResponse { status: false, retry: true, message: busy_message(contender) }
    }

    /// The answer after the document was removed.
    pub fn success() -> (response: Self)
        ensures
            response.status,
            !response.retry,
            response.message@ == "Success"@,
    {
        RemoveDocumentResponse { status: true, retry: false, message: "Success".to_string() }
    }
}

/// The answer to a request to rename a document.
#[derive(Debug, Clone, PartialEq, Eq)]
pub struct RenameDocumentResponse {
    /// `true` for success, `false` for failure.
    pub status: bool,
    /// Whether the window may offer another try.
    pub retry: bool,
    /// Success or error message.
    pub message: String,
}

impl RenameDocumentResponse {
    /// The answer of a command that was turned away.
    pub fn busy(contender: SyncKind) -> (response: Self)
        ensures
            !response.status,
            response.retry,
            response.message@ == busy_text(contender),
    {
        RenameDocumentResponse { status: false, retry: true, message: busy_message(contender) }
    }

    /// The answer after the document was renamed.
    pub fn success() -> (response: Self)
        ensures
            response.status,
            !response.retry,
            response.message@ == "Success"@,
    {
        RenameDocumentResponse { status: true, retry: false, message: "Success".to_string() }
    }
}

} // verus!
