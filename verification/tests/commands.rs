use mediocre::commands::cloud_sync::test_git_clone_ssh;
use mediocre::commands::docs::{
    busy_message, place_below, resolve_document_path, FetchAllDocsInfoResponse,
    FetchDocInfoResponse, ReadDocumentResponse, RemoveDocumentResponse, RenameDocumentResponse,
    WriteDocumentResponse,
};
use mediocre::commands::env::EnvResponse;
use mediocre::commands::fs::SaveFileToResponse;
use mediocre::commands::md_parser::{parse_md_to_mu, MarkdownOptions};
use mediocre::commands::test_commands::my_custom_command;
use mediocre::models::cloud_sync::CloudSync;
use mediocre::models::git::{GitCommand, GitOutcome, GitStep};
use mediocre::models::server_error::{map_to_server_error, ServerError};
use mediocre::models::sync_error::SyncError;
use mediocre::utils::error::error_to_string;
use mediocre::utils::fsutils::FileMetaInfo;
use mediocre::utils::sync_state_manager::SyncKind;
use mediocre::utils::window_event_manager::{WindowEvent, WindowEventType};

const CLOUD_BUSY: &str = "Cloud Sync in progress, Please re-try after some time!";
const FS_BUSY: &str = "FileSystem sync in progress, Please re-try after some time!";

fn info() -> FileMetaInfo {
    FileMetaInfo {
        file_name: "a.md".to_string(),
        file_path: "/r/documents/a.md".to_string(),
        file_relative_path: Some("documents/a.md".to_string()),
        file_dir: Some("documents".to_string()),
        file_type: Some("markdown".to_string()),
        modified: None,
    }
}

#[test]
fn a_document_command_names_the_contender() {
    assert_eq!(busy_message(SyncKind::Cloud), CLOUD_BUSY);
    assert_eq!(busy_message(SyncKind::Fs), FS_BUSY);
}

#[test]
fn fetch_doc_info_answers() {
    let busy = FetchDocInfoResponse::busy(SyncKind::Cloud);
    assert_eq!(
        busy,
        FetchDocInfoResponse {
            file_meta_info: None,
            status: false,
            retry: true,
            message: CLOUD_BUSY.to_string(),
        }
    );
    let done = FetchDocInfoResponse::success(info());
    assert_eq!(
        done,
        FetchDocInfoResponse {
            file_meta_info: Some(info()),
            status: true,
            retry: false,
            message: "Success".to_string(),
        }
    );
}

#[test]
fn fetch_all_docs_info_answers() {
    let busy = FetchAllDocsInfoResponse::busy(SyncKind::Fs);
    assert_eq!(
        busy,
        FetchAllDocsInfoResponse {
            files_meta_info: None,
            status: false,
            retry: true,
            message: FS_BUSY.to_string(),
        }
    );
    let done = FetchAllDocsInfoResponse::success(vec![info(), info()]);
    assert_eq!(done.files_meta_info, Some(vec![info(), info()]));
    assert!(done.status);
    assert!(!done.retry);
    assert_eq!(done.message, "Success");
}

#[test]
fn read_document_answers() {
    let busy = ReadDocumentResponse::busy(SyncKind::Cloud);
    assert_eq!(
        busy,
        ReadDocumentResponse {
            status: false,
            content: String::new(),
            retry: true,
            message: CLOUD_BUSY.to_string(),
        }
    );
    let done = ReadDocumentResponse::success("# Title".to_string());
    assert_eq!(
        done,
        ReadDocumentResponse {
            status: true,
            content: "# Title".to_string(),
            retry: false,
            message: "Success".to_string(),
        }
    );
}

#[test]
fn write_remove_and_rename_answer_alike() {
    assert_eq!(
        WriteDocumentResponse::busy(SyncKind::Fs),
        WriteDocumentResponse { status: false, retry: true, message: FS_BUSY.to_string() }
    );
    assert_eq!(
        WriteDocumentResponse::success(),
        WriteDocumentResponse { status: true, retry: false, message: "Success".to_string() }
    );
    assert_eq!(
        RemoveDocumentResponse::busy(SyncKind::Cloud),
        RemoveDocumentResponse { status: false, retry: true, message: CLOUD_BUSY.to_string() }
    );
    assert_eq!(
        RemoveDocumentResponse::success(),
        RemoveDocumentResponse { status: true, retry: false, message: "Success".to_string() }
    );
    assert_eq!(
        RenameDocumentResponse::busy(SyncKind::Fs),
        RenameDocumentResponse { status: false, retry: true, message: FS_BUSY.to_string() }
    );
    assert_eq!(
        RenameDocumentResponse::success(),
        RenameDocumentResponse { status: true, retry: false, message: "Success".to_string() }
    );
}

#[test]
fn a_document_is_placed_below_the_documents_directory() {
    assert_eq!(place_below("/r/documents", "notes/a.md"), "/r/documents/notes/a.md");
    assert_eq!(place_below("/r/documents", ""), "/r/documents");
    assert_eq!(place_below("", "notes/a.md"), "notes/a.md");
    assert_eq!(place_below("/r/documents/", "a.md"), "/r/documents//a.md");
}

#[test]
fn a_relative_path_is_normalized_before_it_is_placed() {
    assert_eq!(resolve_document_path("/r/documents", "notes/a.md"), "/r/documents/notes/a.md");
    assert_eq!(
        resolve_document_path("/r/documents", "./notes/../drafts//a.md"),
        "/r/documents/drafts/a.md"
    );
    assert_eq!(resolve_document_path("/r/documents", "."), "/r/documents");
    assert_eq!(resolve_document_path("/r/documents", "a/.."), "/r/documents");
    assert_eq!(resolve_document_path("/r/documents", "/a.md"), "/r/documents/a.md");
    assert_eq!(resolve_document_path("/r/documents", "../a.md"), "/r/documents/../a.md");
}

#[test]
fn the_resolved_path_is_the_one_the_path_library_builds() {
    let cases = ["notes/a.md", "./x/../y/z.md", "", "a//b", "../../up.md"];
    for relative in cases {
        let theirs = relative_path::RelativePath::new(relative)
            .normalize()
            .to_path("/r/documents");
        assert_eq!(
            std::path::PathBuf::from(resolve_document_path("/r/documents", relative)),
            theirs
        );
    }
}

#[test]
fn markdown_becomes_markup() {
    assert_eq!(parse_md_to_mu("# Title".to_string()).markup, "<h1>Title</h1>\n");
    assert_eq!(
        parse_md_to_mu("Hello, **world**!".to_string()).markup,
        "<p>Hello, <strong>world</strong>!</p>\n"
    );
    assert_eq!(parse_md_to_mu(String::new()).markup, "");
}

#[test]
fn markup_is_rendered_with_the_application_options() {
    assert_eq!(parse_md_to_mu("one\ntwo".to_string()).markup, "<p>one<br>\ntwo</p>\n");
    assert_eq!(
        parse_md_to_mu("---\ntitle: x\n---\n\ntext".to_string()).markup,
        "<p>text</p>\n"
    );
    let table = parse_md_to_mu("| a | b |\n|---|---|\n| 1 | 2 |".to_string()).markup;
    assert!(table.contains("<table>"));
    assert!(table.contains("<td>1</td>"));
    let link = parse_md_to_mu("see https://example.com now".to_string()).markup;
    assert!(link.contains("<a href=\"https://example.com\""));
    let options = MarkdownOptions::application();
    assert!(options.autolink && options.table && options.tasklist);
    assert!(options.unsafe_ && options.hardbreaks);
    assert_eq!(options.front_matter_delimiter, Some("---".to_string()));
}

#[test]
fn markup_is_cleaned() {
    let script = parse_md_to_mu("before<script>alert(1)</script>after".to_string()).markup;
    assert!(!script.contains("script"));
    assert!(!script.contains("alert"));
    let handler = parse_md_to_mu("<b onclick=\"x()\">bold</b>".to_string()).markup;
    assert_eq!(handler, "<p><b>bold</b></p>\n");
}

#[test]
fn code_keeps_its_class() {
    let code = parse_md_to_mu("```rust\nfn main() {}\n```".to_string()).markup;
    assert_eq!(code, "<pre><code class=\"language-rust\">fn main() {}\n</code></pre>\n");
    let span = parse_md_to_mu("<span class=\"x\">text</span>".to_string()).markup;
    assert_eq!(span, "<p><span>text</span></p>\n");
}

#[test]
fn the_test_clone_answers_by_how_it_ended() {
    let (_, command) = CloudSync::test_git_clone_ssh();
    assert_eq!(
        command,
        GitCommand::CloneRepository {
            remote_url: "git@github.com:rust-lang/git2-rs.git".to_string(),
            path: "/tmp/git2-rs".to_string(),
        }
    );
    match test_git_clone_ssh(&GitStep::Finished(GitOutcome::Cloned)) {
        Ok(response) => {
            assert!(response.status);
            assert_eq!(response.message, "Success");
        }
        Err(message) => panic!("{}", message),
    }
    assert_eq!(
        test_git_clone_ssh(&GitStep::Failed(SyncError::Auth("no identity".to_string()))),
        Err("SSH authentication failed: no identity".to_string())
    );
    assert_eq!(
        test_git_clone_ssh(&GitStep::Run(GitCommand::CheckoutHead)),
        Err("the reply does not answer the command".to_string())
    );
}

#[test]
fn the_custom_command_stores_messages_that_are_not_empty() {
    let command = my_custom_command("hello".to_string());
    assert_eq!(command.store, Some("hello".to_string()));
    assert_eq!(command.response.message, "hello");
    let command = my_custom_command(String::new());
    assert_eq!(command.store, None);
    assert_eq!(command.response.message, "");
}

#[test]
fn small_answers() {
    assert_eq!(
        SaveFileToResponse::success(),
        SaveFileToResponse { status: true, message: "Success".to_string() }
    );
    assert_eq!(EnvResponse::new(None).app_dir_path, None);
    assert_eq!(
        EnvResponse::new(Some("/home/u/.config/mediocre".to_string())).app_dir_path,
        Some("/home/u/.config/mediocre".to_string())
    );
}

#[test]
fn server_errors_have_a_name_and_a_message() {
    let user = ServerError::UserError { message: "no such file".to_string() };
    assert_eq!(user.name(), "UserError");
    assert_eq!(user.message(), "no such file");
    let internal = ServerError::InternalError { message: "disk on fire".to_string() };
    assert_eq!(internal.name(), "InternalError");
    assert_eq!(internal.message(), "disk on fire");
}

#[test]
fn anything_that_displays_maps_to_an_internal_error() {
    assert_eq!(
        map_to_server_error("plain text"),
        ServerError::InternalError { message: "plain text".to_string() }
    );
    assert_eq!(
        map_to_server_error(42),
        ServerError::InternalError { message: "42".to_string() }
    );
}

#[test]
fn errors_become_their_text() {
    assert_eq!(error_to_string("plain text"), "plain text");
    assert_eq!(error_to_string(String::from("owned")), "owned");
    assert_eq!(error_to_string(-7), "-7");
}

#[test]
fn an_event_splits_into_name_and_payload() {
    let event = WindowEvent::new("cloud_sync", 5u8, WindowEventType::INFO);
    assert_eq!(event.event_name, "cloud_sync");
    assert_eq!(event.payload, 5);
    assert_eq!(event.event_type, WindowEventType::INFO);
    let (name, payload) = event.into_emission();
    assert_eq!(name, "cloud_sync");
    assert_eq!(payload.payload, 5);
    assert_eq!(payload.event_type, WindowEventType::INFO);
}
