use mediocre::models::app_dir_paths::AppDirPaths;
use mediocre::models::cloud_sync::CloudSync;
use mediocre::models::server_error::ServerError;
use mediocre::utils::fsutils::describe;
use mediocre::utils::fsutils::file_type;
use mediocre::utils::fsutils::get_all_files_meta_from_path;
use mediocre::utils::fsutils::get_app_root_dir_path;
use mediocre::utils::fsutils::get_file_meta_from_path;
use mediocre::utils::fsutils::rename_file;
use mediocre::utils::fsutils::write_to_path;
use mediocre::utils::fsutils::FileEntry;
use mediocre::utils::fsutils::FileMetaInfo;
use mediocre::utils::text::{join_texts, render_u64};
use mediocre::utils::time::{commit_message_at, stamp_commit_message, Timestamp};

fn some(text: &str) -> Option<String> {
    Some(text.to_string())
}

fn meta(path: &str, base: &str) -> FileMetaInfo {
    match get_file_meta_from_path(path, base, None) {
        Ok(info) => info,
        Err(error) => panic!("{:?}", error),
    }
}

fn no_file_name() -> ServerError {
    ServerError::UserError { message: "file_name not available!".to_string() }
}

#[test]
fn the_file_name_is_the_last_normal_component() {
    assert_eq!(meta("/docs/notes/todo.md", "/").file_name, "todo.md");
    assert_eq!(meta("todo.md", "/").file_name, "todo.md");
    assert_eq!(meta("a/", "/").file_name, "a");
    assert_eq!(meta("/docs/notes/", "/").file_name, "notes");
    assert_eq!(meta("/docs/notes/.", "/").file_name, "notes");
    assert_eq!(meta("/docs//notes", "/").file_name, "notes");
    assert_eq!(meta("/docs/überblick.md", "/").file_name, "überblick.md");
}

#[test]
fn a_path_without_a_file_name_is_the_users_error() {
    assert_eq!(get_file_meta_from_path("/", "/", None), Err(no_file_name()));
    assert_eq!(get_file_meta_from_path("", "/", None), Err(no_file_name()));
    assert_eq!(get_file_meta_from_path(".", "/", None), Err(no_file_name()));
    assert_eq!(get_file_meta_from_path("..", "/", None), Err(no_file_name()));
    assert_eq!(get_file_meta_from_path("/docs/..", "/", None), Err(no_file_name()));
}

#[test]
fn the_file_dir_is_the_last_component_of_the_parent() {
    assert_eq!(meta("/docs/notes/todo.md", "/").file_dir, some("notes"));
    assert_eq!(meta("notes/todo.md", "/").file_dir, some("notes"));
    assert_eq!(meta("/todo.md", "/").file_dir, some("/"));
    assert_eq!(meta("../todo.md", "/").file_dir, some(".."));
    assert_eq!(meta("./todo.md", "/").file_dir, some("."));
    assert_eq!(meta("todo.md", "/").file_dir, None);
}

#[test]
fn only_md_files_are_markdown() {
    assert_eq!(meta("/docs/todo.md", "/").file_type, some("markdown"));
    assert_eq!(meta("/docs/a.b.md", "/").file_type, some("markdown"));
    assert_eq!(meta("/docs/todo.MD", "/").file_type, None);
    assert_eq!(meta("/docs/todo.txt", "/").file_type, None);
    assert_eq!(meta("/docs/md", "/").file_type, None);
    assert_eq!(meta("/docs/.md", "/").file_type, None);
    assert_eq!(meta("/docs/todo.md/", "/").file_type, some("markdown"));
    assert_eq!(meta("/docs.md/todo", "/").file_type, None);
}

#[test]
fn the_type_goes_by_the_extension() {
    assert_eq!(file_type(&some("md")), some("markdown"));
    assert_eq!(file_type(&some("MD")), None);
    assert_eq!(file_type(&some("")), None);
    assert_eq!(file_type(&some("markdown")), None);
    assert_eq!(file_type(&None), None);
}

#[test]
fn the_relative_path_is_what_follows_the_base() {
    assert_eq!(
        meta("/home/u/.mediocre/documents/a.md", "/home/u/.mediocre").file_relative_path,
        some("documents/a.md")
    );
    assert_eq!(meta("/a/b/c.md", "/a/").file_relative_path, some("b/c.md"));
    assert_eq!(meta("/a//b/c.md", "/a").file_relative_path, some("b/c.md"));
    assert_eq!(meta("/a", "/a").file_relative_path, some(""));
    assert_eq!(meta("/ab/c", "/a").file_relative_path, None);
    assert_eq!(meta("/x/c", "/a").file_relative_path, None);
    assert_eq!(meta("c", "").file_relative_path, some("c"));
    assert_eq!(meta("c", "/").file_relative_path, None);
}

#[test]
fn the_app_root_is_below_the_home_directory() {
    assert_eq!(get_app_root_dir_path(Some("/home/u"), "0"), Ok("/home/u/.mediocre".to_string()));
    assert_eq!(get_app_root_dir_path(Some("/home/u/"), ""), Ok("/home/u/.mediocre".to_string()));
    assert_eq!(
        get_app_root_dir_path(Some("/home/u"), "1"),
        Ok("/home/u/.mediocredev".to_string())
    );
    assert_eq!(
        get_app_root_dir_path(None, "1"),
        Err(ServerError::UserError { message: "Home directory unavailable!".to_string() })
    );
}

#[test]
fn the_app_directories_lie_below_the_root() {
    let paths = AppDirPaths::new("/home/u/.mediocre");
    assert_eq!(paths.root, "/home/u/.mediocre");
    assert_eq!(paths.documents, "/home/u/.mediocre/documents");
    assert_eq!(paths.db, "/home/u/.mediocre/db");
    assert_eq!(paths.logs, "/home/u/.mediocre/logs");
    assert_eq!(
        paths.create_app_default_dirs(),
        vec![
            "/home/u/.mediocre".to_string(),
            "/home/u/.mediocre/db".to_string(),
            "/home/u/.mediocre/documents".to_string(),
        ]
    );
    let slashed = AppDirPaths::new("/r/");
    assert_eq!(slashed.documents, "/r/documents");
}

#[test]
fn the_engine_takes_a_root_written_with_a_closing_slash() {
    assert!(CloudSync::new(&AppDirPaths::new("/r/")).is_ok());
    assert!(CloudSync::new(&AppDirPaths::new("/r")).is_ok());
    assert!(CloudSync::new(&AppDirPaths::new("")).is_ok());
}

#[test]
fn a_file_is_written_below_its_parent() {
    assert_eq!(write_to_path("/docs/notes/todo.md", "/root"), "/docs/notes");
    assert_eq!(write_to_path("/todo.md", "/root"), "/");
    assert_eq!(write_to_path("todo.md", "/root"), "");
    assert_eq!(write_to_path("/", "/root"), "/root");
    assert_eq!(write_to_path("", "/root"), "/root");
}

#[test]
fn a_renamed_file_stays_in_its_directory() {
    assert_eq!(rename_file("/docs/notes/todo.md", "done.md"), Ok("/docs/notes/done.md".to_string()));
    assert_eq!(rename_file("d/a", "n"), Ok("d/n".to_string()));
    assert_eq!(rename_file("/a", "n"), Ok("/n".to_string()));
    assert_eq!(rename_file("todo.md", "done.md"), Ok("done.md".to_string()));
    assert_eq!(rename_file("/docs/todo.md/", "done.md"), Ok("/docs/done.md".to_string()));
    let no_parent = ServerError::UserError { message: "parent_path invalid!".to_string() };
    assert_eq!(rename_file("", "done.md"), Err(no_parent.clone()));
    assert_eq!(rename_file("/", "done.md"), Err(no_parent));
}

#[test]
fn meta_info_describes_a_document() {
    let info = get_file_meta_from_path(
        "/home/u/.mediocre/documents/notes/todo.md",
        "/home/u/.mediocre",
        Some(Timestamp { secs: 1516991409, nanos: 453_829_000 }),
    );
    assert_eq!(
        info,
        Ok(FileMetaInfo {
            file_name: "todo.md".to_string(),
            file_path: "/home/u/.mediocre/documents/notes/todo.md".to_string(),
            file_relative_path: some("documents/notes/todo.md"),
            file_dir: some("notes"),
            file_type: some("markdown"),
            modified: some("2018-01-26T18:30:09.453Z"),
        })
    );
}

#[test]
fn meta_info_leaves_out_what_is_not_known() {
    let info = get_file_meta_from_path("picture.png", "/home/u/.mediocre", None);
    assert_eq!(
        info,
        Ok(FileMetaInfo {
            file_name: "picture.png".to_string(),
            file_path: "picture.png".to_string(),
            file_relative_path: None,
            file_dir: None,
            file_type: None,
            modified: None,
        })
    );
    let out_of_range = get_file_meta_from_path(
        "/a/b.md",
        "/a",
        Some(Timestamp { secs: i64::MIN, nanos: 0 }),
    );
    match out_of_range {
        Ok(info) => assert_eq!(info.modified, None),
        Err(error) => panic!("{:?}", error),
    }
}

#[test]
fn all_files_are_described_in_the_order_found() {
    let files = vec![
        FileEntry {
            path: "/r/documents/b.md".to_string(),
            modified: Some(Timestamp { secs: 0, nanos: 0 }),
        },
        FileEntry { path: "/r/documents/sub/a.txt".to_string(), modified: None },
        FileEntry { path: "/".to_string(), modified: None },
    ];
    let infos = get_all_files_meta_from_path(&files, "/r");
    assert_eq!(
        infos,
        vec![
            FileMetaInfo {
                file_name: "b.md".to_string(),
                file_path: "/r/documents/b.md".to_string(),
                file_relative_path: some("documents/b.md"),
                file_dir: some("documents"),
                file_type: some("markdown"),
                modified: some("1970-01-01T00:00:00.000Z"),
            },
            FileMetaInfo {
                file_name: "a.txt".to_string(),
                file_path: "/r/documents/sub/a.txt".to_string(),
                file_relative_path: some("documents/sub/a.txt"),
                file_dir: some("sub"),
                file_type: None,
                modified: None,
            },
            FileMetaInfo {
                file_name: "/".to_string(),
                file_path: "/".to_string(),
                file_relative_path: None,
                file_dir: None,
                file_type: None,
                modified: None,
            },
        ]
    );
    assert_eq!(get_all_files_meta_from_path(&Vec::new(), "/r"), Vec::new());
}

#[test]
fn a_file_is_described_by_its_parts() {
    let info = describe(
        "todo.md".to_string(),
        "/r/documents/todo.md",
        some("documents/todo.md"),
        some("documents"),
        some("md"),
        some("yesterday"),
    );
    assert_eq!(
        info,
        FileMetaInfo {
            file_name: "todo.md".to_string(),
            file_path: "/r/documents/todo.md".to_string(),
            file_relative_path: some("documents/todo.md"),
            file_dir: some("documents"),
            file_type: some("markdown"),
            modified: some("yesterday"),
        }
    );
    let plain = describe("a".to_string(), "a", None, None, some("txt"), None);
    assert_eq!(plain.file_type, None);
}

#[test]
fn the_parts_are_those_that_the_standard_library_gives() {
    let paths = ["/a", "a/", "/", "", ".", "..", "a/./b.md", "/x//y/", "./a", "../a.md", "a/.."];
    for path in paths {
        let ours = get_file_meta_from_path(path, "/x", None);
        let theirs = std::path::Path::new(path);
        match theirs.file_name() {
            Some(name) => {
                let info = ours.unwrap_or_else(|error| panic!("{}: {:?}", path, error));
                assert_eq!(info.file_name, name.to_string_lossy());
                assert_eq!(
                    info.file_relative_path,
                    theirs.strip_prefix("/x").ok().map(|rest| rest.to_string_lossy().to_string())
                );
                let dir = theirs
                    .parent()
                    .and_then(|parent| parent.components().last())
                    .map(|component| component.as_os_str().to_string_lossy().to_string());
                assert_eq!(info.file_dir, dir);
            }
            None => assert_eq!(ours, Err(no_file_name())),
        }
        match theirs.parent() {
            Some(parent) => {
                assert_eq!(
                    rename_file(path, "n"),
                    Ok(parent.join("n").to_string_lossy().to_string())
                );
                assert_eq!(write_to_path(path, "/d"), parent.to_string_lossy());
            }
            None => {
                assert!(rename_file(path, "n").is_err());
                assert_eq!(write_to_path(path, "/d"), "/d");
            }
        }
    }
}

#[test]
fn commit_messages_carry_the_time_in_utc_with_milliseconds() {
    assert_eq!(
        commit_message_at(1516991409, 453_829_000),
        some("Commit Changes, time: 2018-01-26T18:30:09.453Z")
    );
    assert_eq!(commit_message_at(0, 0), some("Commit Changes, time: 1970-01-01T00:00:00.000Z"));
    assert_eq!(
        commit_message_at(-1, 999_000_000),
        some("Commit Changes, time: 1969-12-31T23:59:59.999Z")
    );
    assert_eq!(
        commit_message_at(951782400, 1_000_000),
        some("Commit Changes, time: 2000-02-29T00:00:00.001Z")
    );
}

#[test]
fn an_instant_that_cannot_be_written_has_no_commit_message() {
    assert_eq!(commit_message_at(i64::MAX, 0), None);
    assert_eq!(commit_message_at(0, 2_000_000_000), None);
}

#[test]
fn the_commit_message_follows_the_stamp() {
    assert_eq!(stamp_commit_message("now"), "Commit Changes, time: now");
    assert_eq!(stamp_commit_message(""), "Commit Changes, time: ");
}

#[test]
fn numbers_are_written_in_base_ten() {
    assert_eq!(render_u64(0), "0");
    assert_eq!(render_u64(7), "7");
    assert_eq!(render_u64(10), "10");
    assert_eq!(render_u64(1234567890), "1234567890");
    assert_eq!(render_u64(u64::MAX), "18446744073709551615");
}

#[test]
fn two_texts_are_joined() {
    assert_eq!(join_texts("ab", "cd"), "abcd");
    assert_eq!(join_texts("", ""), "");
}
