//! The names of the application's directories and files.

use vstd::prelude::*;

verus! {

/// Root application data dir name.
pub const APP_DATA_DIR_NAME: &'static str = ".mediocre";

/// What is appended to the root dir name when running in debug mode.
pub const APP_DATA_DIR_DEV_SUFFIX: &'static str = "dev";

/// Application database dir name.
pub const APP_DB_DIR_NAME: &'static str = "db";

/// Database/store file name.
pub const APP_DB_FILE_NAME: &'static str = "store.db.json";

/// User documents dir name.
pub const USER_DOCS_DIR_NAME: &'static str = "documents";

/// Application logs dir name.
pub const APP_LOGS_DIR_NAME: &'static str = "logs";

/// The key under which the URL of the bound remote is stored.
pub const GIT_SYNC_REPO_URL_KEY: &'static str = "git_sync_repo_url";

/// The key under which the display name of the user is stored.
pub const GIT_SYNC_USER_NAME_KEY: &'static str = "git_sync_user_name";

/// The key under which the email address of the user is stored.
pub const GIT_SYNC_USER_EMAIL_KEY: &'static str = "git_sync_user_email";

} // verus!
