//! Where the application keeps its files.

use vstd::prelude::*;
use crate::constants::paths::APP_DB_DIR_NAME;
use crate::constants::paths::APP_LOGS_DIR_NAME;
use crate::constants::paths::USER_DOCS_DIR_NAME;
use crate::utils::fsutils::join;
use crate::utils::fsutils::path_join;

verus! {

/// Filesystem paths of the application's own directories.
#[derive(Debug, Clone, PartialEq, Eq)]
pub struct AppDirPaths {
    /// Path to the root directory, usually `~/.mediocre`.
    pub root: String,
    /// Path to the documents directory, usually `~/.mediocre/documents`.
    pub documents: String,
    /// Path to the database directory, usually `~/.mediocre/db`.
    pub db: String,
    /// Path to the logs directory, usually `~/.mediocre/logs`.
    pub logs: String,
}

impl AppDirPaths {
    /// The directories below the root directory `root`, each under its
    /// fixed name, joined to the root as paths are.
    pub fn new(root: &str) -> (paths: AppDirPaths)
        ensures
            paths.root@ == root@,
            paths.documents@ == path_join(root@, USER_DOCS_DIR_NAME@),
            paths.db@ == path_join(root@, APP_DB_DIR_NAME@),
            paths.logs@ == path_join(root@, APP_LOGS_DIR_NAME@),
    {
        AppDirPaths {
            root: root.to_string(),
            documents: join(root, USER_DOCS_DIR_NAME),
            db: join(root, APP_DB_DIR_NAME),
            logs: join(root, APP_LOGS_DIR_NAME),
        }
    }

    /// The directories that have to exist before the application starts, in
    /// the order in which they are created: the root, the database
    /// directory and the documents directory.
    pub fn create_app_default_dirs(&self) -> (dirs: Vec<String>)
        ensures
            dirs.deep_view() == seq![self.root@, self.db@, self.documents@],
    {
        let mut dirs: Vec<String> = Vec::new();
        dirs.push(self.root.clone());
        dirs.push(self.db.clone());
        dirs.push(self.documents.clone());
        assert(dirs.deep_view() =~= seq![self.root@, self.db@, self.documents@]);
        dirs
    }
}

} // verus!
