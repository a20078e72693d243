//! Where the store lives, and what loading finds there.

use vstd::prelude::*;
use vstd::string::*;
use crate::error::CmdKeeperError;
use crate::models::CommandDatabase;

verus! {

/// The store's file name.
pub const DB_FILENAME: &'static str = "commands.json";

/// The application's directory under the per-user configuration directory.
pub const APP_DIR: &'static str = "cmd-keeper";

/// A path with one more component, as std's `Path::join` builds it.
pub uninterp spec fn joined_path(base: Seq<char>, part: Seq<char>) -> Seq<char>;

/// Relies on dirs::config_dir: the per-user configuration directory of this
/// machine, when there is one and its path is valid UTF-8.
#[verifier::external_body]
fn config_dir() -> (r: Option<String>) {
    match dirs::config_dir() {
        Some(p) => p.into_os_string().into_string().ok(),
        None => None,
    }
}

/// Relies on std::path::Path::join: `part` appended to `base` as one more
/// path component.
#[verifier::external_body]
fn join_path(base: &str, part: &str) -> (r: String)
    ensures
        r@ == joined_path(base@, part@),
{
    std::path::Path::new(base).join(part).to_string_lossy().into_owned()
}

/// Where the store is kept.
pub struct Storage {
    db_path: String,
}

impl Storage {
    /// The path of the store's file.
    pub closed spec fn path(&self) -> Seq<char> {
        self.db_path@
    }

    /// The store under the per-user configuration directory:
    /// `<config>/cmd-keeper/commands.json`.
    pub fn new() -> (r: Result<Self, CmdKeeperError>)
        ensures
            r matches Ok(s) ==> exists|dir: Seq<char>|
                s.path() == joined_path(joined_path(dir, APP_DIR@), DB_FILENAME@),
            r matches Err(e) ==> e == CmdKeeperError::ConfigDirNotFound,
    {
        storage_in(config_dir())
    }

    /// The store at the given path.
    pub fn with_path(path: String) -> (r: Self)
        ensures
            r.path() == path@,
    {
        Storage { db_path: path }
    }

    /// The path of the store's file.
    pub fn db_path(&self) -> (r: &String)
        ensures
            r@ == self.path(),
    {
        &self.db_path
    }
}

/// The store under a configuration directory, when one was found:
/// `<dir>/cmd-keeper/commands.json`; `ConfigDirNotFound` otherwise.
pub fn storage_in(dir: Option<String>) -> (r: Result<Storage, CmdKeeperError>)
    ensures
        dir is None ==> r == Err::<Storage, CmdKeeperError>(CmdKeeperError::ConfigDirNotFound),
        dir matches Some(d) ==> (r matches Ok(s) && s.path() == joined_path(
            joined_path(d@, APP_DIR@),
            DB_FILENAME@,
        )),
{
    match dir {
        Some(d) => {
            let app_dir = join_path(d.as_str(), APP_DIR);
            let db_path = join_path(app_dir.as_str(), DB_FILENAME);
            Ok(Storage { db_path })
        },
        None => Err(CmdKeeperError::ConfigDirNotFound),
    }
}

/// What loading gives: the store that was read, or a fresh empty store
/// (next id 1) when there was nothing to read.
pub fn database_or_new(found: Option<CommandDatabase>) -> (r: CommandDatabase)
    ensures
        found is None ==> r.next_id == 1 && r.entries@.len() == 0 && r.wf(),
        found matches Some(db) ==> r == db,
{
    match found {
        Some(db) => db,
        None => CommandDatabase::new(),
    }
}

} // verus!
