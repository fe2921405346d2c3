//! Where the task database lives: a directory of its own under the user's home
//! directory, holding one database file.
use std::path::PathBuf;
use vstd::prelude::*;

use crate::error::TaskError;

verus! {

#[verifier::external_type_specification]
#[verifier::external_body]
pub struct ExPathBuf(PathBuf);

/// Name of the directory, under the home directory, that holds the database.
pub const APP_DIR_NAME: &'static str = ".todo_app";

/// Name of the database file inside that directory.
pub const DATABASE_FILE_NAME: &'static str = "tasks.db";

/// Relies on dirs::home_dir: the current user's home directory, or `None`
/// when it cannot be determined. It depends on the environment, so nothing is
/// stated of it.
#[verifier::external_body]
fn home_dir() -> (r: Option<PathBuf>) {
    dirs::home_dir()
}

/// The path `base` with `part` adjoined.
pub uninterp spec fn joined(base: PathBuf, part: Seq<char>) -> PathBuf;

/// Relies on std::path::Path::join: `base` with `part` adjoined, which depends
/// on the two arguments alone.
#[verifier::external_body]
fn join(base: &PathBuf, part: &str) -> (r: PathBuf)
    ensures
        r == joined(*base, part@),
{
    base.join(part)
}

/// The directory that must exist for the database, and the database file.
pub struct StorageLocation {
    pub dir: PathBuf,
    pub file: PathBuf,
}

/// The storage location under a home directory: `<home>/.todo_app` and
/// `<home>/.todo_app/tasks.db`. Without a home directory it is the
/// environment error.
pub fn storage_location(home: Option<PathBuf>) -> (r: Result<StorageLocation, TaskError>)
    ensures
        home is None <==> r is Err,
        r is Err ==> r == Err::<StorageLocation, TaskError>(TaskError::Environment),
        r is Ok ==> r->Ok_0.dir == joined(home->Some_0, APP_DIR_NAME@),
        r is Ok ==> r->Ok_0.file == joined(
            joined(home->Some_0, APP_DIR_NAME@),
            DATABASE_FILE_NAME@,
        ),
{
    match home {
        None => Err(TaskError::Environment),
        Some(home) => {
            let dir = join(&home, APP_DIR_NAME);
            let file = join(&dir, DATABASE_FILE_NAME);
            Ok(StorageLocation { dir, file })
        },
    }
}

/// Resolves the storage location under the current user's home directory.
/// The only failure is that no home directory can be found.
pub fn locate_storage_path() -> (r: Result<StorageLocation, TaskError>)
    ensures
        r is Err ==> r == Err::<StorageLocation, TaskError>(TaskError::Environment),
{
    storage_location(home_dir())
}

} // verus!
