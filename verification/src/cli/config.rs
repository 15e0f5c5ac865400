//! Where the database lives: an explicit path, else the `CTX_HUB_DB`
//! environment variable, else `.ctx-hub/ctx-hub.db` in the home directory.
use vstd::prelude::*;

use crate::error::CtxError;

verus! {

/// The environment variable holding a database path.
pub const DB_PATH_VAR: &'static str = "CTX_HUB_DB";

/// The directory under the home directory that holds the default database.
pub const DEFAULT_DIR: &'static str = ".ctx-hub";

/// The file name of the default database.
pub const DEFAULT_FILE: &'static str = "ctx-hub.db";

/// Where the database is.
#[derive(Debug, PartialEq, Eq)]
pub enum DbLocation {
    /// At this path.
    Given(String),
    /// At `DEFAULT_DIR/DEFAULT_FILE` under this home directory.
    UnderHome(String),
}

/// Chooses the database: the path given on the command line, else the one
/// in the environment, else the default one under the home directory; with
/// no home directory known there is none.
pub fn resolve_db_path(cli_db: Option<String>, env_db: Option<String>, home: Option<String>) -> (r:
    Result<DbLocation, CtxError>)
    ensures
        cli_db matches Some(p) ==> r == Ok::<DbLocation, CtxError>(DbLocation::Given(p)),
        cli_db is None ==> (env_db matches Some(p) ==> r == Ok::<DbLocation, CtxError>(
            DbLocation::Given(p),
        )),
        cli_db is None && env_db is None ==> (home matches Some(h) ==> r == Ok::<
            DbLocation,
            CtxError,
        >(DbLocation::UnderHome(h))),
        cli_db is None && env_db is None && home is None ==> r == Err::<DbLocation, CtxError>(
            CtxError::NoHomeDirectory,
        ),
{
    match cli_db {
        Some(p) => Ok(DbLocation::Given(p)),
        None => match env_db {
            Some(p) => Ok(DbLocation::Given(p)),
            None => match home {
                Some(h) => Ok(DbLocation::UnderHome(h)),
                None => Err(CtxError::NoHomeDirectory),
            },
        },
    }
}

} // verus!
