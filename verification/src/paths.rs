//! Where the app finds the Messages database and keeps its own store.
use vstd::prelude::*;

use crate::codex_auth::{join, join_path};
use crate::text::owned;

verus! {

/// The Messages database under the home directory.
pub const MESSAGES_DATABASE_RELATIVE_PATH: &'static str = "Library/Messages/chat.db";

/// The store's file name in the app data directory.
pub const MORROW_STORE_FILE: &'static str = "morrow.sqlite";

pub const MESSAGES_PATH_UNAVAILABLE: &'static str =
    "Messages discovery is unavailable on this system.";

/// The Messages database of the user whose home directory is given, or
/// the error shown when the home directory is unknown.
pub fn messages_database_path(home: Option<String>) -> (r: Result<String, String>)
    ensures
        home matches Some(h) ==> (r matches Ok(p) && p@ == join_path(
            h@,
            MESSAGES_DATABASE_RELATIVE_PATH@,
        )),
        home is None ==> (r matches Err(e) && e@ == MESSAGES_PATH_UNAVAILABLE@),
{
    match home {
        Some(h) => Ok(join(&h, MESSAGES_DATABASE_RELATIVE_PATH)),
        None => Err(owned(MESSAGES_PATH_UNAVAILABLE)),
    }
}

/// The store in the app data directory, or the error of looking the
/// directory up.
pub fn morrow_store_path(app_data_dir: Result<String, String>) -> (r: Result<String, String>)
    ensures
        app_data_dir matches Ok(d) ==> (r matches Ok(p) && p@ == join_path(d@, MORROW_STORE_FILE@)),
        app_data_dir matches Err(e) ==> (r matches Err(f) && f@ == e@),
{
    match app_data_dir {
        Ok(d) => Ok(join(&d, MORROW_STORE_FILE)),
        Err(e) => Err(e),
    }
}

} // verus!
