//! Where the Jot database is found.

use vstd::prelude::*;
use vstd::string::*;

verus! {

/// Where Jot keeps its Core Data store, below the user's home directory.
pub const STORE_BELOW_HOME: &'static str = "/Library/Group Containers/group.hirocloud.jotApp/CoreDataStores/Private/private.sqlite";

/// The database path: the override (the `JOT_DB_PATH` setting) where there
/// is one, else Jot's store below the home directory; `None` when neither
/// an override nor a home directory is known.
pub open spec fn db_path_text(path_override: Option<&str>, home: Option<&str>) -> Option<
    Seq<char>,
> {
    match path_override {
        Some(p) => Some(p@),
        None => match home {
            Some(h) => Some(h@ + STORE_BELOW_HOME@),
            None => None,
        },
    }
}

/// The override, when given, is the path as it is; without one the path
/// is Jot's store below the home directory; with neither there is none.
pub proof fn law_db_path_choice(path_override: Option<&str>, home: Option<&str>)
    ensures
        path_override matches Some(p) ==> db_path_text(path_override, home) == Some(p@),
        path_override is None ==> (home matches Some(h) ==> db_path_text(path_override, home)
            == Some(h@ + STORE_BELOW_HOME@)),
        path_override is None && home is None ==> db_path_text(path_override, home) is None,
{
}

/// Chooses the database path from the override and the home directory.
pub fn choose_db_path(path_override: Option<&str>, home: Option<&str>) -> (r: Option<String>)
    ensures
        match r {
            Some(p) => db_path_text(path_override, home) == Some(p@),
            None => db_path_text(path_override, home) is None,
        },
{
    match path_override {
        Some(p) => Some(String::from_str(p)),
        None => match home {
            Some(h) => {
                let mut path = String::from_str(h);
                path.append(STORE_BELOW_HOME);
                Some(path)
            },
            None => None,
        },
    }
}

} // verus!
