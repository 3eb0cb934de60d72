//! Where the database file lives: a value from the environment wins,
//! else the user's data directory decides.

use vstd::prelude::*;
use vstd::string::StringExecFns;
use crate::error::{DataError, ErrorKind};

verus! {

/// The program's configuration: today only the database path.
#[derive(Debug)]
pub struct Config {
    /// The path of the SQLite database file.
    pub db_path: String,
}

/// The path under a data directory where the database file lives.
pub open spec fn spec_db_suffix() -> Seq<char> {
    "/ekkles/database.sqlite3"@
}

impl Config {
    /// Resolves the database path from the values the environment
    /// offers, in order of precedence: an explicit override is taken as
    /// it stands; else the user's data directory, or the home directory
    /// with the conventional data subdirectory, gets the program's
    /// directory and file name appended. With none of the three values
    /// at hand no path can be resolved.
    pub fn new(
        db_path_override: Option<String>,
        xdg_data_home: Option<String>,
        home: Option<String>,
    ) -> (r: Result<Config, DataError>)
        ensures
            r is Ok <==> (db_path_override is Some || xdg_data_home is Some || home is Some),
            r matches Ok(c) ==> c.db_path@ == {
                if db_path_override is Some {
                    db_path_override.unwrap()@
                } else if xdg_data_home is Some {
                    xdg_data_home.unwrap()@ + spec_db_suffix()
                } else {
                    home.unwrap()@ + "/.local/share"@ + spec_db_suffix()
                }
            },
            r matches Err(e) ==> e.spec_kind() == ErrorKind::Validation,
    {
        if let Some(p) = db_path_override {
            return Ok(Config { db_path: p });
        }
        if let Some(x) = xdg_data_home {
            return Ok(Config { db_path: x.concat("/ekkles/database.sqlite3") });
        }
        if let Some(h) = home {
            let base = h.concat("/.local/share");
            return Ok(Config { db_path: base.concat("/ekkles/database.sqlite3") });
        }
        Err(
            DataError::new(
                ErrorKind::Validation,
                "Nelze najít cestu k databázi: chybí domovská složka",
            ),
        )
    }
}

} // verus!
