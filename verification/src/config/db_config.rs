//! Where the database of the web pages is.
use vstd::prelude::*;
use crate::text::owned;

verus! {

/// The settings of the database.
#[derive(Clone)]
pub struct DbConfig {
    pub database_url: String,
}

impl DbConfig {
    /// The settings from the value of `DATABASE_URL`, with its default.
    pub fn from_value(database_url: Option<String>) -> (r: Self)
        ensures
            r.database_url@ == (match database_url {
                Some(u) => u@,
                None => "sqlite://data/gangrennes.sqlite3"@,
            }),
    {
        let database_url = match database_url {
            Some(u) => u,
            None => owned("sqlite://data/gangrennes.sqlite3"),
        };
        DbConfig { database_url }
    }
}

} // verus!
