//! Runtime configuration as plain values.  Reading the environment is
//! the launcher's job; the core only holds what was read.

use vstd::prelude::*;

verus! {

/// Configuration for the application: where the storage backend lives.
pub struct Config {
    pub database_url: String,
}

impl View for Config {
    type V = Seq<char>;

    open spec fn view(&self) -> Seq<char> {
        self.database_url@
    }
}

impl Config {
    /// A configuration around one connection string.
    pub fn new(database_url: String) -> (c: Config)
        ensures
            c@ == database_url@,
    {
        Config { database_url }
    }

    /// A direct reference to the database URL.
    pub fn database_url(&self) -> (r: &str)
        ensures
            r@ == self@,
    {
        self.database_url.as_str()
    }
}

} // verus!
