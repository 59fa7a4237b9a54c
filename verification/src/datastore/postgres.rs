//! What the SQL-backed store needs from the library: the connection string
//! kept out of sight, the predicate terms that a filter compiles to, the
//! pattern for a substring search, and the reading of what the worker pool
//! hands back.

pub mod errors;
pub mod like;
pub mod post_store;

use crate::config::Config;
use vstd::prelude::*;

verus! {

/// The connection string of the database. It holds a password, so the type
/// offers no way to print it: it can only be turned back into a `String`.
pub struct Dsn {
    secret: String,
}

impl View for Dsn {
    type V = Seq<char>;

    closed spec fn view(&self) -> Seq<char> {
        self.secret@
    }
}

impl Dsn {
    /// Takes the connection string out of the settings.
    pub fn new(config: &Config) -> (dsn: Dsn)
        ensures
            dsn@ == config.db_dsn@,
    {
        Dsn { secret: config.db_dsn.clone() }
    }
}

impl From<Dsn> for String {
    fn from(dsn: Dsn) -> (secret: String) {
        dsn.secret
    }
}

impl vstd::std_specs::convert::FromSpecImpl<Dsn> for String {
    open spec fn obeys_from_spec() -> bool {
        true
    }

    closed spec fn from_spec(dsn: Dsn) -> String {
        dsn.secret
    }
}

/// Turning a `Dsn` into a `String` gives the connection string back.
pub proof fn lemma_dsn_into_string(dsn: Dsn)
    ensures
        <String as vstd::std_specs::convert::FromSpec<Dsn>>::from_spec(dsn)@ == dsn@,
{
}

} // verus!
