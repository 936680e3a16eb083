//! Storage of short links and users.
//!
//! The repositories here keep their rows in memory, in the order in which
//! they were inserted. They enforce what the service relies on: that
//! identifiers and short codes are unique, and that a link which expires
//! does so strictly after it was created.

pub mod repository;
pub mod store;
pub mod users;

pub use repository::{Repository, UrlRepository, UrlStats};
pub use users::UserRepository;

use crate::text::{before_first, is_prefix, opt_str, skip_chars, starts_with, take_before};
use vstd::prelude::*;
use vstd::string::*;

verus! {

/// The file that a SQLite address names: for an address that begins with
/// `sqlite://`, what follows up to the first question mark; nothing for any
/// other address.
pub open spec fn sqlite_file(url: Seq<char>) -> Option<Seq<char>> {
    if is_prefix("sqlite://"@, url) {
        Some(before_first(url.skip(9), '?'))
    } else {
        None
    }
}

/// The file that a SQLite address names, whose directory has to exist
/// before the database is opened.
pub fn sqlite_file_path(database_url: &str) -> (r: Option<&str>)
    ensures
        opt_str(r) == sqlite_file(database_url@),
{
    proof {
        reveal_strlit("sqlite://");
    }
    if !starts_with(database_url, "sqlite://") {
        return None;
    }
    Some(take_before(skip_chars(database_url, 9), '?'))
}

} // verus!
