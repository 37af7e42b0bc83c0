//! Where the database file of the web pages lies.
use vstd::prelude::*;
use crate::text::{chars_of, has_prefix, starts_with, string_from_range};

verus! {

broadcast use vstd::string::group_string_axioms;

/// The path of the database file that a `sqlite://` address names, if it names one.
pub open spec fn spec_database_path(url: Seq<char>) -> Option<Seq<char>> {
    if has_prefix(url, "sqlite://"@) && url.len() > "sqlite://"@.len() {
        Some(url.skip("sqlite://"@.len() as int))
    } else {
        None
    }
}

/// The path of the database file: what follows `sqlite://`, when that is not empty.
pub fn database_path(database_url: &str) -> (r: Option<String>)
    ensures
        crate::models::item::opt_string_view(r) == spec_database_path(database_url@),
{
    if !starts_with(database_url, "sqlite://") {
        return None;
    }
    let v = chars_of(database_url);
    let p = chars_of("sqlite://");
    if v.len() <= p.len() {
        return None;
    }
    let r = string_from_range(&v, p.len(), v.len());
    assert(r@ =~= database_url@.skip("sqlite://"@.len() as int));
    Some(r)
}

} // verus!
