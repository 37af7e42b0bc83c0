//! The directory that the database file of the JSON API needs.
use vstd::prelude::*;
use crate::text::{chars_of, has_prefix, starts_with, str_eq, string_from_range, owned};
use crate::utils::error::{AppError, AppResult};

verus! {

broadcast use vstd::string::group_string_axioms;

/// The parent of the path `p`, as `std::path::Path::parent` gives it.
pub uninterp spec fn spec_path_parent(p: Seq<char>) -> Option<Seq<char>>;

/// Gives `std::path::Path::new(p).parent()` as text. Claimed besides the name: the
/// empty path has no parent (as the documentation of `Path::parent` says).
#[verifier::external_body]
fn path_parent(p: &str) -> (r: Option<String>)
    ensures
        crate::models::item::opt_string_view(r) == spec_path_parent(p@),
        p@.len() == 0 ==> r is None,
{
    match std::path::Path::new(p).parent() {
        Some(q) => Some(q.to_string_lossy().into_owned()),
        None => None,
    }
}

/// What preparing the directory of the database finds: nothing to create (`None`),
/// the directory to create, or the message of the failure.
pub open spec fn spec_sqlite_parent_dir(url: Seq<char>) -> Result<Option<Seq<char>>, Seq<char>> {
    if !has_prefix(url, "sqlite://"@) {
        Ok(None)
    } else {
        let path = url.skip("sqlite://"@.len() as int);
        if path == ":memory:"@ || has_prefix(path, "file:"@) {
            Ok(None)
        } else {
            match spec_path_parent(path) {
                None => Err("DATABASE_URL does not include a parent directory"@),
                Some(parent) => if parent.len() == 0 {
                    Ok(None)
                } else {
                    Ok(Some(parent))
                },
            }
        }
    }
}

/// The directory to create before the database is opened, if any.
pub fn sqlite_parent_dir(database_url: &str) -> (r: AppResult<Option<String>>)
    ensures
        match spec_sqlite_parent_dir(database_url@) {
            Ok(o) => r matches Ok(x) && crate::models::item::opt_string_view(x) == o,
            Err(m) => r matches Err(AppError::Config(s)) && s@ == m,
        },
{
    if !starts_with(database_url, "sqlite://") {
        return Ok(None);
    }
    let v = chars_of(database_url);
    let p = chars_of("sqlite://");
    let db_path = string_from_range(&v, p.len(), v.len());
    assert(db_path@ =~= database_url@.skip("sqlite://"@.len() as int));
    if str_eq(db_path.as_str(), ":memory:") || starts_with(db_path.as_str(), "file:") {
        return Ok(None);
    }
    match path_parent(db_path.as_str()) {
        None => Err(AppError::Config(owned("DATABASE_URL does not include a parent directory"))),
        Some(parent) => if parent.as_str().is_empty() {
            Ok(None)
        } else {
            Ok(Some(parent))
        },
    }
}

} // verus!
