//! The decisions of the item endpoints of the JSON API. Storing and reading items
//! stand outside this library.
use vstd::prelude::*;
use crate::models::item::{CreateItemRequest, Item};
use crate::text::owned;
use crate::utils::error::{AppError, AppResult};

verus! {

broadcast use vstd::string::group_string_axioms;

/// The failure for an item that is not there.
pub fn item_not_found(item_id: &str) -> (r: AppError)
    ensures
        r matches AppError::NotFound(m) && m@ == "item "@ + item_id@ + " was not found"@,
{
    let mut m = owned("item ");
    m.append(item_id);
    m.append(" was not found");
    AppError::NotFound(m)
}

/// The answer to reading an item: the item, or the failure when it is not there.
pub fn found_item(item_id: &str, item: Option<Item>) -> (r: AppResult<Item>)
    ensures
        item matches Some(i) ==> (r matches Ok(x) && x == i),
        item is None ==> (r matches Err(AppError::NotFound(m)) && m@ == "item "@ + item_id@
            + " was not found"@),
{
    match item {
        Some(i) => Ok(i),
        None => Err(item_not_found(item_id)),
    }
}

/// The answer to deleting an item: done when a row was deleted, else not found.
pub fn deletion_outcome(item_id: &str, deleted: bool) -> (r: AppResult<()>)
    ensures
        deleted ==> r is Ok,
        !deleted ==> (r matches Err(AppError::NotFound(m)) && m@ == "item "@ + item_id@
            + " was not found"@),
{
    if !deleted {
        return Err(item_not_found(item_id));
    }
    Ok(())
}

/// Checks a request that creates an item.
pub fn creation_check(payload: &CreateItemRequest) -> (r: AppResult<()>)
    ensures
        payload.validate_outcome() is Ok ==> r is Ok,
        payload.validate_outcome() matches Err(m) ==> (r matches Err(AppError::Validation(x)) && x@
            == m),
{
    match payload.validate() {
        Ok(()) => Ok(()),
        Err(m) => Err(AppError::Validation(m)),
    }
}

/// The answer after storing an item and reading it back: the item, or an internal
/// failure when it cannot be read back.
pub fn reloaded_item(item: Option<Item>) -> (r: AppResult<Item>)
    ensures
        item matches Some(i) ==> (r matches Ok(x) && x == i),
        item is None ==> (r matches Err(AppError::Internal(m)) && m@
            == "inserted item could not be reloaded"@),
{
    match item {
        Some(i) => Ok(i),
        None => Err(AppError::Internal(owned("inserted item could not be reloaded"))),
    }
}

} // verus!
