//! Items of the JSON API and the checks of a request that creates one.
use vstd::prelude::*;
use crate::text::{spec_trim, trim, byte_len, owned};

verus! {

/// A stored item.
#[derive(Clone, Debug)]
pub struct Item {
    pub id: String,
    pub name: String,
    pub description: Option<String>,
    pub created_at: String,
}

/// The body of a request that creates an item.
#[derive(Debug)]
pub struct CreateItemRequest {
    pub name: String,
    pub description: Option<String>,
}

/// Whether `r` is the failure with message `m`.
pub open spec fn is_err_msg(r: Result<(), String>, m: Seq<char>) -> bool {
    r matches Err(s) && s@ == m
}

/// The view of an optional string.
pub open spec fn opt_string_view(o: Option<String>) -> Option<Seq<char>> {
    match o {
        Some(s) => Some(s@),
        None => None,
    }
}

/// The description to store: the trimmed description, unless that is empty.
pub open spec fn spec_sanitized_description(d: Option<Seq<char>>) -> Option<Seq<char>> {
    match d {
        Some(s) => if spec_trim(s).len() > 0 {
            Some(spec_trim(s))
        } else {
            None
        },
        None => None,
    }
}

impl CreateItemRequest {
    /// What checking the request gives: `Ok`, or the message of the first failure.
    pub open spec fn validate_outcome(self) -> Result<(), Seq<char>> {
        if spec_trim(self.name@).len() == 0 {
            Err("name is required"@)
        } else if byte_len(spec_trim(self.name@)) > 120 {
            Err("name must be 120 characters or less"@)
        } else if self.description matches Some(d) && byte_len(d@) > 1000 {
            Err("description must be 1000 characters or less"@)
        } else {
            Ok(())
        }
    }

    /// Checks the request: a trimmed name of 1 to 120 bytes, and a description of at
    /// most 1000 bytes.
    pub fn validate(&self) -> (r: Result<(), String>)
        ensures
            match self.validate_outcome() {
                Ok(()) => r is Ok,
                Err(m) => is_err_msg(r, m),
            },
            spec_trim(self.name@).len() == 0 ==> is_err_msg(r, "name is required"@),
            spec_trim(self.name@).len() > 0 && byte_len(spec_trim(self.name@)) > 120 ==> is_err_msg(
                r,
                "name must be 120 characters or less"@,
            ),
            spec_trim(self.name@).len() > 0 && byte_len(spec_trim(self.name@)) <= 120 ==> {
                match self.description {
                    Some(d) => if byte_len(d@) > 1000 {
                        is_err_msg(r, "description must be 1000 characters or less"@)
                    } else {
                        r is Ok
                    },
                    None => r is Ok,
                }
            },
    {
        let trimmed_name = trim(self.name.as_str());
        if trimmed_name.as_str().is_empty() {
            return Err(owned("name is required"));
        }
        if trimmed_name.as_str().as_bytes().len() > 120 {
            return Err(owned("name must be 120 characters or less"));
        }
        match &self.description {
            Some(description) => {
                if description.as_str().as_bytes().len() > 1000 {
                    return Err(owned("description must be 1000 characters or less"));
                }
            },
            None => {},
        }
        Ok(())
    }

    /// The name to store: the trimmed name.
    pub fn sanitized_name(&self) -> (r: String)
        ensures
            r@ == spec_trim(self.name@),
    {
        trim(self.name.as_str())
    }

    /// The description to store: trimmed, and absent when that leaves nothing.
    pub fn sanitized_description(&self) -> (r: Option<String>)
        ensures
            opt_string_view(r) == spec_sanitized_description(opt_string_view(self.description)),
    {
        match &self.description {
            Some(description) => {
                let t = trim(description.as_str());
                if t.as_str().is_empty() {
                    None
                } else {
                    Some(t)
                }
            },
            None => None,
        }
    }
}

/// What validation lets through is stored with a name that is not empty, has at
/// most 120 bytes and is already trimmed; a stored description is never empty and
/// already trimmed.
pub proof fn law_item_sanitizing(req: CreateItemRequest)
    ensures
        req.validate_outcome() is Ok ==> {
            let n = spec_trim(req.name@);
            n.len() > 0 && byte_len(n) <= 120 && spec_trim(n) == n
        },
        spec_sanitized_description(opt_string_view(req.description)) matches Some(d) ==> d.len() > 0
            && d == spec_trim(d),
{
    crate::text::lemma_trim_idempotent(req.name@);
    if let Some(s) = req.description {
        crate::text::lemma_trim_idempotent(s@);
    }
}

} // verus!
