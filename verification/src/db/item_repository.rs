//! What storing a new item of the JSON API writes.
use vstd::prelude::*;
use crate::models::item::{CreateItemRequest, opt_string_view, spec_sanitized_description};
use crate::text::spec_trim;

verus! {

/// Whether `c` is a lowercase hexadecimal digit.
pub open spec fn lower_hex(c: char) -> bool {
    ('0' <= c && c <= '9') || ('a' <= c && c <= 'f')
}

/// Whether `s` is a version-4 UUID in hyphenated lowercase form: 36 characters,
/// hyphens at 8, 13, 18 and 23, the version digit `4` at 14, hexadecimal elsewhere.
pub open spec fn uuid_v4_text(s: Seq<char>) -> bool {
    &&& s.len() == 36
    &&& forall|i: int|
        0 <= i < 36 ==> if i == 8 || i == 13 || i == 18 || i == 23 {
            #[trigger] s[i] == '-'
        } else {
            lower_hex(s[i])
        }
    &&& s[14] == '4'
}

/// A new random identifier from `uuid::Uuid::new_v4`, written with `to_string` (the
/// hyphenated lowercase form). Claimed: the text is a version-4 UUID in that form;
/// its value is random.
#[verifier::external_body]
pub(crate) fn new_uuid() -> (r: String)
    ensures
        uuid_v4_text(r@),
{
    uuid::Uuid::new_v4().to_string()
}

/// The row that storing a new item inserts.
pub struct NewItem {
    pub id: String,
    pub name: String,
    pub description: Option<String>,
}

/// A new item from a request: a new identifier, the trimmed name, and the trimmed
/// description unless that is empty.
pub fn new_item(payload: &CreateItemRequest) -> (r: NewItem)
    ensures
        uuid_v4_text(r.id@),
        r.name@ == spec_trim(payload.name@),
        opt_string_view(r.description) == spec_sanitized_description(
            opt_string_view(payload.description),
        ),
{
    NewItem {
        id: new_uuid(),
        name: payload.sanitized_name(),
        description: payload.sanitized_description(),
    }
}

} // verus!
