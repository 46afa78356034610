//! Correlation ids.

use vstd::prelude::*;

verus! {

/// Whether `c` is a lower-case hexadecimal digit.
pub open spec fn is_lower_hex(c: char) -> bool {
    ('0' <= c && c <= '9') || ('a' <= c && c <= 'f')
}

/// The shape of a correlation id: 128 bits in lower-case hexadecimal, in
/// groups of 8, 4, 4, 4 and 12 digits with a hyphen between groups.
pub open spec fn is_request_id(id: Seq<char>) -> bool {
    &&& id.len() == 36
    &&& forall|i: int|
        0 <= i < 36 ==> if i == 8 || i == 13 || i == 18 || i == 23 {
            #[trigger] id[i] == '-'
        } else {
            is_lower_hex(id[i])
        }
}

/// A fresh random correlation id.
///
/// Calls `uuid::Uuid::new_v4` and renders the result with `to_string`. The
/// contract claims only the shape of the text: `Display` for `Uuid` writes
/// the hyphenated lower-case form, which is 36 characters long. Which id
/// comes back is left open, and so is whether it was handed out before.
/// `new_v4` takes no input and panics only where the platform's source of
/// randomness fails, which is taken not to happen.
#[verifier::external_body]
pub(crate) fn new_request_id() -> (id: String)
    ensures
        is_request_id(id@),
{
    uuid::Uuid::new_v4().to_string()
}

} // verus!
