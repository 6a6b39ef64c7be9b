//! Ids that are drawn at random.
use vstd::prelude::*;

verus! {

/// Whether a text is written as a random UUID is: lower-case hexadecimal digits
/// in five groups, with the version and the variant in their places.
pub open spec fn is_random_uuid(s: Seq<char>) -> bool {
    &&& s.len() == 36
    &&& forall|i: int|
        0 <= i < 36 ==> if i == 8 || i == 13 || i == 18 || i == 23 {
            #[trigger] s[i] == '-'
        } else {
            '0' <= s[i] <= '9' || 'a' <= s[i] <= 'f'
        }
    &&& s[14] == '4'
    &&& s[19] == '8' || s[19] == '9' || s[19] == 'a' || s[19] == 'b'
}

/// A new id. Calls `uuid::Uuid::new_v4`, which draws a random UUID, and writes
/// it with `to_string`. Claimed is how the text is formed, not that it differs
/// from those drawn before: that is a matter of chance.
#[verifier::external_body]
pub(crate) fn new_id() -> (r: String)
    ensures
        is_random_uuid(r@),
{
    uuid::Uuid::new_v4().to_string()
}

} // verus!
