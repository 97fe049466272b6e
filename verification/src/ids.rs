//! Random identifiers.

use vstd::prelude::*;

use crate::unix_path::is_plain_name;

verus! {

/// Whether `c` is a lower-case hexadecimal digit.
pub open spec fn is_lower_hex(c: char) -> bool {
    '0' <= c <= '9' || 'a' <= c <= 'f'
}

/// Whether `c` is the digit that marks the variant of a random UUID.
pub open spec fn is_variant_digit(c: char) -> bool {
    c == '8' || c == '9' || c == 'a' || c == 'b'
}

/// Whether `s` is a random UUID written as 32 digits.
pub open spec fn is_simple_uuid(s: Seq<char>) -> bool {
    &&& s.len() == 32
    &&& forall|i: int| 0 <= i < 32 ==> is_lower_hex(#[trigger] s[i])
    &&& s[12] == '4'
    &&& is_variant_digit(s[16])
}

/// Whether `s` is a random UUID written in five groups with hyphens between them.
pub open spec fn is_hyphenated_uuid(s: Seq<char>) -> bool {
    &&& s.len() == 36
    &&& forall|i: int|
        0 <= i < 36 ==> if i == 8 || i == 13 || i == 18 || i == 23 {
            #[trigger] s[i] == '-'
        } else {
            is_lower_hex(s[i])
        }
    &&& s[14] == '4'
    &&& is_variant_digit(s[19])
}

/// `uuid::Uuid::new_v4` in the form of `Uuid::simple`: 32 lower-case digits, among them those of
/// a random UUID's version and variant. Which UUID comes is left to chance.
#[verifier::external_body]
pub(crate) fn random_simple_id() -> (r: String)
    ensures
        is_simple_uuid(r@),
{
    uuid::Uuid::new_v4().simple().to_string()
}

/// `uuid::Uuid::new_v4` as `Display` writes it: 32 lower-case digits in groups of 8, 4, 4, 4 and
/// 12, among them those of a random UUID's version and variant. Which UUID comes is left to
/// chance.
#[verifier::external_body]
pub(crate) fn random_hyphenated_id() -> (r: String)
    ensures
        is_hyphenated_uuid(r@),
{
    uuid::Uuid::new_v4().to_string()
}

/// A random UUID can name a file.
pub proof fn lemma_uuid_is_plain(s: Seq<char>)
    requires
        is_simple_uuid(s) || is_hyphenated_uuid(s),
    ensures
        is_plain_name(s),
{
    assert forall|i: int| 0 <= i < s.len() implies s[i] != '/' by {
        assert(is_simple_uuid(s) ==> is_lower_hex(s[i]));
        assert(is_hyphenated_uuid(s) ==> s[i] == '-' || is_lower_hex(s[i]));
    }
}

} // verus!
