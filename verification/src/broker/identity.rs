//! Random identifiers of `uuid`.
use uuid::Uuid;
use vstd::prelude::*;

verus! {

/// Whether `c` is a hexadecimal digit in lower case.
pub open spec fn is_hex(c: char) -> bool {
    '0' <= c <= '9' || 'a' <= c <= 'f'
}

/// Whether every character of `s` is a hexadecimal digit in lower case.
pub open spec fn all_hex(s: Seq<char>) -> bool {
    forall|i: int| 0 <= i < s.len() ==> is_hex(#[trigger] s[i])
}

/// Whether `s` is a random (version 4) identifier written as 32 digits.
pub open spec fn is_simple_uuid(s: Seq<char>) -> bool {
    &&& s.len() == 32
    &&& all_hex(s)
    &&& s[12] == '4'
    &&& s[16] == '8' || s[16] == '9' || s[16] == 'a' || s[16] == 'b'
}

/// Whether `s` is a random (version 4) identifier written in five groups of
/// digits with hyphens between them.
pub open spec fn is_hyphenated_uuid(s: Seq<char>) -> bool {
    &&& s.len() == 36
    &&& s[8] == '-' && s[13] == '-' && s[18] == '-' && s[23] == '-'
    &&& is_simple_uuid(
        s.subrange(0, 8) + s.subrange(9, 13) + s.subrange(14, 18) + s.subrange(19, 23)
            + s.subrange(24, 36),
    )
}

/// `Uuid::new_v4` in its `simple` form: 32 digits of a random identifier.
///
/// Which digits is up to chance. Where the system has no random bytes to give,
/// the call does not return normally.
#[verifier::external_body]
pub(crate) fn random_simple_uuid() -> (r: String)
    ensures
        is_simple_uuid(r@),
{
    Uuid::new_v4().simple().to_string()
}

/// `Uuid::new_v4` in its hyphenated form, which is what it displays as.
///
/// Which digits is up to chance. Where the system has no random bytes to give,
/// the call does not return normally.
#[verifier::external_body]
pub(crate) fn random_uuid() -> (r: String)
    ensures
        is_hyphenated_uuid(r@),
{
    Uuid::new_v4().to_string()
}

/// The secret that is made of two identifiers.
pub fn token_of(first: &str, second: &str) -> (r: String)
    ensures
        r@ == first@ + second@,
{
    first.to_string().concat(second)
}

/// A new secret of 64 hexadecimal digits, made of two random identifiers.
pub fn generate_token() -> (r: String)
    ensures
        r@.len() == 64,
        is_simple_uuid(r@.subrange(0, 32)),
        is_simple_uuid(r@.subrange(32, 64)),
        all_hex(r@),
{
    let first = random_simple_uuid();
    let second = random_simple_uuid();
    let r = token_of(first.as_str(), second.as_str());
    proof {
        assert(r@.subrange(0, 32) =~= first@);
        assert(r@.subrange(32, 64) =~= second@);
        assert forall|i: int| 0 <= i < r@.len() implies is_hex(#[trigger] r@[i]) by {
            if i < 32 {
                assert(r@[i] == first@[i]);
            } else {
                assert(r@[i] == second@[i - 32]);
            }
        }
    }
    r
}

} // verus!
