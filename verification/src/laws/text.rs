//! What the string functions do.
use crate::text::{decimal, decimal_text, digit, same_text, strip_prefix};
use vstd::prelude::*;

verus! {

/// The number that digits stand for in base ten.
pub open spec fn base_ten(s: Seq<char>) -> int
    decreases s.len(),
{
    if s.len() == 0 {
        0
    } else {
        base_ten(s.drop_last()) * 10 + (s.last() as int - '0' as int)
    }
}

/// Whether the characters are digits, without a zero in front of others.
pub open spec fn plain_digits(s: Seq<char>) -> bool {
    &&& s.len() > 0
    &&& forall|i: int| 0 <= i < s.len() ==> '0' <= #[trigger] s[i] && s[i] <= '9'
    &&& s[0] == '0' ==> s.len() == 1
}

/// Decimal text consists of digits without leading zeros and stands for its
/// number in base ten.
pub proof fn law_decimal_stands_for_its_number(n: nat)
    ensures
        plain_digits(decimal(n)),
        base_ten(decimal(n)) == n,
    decreases n,
{
    if n < 10 {
        assert(seq![digit(n)].drop_last() =~= Seq::<char>::empty());
        assert(base_ten(Seq::<char>::empty()) == 0);
    } else {
        law_decimal_stands_for_its_number(n / 10);
        assert(decimal(n).drop_last() =~= decimal(n / 10));
        assert forall|i: int| 0 <= i < decimal(n).len() implies '0' <= #[trigger] decimal(n)[i]
            && decimal(n)[i] <= '9' by {
            if i < decimal(n).len() - 1 {
                assert(decimal(n)[i] == decimal(n / 10)[i]);
            }
        }
        if decimal(n / 10)[0] == '0' {
            assert(decimal(n / 10) =~= seq!['0']);
            assert(decimal(n / 10).drop_last() =~= Seq::<char>::empty());
            assert(base_ten(Seq::<char>::empty()) == 0);
            assert(base_ten(decimal(n / 10)) == 0);
        }
    }
}

/// A number is written as digits without leading zeros that stand for it.
pub proof fn law_decimal_text(n: u64, r: String)
    requires
        call_ensures(decimal_text, (n,), r),
    ensures
        plain_digits(r@),
        base_ten(r@) == n,
{
    law_decimal_stands_for_its_number(n as nat);
}

/// Two strings are found to be the same where their characters are.
pub proof fn law_same_text(a: &str, b: &str, r: bool)
    requires
        call_ensures(same_text, (a, b), r),
    ensures
        r <==> a@ == b@,
{
}

/// What follows a prefix is found, and nothing is found without the prefix.
pub proof fn law_strip_prefix(s: &str, prefix: &str, rest: Seq<char>, r: Option<&str>)
    requires
        call_ensures(strip_prefix, (s, prefix), r),
    ensures
        s@ == prefix@ + rest ==> r is Some && r->0@ == rest,
        r is Some ==> s@ == prefix@ + r->0@,
{
    if s@ == prefix@ + rest {
        assert(prefix@.is_prefix_of(s@)) by {
            assert(s@.take(prefix@.len() as int) =~= prefix@);
        }
        assert(r->0@ =~= s@.skip(prefix@.len() as int));
        assert(rest =~= s@.skip(prefix@.len() as int));
    }
}

} // verus!
