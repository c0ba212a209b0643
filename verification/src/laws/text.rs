//! What holds of numerals and of trimming.

use vstd::prelude::*;

use crate::text::{
    decimal_text, is_white_space, same_text, trim, trimmed_is_unique, trims_to,
};

verus! {

/// The numeral of a digit is that digit.
pub proof fn digit_is_its_own_numeral(d: u64, r: String)
    requires
        d < 10,
        call_ensures(decimal_text, (d,), r),
    ensures
        r@.len() == 1,
        r@[0] as int == '0' as int + d,
{
}

/// A further digit of a number is a further character of its numeral, and the
/// characters before it are those of the number without that digit.
pub proof fn digits_are_appended(n: u64, d: u64, head: String, whole: String)
    requires
        n > 0,
        d < 10,
        10 * n + d <= u64::MAX,
        call_ensures(decimal_text, (n,), head),
        call_ensures(decimal_text, ((10 * n + d) as u64,), whole),
    ensures
        whole@.len() == head@.len() + 1,
        whole@.drop_last() == head@,
        whole@.last() as int == '0' as int + d,
{
    let m = (10 * n + d) as nat;
    assert(m / 10 == n && m % 10 == d);
    assert(whole@.drop_last() =~= head@);
}

/// Two texts are the same if and only if they have the same length and the same
/// character at each place.
pub proof fn same_texts_agree_everywhere(a: &str, b: &str, r: bool)
    requires
        call_ensures(same_text, (a, b), r),
    ensures
        r <==> a@.len() == b@.len() && forall|i: int| 0 <= i < a@.len() ==> a@[i] == b@[i],
{
    if a@.len() == b@.len() && forall|i: int| 0 <= i < a@.len() ==> a@[i] == b@[i] {
        assert(a@ =~= b@);
    }
}

/// White space, by code points.
pub proof fn white_space_has_these_code_points(c: char)
    ensures
        is_white_space(c) <==> ({
            let n = c as int;
            ||| 9 <= n <= 13
            ||| n == 32
            ||| n == 133
            ||| n == 160
            ||| n == 5760
            ||| 8192 <= n <= 8202
            ||| n == 8232
            ||| n == 8233
            ||| n == 8239
            ||| n == 8287
            ||| n == 12288
        }),
{
}

/// Trimming leaves a text alone that neither starts nor ends with white space.
pub proof fn trim_keeps_what_has_no_outer_space(s: &str, r: &str)
    requires
        call_ensures(trim, (s,), r),
        s@.len() == 0 || !is_white_space(s@[0]) && !is_white_space(s@.last()),
    ensures
        r@ == s@,
{
    assert(s@.subrange(0, s@.len() as int) =~= s@);
    assert(trims_to(s@, s@, 0, s@.len() as int));
    trimmed_is_unique(s@, r@, s@);
}

/// White space around a text makes no difference to what it is trimmed to.
pub proof fn trim_removes_outer_space(
    inner: &str,
    outer: &str,
    left: Seq<char>,
    right: Seq<char>,
    r: &str,
    q: &str,
)
    requires
        outer@ == left + inner@ + right,
        forall|i: int| 0 <= i < left.len() ==> is_white_space(#[trigger] left[i]),
        forall|i: int| 0 <= i < right.len() ==> is_white_space(#[trigger] right[i]),
        call_ensures(trim, (inner,), r),
        call_ensures(trim, (outer,), q),
    ensures
        q@ == r@,
{
    let (i, j) = choose|i: int, j: int| trims_to(inner@, r@, i, j);
    let n = left.len() as int;
    assert(outer@.subrange(n + i, n + j) =~= inner@.subrange(i, j));
    assert forall|k: int| 0 <= k < n + i implies is_white_space(#[trigger] outer@[k]) by {
        if k < n {
            assert(outer@[k] == left[k]);
        } else {
            assert(outer@[k] == inner@[k - n]);
        }
    }
    assert forall|k: int| n + j <= k < outer@.len() implies is_white_space(
        #[trigger] outer@[k],
    ) by {
        if k < n + inner@.len() {
            assert(outer@[k] == inner@[k - n]);
        } else {
            assert(outer@[k] == right[k - n - inner@.len()]);
        }
    }
    assert(trims_to(outer@, r@, n + i, n + j));
    trimmed_is_unique(outer@, q@, r@);
}

} // verus!
