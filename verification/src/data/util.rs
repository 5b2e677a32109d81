use vstd::prelude::*;

use crate::text::{find_char_from, grouped, index_of_from, lemma_index_of_from, push_grouped, push_range};

verus! {

/// A numeral with a fraction, its integer digits grouped by thousands and
/// a leading '-' when `negative`.
pub open spec fn spec_decimal_with_commas(s: Seq<char>, negative: bool) -> Seq<char> {
    let p = index_of_from(s, '.', 0);
    (if negative { seq!['-'] } else { Seq::<char>::empty() }) + grouped(s.subrange(0, p)) + s.subrange(
        p,
        s.len() as int,
    )
}

/// Inserts thousands separators into the integer part of a formatted
/// absolute value, keeps its fraction, and prefixes '-' when `negative`.
pub fn commas_in_decimal(s: &str, negative: bool) -> (r: String)
    requires
        index_of_from(s@, '.', 0) > 0,
    ensures
        r@ == spec_decimal_with_commas(s@, negative),
{
    let len = s.unicode_len();
    proof {
        lemma_index_of_from(s@, '.', 0);
    }
    let p = find_char_from(s, len, '.', 0);
    let mut result = String::new();
    if negative {
        result.append("-");
        proof {
            reveal_strlit("-");
        }
    }
    push_grouped(&mut result, s, len, 0, p);
    push_range(&mut result, s, len, p, len);
    assert(result@ =~= spec_decimal_with_commas(s@, negative));
    result
}

/// Midnight UTC of the day that `ms`, in milliseconds since the epoch,
/// falls in (days before the epoch included): the start of that day.
pub fn start_of_day_ms(ms: i64) -> (r: i64)
    requires
        ms - ms % 86_400_000 >= i64::MIN,
    ensures
        r == ms - ms % 86_400_000,
        r <= ms < r + 86_400_000,
        r % 86_400_000 == 0,
{
    let day: u64 = 86_400_000;
    if ms >= 0 {
        let u = ms as u64;
        let rem = u % day;
        proof {
            vstd::arithmetic::div_mod::lemma_fundamental_div_mod(ms as int, 86_400_000);
            vstd::arithmetic::div_mod::lemma_mod_multiples_basic(ms / 86_400_000, 86_400_000);
        }
        ms - rem as i64
    } else {
        let a: u64 = (-(ms as i128) - 1) as u64;
        let back: u64 = day - 1 - a % day;
        proof {
            let x = ms as int;
            let b = a as int;
            assert(b == -x - 1);
            vstd::arithmetic::div_mod::lemma_fundamental_div_mod(b, 86_400_000);
            vstd::arithmetic::div_mod::lemma_fundamental_div_mod(x, 86_400_000);
            vstd::arithmetic::div_mod::lemma_mod_bound(b, 86_400_000);
            assert(back as int == 86_399_999 - b % 86_400_000);
            // x = -(b + 1) = -((b / d) * d + b % d + 1) = (-(b / d) - 1) * d + back
            let q = -(b / 86_400_000) - 1;
            assert(x == q * 86_400_000 + back as int) by (nonlinear_arith)
                requires
                    b == -x - 1,
                    b == (b / 86_400_000) * 86_400_000 + b % 86_400_000,
                    back as int == 86_399_999 - b % 86_400_000,
                    q == -(b / 86_400_000) - 1,
            ;
            vstd::arithmetic::div_mod::lemma_fundamental_div_mod_converse(
                x,
                86_400_000,
                q,
                back as int,
            );
            vstd::arithmetic::div_mod::lemma_mod_multiples_basic(q, 86_400_000);
        }
        ms - back as i64
    }
}

} // verus!
