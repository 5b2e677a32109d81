use vstd::prelude::*;

pub use crate::exchanges::adapter::{Connection, Exchange, MarketType, StreamType};
pub use crate::exchanges::{Ticker, Timeframe};

use crate::text::{decimal, decimal_with_suffix, grouped, push_grouped, push_range};

verus! {

broadcast use vstd::string::group_string_axioms;

/// A multiple of the minimum tick size used to group prices.
#[derive(Debug, Clone, Copy, PartialEq, Eq, Structural)]
pub struct TickMultiplier(pub u16);

impl TickMultiplier {
    /// The multipliers offered, smallest first.
    pub fn all() -> (r: [TickMultiplier; 8])
        ensures
            r@ == seq![
                TickMultiplier(1),
                TickMultiplier(2),
                TickMultiplier(5),
                TickMultiplier(10),
                TickMultiplier(25),
                TickMultiplier(50),
                TickMultiplier(100),
                TickMultiplier(200),
            ],
    {
        [
            TickMultiplier(1),
            TickMultiplier(2),
            TickMultiplier(5),
            TickMultiplier(10),
            TickMultiplier(25),
            TickMultiplier(50),
            TickMultiplier(100),
            TickMultiplier(200),
        ]
    }

    /// The label of the multiplier, such as "25x".
    pub fn label(&self) -> (s: String)
        ensures
            s@ == decimal(self.0 as nat) + "x"@,
    {
        decimal_with_suffix(self.0 as u64, "x")
    }
}

/// A whole-number numeral (as formatted with no decimals) with commas
/// between each group of three digits; a negative numeral of at most four
/// characters is kept as it is.
pub open spec fn spec_with_commas(s: Seq<char>) -> Seq<char> {
    if s.len() <= 4 && s[0] == '-' {
        s
    } else if s[0] == '-' {
        seq!['-'] + grouped(s.subrange(1, s.len() as int))
    } else {
        grouped(s)
    }
}

/// Inserts the thousands separators into a whole-number numeral.
pub fn commas_in_numeral(s: &str) -> (r: String)
    requires
        s@.len() > 0,
    ensures
        r@ == spec_with_commas(s@),
{
    let len = s.unicode_len();
    let negative = s.get_char(0) == '-';
    let mut result = String::new();
    if len <= 4 && negative {
        push_range(&mut result, s, len, 0, len);
        assert(s@.subrange(0, len as int) =~= s@);
        return result;
    }
    if negative {
        result.append("-");
        proof {
            reveal_strlit("-");
        }
        push_grouped(&mut result, s, len, 1, len);
    } else {
        push_grouped(&mut result, s, len, 0, len);
        assert(s@.subrange(0, len as int) =~= s@);
    }
    result
}

} // verus!
