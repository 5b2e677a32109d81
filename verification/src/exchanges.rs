use vstd::prelude::*;

pub mod adapter;

use adapter::MarketType;
use crate::text::push_char;

verus! {

broadcast use vstd::string::group_string_axioms;

/// Candle interval of a kline stream.
#[derive(Debug, Clone, Copy, PartialEq, Eq, Hash, Structural)]
pub enum Timeframe {
    M1,
    M3,
    M5,
    M15,
    M30,
    H1,
    H2,
    H4,
}

/// The length of a timeframe in minutes.
pub open spec fn spec_minutes(tf: Timeframe) -> nat {
    match tf {
        Timeframe::M1 => 1,
        Timeframe::M3 => 3,
        Timeframe::M5 => 5,
        Timeframe::M15 => 15,
        Timeframe::M30 => 30,
        Timeframe::H1 => 60,
        Timeframe::H2 => 120,
        Timeframe::H4 => 240,
    }
}

/// The length of a timeframe in milliseconds.
pub open spec fn spec_millis(tf: Timeframe) -> nat {
    spec_minutes(tf) * 60_000
}

impl Timeframe {
    pub fn to_minutes(self) -> (m: u16)
        ensures
            m == spec_minutes(self),
    {
        match self {
            Timeframe::M1 => 1,
            Timeframe::M3 => 3,
            Timeframe::M5 => 5,
            Timeframe::M15 => 15,
            Timeframe::M30 => 30,
            Timeframe::H1 => 60,
            Timeframe::H2 => 120,
            Timeframe::H4 => 240,
        }
    }

    pub fn to_milliseconds(self) -> (ms: u64)
        ensures
            ms == spec_millis(self),
    {
        (self.to_minutes() as u64) * 60_000
    }
}

/// The timeframe whose length is `ms` milliseconds, if there is one.
pub open spec fn timeframe_of_millis(ms: int) -> Option<Timeframe> {
    if ms == 60_000 {
        Some(Timeframe::M1)
    } else if ms == 180_000 {
        Some(Timeframe::M3)
    } else if ms == 300_000 {
        Some(Timeframe::M5)
    } else if ms == 900_000 {
        Some(Timeframe::M15)
    } else if ms == 1_800_000 {
        Some(Timeframe::M30)
    } else if ms == 3_600_000 {
        Some(Timeframe::H1)
    } else if ms == 7_200_000 {
        Some(Timeframe::H2)
    } else if ms == 14_400_000 {
        Some(Timeframe::H4)
    } else {
        None
    }
}

impl Timeframe {
    pub const ALL: [Timeframe; 8] = [
        Timeframe::M1,
        Timeframe::M3,
        Timeframe::M5,
        Timeframe::M15,
        Timeframe::M30,
        Timeframe::H1,
        Timeframe::H2,
        Timeframe::H4,
    ];

    /// The timeframe lasting `milliseconds`; only the eight lengths of the
    /// timeframes are accepted.
    pub fn from_milliseconds(milliseconds: u64) -> (tf: Timeframe)
        requires
            timeframe_of_millis(milliseconds as int) is Some,
        ensures
            Some(tf) == timeframe_of_millis(milliseconds as int),
    {
        match milliseconds {
            60_000 => Timeframe::M1,
            180_000 => Timeframe::M3,
            300_000 => Timeframe::M5,
            900_000 => Timeframe::M15,
            1_800_000 => Timeframe::M30,
            3_600_000 => Timeframe::H1,
            7_200_000 => Timeframe::H2,
            _ => Timeframe::H4,
        }
    }

    /// The short label of the timeframe, such as "15m" or "4h".
    pub fn label(&self) -> (s: &'static str)
        ensures
            s@ == spec_timeframe_label(*self),
    {
        match self {
            Timeframe::M1 => "1m",
            Timeframe::M3 => "3m",
            Timeframe::M5 => "5m",
            Timeframe::M15 => "15m",
            Timeframe::M30 => "30m",
            Timeframe::H1 => "1h",
            Timeframe::H2 => "2h",
            Timeframe::H4 => "4h",
        }
    }
}

/// The label shown for a timeframe.
pub open spec fn spec_timeframe_label(tf: Timeframe) -> Seq<char> {
    match tf {
        Timeframe::M1 => "1m"@,
        Timeframe::M3 => "3m"@,
        Timeframe::M5 => "5m"@,
        Timeframe::M15 => "15m"@,
        Timeframe::M30 => "30m"@,
        Timeframe::H1 => "1h"@,
        Timeframe::H2 => "2h"@,
        Timeframe::H4 => "4h"@,
    }
}

/// A timeframe is recovered from its length in milliseconds, and no two
/// timeframes have the same length.
pub proof fn law_timeframe_millis_roundtrip(tf: Timeframe, other: Timeframe)
    ensures
        timeframe_of_millis(spec_millis(tf) as int) == Some(tf),
        spec_millis(tf) == spec_millis(other) ==> tf == other,
{
}

// ---------------------------------------------------------------------------
// Ticker: up to 20 upper-case alphanumeric characters packed six bits each
// into two machine words.
// ---------------------------------------------------------------------------

/// A character a ticker symbol may hold.
pub open spec fn is_ticker_char(c: char) -> bool {
    ('0' <= c && c <= '9') || ('A' <= c && c <= 'Z')
}

/// A string that `Ticker::new` accepts.
pub open spec fn valid_ticker_symbol(s: Seq<char>) -> bool {
    &&& s.len() <= 20
    &&& forall|i: int| 0 <= i < s.len() ==> #[trigger] is_ticker_char(s[i])
}

/// Whether `Ticker::new` accepts `s`: at most twenty characters, each a
/// digit or an upper-case letter.
pub fn is_valid_ticker_symbol(s: &str) -> (b: bool)
    ensures
        b == valid_ticker_symbol(s@),
{
    let n = s.unicode_len();
    if n > 20 {
        return false;
    }
    let mut i: usize = 0;
    while i < n
        invariant
            n == s@.len(),
            0 <= i <= n,
            forall|k: int| 0 <= k < i ==> #[trigger] is_ticker_char(s@[k]),
        decreases n - i,
    {
        let c = s.get_char(i);
        if !(('0' <= c && c <= '9') || ('A' <= c && c <= 'Z')) {
            assert(!is_ticker_char(s@[i as int]));
            return false;
        }
        i = i + 1;
    }
    true
}

/// The six-bit code of a ticker character.
pub open spec fn char_code(c: char) -> int {
    if '0' <= c && c <= '9' {
        c as int - '0' as int
    } else {
        c as int - 'A' as int + 10
    }
}

/// The character a six-bit code stands for.
pub open spec fn code_char(v: int) -> char {
    if v < 10 {
        (v + '0' as int) as char
    } else {
        (v - 10 + 'A' as int) as char
    }
}

/// The six-bit group of character `i` in the packed words.
pub open spec fn packed_group(data: [u64; 2], i: int) -> u64 {
    (data[i / 10] >> ((6 * (i % 10)) as u64)) & 63
}

/// Number of characters stored in word `k` of a ticker of length `len`.
pub open spec fn chars_in_word(len: int, k: int) -> int {
    if len - 10 * k <= 0 {
        0
    } else if len - 10 * k >= 10 {
        10
    } else {
        len - 10 * k
    }
}

#[derive(Debug, Clone, Copy, PartialEq, Eq, Hash)]
pub struct Ticker {
    data: [u64; 2],
    len: u8,
    pub market_type: MarketType,
}

impl Ticker {
    /// Well-formedness: a short symbol of valid codes, with every bit above
    /// the stored characters clear, so that one symbol has one encoding.
    pub closed spec fn wf(self) -> bool {
        &&& self.len <= 20
        &&& forall|i: int| 0 <= i < self.len ==> #[trigger] packed_group(self.data, i) < 36
        &&& self.data[0] >> ((6 * chars_in_word(self.len as int, 0)) as u64) == 0
        &&& self.data[1] >> ((6 * chars_in_word(self.len as int, 1)) as u64) == 0
    }

    /// The market this ticker belongs to.
    pub closed spec fn market(self) -> MarketType {
        self.market_type
    }

    /// The symbol this ticker spells.
    pub closed spec fn symbol(self) -> Seq<char> {
        Seq::new(self.len as nat, |i: int| code_char(packed_group(self.data, i) as int))
    }
}


proof fn lemma_pack_new_group(w: u64, v: u64, s: u64) by (bit_vector)
    requires
        s <= 54,
        w >> s == 0,
        v < 64,
    ensures
        ((w | (v << s)) >> s) & 63 == v,
        (w | (v << s)) >> (s + 6) == 0,
{
}

proof fn lemma_pack_keeps_group(w: u64, v: u64, s: u64, t: u64) by (bit_vector)
    requires
        s <= 54,
        w >> s == 0,
        v < 64,
        t + 6 <= s,
    ensures
        ((w | (v << s)) >> t) & 63 == (w >> t) & 63,
{
}

proof fn lemma_zero_word_shift(s: u64) by (bit_vector)
    requires
        s <= 60,
    ensures
        (0u64 >> s) == 0,
{
}

proof fn lemma_code_roundtrip(c: char)
    requires
        is_ticker_char(c),
    ensures
        0 <= char_code(c) < 36,
        code_char(char_code(c)) == c,
{
}

impl Ticker {
    /// Packs a symbol of at most 20 digits and upper-case letters.
    pub fn new(ticker: &str, market_type: MarketType) -> (t: Ticker)
        requires
            valid_ticker_symbol(ticker@),
        ensures
            t.wf(),
            t.symbol() == ticker@,
            t.market() == market_type,
    {
        proof {
            assert(vstd::string::is_ascii(ticker)) by {
                assert forall|i| 0 <= i < ticker@.len() implies '\0' <= #[trigger] ticker@[i]
                    <= '\u{7f}' by {
                    assert(is_ticker_char(ticker@[i]));
                }
            }
        }
        let bytes = ticker.as_bytes();
        let n = bytes.len();
        assert(n == ticker@.len());
        let mut data: [u64; 2] = [0u64, 0u64];
        let mut i: usize = 0;
        proof {
            lemma_zero_word_shift(0);
        }
        while i < n
            invariant
                n == ticker@.len(),
                n <= 20,
                0 <= i <= n,
                bytes@.len() == n,
                forall|j: int| 0 <= j < n ==> #[trigger] bytes@[j] == ticker@[j] as u8,
                valid_ticker_symbol(ticker@),
                forall|j: int| 0 <= j < i ==> #[trigger] packed_group(data, j) as int == char_code(ticker@[j]),
                data[0] >> ((6 * chars_in_word(i as int, 0)) as u64) == 0,
                data[1] >> ((6 * chars_in_word(i as int, 1)) as u64) == 0,
            decreases n - i,
        {
            let c = bytes[i];
            assert(is_ticker_char(ticker@[i as int]));
            let value: u8 = if c >= 48u8 && c <= 57u8 {
                c - 48u8
            } else {
                c - 65u8 + 10u8
            };
            assert(value as int == char_code(ticker@[i as int]));
            let shift: u64 = ((i % 10) * 6) as u64;
            let idx: usize = i / 10;
            let ghost old_data = data;
            let w = data[idx];
            let nw = w | ((value as u64) << shift);
            proof {
                lemma_pack_new_group(w, value as u64, shift);
                assert forall|t: u64| t + 6 <= shift implies ((nw >> t) & 63) == ((w >> t) & 63) by {
                    lemma_pack_keeps_group(w, value as u64, shift, t);
                }
            }
            data[idx] = nw;
            proof {
                assert forall|j: int| 0 <= j < i + 1 implies #[trigger] packed_group(data, j) as int
                    == char_code(ticker@[j]) by {
                    if j == i {
                    } else if j / 10 == idx as int {
                        assert((6 * (j % 10)) as u64 + 6 <= shift);
                        assert(packed_group(data, j) == packed_group(old_data, j));
                    } else {
                        assert(packed_group(data, j) == packed_group(old_data, j));
                    }
                }
            }
            i = i + 1;
        }
        let t = Ticker { data, len: n as u8, market_type };
        proof {
            assert forall|j: int| 0 <= j < t.len implies #[trigger] packed_group(t.data, j) < 36 by {
                assert(is_ticker_char(ticker@[j]));
            }
            assert forall|j: int| 0 <= j < ticker@.len() implies #[trigger] t.symbol()[j]
                == ticker@[j] by {
                lemma_code_roundtrip(ticker@[j]);
            }
            assert(t.symbol() =~= ticker@);
        }
        t
    }
}


impl Default for Ticker {
    /// The empty symbol on the spot market.
    fn default() -> (t: Self)
        ensures
            t.wf(),
            t.symbol() == Seq::<char>::empty(),
            t.market() == MarketType::Spot,
    {
        let t = Ticker { data: [0u64, 0u64], len: 0, market_type: MarketType::Spot };
        proof {
            lemma_zero_word_shift(0);
            assert(t.symbol() =~= Seq::<char>::empty());
        }
        t
    }
}

impl Ticker {
    /// Unpacks the symbol, with the market it trades on.
    pub fn get_string(&self) -> (r: (String, MarketType))
        requires
            self.wf(),
        ensures
            r.0@ == self.symbol(),
            r.1 == self.market(),
    {
        let mut result = String::new();
        let mut i: u8 = 0;
        while i < self.len
            invariant
                self.wf(),
                0 <= i <= self.len,
                result@ == self.symbol().subrange(0, i as int),
            decreases self.len - i,
        {
            let value: u64 = (self.data[(i / 10) as usize] >> (((i % 10) * 6) as u64)) & 0x3F;
            assert(value == packed_group(self.data, i as int));
            let c: char = if value < 10 {
                ((48u64 + value) as u8) as char
            } else {
                ((65u64 + value - 10) as u8) as char
            };
            assert(c == code_char(value as int));
            push_char(&mut result, c);
            assert(result@ =~= self.symbol().subrange(0, i + 1));
            i = i + 1;
        }
        assert(result@ =~= self.symbol());
        (result, self.market_type)
    }
}


proof fn lemma_high_groups_zero(w: u64, s: u64, t: u64) by (bit_vector)
    requires
        w >> s == 0,
        s <= t,
        s <= 60,
    ensures
        (w >> t) & 63 == 0,
        w >> 60 == 0,
{
}

proof fn lemma_groups_determine_word(w1: u64, w2: u64) by (bit_vector)
    requires
        w1 >> 60 == 0,
        w2 >> 60 == 0,
        w1 & 63 == w2 & 63,
        (w1 >> 6) & 63 == (w2 >> 6) & 63,
        (w1 >> 12) & 63 == (w2 >> 12) & 63,
        (w1 >> 18) & 63 == (w2 >> 18) & 63,
        (w1 >> 24) & 63 == (w2 >> 24) & 63,
        (w1 >> 30) & 63 == (w2 >> 30) & 63,
        (w1 >> 36) & 63 == (w2 >> 36) & 63,
        (w1 >> 42) & 63 == (w2 >> 42) & 63,
        (w1 >> 48) & 63 == (w2 >> 48) & 63,
        (w1 >> 54) & 63 == (w2 >> 54) & 63,
    ensures
        w1 == w2,
{
}

proof fn lemma_code_char_injective(a: int, b: int)
    requires
        0 <= a < 36,
        0 <= b < 36,
        code_char(a) == code_char(b),
    ensures
        a == b,
{
}

spec fn word_group(w: u64, g: int) -> u64 {
    (w >> ((6 * g) as u64)) & 63
}

proof fn lemma_word_canonical(t1: Ticker, t2: Ticker, k: int)
    requires
        t1.wf(),
        t2.wf(),
        t1.len == t2.len,
        t1.symbol() == t2.symbol(),
        k == 0 || k == 1,
    ensures
        t1.data[k] == t2.data[k],
{
    let cnt = chars_in_word(t1.len as int, k);
    let sh = (6 * cnt) as u64;
    let w1 = t1.data[k];
    let w2 = t2.data[k];
    assert forall|g: int| 0 <= g < 10 implies #[trigger] word_group(w1, g) == word_group(w2, g) by {
        let i = 10 * k + g;
        assert(i / 10 == k && i % 10 == g);
        if g < cnt {
            assert(0 <= i < t1.len);
            assert(t1.symbol()[i] == code_char(packed_group(t1.data, i) as int));
            assert(t2.symbol()[i] == code_char(packed_group(t2.data, i) as int));
            assert(t1.symbol()[i] == t2.symbol()[i]);
            assert(packed_group(t1.data, i) < 36);
            assert(packed_group(t2.data, i) < 36);
            lemma_code_char_injective(
                packed_group(t1.data, i) as int,
                packed_group(t2.data, i) as int,
            );
        } else {
            lemma_high_groups_zero(w1, sh, (6 * g) as u64);
            lemma_high_groups_zero(w2, sh, (6 * g) as u64);
        }
    }
    lemma_high_groups_zero(w1, sh, 60);
    lemma_high_groups_zero(w2, sh, 60);
    assert(word_group(w1, 0) == word_group(w2, 0));
    assert(word_group(w1, 1) == word_group(w2, 1));
    assert(word_group(w1, 2) == word_group(w2, 2));
    assert(word_group(w1, 3) == word_group(w2, 3));
    assert(word_group(w1, 4) == word_group(w2, 4));
    assert(word_group(w1, 5) == word_group(w2, 5));
    assert(word_group(w1, 6) == word_group(w2, 6));
    assert(word_group(w1, 7) == word_group(w2, 7));
    assert(word_group(w1, 8) == word_group(w2, 8));
    assert(word_group(w1, 9) == word_group(w2, 9));
    assert((w1 >> 0u64) & 63 == (w2 >> 0u64) & 63);
    assert(w1 >> 0u64 == w1) by (bit_vector);
    assert(w2 >> 0u64 == w2) by (bit_vector);
    assert((w1 >> 6u64) & 63 == (w2 >> 6u64) & 63);
    assert((w1 >> 12u64) & 63 == (w2 >> 12u64) & 63);
    assert((w1 >> 18u64) & 63 == (w2 >> 18u64) & 63);
    assert((w1 >> 24u64) & 63 == (w2 >> 24u64) & 63);
    assert((w1 >> 30u64) & 63 == (w2 >> 30u64) & 63);
    assert((w1 >> 36u64) & 63 == (w2 >> 36u64) & 63);
    assert((w1 >> 42u64) & 63 == (w2 >> 42u64) & 63);
    assert((w1 >> 48u64) & 63 == (w2 >> 48u64) & 63);
    assert((w1 >> 54u64) & 63 == (w2 >> 54u64) & 63);
    lemma_groups_determine_word(w1, w2);
}

/// One symbol has one encoding: two well-formed tickers that spell the same
/// symbol on the same market are equal, so equality and hashing of tickers
/// agree with their symbols.
pub proof fn law_ticker_encoding_is_canonical(t1: Ticker, t2: Ticker)
    requires
        t1.wf(),
        t2.wf(),
        t1.symbol() == t2.symbol(),
        t1.market() == t2.market(),
    ensures
        t1 == t2,
{
    assert(t1.symbol().len() == t1.len);
    assert(t2.symbol().len() == t2.len);
    assert(t1.len == t2.len);
    lemma_word_canonical(t1, t2, 0);
    lemma_word_canonical(t1, t2, 1);
    assert(t1.data =~= t2.data);
    assert(t1.market_type == t2.market_type);
}

} // verus!
pub mod depth;
