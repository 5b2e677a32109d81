use vstd::prelude::*;

use super::binance::{opt_view, spec_symbol_kept, symbol_kept};
use crate::exchanges::adapter::MarketType;
use crate::exchanges::{is_valid_ticker_symbol, valid_ticker_symbol, Ticker};
use crate::text::str_equals;

verus! {

broadcast use vstd::string::group_string_axioms;

/// A JSON document. A number is kept as the text `serde_json` prints for
/// it (digits, with a leading '-' when negative, for an integer; a '.' or
/// an exponent for any other number), and an object as its fields in
/// order, each key once.
#[derive(Debug)]
pub enum Json {
    Null,
    Bool(bool),
    Number(String),
    Str(String),
    Array(Vec<Json>),
    Object(Vec<(String, Json)>),
}

#[verifier::external_type_specification]
#[verifier::external_body]
pub struct ExJsonValue(serde_json::Value);

/// The document `serde_json` reads from a text, none when the text is not
/// JSON.
pub uninterp spec fn parsed_json(text: Seq<char>) -> Option<Json>;

/// Takes a `serde_json::Value` over into `Json`, one variant for another.
#[verifier::external_body]
fn json_from_value(v: serde_json::Value) -> Json {
    match v {
        serde_json::Value::Null => Json::Null,
        serde_json::Value::Bool(b) => Json::Bool(b),
        serde_json::Value::Number(n) => Json::Number(n.to_string()),
        serde_json::Value::String(s) => Json::Str(s),
        serde_json::Value::Array(a) => Json::Array(a.into_iter().map(json_from_value).collect()),
        serde_json::Value::Object(o) => Json::Object(
            o.into_iter().map(|(k, x)| (k, json_from_value(x))).collect(),
        ),
    }
}

/// `serde_json::from_str::<serde_json::Value>`: the document a text
/// holds, `None` when it is not JSON. What the parse gives is named, not
/// stated.
#[verifier::external_body]
fn parse_json(text: &str) -> (r: Option<Json>)
    ensures
        r == parsed_json(text@),
{
    serde_json::from_str::<serde_json::Value>(text).ok().map(json_from_value)
}

// ---------------------------------------------------------------------------
// Reading a document
// ---------------------------------------------------------------------------

/// The value of the first field from `i` on named `key`, `Null` when there
/// is none.
pub open spec fn field_from(fields: Seq<(String, Json)>, key: Seq<char>, i: int) -> Json
    decreases fields.len() - i,
{
    if i < 0 || i >= fields.len() {
        Json::Null
    } else if fields[i].0@ == key {
        fields[i].1
    } else {
        field_from(fields, key, i + 1)
    }
}

/// `value[key]`: the field of an object, `Null` when it has no such field
/// or is no object.
pub open spec fn json_get(j: Json, key: Seq<char>) -> Json {
    match j {
        Json::Object(fields) => field_from(fields@, key, 0),
        _ => Json::Null,
    }
}

/// The text of a string value.
pub open spec fn json_str(j: Json) -> Option<Seq<char>> {
    match j {
        Json::Str(s) => Some(s@),
        _ => None,
    }
}

/// The items of an array value.
pub open spec fn json_array(j: Json) -> Option<Seq<Json>> {
    match j {
        Json::Array(a) => Some(a@),
        _ => None,
    }
}

pub open spec fn is_digit(c: char) -> bool {
    '0' <= c && c <= '9'
}

/// The value of a non-empty run of decimal digits.
pub open spec fn digits_value(t: Seq<char>) -> Option<int>
    decreases t.len(),
{
    if t.len() == 0 || !is_digit(t.last()) {
        None
    } else if t.len() == 1 {
        Some(t.last() as int - '0' as int)
    } else {
        match digits_value(t.drop_last()) {
            Some(v) => Some(v * 10 + (t.last() as int - '0' as int)),
            None => None,
        }
    }
}

/// The value of an integer numeral: digits, with a leading '-' when
/// negative.
pub open spec fn integer_text_value(s: Seq<char>) -> Option<int> {
    if s.len() > 0 && s[0] == '-' {
        match digits_value(s.drop_first()) {
            Some(v) => Some(-v),
            None => None,
        }
    } else {
        digits_value(s)
    }
}

/// `value.as_i64()`: an integer number that fits in an `i64`.
pub open spec fn json_i64(j: Json) -> Option<i64> {
    match j {
        Json::Number(n) => match integer_text_value(n@) {
            Some(v) => if i64::MIN <= v <= i64::MAX {
                Some(v as i64)
            } else {
                None
            },
            None => None,
        },
        _ => None,
    }
}

/// A looked-up value, `Null` for none.
pub open spec fn or_null(j: Option<&Json>) -> Json {
    match j {
        Some(v) => *v,
        None => Json::Null,
    }
}

/// Looks up a field of an object (none for a missing field or a value that
/// is no object).
fn field<'a>(j: &'a Json, key: &str) -> (r: Option<&'a Json>)
    ensures
        or_null(r) == json_get(*j, key@),
{
    match j {
        Json::Object(fields) => {
            let mut i: usize = 0;
            while i < fields.len()
                invariant
                    0 <= i <= fields.len(),
                    json_get(*j, key@) == field_from(fields@, key@, 0),
                    field_from(fields@, key@, 0) == field_from(fields@, key@, i as int),
                decreases fields.len() - i,
            {
                let name = fields[i].0.as_str();
                assert(name@ == fields@[i as int].0@);
                if str_equals(name, key) {
                    return Some(&fields[i].1);
                }
                i = i + 1;
            }
            None
        },
        _ => None,
    }
}

fn str_of<'a>(j: Option<&'a Json>) -> (r: Option<&'a str>)
    ensures
        opt_view(r) == json_str(or_null(j)),
{
    match j {
        Some(Json::Str(s)) => Some(s.as_str()),
        _ => None,
    }
}

fn array_of<'a>(j: Option<&'a Json>) -> (r: Option<&'a Vec<Json>>)
    ensures
        match r {
            Some(a) => json_array(or_null(j)) == Some(a@),
            None => json_array(or_null(j)) is None,
        },
{
    match j {
        Some(Json::Array(a)) => Some(a),
        _ => None,
    }
}

/// Reads a run of digits as a magnitude, none when a character is not a
/// digit, the run is empty, or the magnitude passes 2^63.
fn digits_magnitude(s: &str, from: usize, n: usize) -> (r: Option<u64>)
    requires
        n == s@.len(),
        from <= n,
    ensures
        match r {
            Some(m) => digits_value(s@.subrange(from as int, n as int)) == Some(m as int) && m
                <= 0x8000_0000_0000_0000u64,
            None => match digits_value(s@.subrange(from as int, n as int)) {
                Some(v) => v > 0x8000_0000_0000_0000u64,
                None => true,
            },
        },
{
    if from == n {
        return None;
    }
    let mut mag: u64 = 0;
    let mut too_big = false;
    let mut i: usize = from;
    while i < n
        invariant
            n == s@.len(),
            from <= i <= n,
            from < n,
            i == from ==> mag == 0 && !too_big,
            i > from && !too_big ==> digits_value(s@.subrange(from as int, i as int)) == Some(
                mag as int,
            ) && mag <= 0x8000_0000_0000_0000u64,
            i > from && too_big ==> match digits_value(s@.subrange(from as int, i as int)) {
                Some(v) => v > 0x8000_0000_0000_0000u64,
                None => true,
            },
        decreases n - i,
    {
        let c = s.get_char(i);
        let ghost t = s@.subrange(from as int, i + 1);
        assert(t.drop_last() =~= s@.subrange(from as int, i as int));
        assert(t.last() == c);
        if !('0' <= c && c <= '9') {
            assert(digits_value(t) is None);
            proof {
                lemma_digits_none_extends(s@.subrange(from as int, n as int), (i + 1 - from) as int);
                assert(s@.subrange(from as int, n as int).subrange(0, (i + 1 - from) as int) =~= t);
            }
            return None;
        }
        let d = (c as u32 - '0' as u32) as u64;
        if !too_big {
            if mag > (0x8000_0000_0000_0000u64 - d) / 10 {
                too_big = true;
            } else {
                mag = mag * 10 + d;
            }
        }
        i = i + 1;
    }
    assert(s@.subrange(from as int, n as int) =~= s@.subrange(from as int, i as int));
    if too_big {
        None
    } else {
        Some(mag)
    }
}

/// Once a prefix is no run of digits, no longer text is one.
proof fn lemma_digits_none_extends(t: Seq<char>, k: int)
    requires
        1 <= k <= t.len(),
        digits_value(t.subrange(0, k)) is None,
    ensures
        digits_value(t) is None,
    decreases t.len() - k,
{
    if k < t.len() {
        let u = t.subrange(0, k + 1);
        assert(u.drop_last() =~= t.subrange(0, k));
        lemma_digits_none_extends(t, k + 1);
    } else {
        assert(t.subrange(0, k) =~= t);
    }
}

fn i64_of(j: Option<&Json>) -> (r: Option<i64>)
    ensures
        r == json_i64(or_null(j)),
{
    match j {
        Some(Json::Number(text)) => {
            let s = text.as_str();
            let n = s.unicode_len();
            if n > 0 && s.get_char(0) == '-' {
                let m = digits_magnitude(s, 1, n);
                assert(s@.subrange(1, n as int) =~= s@.drop_first());
                match m {
                    Some(mag) => {
                        if mag == 0x8000_0000_0000_0000u64 {
                            Some(i64::MIN)
                        } else {
                            Some(-(mag as i64))
                        }
                    },
                    None => None,
                }
            } else {
                let m = digits_magnitude(s, 0, n);
                assert(s@.subrange(0, n as int) =~= s@);
                match m {
                    Some(mag) => {
                        if mag <= 0x7fff_ffff_ffff_ffffu64 {
                            Some(mag as i64)
                        } else {
                            None
                        }
                    },
                    None => None,
                }
            }
        },
        _ => None,
    }
}

/// The type an entry lists under `type_key`, the empty text when it has
/// none.
pub open spec fn entry_type(e: Json, type_key: Seq<char>) -> Seq<char> {
    match json_str(json_get(e, type_key)) {
        Some(t) => t,
        None => Seq::empty(),
    }
}

/// The index of the first entry from `i` on whose type is `wanted`.
pub open spec fn first_entry_of_type(
    entries: Seq<Json>,
    type_key: Seq<char>,
    wanted: Seq<char>,
    i: int,
) -> Option<int>
    decreases entries.len() - i,
{
    if i < 0 || i >= entries.len() {
        None
    } else if entry_type(entries[i], type_key) == wanted {
        Some(i)
    } else {
        first_entry_of_type(entries, type_key, wanted, i + 1)
    }
}

proof fn lemma_first_entry_in_range(entries: Seq<Json>, type_key: Seq<char>, wanted: Seq<char>, i: int)
    requires
        0 <= i,
    ensures
        first_entry_of_type(entries, type_key, wanted, i) matches Some(k) ==> i <= k
            < entries.len(),
    decreases entries.len() - i,
{
    if i < entries.len() && entry_type(entries[i], type_key) != wanted {
        lemma_first_entry_in_range(entries, type_key, wanted, i + 1);
    }
}

/// Finds the first entry (a rate limit or a symbol filter) whose type is
/// `wanted`.
fn first_of_type(entries: &Vec<Json>, type_key: &str, wanted: &str) -> (r: Option<usize>)
    ensures
        match r {
            Some(k) => first_entry_of_type(entries@, type_key@, wanted@, 0) == Some(k as int),
            None => first_entry_of_type(entries@, type_key@, wanted@, 0) is None,
        },
{
    proof {
        reveal_strlit("");
    }
    let mut i: usize = 0;
    while i < entries.len()
        invariant
            0 <= i <= entries.len(),
            first_entry_of_type(entries@, type_key@, wanted@, 0) == first_entry_of_type(
                entries@,
                type_key@,
                wanted@,
                i as int,
            ),
        decreases entries.len() - i,
    {
        let t = str_of(field(&entries[i], type_key));
        let matches = match t {
            Some(x) => str_equals(x, wanted),
            None => str_equals("", wanted),
        };
        assert(matches == (entry_type(entries@[i as int], type_key@) == wanted@)) by {
            reveal_strlit("");
            assert(""@ =~= Seq::<char>::empty());
        }
        if matches {
            return Some(i);
        }
        i = i + 1;
    }
    None
}

// ---------------------------------------------------------------------------
// Exchange information
// ---------------------------------------------------------------------------

/// Why the exchange information cannot be read at all.
#[derive(Debug, Clone, Copy, PartialEq, Eq, Structural)]
pub enum ExchangeInfoError {
    /// The text is not JSON.
    Parse,
    MissingRateLimits,
    MissingRequestWeightLimit,
    MissingSymbols,
}

/// A symbol kept from the exchange information, with the minimum quantity
/// and the tick size (when a price filter gives one) as the exchange wrote
/// them.
#[derive(Debug, Clone)]
pub struct SymbolEntry {
    pub ticker: Ticker,
    pub min_qty: String,
    pub tick_size: Option<String>,
}

/// Why reading the symbols stopped, with what was read of the faulty
/// symbol before the fault.
#[derive(Debug, Clone)]
pub enum SymbolFault {
    MissingSymbol,
    MissingFilters,
    MissingMinQty,
    MissingTickSize { min_qty: String },
    /// `Ticker::new` refuses the symbol.
    InvalidSymbol { symbol: String, min_qty: String, tick_size: Option<String> },
}

/// What the exchange information holds: the request weight limit, the
/// symbols read in order, and the fault that stopped the reading, if any.
#[derive(Debug, Clone)]
pub struct ExchangeInfo {
    pub request_weight_limit: i64,
    pub symbols: Vec<SymbolEntry>,
    pub fault: Option<SymbolFault>,
}

/// A symbol entry as text: the symbol, the minimum quantity and the tick
/// size.
pub type EntryText = (Seq<char>, Seq<char>, Option<Seq<char>>);

/// A fault as text.
pub enum FaultText {
    MissingSymbol,
    MissingFilters,
    MissingMinQty,
    MissingTickSize(Seq<char>),
    InvalidSymbol(Seq<char>, Seq<char>, Option<Seq<char>>),
}

pub open spec fn opt_string_view(s: Option<String>) -> Option<Seq<char>> {
    match s {
        Some(x) => Some(x@),
        None => None,
    }
}

pub open spec fn fault_text(f: SymbolFault) -> FaultText {
    match f {
        SymbolFault::MissingSymbol => FaultText::MissingSymbol,
        SymbolFault::MissingFilters => FaultText::MissingFilters,
        SymbolFault::MissingMinQty => FaultText::MissingMinQty,
        SymbolFault::MissingTickSize { min_qty } => FaultText::MissingTickSize(min_qty@),
        SymbolFault::InvalidSymbol { symbol, min_qty, tick_size } => FaultText::InvalidSymbol(
            symbol@,
            min_qty@,
            opt_string_view(tick_size),
        ),
    }
}

/// The symbols read from item `i` on, and the fault that stops the
/// reading. Each item needs a symbol; items that `symbol_kept` refuses are
/// passed over; a kept item needs filters and a "LOT_SIZE" filter with a
/// minimum quantity, and its "PRICE_FILTER" filter, when there is one, a
/// tick size; its symbol must suit `Ticker::new`.
pub open spec fn read_symbols_from(items: Seq<Json>, i: int) -> (Seq<EntryText>, Option<FaultText>)
    decreases items.len() - i,
{
    if i < 0 || i >= items.len() {
        (Seq::empty(), None)
    } else {
        let item = items[i];
        match json_str(json_get(item, "symbol"@)) {
            None => (Seq::empty(), Some(FaultText::MissingSymbol)),
            Some(symbol) => if !spec_symbol_kept(
                json_str(json_get(item, "contractType"@)),
                json_str(json_get(item, "quoteAsset"@)),
                json_str(json_get(item, "status"@)),
            ) {
                read_symbols_from(items, i + 1)
            } else {
                match json_array(json_get(item, "filters"@)) {
                    None => (Seq::empty(), Some(FaultText::MissingFilters)),
                    Some(filters) => {
                        let min_qty = match first_entry_of_type(
                            filters,
                            "filterType"@,
                            "LOT_SIZE"@,
                            0,
                        ) {
                            Some(k) => json_str(json_get(filters[k], "minQty"@)),
                            None => None,
                        };
                        match min_qty {
                            None => (Seq::empty(), Some(FaultText::MissingMinQty)),
                            Some(mq) => {
                                let tick = match first_entry_of_type(
                                    filters,
                                    "filterType"@,
                                    "PRICE_FILTER"@,
                                    0,
                                ) {
                                    Some(k) => Some(json_str(json_get(filters[k], "tickSize"@))),
                                    None => None,
                                };
                                if tick == Some(Option::<Seq<char>>::None) {
                                    (Seq::empty(), Some(FaultText::MissingTickSize(mq)))
                                } else {
                                    let ts = match tick {
                                        Some(t) => t,
                                        None => None,
                                    };
                                    if !valid_ticker_symbol(symbol) {
                                        (
                                            Seq::empty(),
                                            Some(FaultText::InvalidSymbol(symbol, mq, ts)),
                                        )
                                    } else {
                                        let rest = read_symbols_from(items, i + 1);
                                        (seq![(symbol, mq, ts)] + rest.0, rest.1)
                                    }
                                }
                            },
                        }
                    },
                }
            },
        }
    }
}

/// A listed symbol quoted in anything but "USDT" or "USD" (such as "USDC")
/// is passed over: reading from it gives what reading from the next item
/// gives, so it is not among the symbols read.
pub proof fn law_other_quotes_passed_over(items: Seq<Json>, i: int)
    requires
        0 <= i < items.len(),
        json_str(json_get(items[i], "symbol"@)) is Some,
        json_str(json_get(items[i], "quoteAsset"@)) matches Some(q) && q != "USDT"@ && q
            != "USD"@,
    ensures
        read_symbols_from(items, i) == read_symbols_from(items, i + 1),
{
    super::binance::law_symbol_kept_by_accepted_values(
        json_str(json_get(items[i], "contractType"@)),
        json_str(json_get(items[i], "quoteAsset"@)),
        json_str(json_get(items[i], "status"@)),
    );
}

/// The request weight limit of the rate limits: the limit of the first of
/// type "REQUEST_WEIGHT", when it is an integer.
pub open spec fn spec_request_weight_limit(rate_limits: Seq<Json>) -> Option<i64> {
    match first_entry_of_type(rate_limits, "rateLimitType"@, "REQUEST_WEIGHT"@, 0) {
        Some(k) => json_i64(json_get(rate_limits[k], "limit"@)),
        None => None,
    }
}

/// What the exchange information document says: its rate limits need a
/// request weight limit, then its symbols are read.
pub open spec fn spec_exchange_info(doc: Json) -> Result<
    (i64, (Seq<EntryText>, Option<FaultText>)),
    ExchangeInfoError,
> {
    match json_array(json_get(doc, "rateLimits"@)) {
        None => Err(ExchangeInfoError::MissingRateLimits),
        Some(rate_limits) => match spec_request_weight_limit(rate_limits) {
            None => Err(ExchangeInfoError::MissingRequestWeightLimit),
            Some(limit) => match json_array(json_get(doc, "symbols"@)) {
                None => Err(ExchangeInfoError::MissingSymbols),
                Some(items) => Ok((limit, read_symbols_from(items, 0))),
            },
        },
    }
}

/// The symbol entries read, as text, each with a well-formed ticker for its
/// symbol on `market`.
pub open spec fn entries_match(entries: Seq<SymbolEntry>, texts: Seq<EntryText>, market: MarketType) -> bool {
    &&& entries.len() == texts.len()
    &&& forall|k: int|
        0 <= k < entries.len() ==> {
            let e = #[trigger] entries[k];
            &&& e.ticker.wf()
            &&& e.ticker.symbol() == texts[k].0
            &&& e.ticker.market() == market
            &&& e.min_qty@ == texts[k].1
            &&& opt_string_view(e.tick_size) == texts[k].2
        }
}

/// The result read from a document, against what the document says.
pub open spec fn info_matches(
    r: Result<ExchangeInfo, ExchangeInfoError>,
    s: Result<(i64, (Seq<EntryText>, Option<FaultText>)), ExchangeInfoError>,
    market: MarketType,
) -> bool {
    match (r, s) {
        (Ok(info), Ok((limit, (texts, fault)))) => {
            &&& info.request_weight_limit == limit
            &&& entries_match(info.symbols@, texts, market)
            &&& match info.fault {
                Some(f) => fault == Some(fault_text(f)),
                None => fault is None,
            }
        },
        (Err(e), Err(e2)) => e == e2,
        _ => false,
    }
}

fn read_symbols(items: &Vec<Json>, market: MarketType) -> (r: (Vec<SymbolEntry>, Option<SymbolFault>))
    ensures
        entries_match(r.0@, read_symbols_from(items@, 0).0, market),
        match r.1 {
            Some(f) => read_symbols_from(items@, 0).1 == Some(fault_text(f)),
            None => read_symbols_from(items@, 0).1 is None,
        },
{
    proof {
        reveal_strlit("symbol");
        reveal_strlit("contractType");
        reveal_strlit("quoteAsset");
        reveal_strlit("status");
        reveal_strlit("filters");
        reveal_strlit("filterType");
        reveal_strlit("LOT_SIZE");
        reveal_strlit("minQty");
        reveal_strlit("PRICE_FILTER");
        reveal_strlit("tickSize");
    }
    let mut out: Vec<SymbolEntry> = Vec::new();
    let mut i: usize = 0;
    let ghost total = read_symbols_from(items@, 0);
    while i < items.len()
        invariant
            0 <= i <= items.len(),
            total == read_symbols_from(items@, 0),
            entries_match(out@, total.0.subrange(0, out@.len() as int), market),
            out@.len() <= total.0.len(),
            read_symbols_from(items@, i as int).0 =~= total.0.subrange(
                out@.len() as int,
                total.0.len() as int,
            ),
            read_symbols_from(items@, i as int).1 == total.1,
        decreases items.len() - i,
    {
        let item = &items[i];
        let ghost rest = read_symbols_from(items@, i + 1);
        let symbol = match str_of(field(item, "symbol")) {
            Some(s) => s,
            None => {
                return (out, Some(SymbolFault::MissingSymbol));
            },
        };
        if !symbol_kept(
            str_of(field(item, "contractType")),
            str_of(field(item, "quoteAsset")),
            str_of(field(item, "status")),
        ) {
            i = i + 1;
            continue;
        }
        let filters = match array_of(field(item, "filters")) {
            Some(f) => f,
            None => {
                return (out, Some(SymbolFault::MissingFilters));
            },
        };
        proof {
            lemma_first_entry_in_range(filters@, "filterType"@, "LOT_SIZE"@, 0);
            lemma_first_entry_in_range(filters@, "filterType"@, "PRICE_FILTER"@, 0);
        }
        let min_qty = match first_of_type(filters, "filterType", "LOT_SIZE") {
            Some(k) => str_of(field(&filters[k], "minQty")),
            None => None,
        };
        let min_qty = match min_qty {
            Some(m) => m,
            None => {
                return (out, Some(SymbolFault::MissingMinQty));
            },
        };
        let tick_size: Option<String> = match first_of_type(filters, "filterType", "PRICE_FILTER") {
            Some(k) => match str_of(field(&filters[k], "tickSize")) {
                Some(t) => Some(String::from_str(t)),
                None => {
                    return (
                        out,
                        Some(SymbolFault::MissingTickSize { min_qty: String::from_str(min_qty) }),
                    );
                },
            },
            None => None,
        };
        if !is_valid_ticker_symbol(symbol) {
            return (
                out,
                Some(
                    SymbolFault::InvalidSymbol {
                        symbol: String::from_str(symbol),
                        min_qty: String::from_str(min_qty),
                        tick_size,
                    },
                ),
            );
        }
        let entry = SymbolEntry {
            ticker: Ticker::new(symbol, market),
            min_qty: String::from_str(min_qty),
            tick_size,
        };
        let ghost text: EntryText = (symbol@, min_qty@, opt_string_view(tick_size));
        let ghost n0 = out@.len() as int;
        let ghost before = out@;
        proof {
            assert(read_symbols_from(items@, i as int).0 =~= seq![text] + rest.0);
        }
        out.push(entry);
        proof {
            let t = total.0;
            assert(t[n0] == text) by {
                assert(t.subrange(n0, t.len() as int)[0] == text);
            }
            assert(rest.0 =~= t.subrange(n0 + 1, t.len() as int)) by {
                assert(rest.0 =~= (seq![text] + rest.0).drop_first());
            }
            assert forall|k: int| 0 <= k < out@.len() implies {
                let e = #[trigger] out@[k];
                &&& e.ticker.wf()
                &&& e.ticker.symbol() == t.subrange(0, n0 + 1)[k].0
                &&& e.ticker.market() == market
                &&& e.min_qty@ == t.subrange(0, n0 + 1)[k].1
                &&& opt_string_view(e.tick_size) == t.subrange(0, n0 + 1)[k].2
            } by {
                if k < n0 {
                    assert(out@[k] == before[k]);
                    assert(t.subrange(0, n0 + 1)[k] == t.subrange(0, n0)[k]);
                }
            }
        }
        i = i + 1;
    }
    (out, None)
}

/// Reads the exchange information document: the request weight limit and
/// the symbols with their minimum quantity and tick size.
pub fn read_exchange_info(doc: &Json, market: MarketType) -> (r: Result<ExchangeInfo, ExchangeInfoError>)
    ensures
        info_matches(r, spec_exchange_info(*doc), market),
{
    proof {
        reveal_strlit("rateLimits");
        reveal_strlit("rateLimitType");
        reveal_strlit("REQUEST_WEIGHT");
        reveal_strlit("limit");
        reveal_strlit("symbols");
    }
    let rate_limits = match array_of(field(doc, "rateLimits")) {
        Some(a) => a,
        None => {
            return Err(ExchangeInfoError::MissingRateLimits);
        },
    };
    proof {
        lemma_first_entry_in_range(rate_limits@, "rateLimitType"@, "REQUEST_WEIGHT"@, 0);
    }
    let limit = match first_of_type(rate_limits, "rateLimitType", "REQUEST_WEIGHT") {
        Some(k) => i64_of(field(&rate_limits[k], "limit")),
        None => None,
    };
    let limit = match limit {
        Some(l) => l,
        None => {
            return Err(ExchangeInfoError::MissingRequestWeightLimit);
        },
    };
    let items = match array_of(field(doc, "symbols")) {
        Some(a) => a,
        None => {
            return Err(ExchangeInfoError::MissingSymbols);
        },
    };
    let (symbols, fault) = read_symbols(items, market);
    Ok(ExchangeInfo { request_weight_limit: limit, symbols, fault })
}

/// Reads Binance's exchange information from the text of the response.
pub fn parse_exchange_info(text: &str, market: MarketType) -> (r: Result<
    ExchangeInfo,
    ExchangeInfoError,
>)
    ensures
        info_matches(
            r,
            match parsed_json(text@) {
                None => Err(ExchangeInfoError::Parse),
                Some(doc) => spec_exchange_info(doc),
            },
            market,
        ),
{
    match parse_json(text) {
        None => Err(ExchangeInfoError::Parse),
        Some(doc) => read_exchange_info(&doc, market),
    }
}

} // verus!
