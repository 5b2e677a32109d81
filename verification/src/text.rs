use vstd::prelude::*;

verus! {

broadcast use vstd::string::group_string_axioms;

/// Index of the first `c` at or after `from`, or the length when there is
/// none.
pub open spec fn index_of_from(s: Seq<char>, c: char, from: int) -> int
    decreases s.len() - from,
{
    if from >= s.len() {
        s.len() as int
    } else if s[from] == c {
        from
    } else {
        index_of_from(s, c, from + 1)
    }
}

pub proof fn lemma_index_of_from(s: Seq<char>, c: char, from: int)
    requires
        0 <= from <= s.len(),
    ensures
        from <= index_of_from(s, c, from) <= s.len(),
        index_of_from(s, c, from) < s.len() ==> s[index_of_from(s, c, from)] == c,
        forall|k: int| from <= k < index_of_from(s, c, from) ==> s[k] != c,
    decreases s.len() - from,
{
    if from < s.len() && s[from] != c {
        lemma_index_of_from(s, c, from + 1);
    }
}

/// Whether `s` begins with `prefix`.
pub open spec fn starts_with(s: Seq<char>, prefix: Seq<char>) -> bool {
    prefix.len() <= s.len() && s.subrange(0, prefix.len() as int) == prefix
}

/// Finds the first `c` at or after `from` in `s` (of `len` characters).
pub fn find_char_from(s: &str, len: usize, c: char, from: usize) -> (i: usize)
    requires
        len == s@.len(),
        from <= len,
    ensures
        i == index_of_from(s@, c, from as int),
{
    proof {
        lemma_index_of_from(s@, c, from as int);
    }
    let mut i = from;
    while i < len
        invariant
            from <= i <= len,
            len == s@.len(),
            index_of_from(s@, c, i as int) == index_of_from(s@, c, from as int),
        decreases len - i,
    {
        if s.get_char(i) == c {
            return i;
        }
        i = i + 1;
    }
    i
}

/// Whether the characters of `s` from `start` on begin with `prefix`.
pub fn has_prefix_at(s: &str, len: usize, start: usize, end: usize, prefix: &str) -> (b: bool)
    requires
        len == s@.len(),
        start <= end <= len,
    ensures
        b == starts_with(s@.subrange(start as int, end as int), prefix@),
{
    let plen = prefix.unicode_len();
    if plen > end - start {
        return false;
    }
    let mut k: usize = 0;
    while k < plen
        invariant
            plen == prefix@.len(),
            plen <= end - start,
            start <= end <= len,
            len == s@.len(),
            0 <= k <= plen,
            forall|j: int| 0 <= j < k ==> s@[start + j] == prefix@[j],
        decreases plen - k,
    {
        if s.get_char(start + k) != prefix.get_char(k) {
            assert(s@.subrange(start as int, end as int).subrange(0, plen as int)[k as int]
                != prefix@[k as int]);
            return false;
        }
        k = k + 1;
    }
    assert(s@.subrange(start as int, end as int).subrange(0, plen as int) =~= prefix@);
    true
}

/// Whether two strings hold the same characters.
pub fn str_equals(a: &str, b: &str) -> (r: bool)
    ensures
        r == (a@ == b@),
{
    let n = a.unicode_len();
    if n != b.unicode_len() {
        return false;
    }
    let mut i: usize = 0;
    while i < n
        invariant
            n == a@.len(),
            n == b@.len(),
            0 <= i <= n,
            forall|j: int| 0 <= j < i ==> a@[j] == b@[j],
        decreases n - i,
    {
        if a.get_char(i) != b.get_char(i) {
            return false;
        }
        i = i + 1;
    }
    assert(a@ =~= b@);
    true
}


/// `String::push` appends one character at the end of the string.
#[verifier::external_body]
pub(crate) fn push_char(s: &mut String, c: char)
    ensures
        final(s)@ == old(s)@.push(c),
{
    s.push(c);
}

/// The character of a decimal digit.
pub open spec fn digit_char(d: int) -> char {
    (d + '0' as int) as char
}

/// The decimal numeral of `n`, without leading zeros.
pub open spec fn decimal(n: nat) -> Seq<char>
    decreases n,
{
    if n < 10 {
        seq![digit_char(n as int)]
    } else {
        decimal(n / 10).push(digit_char((n % 10) as int))
    }
}

/// Appends the decimal numeral of `n`.
pub fn push_decimal(s: &mut String, n: u64)
    ensures
        final(s)@ == old(s)@ + decimal(n as nat),
    decreases n,
{
    if n >= 10 {
        push_decimal(s, n / 10);
    }
    let d = (n % 10) as u8;
    let c = ((48u8 + d) as u8) as char;
    push_char(s, c);
    proof {
        assert(c == digit_char((n % 10) as int));
        if n >= 10 {
            assert(decimal(n as nat) == decimal((n / 10) as nat).push(c));
        } else {
            assert(decimal(n as nat) == seq![c]);
        }
    }
    assert(s@ =~= old(s)@ + decimal(n as nat));
}

/// The decimal numeral of `n` followed by `suffix`.
pub fn decimal_with_suffix(n: u64, suffix: &str) -> (r: String)
    ensures
        r@ == decimal(n as nat) + suffix@,
{
    let mut r = String::new();
    push_decimal(&mut r, n);
    r.append(suffix);
    assert(r@ =~= decimal(n as nat) + suffix@);
    r
}


/// Digits with a ',' between each group of three, counted from the right.
pub open spec fn grouped(d: Seq<char>) -> Seq<char>
    decreases d.len(),
{
    if d.len() <= 3 {
        d
    } else {
        grouped(d.subrange(0, d.len() - 3)) + seq![','] + d.subrange(d.len() - 3, d.len() as int)
    }
}

/// Grouping only inserts separators: dropping the commas from grouped
/// digits gives the digits back, and groups other than the first have
/// exactly three digits.
pub proof fn law_grouping_only_inserts_commas(d: Seq<char>)
    requires
        forall|i: int| 0 <= i < d.len() ==> d[i] != ',',
    ensures
        grouped(d).filter(|c: char| c != ',') == d,
        d.len() > 0 ==> grouped(d).len() == d.len() + (d.len() - 1) / 3,
    decreases d.len(),
{
    let p = |c: char| c != ',';
    if d.len() <= 3 {
        crate::charts::indicators::lemma_filter_keeps_all(d, p);
    } else {
        let a = d.subrange(0, d.len() - 3);
        let b = d.subrange(d.len() - 3, d.len() as int);
        law_grouping_only_inserts_commas(a);
        crate::charts::indicators::lemma_filter_keeps_all(b, p);
        Seq::filter_distributes_over_add(grouped(a) + seq![','], b, p);
        Seq::filter_distributes_over_add(grouped(a), seq![','], p);
        let comma = seq![','];
        assert(comma.filter(p) =~= Seq::<char>::empty()) by {
            reveal(Seq::filter);
            assert(comma.drop_last() =~= Seq::<char>::empty());
            assert(Seq::<char>::empty().filter(p) =~= Seq::<char>::empty());
            assert(!p(comma.last()));
        }
        assert(a + b =~= d);
    }
}

/// Appends the characters `from..to` of `s` (of `len` characters).
pub fn push_range(out: &mut String, s: &str, len: usize, from: usize, to: usize)
    requires
        len == s@.len(),
        from <= to <= len,
    ensures
        final(out)@ == old(out)@ + s@.subrange(from as int, to as int),
{
    let mut i = from;
    while i < to
        invariant
            from <= i <= to,
            to <= len,
            len == s@.len(),
            out@ == old(out)@ + s@.subrange(from as int, i as int),
        decreases to - i,
    {
        push_char(out, s.get_char(i));
        assert(s@.subrange(from as int, i + 1) =~= s@.subrange(from as int, i as int).push(
            s@[i as int],
        ));
        i = i + 1;
    }
}

/// Appends the characters `from..to` of `s` grouped by thousands.
pub fn push_grouped(out: &mut String, s: &str, len: usize, from: usize, to: usize)
    requires
        len == s@.len(),
        from <= to <= len,
    ensures
        final(out)@ == old(out)@ + grouped(s@.subrange(from as int, to as int)),
    decreases to - from,
{
    let d = Ghost(s@.subrange(from as int, to as int));
    if to - from <= 3 {
        push_range(out, s, len, from, to);
    } else {
        push_grouped(out, s, len, from, to - 3);
        push_char(out, ',');
        push_range(out, s, len, to - 3, to);
        assert(d@.subrange(0, d@.len() - 3) =~= s@.subrange(from as int, to - 3));
        assert(d@.subrange(d@.len() - 3, d@.len() as int) =~= s@.subrange(to - 3, to as int));
        assert(out@ =~= old(out)@ + grouped(d@));
    }
}

/// The number of characters after the first '.', or zero without one.
pub open spec fn decimals_after_point(s: Seq<char>) -> int {
    let p = index_of_from(s, '.', 0);
    if p < s.len() {
        s.len() - p - 1
    } else {
        0
    }
}

/// Counts the characters after the decimal point of a numeral.
pub fn count_fraction_digits(s: &str) -> (n: usize)
    ensures
        n == decimals_after_point(s@),
{
    let len = s.unicode_len();
    proof {
        lemma_index_of_from(s@, '.', 0);
    }
    let p = find_char_from(s, len, '.', 0);
    if p < len {
        len - p - 1
    } else {
        0
    }
}

} // verus!
