//! Character-level helpers shared by the parsers and formatters.
use vstd::prelude::*;

verus! {

broadcast use vstd::string::group_string_axioms;

// ---------------------------------------------------------------------------
// Conversions between `str`/`String` and character vectors
// ---------------------------------------------------------------------------

/// The characters of a string slice, in order.
pub fn str_chars(s: &str) -> (v: Vec<char>)
    ensures
        v@ == s@,
{
    let mut v: Vec<char> = Vec::new();
    for c in it: s.chars()
        invariant
            v@ == it.seq().take(it.index() as int),
            it.seq() == s@,
    {
        v.push(c);
    }
    v
}

/// `String::push`: appends one character.
#[verifier::external_body]
fn string_push(s: &mut String, c: char)
    ensures
        final(s)@ == old(s)@.push(c),
{
    s.push(c);
}

/// Appends all characters of `v` to `s`.
pub fn push_chars(s: &mut String, v: &[char])
    ensures
        final(s)@ == old(s)@ + v@,
{
    let ghost start = s@;
    let mut i: usize = 0;
    while i < v.len()
        invariant
            i <= v@.len(),
            s@ == start + v@.take(i as int),
        decreases v@.len() - i,
    {
        string_push(s, v[i]);
        i = i + 1;
        assert(v@.take(i as int) == v@.take(i - 1 as int).push(v@[i - 1 as int]));
    }
    assert(v@.take(v@.len() as int) == v@);
}

/// A `String` holding exactly the characters of `v`.
pub fn chars_to_string(v: &[char]) -> (s: String)
    ensures
        s@ == v@,
{
    let mut s = String::new();
    push_chars(&mut s, v);
    s
}

// ---------------------------------------------------------------------------
// Whitespace and trimming
// ---------------------------------------------------------------------------

/// The Unicode `White_Space` property, as `char::is_whitespace` documents it.
pub open spec fn is_ws(c: char) -> bool {
    let u = c as u32;
    ||| 0x09 <= u <= 0x0d
    ||| u == 0x20
    ||| u == 0x85
    ||| u == 0xa0
    ||| u == 0x1680
    ||| 0x2000 <= u <= 0x200a
    ||| u == 0x2028
    ||| u == 0x2029
    ||| u == 0x202f
    ||| u == 0x205f
    ||| u == 0x3000
}

/// Whether `c` is a whitespace character (`char::is_whitespace`).
pub fn is_whitespace(c: char) -> (b: bool)
    ensures
        b == is_ws(c),
{
    let u = c as u32;
    (0x09 <= u && u <= 0x0d) || u == 0x20 || u == 0x85 || u == 0xa0 || u == 0x1680 || (0x2000
        <= u && u <= 0x200a) || u == 0x2028 || u == 0x2029 || u == 0x202f || u == 0x205f || u
        == 0x3000
}

/// `s` without its leading whitespace.
pub open spec fn trim_start(s: Seq<char>) -> Seq<char>
    decreases s.len(),
{
    if s.len() > 0 && is_ws(s[0]) {
        trim_start(s.drop_first())
    } else {
        s
    }
}

/// `s` without its trailing whitespace.
pub open spec fn trim_end(s: Seq<char>) -> Seq<char>
    decreases s.len(),
{
    if s.len() > 0 && is_ws(s.last()) {
        trim_end(s.drop_last())
    } else {
        s
    }
}

/// `s` without leading and trailing whitespace (`str::trim`).
pub open spec fn trim(s: Seq<char>) -> Seq<char> {
    trim_end(trim_start(s))
}

/// Leading whitespace can be skipped one character at a time.
proof fn lemma_trim_start_skip(s: Seq<char>, i: int)
    requires
        0 <= i <= s.len(),
        forall|j: int| 0 <= j < i ==> is_ws(#[trigger] s[j]),
    ensures
        trim_start(s) == trim_start(s.subrange(i, s.len() as int)),
    decreases i,
{
    if i > 0 {
        lemma_trim_start_skip(s, i - 1);
        let t = s.subrange(i - 1, s.len() as int);
        assert(t.drop_first() =~= s.subrange(i, s.len() as int));
        assert(is_ws(t[0]));
    } else {
        assert(s.subrange(0, s.len() as int) =~= s);
    }
}

/// Trailing whitespace can be dropped one character at a time.
proof fn lemma_trim_end_skip(s: Seq<char>, e: int)
    requires
        0 <= e <= s.len(),
        forall|j: int| e <= j < s.len() ==> is_ws(#[trigger] s[j]),
    ensures
        trim_end(s) == trim_end(s.subrange(0, e)),
    decreases s.len() - e,
{
    if e < s.len() {
        lemma_trim_end_skip(s, e + 1);
        let t = s.subrange(0, e + 1);
        assert(t.drop_last() =~= s.subrange(0, e));
        assert(is_ws(t.last()));
    } else {
        assert(s.subrange(0, s.len() as int) =~= s);
    }
}

/// The start and end indices of `trim(v)` inside `v`.
pub fn trim_bounds(v: &[char]) -> (r: (usize, usize))
    ensures
        r.0 <= r.1 <= v@.len(),
        v@.subrange(r.0 as int, r.1 as int) == trim(v@),
{
    let mut i: usize = 0;
    while i < v.len() && is_whitespace(v[i])
        invariant
            i <= v@.len(),
            forall|j: int| 0 <= j < i ==> is_ws(#[trigger] v@[j]),
        decreases v@.len() - i,
    {
        i = i + 1;
    }
    proof {
        lemma_trim_start_skip(v@, i as int);
    }
    let ghost rest = v@.subrange(i as int, v@.len() as int);
    assert(trim_start(rest) == rest);
    let mut e: usize = v.len();
    while e > i && is_whitespace(v[e - 1])
        invariant
            i <= e <= v@.len(),
            forall|j: int| e <= j < v@.len() ==> is_ws(#[trigger] v@[j]),
        decreases e,
    {
        e = e - 1;
    }
    proof {
        assert forall|j: int| e - i <= j < rest.len() implies is_ws(#[trigger] rest[j]) by {
            assert(rest[j] == v@[j + i]);
        }
        lemma_trim_end_skip(rest, e - i);
        assert(rest.subrange(0, e - i) =~= v@.subrange(i as int, e as int));
        let t = v@.subrange(i as int, e as int);
        if t.len() > 0 {
            assert(!is_ws(t.last()));
        }
    }
    (i, e)
}

/// `trim(v)` as a new vector.
pub fn trim_chars(v: &[char]) -> (r: Vec<char>)
    ensures
        r@ == trim(v@),
{
    let (a, b) = trim_bounds(v);
    slice_range(v, a, b)
}

/// The characters `v[from..to]` as a new vector.
pub fn slice_range(v: &[char], from: usize, to: usize) -> (r: Vec<char>)
    requires
        from <= to <= v@.len(),
    ensures
        r@ == v@.subrange(from as int, to as int),
{
    let mut r: Vec<char> = Vec::new();
    let mut i = from;
    while i < to
        invariant
            from <= i <= to <= v@.len(),
            r@ == v@.subrange(from as int, i as int),
        decreases to - i,
    {
        r.push(v[i]);
        i = i + 1;
        assert(r@ =~= v@.subrange(from as int, i as int));
    }
    r
}

// ---------------------------------------------------------------------------
// Comparison with fixed words
// ---------------------------------------------------------------------------

/// Whether `a` and `b` hold the same characters.
pub fn chars_eq(a: &[char], b: &[char]) -> (r: bool)
    ensures
        r == (a@ == b@),
{
    if a.len() != b.len() {
        return false;
    }
    let mut i: usize = 0;
    while i < a.len()
        invariant
            i <= a@.len(),
            a@.len() == b@.len(),
            forall|j: int| 0 <= j < i ==> a@[j] == b@[j],
        decreases a@.len() - i,
    {
        if a[i] != b[i] {
            return false;
        }
        i = i + 1;
    }
    assert(a@ =~= b@);
    true
}

/// `p` is a prefix of `s`.
pub open spec fn has_prefix(s: Seq<char>, p: Seq<char>) -> bool {
    p.len() <= s.len() && s.subrange(0, p.len() as int) == p
}

/// Whether `p` is a prefix of `s` (`str::starts_with`).
pub fn starts_with(s: &[char], p: &[char]) -> (r: bool)
    ensures
        r == has_prefix(s@, p@),
{
    if p.len() > s.len() {
        return false;
    }
    let mut i: usize = 0;
    while i < p.len()
        invariant
            i <= p@.len() <= s@.len(),
            forall|j: int| 0 <= j < i ==> s@[j] == p@[j],
        decreases p@.len() - i,
    {
        if s[i] != p[i] {
            assert(s@.subrange(0, p@.len() as int)[i as int] != p@[i as int]);
            return false;
        }
        i = i + 1;
    }
    assert(s@.subrange(0, p@.len() as int) =~= p@);
    true
}

// ---------------------------------------------------------------------------
// Splitting on a separator
// ---------------------------------------------------------------------------

/// The pieces of `s` between occurrences of `sep` (`str::split` with a `char`
/// pattern): one more piece than there are separators, empty pieces kept.
pub open spec fn split(s: Seq<char>, sep: char) -> Seq<Seq<char>>
    decreases s.len(),
{
    if s.len() == 0 {
        seq![Seq::<char>::empty()]
    } else {
        let p = split(s.drop_last(), sep);
        if s.last() == sep {
            p.push(Seq::<char>::empty())
        } else {
            p.update(p.len() - 1, p.last().push(s.last()))
        }
    }
}

/// `split` always yields at least one piece.
pub proof fn lemma_split_nonempty(s: Seq<char>, sep: char)
    ensures
        split(s, sep).len() >= 1,
    decreases s.len(),
{
    if s.len() > 0 {
        lemma_split_nonempty(s.drop_last(), sep);
    }
}

/// The views of a vector of character vectors.
pub open spec fn views(v: Seq<Vec<char>>) -> Seq<Seq<char>> {
    v.map_values(|x: Vec<char>| x@)
}

/// The views of a sequence of strings.
pub open spec fn str_views(v: Seq<String>) -> Seq<Seq<char>> {
    v.map_values(|x: String| x@)
}

/// Splits `v` on every occurrence of `sep`.
pub fn split_chars(v: &[char], sep: char) -> (r: Vec<Vec<char>>)
    ensures
        views(r@) == split(v@, sep),
{
    let mut r: Vec<Vec<char>> = Vec::new();
    let mut cur: Vec<char> = Vec::new();
    let mut i: usize = 0;
    assert(v@.take(0) =~= Seq::<char>::empty());
    assert(views(r@).push(cur@) =~= split(v@.take(0), sep));
    while i < v.len()
        invariant
            i <= v@.len(),
            views(r@).push(cur@) == split(v@.take(i as int), sep),
        decreases v@.len() - i,
    {
        let ghost before = v@.take(i as int);
        let c = v[i];
        assert(v@.take(i + 1 as int).drop_last() =~= before);
        assert(v@.take(i + 1 as int).last() == c);
        let ghost pre_r = views(r@);
        let ghost pre_cur = cur@;
        if c == sep {
            r.push(cur);
            cur = Vec::new();
            assert(views(r@) =~= pre_r.push(pre_cur));
        } else {
            cur.push(c);
            assert(views(r@) =~= pre_r);
        }
        assert(views(r@).push(cur@) =~= split(v@.take(i + 1 as int), sep));
        i = i + 1;
    }
    assert(v@.take(v@.len() as int) =~= v@);
    let ghost pre_r = views(r@);
    let ghost pre_cur = cur@;
    r.push(cur);
    assert(views(r@) =~= pre_r.push(pre_cur));
    r
}

// ---------------------------------------------------------------------------
// Decimal numbers
// ---------------------------------------------------------------------------

/// An ASCII decimal digit.
pub open spec fn is_digit(c: char) -> bool {
    48 <= (c as u32) <= 57
}

/// The value of an ASCII decimal digit.
pub open spec fn digit_value(c: char) -> nat {
    ((c as u32) - 48) as nat
}

/// The character of the decimal digit `d` (`d < 10`).
pub open spec fn digit_char(d: nat) -> char {
    (48 + d) as char
}

/// Every character of `s` is a decimal digit.
pub open spec fn all_digits(s: Seq<char>) -> bool {
    forall|i: int| 0 <= i < s.len() ==> is_digit(#[trigger] s[i])
}

/// The number that the decimal digits `s` denote.
pub open spec fn digits_value(s: Seq<char>) -> nat
    decreases s.len(),
{
    if s.len() == 0 {
        0
    } else {
        digits_value(s.drop_last()) * 10 + digit_value(s.last())
    }
}

/// What `str::parse` gives for an unsigned integer type whose largest value is
/// `max`: an optional `+` followed by at least one ASCII digit, and a value
/// that fits.
pub open spec fn parse_unsigned(s: Seq<char>, max: nat) -> Option<nat> {
    let d = if s.len() > 0 && s[0] == '+' {
        s.drop_first()
    } else {
        s
    };
    if d.len() > 0 && all_digits(d) && digits_value(d) <= max {
        Some(digits_value(d))
    } else {
        None
    }
}

/// The shortest decimal representation of `n`.
pub open spec fn decimal(n: nat) -> Seq<char>
    decreases n,
{
    if n < 10 {
        seq![digit_char(n)]
    } else {
        decimal(n / 10).push(digit_char(n % 10))
    }
}

/// Values of digit prefixes never decrease.
proof fn lemma_digits_value_prefix(s: Seq<char>, i: int)
    requires
        0 <= i <= s.len(),
        all_digits(s),
    ensures
        digits_value(s.take(i)) <= digits_value(s),
    decreases s.len() - i,
{
    if i < s.len() {
        lemma_digits_value_prefix(s, i + 1);
        assert(s.take(i + 1).drop_last() =~= s.take(i));
    } else {
        assert(s.take(i) =~= s);
    }
}

/// Parses decimal digits (after an optional `+`) into a `u128`; `None` when
/// `str::parse::<u128>` fails on the same text.
pub fn parse_u128(v: &[char]) -> (r: Option<u128>)
    ensures
        r matches Some(x) ==> parse_unsigned(v@, u128::MAX as nat) == Some(x as nat),
        r is None ==> parse_unsigned(v@, u128::MAX as nat) is None,
{
    let ghost d = if v@.len() > 0 && v@[0] == '+' {
        v@.drop_first()
    } else {
        v@
    };
    let start: usize = if v.len() > 0 && v[0] == '+' {
        1
    } else {
        0
    };
    assert(d =~= v@.subrange(start as int, v@.len() as int));
    if start == v.len() {
        return None;
    }
    let mut acc: u128 = 0;
    let mut i = start;
    while i < v.len()
        invariant
            start <= i <= v@.len(),
            d == v@.subrange(start as int, v@.len() as int),
            d == (if v@.len() > 0 && v@[0] == '+' {
                v@.drop_first()
            } else {
                v@
            }),
            all_digits(d.take(i - start)),
            acc as nat == digits_value(d.take(i - start)),
        decreases v@.len() - i,
    {
        let c = v[i];
        let ghost k = i - start;
        assert(d[k] == c);
        let u = c as u32;
        if u < 48 || u > 57 {
            assert(!is_digit(d[k]));
            assert(!all_digits(d));
            return None;
        }
        let dv = (u - 48) as u128;
        assert(d.take(k + 1).drop_last() =~= d.take(k));
        assert(d.take(k + 1).last() == c);
        assert(all_digits(d.take(k + 1)));
        assert(digits_value(d.take(k + 1)) == acc * 10 + dv);
        match acc.checked_mul(10) {
            None => {
                proof {
                    if all_digits(d) {
                        lemma_digits_value_prefix(d, k + 1);
                    }
                }
                return None;
            },
            Some(m) => match m.checked_add(dv) {
                None => {
                    proof {
                        if all_digits(d) {
                            lemma_digits_value_prefix(d, k + 1);
                        }
                    }
                    return None;
                },
                Some(a) => {
                    acc = a;
                },
            },
        }
        i = i + 1;
    }
    assert(d.take(d.len() as int) =~= d);
    Some(acc)
}

/// Parses like `str::parse::<u32>`.
pub fn parse_u32(v: &[char]) -> (r: Option<u32>)
    ensures
        r matches Some(x) ==> parse_unsigned(v@, u32::MAX as nat) == Some(x as nat),
        r is None ==> parse_unsigned(v@, u32::MAX as nat) is None,
{
    match parse_u128(v) {
        Some(x) => {
            if x <= u32::MAX as u128 {
                Some(x as u32)
            } else {
                None
            }
        },
        None => None,
    }
}

/// The decimal digit character of `d`.
fn digit_to_char(d: u128) -> (c: char)
    requires
        d < 10,
    ensures
        c == digit_char(d as nat),
        is_digit(c),
        digit_value(c) == d,
{
    let c = ((d as u8) + 48u8) as char;
    assert(c as u32 == d + 48);
    c
}

/// The decimal representation of `n` (`u128` as `Display` writes it).
pub fn u128_decimal(n: u128) -> (r: Vec<char>)
    ensures
        r@ == decimal(n as nat),
{
    let mut r: Vec<char> = Vec::new();
    let mut q = n;
    while q >= 10
        invariant
            decimal(n as nat) == decimal(q as nat) + r@,
        decreases q,
    {
        let c = digit_to_char(q % 10);
        let ghost pre = r@;
        r.insert(0, c);
        assert(decimal(q as nat) == decimal((q / 10) as nat).push(c));
        assert(decimal((q / 10) as nat) + r@ =~= decimal(q as nat) + pre);
        q = q / 10;
    }
    let c = digit_to_char(q);
    let ghost pre = r@;
    r.insert(0, c);
    assert(r@ =~= decimal(q as nat) + pre);
    r
}

// ---------------------------------------------------------------------------
// Facts used by the round-trip laws
// ---------------------------------------------------------------------------

/// A text that neither starts nor ends with whitespace is its own trim.
pub proof fn lemma_trim_unchanged(s: Seq<char>)
    requires
        s.len() > 0,
        !is_ws(s[0]),
        !is_ws(s.last()),
    ensures
        trim(s) == s,
{
    assert(trim_start(s) == s);
}

/// One leading whitespace character does not change the trim.
pub proof fn lemma_trim_skip_ws(c: char, s: Seq<char>)
    requires
        is_ws(c),
    ensures
        trim(seq![c] + s) == trim(s),
{
    let t = seq![c] + s;
    assert(t.drop_first() =~= s);
}

/// Splitting a text without the separator gives the text itself.
pub proof fn lemma_split_no_sep(s: Seq<char>, sep: char)
    requires
        !s.contains(sep),
    ensures
        split(s, sep) == seq![s],
    decreases s.len(),
{
    if s.len() > 0 {
        assert(!s.drop_last().contains(sep)) by {
            if s.drop_last().contains(sep) {
                let i = choose|i: int| 0 <= i < s.drop_last().len() && s.drop_last()[i] == sep;
                assert(s[i] == sep);
            }
        }
        lemma_split_no_sep(s.drop_last(), sep);
        assert(s.last() != sep) by {
            assert(s[s.len() - 1] == s.last());
        }
        assert(s.drop_last().push(s.last()) =~= s);
        assert(split(s, sep) =~= seq![s]);
    } else {
        assert(s =~= Seq::<char>::empty());
    }
}

/// Splitting `a`, the separator, `b` (neither holding the separator) gives
/// `a` and `b`.
pub proof fn lemma_split_one_sep(a: Seq<char>, b: Seq<char>, sep: char)
    requires
        !a.contains(sep),
        !b.contains(sep),
    ensures
        split(a + seq![sep] + b, sep) == seq![a, b],
    decreases b.len(),
{
    let s = a + seq![sep] + b;
    if b.len() == 0 {
        assert(s.drop_last() =~= a);
        assert(s.last() == sep);
        assert(b =~= Seq::<char>::empty());
        lemma_split_no_sep(a, sep);
        assert(split(s, sep) =~= seq![a, b]);
    } else {
        let b0 = b.drop_last();
        assert(!b0.contains(sep)) by {
            if b0.contains(sep) {
                let i = choose|i: int| 0 <= i < b0.len() && b0[i] == sep;
                assert(b[i] == sep);
            }
        }
        lemma_split_one_sep(a, b0, sep);
        assert(s.drop_last() =~= a + seq![sep] + b0);
        assert(s.last() == b[b.len() - 1]);
        assert(b.last() != sep) by {
            assert(b[b.len() - 1] == b.last());
        }
        assert(b0.push(b.last()) =~= b);
        assert(split(s, sep) =~= seq![a, b]);
    }
}

/// The digit characters denote their digits.
pub proof fn lemma_digit_char(d: nat)
    requires
        d < 10,
    ensures
        is_digit(digit_char(d)),
        digit_value(digit_char(d)) == d,
        !is_ws(digit_char(d)),
        digit_char(d) != '+',
        digit_char(d) != ',',
        digit_char(d) != ')',
{
}

/// `decimal(n)` is a non-empty run of digits that denotes `n`.
pub proof fn lemma_decimal(n: nat)
    ensures
        decimal(n).len() > 0,
        all_digits(decimal(n)),
        digits_value(decimal(n)) == n,
        forall|i: int| 0 <= i < decimal(n).len() ==> !is_ws(#[trigger] decimal(n)[i]),
        !decimal(n).contains(','),
        !decimal(n).contains(')'),
        decimal(n)[0] != '+',
    decreases n,
{
    if n < 10 {
        lemma_digit_char(n);
        assert(decimal(n).drop_last() =~= Seq::<char>::empty());
        assert(digits_value(Seq::<char>::empty()) == 0);
        assert(digits_value(decimal(n)) == digits_value(decimal(n).drop_last()) * 10
            + digit_value(decimal(n).last()));
    } else {
        lemma_decimal(n / 10);
        lemma_digit_char(n % 10);
        let d = decimal(n);
        assert(d.drop_last() =~= decimal(n / 10));
        assert(d.last() == digit_char(n % 10));
        assert(n == (n / 10) * 10 + n % 10);
        assert(digit_value(digit_char((n % 10) as nat)) == n % 10);
        assert(digits_value(decimal(n / 10)) == n / 10);
        assert(digits_value(d) == digits_value(decimal(n / 10)) * 10 + digit_value(d.last()));
        assert forall|i: int| 0 <= i < d.len() implies is_digit(#[trigger] d[i]) && !is_ws(d[i])
            && d[i] != ',' && d[i] != ')' by {
            if i < d.len() - 1 {
                assert(d[i] == decimal(n / 10)[i]);
            }
        }
    }
}

/// Decimal text parses back to its number.
pub proof fn lemma_parse_decimal(n: nat, max: nat)
    requires
        n <= max,
    ensures
        parse_unsigned(decimal(n), max) == Some(n),
{
    lemma_decimal(n);
}

// ---------------------------------------------------------------------------
// Integer parsing with the reason of a refusal
// ---------------------------------------------------------------------------

/// Why text is not an unsigned integer (`core::num::IntErrorKind`).
#[derive(Clone, Copy, Debug, PartialEq, Eq, Structural)]
pub enum IntErrorKind {
    /// The text is empty.
    Empty,
    /// A character is not a digit (a lone sign counts as one).
    InvalidDigit,
    /// The number is larger than the type holds.
    PosOverflow,
}

/// Reads the digits `d[i..]` onto `acc`, stopping at the first character that
/// is no digit or that makes the number exceed `max`.
pub open spec fn scan_digits(d: Seq<char>, max: nat, i: int, acc: nat) -> Result<nat, IntErrorKind>
    decreases d.len() - i,
{
    if i < 0 || i >= d.len() {
        Ok(acc)
    } else if !is_digit(d[i]) {
        Err(IntErrorKind::InvalidDigit)
    } else if acc * 10 + digit_value(d[i]) > max {
        Err(IntErrorKind::PosOverflow)
    } else {
        scan_digits(d, max, i + 1, acc * 10 + digit_value(d[i]))
    }
}

/// What `str::parse` gives for an unsigned type whose largest value is `max`,
/// with the reason of a refusal.
pub open spec fn parse_int(s: Seq<char>, max: nat) -> Result<nat, IntErrorKind> {
    if s.len() == 0 {
        Err(IntErrorKind::Empty)
    } else if s.len() == 1 && (s[0] == '+' || s[0] == '-') {
        Err(IntErrorKind::InvalidDigit)
    } else {
        scan_digits(
            if s[0] == '+' {
                s.drop_first()
            } else {
                s
            },
            max,
            0,
            0,
        )
    }
}

/// The display text of an integer parse error.
pub open spec fn int_error_text(k: IntErrorKind) -> Seq<char> {
    match k {
        IntErrorKind::Empty => "cannot parse integer from empty string"@,
        IntErrorKind::InvalidDigit => "invalid digit found in string"@,
        IntErrorKind::PosOverflow => "number too large to fit in target type"@,
    }
}

impl IntErrorKind {
    /// The display text (see [`int_error_text`]).
    pub fn message(&self) -> (s: &'static str)
        ensures
            s@ == int_error_text(*self),
    {
        match self {
            IntErrorKind::Empty => "cannot parse integer from empty string",
            IntErrorKind::InvalidDigit => "invalid digit found in string",
            IntErrorKind::PosOverflow => "number too large to fit in target type",
        }
    }
}

/// Parses like `str::parse::<u32>`, giving the reason of a refusal.
pub fn parse_u32_or_kind(v: &[char]) -> (r: Result<u32, IntErrorKind>)
    ensures
        match r {
            Ok(x) => parse_int(v@, u32::MAX as nat) == Ok::<nat, IntErrorKind>(x as nat),
            Err(k) => parse_int(v@, u32::MAX as nat) == Err::<nat, IntErrorKind>(k),
        },
{
    if v.len() == 0 {
        return Err(IntErrorKind::Empty);
    }
    if v.len() == 1 && (v[0] == '+' || v[0] == '-') {
        return Err(IntErrorKind::InvalidDigit);
    }
    let ghost d = if v@[0] == '+' {
        v@.drop_first()
    } else {
        v@
    };
    let start: usize = if v[0] == '+' {
        1
    } else {
        0
    };
    assert(d =~= v@.subrange(start as int, v@.len() as int));
    let mut acc: u32 = 0;
    let mut i = start;
    while i < v.len()
        invariant
            start <= i <= v@.len(),
            d == v@.subrange(start as int, v@.len() as int),
            v@.len() > 0,
            !(v@.len() == 1 && (v@[0] == '+' || v@[0] == '-')),
            d == (if v@[0] == '+' {
                v@.drop_first()
            } else {
                v@
            }),
            scan_digits(d, u32::MAX as nat, 0, 0) == scan_digits(
                d,
                u32::MAX as nat,
                i - start,
                acc as nat,
            ),
        decreases v@.len() - i,
    {
        let c = v[i];
        assert(d[i - start] == c);
        let u = c as u32;
        if u < 48 || u > 57 {
            return Err(IntErrorKind::InvalidDigit);
        }
        let dv = u - 48;
        if acc > 429496729 || (acc == 429496729 && dv > 5) {
            return Err(IntErrorKind::PosOverflow);
        }
        acc = acc * 10 + dv;
        i = i + 1;
    }
    Ok(acc)
}

} // verus!
