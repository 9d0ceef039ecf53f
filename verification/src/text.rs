//! Characters, decimal numbers and the UTF-16 strings that Windows speaks.
use vstd::arithmetic::power::pow;
use vstd::prelude::*;

verus! {

/// `String::push` appends one character.
pub assume_specification[ String::push ](s: &mut String, c: char)
    ensures
        final(s)@ == old(s)@.push(c),
;

/// `char::from_u32` gives the character with that code point, and nothing for
/// the surrogates and for numbers past the last code point.
pub assume_specification[ char::from_u32 ](i: u32) -> (r: Option<char>)
    ensures
        r == (if i < 0xd800 || 0xe000 <= i < 0x110000 {
            Some(i as char)
        } else {
            None
        }),
;

// ---------------------------------------------------------------------------
// Decimal numbers
/// The decimal digit `d`, for `d < 10`.
pub open spec fn digit_char(d: nat) -> char {
    (48 + d) as char
}

/// `n` in decimal, without leading zeros.
pub open spec fn decimal(n: nat) -> Seq<char>
    decreases n,
{
    if n < 10 {
        seq![digit_char(n)]
    } else {
        decimal(n / 10).push(digit_char(n % 10))
    }
}

/// Append `n` in decimal.
pub fn push_decimal(s: &mut String, n: u32)
    ensures
        final(s)@ == old(s)@ + decimal(n as nat),
    decreases n,
{
    if n >= 10 {
        push_decimal(s, n / 10);
    }
    let d: u8 = (n % 10) as u8;
    s.push((48 + d) as char);
    assert(s@ == old(s)@ + decimal(n as nat));
}

pub open spec fn is_digit(c: char) -> bool {
    '0' <= c <= '9'
}

/// The number that a sequence of decimal digits denotes.
pub open spec fn digits_value(s: Seq<char>) -> nat
    decreases s.len(),
{
    if s.len() == 0 {
        0
    } else {
        digits_value(s.drop_last()) * 10 + (s.last() as nat - 48) as nat
    }
}

/// What is left of a number without its optional plus sign.
pub open spec fn unsigned_part(s: Seq<char>) -> Seq<char> {
    if s.len() > 0 && s[0] == '+' {
        s.drop_first()
    } else {
        s
    }
}

/// The byte that `s` writes in decimal: an optional plus sign and at least one
/// digit, of value 255 at most.
pub open spec fn byte_value(s: Seq<char>) -> Option<u8> {
    let digits = unsigned_part(s);
    if digits.len() > 0 && (forall|i: int| 0 <= i < digits.len() ==> is_digit(#[trigger] digits[i]))
        && digits_value(digits) <= 255 {
        Some(digits_value(digits) as u8)
    } else {
        None
    }
}

proof fn lemma_prefix_value(s: Seq<char>, n: int)
    requires
        0 <= n <= s.len(),
    ensures
        digits_value(s.take(n)) <= digits_value(s),
    decreases s.len(),
{
    if n == s.len() {
        assert(s.take(n) == s);
    } else {
        lemma_prefix_value(s.drop_last(), n);
        assert(s.drop_last().take(n) == s.take(n));
    }
}

/// The byte written in `s`, if it is one.
pub fn parse_byte(s: &str) -> (r: Option<u8>)
    ensures
        r == byte_value(s@),
{
    let cs = chars_of(s);
    let start: usize = if cs.len() > 0 && cs[0] == '+' {
        1
    } else {
        0
    };
    let ghost digits = unsigned_part(s@);
    assert(digits == s@.skip(start as int));
    if start == cs.len() {
        return None;
    }
    let mut value: u32 = 0;
    let mut i: usize = start;
    while i < cs.len()
        invariant
            cs@ == s@,
            start <= i <= cs.len(),
            digits == unsigned_part(s@),
            digits == s@.skip(start as int),
            value <= 255,
            forall|j: int| 0 <= j < i - start ==> is_digit(#[trigger] digits[j]),
            value == digits_value(digits.take(i - start)),
        decreases cs.len() - i,
    {
        let c = cs[i];
        assert(digits[i - start] == c);
        if c < '0' || c > '9' {
            return None;
        }
        value = value * 10 + (c as u32 - 48);
        assert(digits.take(i - start + 1).drop_last() == digits.take(i - start));
        if value > 255 {
            proof {
                lemma_prefix_value(digits, i - start + 1);
            }
            return None;
        }
        i += 1;
    }
    assert(digits.take(i - start) == digits);
    Some(value as u8)
}

proof fn lemma_decimal(n: nat)
    ensures
        decimal(n).len() > 0,
        forall|i: int| 0 <= i < decimal(n).len() ==> is_digit(#[trigger] decimal(n)[i]),
        digits_value(decimal(n)) == n,
    decreases n,
{
    if n < 10 {
        assert(decimal(n).drop_last() == Seq::<char>::empty());
        assert(digits_value(decimal(n).drop_last()) == 0);
    } else {
        lemma_decimal(n / 10);
        assert(decimal(n).drop_last() == decimal(n / 10));
    }
}

/// A byte written in decimal reads back as that byte.
pub proof fn law_decimal_reads_back(n: u8)
    ensures
        byte_value(decimal(n as nat)) == Some(n),
{
    lemma_decimal(n as nat);
    assert(is_digit(decimal(n as nat)[0]));
}

// ---------------------------------------------------------------------------
// Searching
/// The characters of `s`.
pub fn chars_of(s: &str) -> (v: Vec<char>)
    ensures
        v@ == s@,
{
    let mut v: Vec<char> = Vec::new();
    for c in it: s.chars()
        invariant
            it.seq() == s@,
            v@ == s@.take(it.index() as int),
    {
        assert(s@.take(it.index() as int + 1) == s@.take(it.index() as int).push(c));
        v.push(c);
    }
    assert(s@.take(s@.len() as int) == s@);
    v
}

/// `c` with an ASCII capital made small.
pub open spec fn ascii_lower(c: char) -> char {
    if 'A' <= c <= 'Z' {
        (c as u32 + 32) as char
    } else {
        c
    }
}

pub open spec fn ascii_lower_all(s: Seq<char>) -> Seq<char> {
    s.map_values(|c: char| ascii_lower(c))
}

/// Whether `part` stands in `s` at position `at`.
pub open spec fn occurs_at(s: Seq<char>, part: Seq<char>, at: int) -> bool {
    0 <= at <= s.len() - part.len() && s.subrange(at, at + part.len()) == part
}

/// Whether `part` stands somewhere in `s`.
pub open spec fn occurs_in(s: Seq<char>, part: Seq<char>) -> bool {
    exists|at: int| occurs_at(s, part, at)
}

fn to_ascii_lower(c: char) -> (r: char)
    ensures
        r == ascii_lower(c),
{
    if c >= 'A' && c <= 'Z' {
        (c as u8 + 32) as char
    } else {
        c
    }
}

/// Whether `part` stands somewhere in `s` when ASCII capitals and small letters
/// count as the same.
pub fn contains_ignoring_case(s: &str, part: &str) -> (r: bool)
    ensures
        r == occurs_in(ascii_lower_all(s@), ascii_lower_all(part@)),
{
    let cs = chars_of(s);
    let ps = chars_of(part);
    let ghost low = ascii_lower_all(s@);
    let ghost low_part = ascii_lower_all(part@);
    if ps.len() > cs.len() {
        return false;
    }
    let last: usize = cs.len() - ps.len();
    let mut at: usize = 0;
    loop
        invariant
            cs@ == s@,
            ps@ == part@,
            low == ascii_lower_all(s@),
            low_part == ascii_lower_all(part@),
            ps.len() <= cs.len(),
            last == cs.len() - ps.len(),
            at <= last,
            forall|k: int| 0 <= k < at ==> !occurs_at(low, low_part, k),
        decreases last - at,
    {
        let mut i: usize = 0;
        while i < ps.len() && to_ascii_lower(cs[at + i]) == to_ascii_lower(ps[i])
            invariant
                cs@ == s@,
                ps@ == part@,
                low == ascii_lower_all(s@),
                low_part == ascii_lower_all(part@),
                ps.len() <= cs.len(),
                last == cs.len() - ps.len(),
                at <= last,
                i <= ps.len(),
                forall|j: int| 0 <= j < i ==> low[at + j] == #[trigger] low_part[j],
            decreases ps.len() - i,
        {
            i += 1;
        }
        if i == ps.len() {
            assert(low.subrange(at as int, at + low_part.len()) == low_part);
            assert(occurs_at(low, low_part, at as int));
            return true;
        }
        assert(!occurs_at(low, low_part, at as int)) by {
            assert(low[at + i] != low_part[i as int]);
            if low.subrange(at as int, at + low_part.len()) == low_part {
                assert(low.subrange(at as int, at + low_part.len())[i as int] == low[at + i]);
            }
        }
        if at == last {
            return false;
        }
        at += 1;
    }
}

// ---------------------------------------------------------------------------
// UTF-16
/// The UTF-16 units of one character.
pub open spec fn utf16_units(c: char) -> Seq<u16> {
    let code = c as u32;
    if code < 0x10000 {
        seq![code as u16]
    } else {
        seq![
            (0xd800 + (code - 0x10000) / 0x400) as u16,
            (0xdc00 + (code - 0x10000) % 0x400) as u16,
        ]
    }
}

/// `s` in UTF-16.
pub open spec fn utf16(s: Seq<char>) -> Seq<u16>
    decreases s.len(),
{
    if s.len() == 0 {
        Seq::empty()
    } else {
        utf16_units(s[0]) + utf16(s.drop_first())
    }
}

pub open spec fn is_high_surrogate(u: u16) -> bool {
    0xd800 <= u < 0xdc00
}

pub open spec fn is_low_surrogate(u: u16) -> bool {
    0xdc00 <= u < 0xe000
}

/// The character of a surrogate pair.
pub open spec fn pair_char(high: u16, low: u16) -> char {
    (0x10000 + (high - 0xd800) * 0x400 + (low - 0xdc00)) as char
}

/// The text that UTF-16 `units` hold, with U+FFFD for each surrogate that has no
/// partner.
pub open spec fn utf16_text(units: Seq<u16>) -> Seq<char>
    decreases units.len(),
{
    if units.len() == 0 {
        Seq::empty()
    } else if is_high_surrogate(units[0]) && units.len() > 1 && is_low_surrogate(units[1]) {
        seq![pair_char(units[0], units[1])] + utf16_text(units.skip(2))
    } else if is_high_surrogate(units[0]) || is_low_surrogate(units[0]) {
        seq!['\u{fffd}'] + utf16_text(units.skip(1))
    } else {
        seq![units[0] as char] + utf16_text(units.skip(1))
    }
}

/// `s` as a null-terminated UTF-16 string.
pub fn wide(s: &str) -> (r: Vec<u16>)
    ensures
        r@ == utf16(s@).push(0),
{
    let cs = chars_of(s);
    let mut r: Vec<u16> = Vec::new();
    let mut i: usize = 0;
    assert(s@.skip(0) == s@);
    while i < cs.len()
        invariant
            cs@ == s@,
            i <= cs.len(),
            r@ + utf16(s@.skip(i as int)) == utf16(s@),
        decreases cs.len() - i,
    {
        let ghost done = r@;
        let code = cs[i] as u32;
        if code < 0x10000 {
            r.push(code as u16);
        } else {
            r.push((0xd800 + (code - 0x10000) / 0x400) as u16);
            r.push((0xdc00 + (code - 0x10000) % 0x400) as u16);
        }
        assert(r@ == done + utf16_units(s@[i as int]));
        assert(s@.skip(i as int).drop_first() == s@.skip(i + 1));
        assert(r@ + utf16(s@.skip(i + 1)) == done + utf16(s@.skip(i as int)));
        i += 1;
    }
    assert(s@.skip(i as int) == Seq::<char>::empty());
    r.push(0);
    r
}

/// The text of UTF-16 `units`, with U+FFFD for each surrogate that has no partner.
pub fn utf16_lossy(units: &[u16]) -> (r: String)
    ensures
        r@ == utf16_text(units@),
{
    let mut r = String::new();
    let mut i: usize = 0;
    assert(units@.skip(0) == units@);
    while i < units.len()
        invariant
            i <= units.len(),
            r@ + utf16_text(units@.skip(i as int)) == utf16_text(units@),
        decreases units.len() - i,
    {
        let ghost done = r@;
        let ghost rest = units@.skip(i as int);
        let u = units[i];
        if u >= 0xd800 && u < 0xdc00 && i + 1 < units.len() && units[i + 1] >= 0xdc00
            && units[i + 1] < 0xe000 {
            let low = units[i + 1];
            let code: u32 = 0x10000 + (u as u32 - 0xd800) * 0x400 + (low as u32 - 0xdc00);
            match char::from_u32(code) {
                Some(c) => r.push(c),
                None => {},
            }
            assert(rest.skip(2) == units@.skip(i + 2));
            assert(r@ + utf16_text(units@.skip(i + 2)) == done + utf16_text(rest));
            i += 2;
        } else {
            match char::from_u32(u as u32) {
                Some(c) => r.push(c),
                None => r.push('\u{fffd}'),
            }
            assert(rest.skip(1) == units@.skip(i + 1));
            assert(r@ + utf16_text(units@.skip(i + 1)) == done + utf16_text(rest));
            i += 1;
        }
    }
    assert(units@.skip(i as int) == Seq::<u16>::empty());
    r
}

proof fn lemma_units_read_back(c: char)
    ensures
        (c as u32) < 0x10000 ==> {
            let u = utf16_units(c)[0];
            !is_high_surrogate(u) && !is_low_surrogate(u) && u as char == c
        },
        (c as u32) >= 0x10000 ==> {
            let (high, low) = (utf16_units(c)[0], utf16_units(c)[1]);
            is_high_surrogate(high) && is_low_surrogate(low) && pair_char(high, low) == c
        },
{
}

/// Text written in UTF-16 reads back unchanged.
pub proof fn law_utf16_reads_back(s: Seq<char>)
    ensures
        utf16_text(utf16(s)) == s,
    decreases s.len(),
{
    if s.len() > 0 {
        let rest = utf16(s.drop_first());
        law_utf16_reads_back(s.drop_first());
        lemma_units_read_back(s[0]);
        assert(s == seq![s[0]] + s.drop_first());
        if (s[0] as u32) < 0x10000 {
            assert(utf16(s).skip(1) == rest);
        } else {
            assert(utf16(s).skip(2) == rest);
        }
    }
}

/// The first null of `units`, or their number.
pub open spec fn null_position(units: Seq<u16>) -> int
    decreases units.len(),
{
    if units.len() == 0 || units[0] == 0 {
        0
    } else {
        1 + null_position(units.skip(1))
    }
}

/// What comes before the first null is free of nulls.
pub proof fn law_null_position(units: Seq<u16>)
    ensures
        0 <= null_position(units) <= units.len(),
        forall|i: int| 0 <= i < null_position(units) ==> #[trigger] units[i] != 0,
        null_position(units) < units.len() ==> units[null_position(units)] == 0,
    decreases units.len(),
{
    if units.len() > 0 && units[0] != 0 {
        let rest = units.skip(1);
        law_null_position(rest);
        assert forall|i: int| 0 <= i < null_position(units) implies #[trigger] units[i] != 0 by {
            if i > 0 {
                assert(units[i] == rest[i - 1]);
            }
        }
        if null_position(units) < units.len() {
            assert(units[null_position(units)] == rest[null_position(rest)]);
        }
    }
}

/// The position of the first null, or the number of `units`.
pub fn find_null(units: &[u16]) -> (r: usize)
    ensures
        r == null_position(units@),
{
    let mut i: usize = 0;
    assert(units@.skip(0) == units@);
    while i < units.len()
        invariant
            i <= units.len(),
            null_position(units@) == i + null_position(units@.skip(i as int)),
        decreases units.len() - i,
    {
        if units[i] == 0 {
            return i;
        }
        assert(units@.skip(i as int).skip(1) == units@.skip(i + 1));
        i += 1;
    }
    i
}

// ---------------------------------------------------------------------------
// What the characters are
/// The digits of a decimal number, from its end on, are those of its value: the
/// one at the place of 10^k is `n / 10^k % 10`. There are as many as it takes.
pub proof fn law_decimal_digits(n: nat, k: nat)
    ensures
        decimal(n).len() >= 1,
        k < decimal(n).len() ==> decimal(n)[decimal(n).len() - 1 - k] as int == 48 + (n as int
            / pow(10, k)) % 10,
        k < decimal(n).len() <==> k == 0 || n >= pow(10, k),
    decreases n,
{
    reveal(pow);
    vstd::arithmetic::power::lemma_pow_positive(10, k);
    if k == 0 {
        assert(pow(10, 0) == 1);
        assert(n as int / 1 == n);
        assert(decimal(n).last() as int == 48 + n % 10);
    } else {
        let j = (k - 1) as nat;
        vstd::arithmetic::power::lemma_pow_positive(10, j);
        assert(pow(10, k) == 10 * pow(10, j));
        let p = pow(10, j);
        assert(n as int / (10 * p) == (n as int / 10) / p) by {
            vstd::arithmetic::div_mod::lemma_div_denominator(n as int, 10, p);
        }
        assert(n >= 10 * p <==> n / 10 >= p);
        if n >= 10 {
            law_decimal_digits(n / 10, j);
            let d = decimal(n / 10);
            assert(decimal(n).len() == d.len() + 1);
            if k < decimal(n).len() {
                assert(decimal(n)[decimal(n).len() - 1 - k] == d[d.len() - 1 - j]);
                assert((n / 10) as int / p == n as int / pow(10, k));
            }
            assert(j == 0 ==> p == 1);
        }
    }
    if n >= 10 {
        law_decimal_digits(n / 10, 0);
    }
}

/// Only the 26 ASCII capitals change, to the small letters 32 further on.
pub proof fn law_ascii_lower(c: char)
    ensures
        65 <= c as u32 <= 90 ==> ascii_lower(c) as u32 == c as u32 + 32,
        c as u32 <= 64 || c as u32 >= 91 ==> ascii_lower(c) == c,
{
}

/// A written byte is a plus sign or none, then digits alone. One more digit at its
/// end makes it ten times the value plus the digit, while that is a byte; one more
/// of anything else is no byte, and neither is a lone sign or nothing.
pub proof fn law_byte_digits(s: Seq<char>, c: char)
    ensures
        byte_value(Seq::empty()) is None,
        byte_value(seq!['+']) is None,
        byte_value(seq![c]) == (if '0' <= c <= '9' {
            Some((c as u8 - 48) as u8)
        } else {
            None
        }),
        byte_value(seq!['+', c]) == (if '0' <= c <= '9' {
            Some((c as u8 - 48) as u8)
        } else {
            None
        }),
        byte_value(s) matches Some(v) ==> byte_value(s.push(c)) == (if '0' <= c <= '9' && 10 * v + (
        c as int - 48) <= 255 {
            Some((10 * v + (c as int - 48)) as u8)
        } else {
            None
        }),
        byte_value(s) is None && s.len() > 0 && s != seq!['+'] ==> byte_value(s.push(c)) is None,
{
    let one = seq![c];
    assert(one.drop_last() == Seq::<char>::empty());
    assert(digits_value(Seq::<char>::empty()) == 0);
    assert(is_digit(one[0]) <==> '0' <= c <= '9');
    assert(seq!['+', c].drop_first() == one);
    assert(seq!['+'].drop_first() == Seq::<char>::empty());
    if c == '+' {
        assert(one.drop_first() == Seq::<char>::empty());
    }
    if s.len() > 0 {
        let (d, e) = (unsigned_part(s), unsigned_part(s.push(c)));
        assert(e == d.push(c));
        assert(e.drop_last() == d);
        assert(e.last() == c);
        if byte_value(s) is Some {
            assert(is_digit(e[d.len() as int]) <==> '0' <= c <= '9');
            if '0' <= c <= '9' {
                assert forall|i: int| 0 <= i < e.len() implies is_digit(#[trigger] e[i]) by {
                    if i < d.len() {
                        assert(e[i] == d[i]);
                    }
                }
            }
        } else if d.len() > 0 {
            if forall|i: int| 0 <= i < d.len() ==> is_digit(#[trigger] d[i]) {
                lemma_prefix_value(e, d.len() as int);
                assert(e.take(d.len() as int) == d);
            } else {
                let i = choose|i: int| 0 <= i < d.len() && !is_digit(#[trigger] d[i]);
                assert(e[i] == d[i]);
            }
        } else {
            assert(s == seq!['+']);
        }
    }
}

/// UTF-16 is written character by character: one unit of the same number below
/// 0x10000, else a high and a low surrogate that hold the upper and the lower ten
/// bits of what exceeds it.
pub proof fn law_utf16_units(a: Seq<char>, b: Seq<char>, c: char)
    ensures
        utf16(Seq::empty()) == Seq::<u16>::empty(),
        utf16(a + b) == utf16(a) + utf16(b),
        (c as u32) < 0x10000 ==> utf16(seq![c]).len() == 1 && utf16(seq![c])[0] == c as u32,
        (c as u32) >= 0x10000 ==> {
            let u = utf16(seq![c]);
            &&& u.len() == 2
            &&& 0xd800 <= u[0] <= 0xdbff
            &&& 0xdc00 <= u[1] <= 0xdfff
            &&& 0x10000 + (u[0] - 0xd800) * 0x400 + (u[1] - 0xdc00) == c as u32
        },
    decreases a.len(),
{
    assert(seq![c].drop_first() == Seq::<char>::empty());
    assert(utf16(seq![c].drop_first()) == Seq::<u16>::empty());
    assert(utf16(seq![c]) == utf16_units(seq![c][0]) + Seq::<u16>::empty());
    assert(utf16(seq![c]) == utf16_units(c));
    if a.len() == 0 {
        assert(a + b == b);
        assert(utf16(a) + utf16(b) == utf16(b));
    } else {
        law_utf16_units(a.drop_first(), b, c);
        assert((a + b).drop_first() == a.drop_first() + b);
        assert(utf16(a + b) == utf16(a) + utf16(b));
    }
}

/// Text of characters below 0x10000 has one unit for each, of the same number.
pub proof fn law_utf16_plain(s: Seq<char>)
    requires
        forall|i: int| 0 <= i < s.len() ==> (#[trigger] s[i] as u32) < 0x10000,
    ensures
        utf16(s).len() == s.len(),
        forall|i: int| 0 <= i < s.len() ==> #[trigger] utf16(s)[i] == s[i] as u32,
    decreases s.len(),
{
    if s.len() > 0 {
        let rest = s.drop_first();
        assert forall|i: int| 0 <= i < rest.len() implies (#[trigger] rest[i] as u32) < 0x10000 by {
            assert(rest[i] == s[i + 1]);
        }
        law_utf16_plain(rest);
        assert((s[0] as u32) < 0x10000);
        assert forall|i: int| 0 <= i < s.len() implies #[trigger] utf16(s)[i] == s[i] as u32 by {
            if i > 0 {
                assert(utf16(s)[i] == utf16(rest)[i - 1]);
                assert(rest[i - 1] == s[i]);
            }
        }
    }
}

/// UTF-16 is read unit by unit: a high surrogate with a low one behind it is one
/// character, any other surrogate reads as U+FFFD, any other unit as the character
/// of its number.
pub proof fn law_utf16_text(u: u16, v: u16, rest: Seq<u16>)
    ensures
        utf16_text(Seq::empty()) == Seq::<char>::empty(),
        !(0xd800 <= u <= 0xdfff) ==> utf16_text(seq![u] + rest) == seq![u as char] + utf16_text(rest),
        0xdc00 <= u <= 0xdfff ==> utf16_text(seq![u] + rest) == seq!['\u{fffd}'] + utf16_text(rest),
        0xd800 <= u <= 0xdbff ==> utf16_text(seq![u]) == seq!['\u{fffd}'],
        0xd800 <= u <= 0xdbff && !(0xdc00 <= v <= 0xdfff) ==> utf16_text(seq![u, v] + rest)
            == seq!['\u{fffd}'] + utf16_text(seq![v] + rest),
        0xd800 <= u <= 0xdbff && 0xdc00 <= v <= 0xdfff ==> utf16_text(seq![u, v] + rest) == seq![
            (0x10000 + (u - 0xd800) * 0x400 + (v - 0xdc00)) as char,
        ] + utf16_text(rest),
{
    assert((seq![u] + rest).skip(1) == rest);
    assert((seq![u, v] + rest).skip(1) == seq![v] + rest);
    assert((seq![u, v] + rest).skip(2) == rest);
    assert(seq![u].skip(1) == Seq::<u16>::empty());
    assert(utf16_text(Seq::<u16>::empty()) == Seq::<char>::empty());
    assert(seq!['\u{fffd}'] + Seq::<char>::empty() == seq!['\u{fffd}']);
}

} // verus!
