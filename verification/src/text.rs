//! Text building blocks: decimal numbers, repeated characters, trimming, and
//! the UTF-16 form that the Windows shell takes.

use vstd::prelude::*;
use vstd::string::*;

verus! {

/// `String::push` appends one character to the end of the string.
pub assume_specification[ String::push ](s: &mut String, c: char)
    ensures
        final(s)@ == old(s)@.push(c),
;

// ---------------------------------------------------------------------------
// Decimal numbers
// ---------------------------------------------------------------------------

/// The character of a decimal digit.
pub open spec fn digit_char(d: int) -> char {
    (48 + d) as char
}

/// A number in decimal, without leading zeros.
pub open spec fn decimal(n: nat) -> Seq<char>
    decreases n,
{
    if n < 10 {
        seq![digit_char(n as int)]
    } else {
        decimal(n / 10).push(digit_char((n % 10) as int))
    }
}

/// A number in decimal, padded to at least two digits.
pub open spec fn decimal2(n: nat) -> Seq<char> {
    if n < 10 {
        seq!['0'] + decimal(n)
    } else {
        decimal(n)
    }
}

/// Appends `n` in decimal.
pub fn push_decimal(out: &mut String, n: u64)
    ensures
        final(out)@ == old(out)@ + decimal(n as nat),
    decreases n,
{
    if n >= 10 {
        push_decimal(out, n / 10);
    }
    let d: u8 = (n % 10) as u8;
    out.push((48u8 + d) as char);
    proof {
        assert(out@ =~= old(out)@ + decimal(n as nat));
    }
}

/// Appends `n` in decimal, padded to at least two digits.
pub fn push_decimal2(out: &mut String, n: u64)
    ensures
        final(out)@ == old(out)@ + decimal2(n as nat),
{
    if n < 10 {
        out.push('0');
    }
    push_decimal(out, n);
    proof {
        assert(out@ =~= old(out)@ + decimal2(n as nat));
    }
}

/// How many characters a number takes in decimal, for the sizes that labels show.
pub proof fn decimal_width(n: nat)
    ensures
        n < 10 ==> decimal(n).len() == 1,
        10 <= n < 100 ==> decimal(n).len() == 2,
        100 <= n < 1000 ==> decimal(n).len() == 3,
        decimal(n).len() >= 1,
{
    reveal_with_fuel(decimal, 3);
}

/// Decimal text is made of the ASCII digits.
pub proof fn decimal_is_digits(n: nat)
    ensures
        all_digits(decimal(n)),
    decreases n,
{
    digit_char_is_a_digit((n % 10) as int);
    if n >= 10 {
        decimal_is_digits(n / 10);
    }
}

proof fn digit_char_is_a_digit(d: int)
    requires
        0 <= d < 10,
    ensures
        is_digit(digit_char(d)),
        digit_char(d) as int == 48 + d,
{
}

/// A 32-bit number takes at most ten digits.
pub proof fn decimal_is_short(n: u32)
    ensures
        1 <= decimal(n as nat).len() <= 10,
{
    reveal_with_fuel(decimal, 10);
}

// ---------------------------------------------------------------------------
// Repeated characters
// ---------------------------------------------------------------------------

/// `n` copies of `c`.
pub open spec fn repeated(c: char, n: nat) -> Seq<char> {
    Seq::new(n, |i: int| c)
}

/// Appends `n` copies of `c`.
pub fn push_repeated(out: &mut String, c: char, n: usize)
    ensures
        final(out)@ == old(out)@ + repeated(c, n as nat),
{
    let ghost before = out@;
    proof {
        assert(out@ =~= before + repeated(c, 0));
    }
    for i in 0..n
        invariant
            out@ == before + repeated(c, i as nat),
    {
        out.push(c);
        proof {
            assert(out@ =~= before + repeated(c, (i + 1) as nat));
        }
    }
}

// ---------------------------------------------------------------------------
// Whitespace
// ---------------------------------------------------------------------------

/// The characters with the Unicode property White_Space.
pub open spec fn white_space(c: char) -> bool {
    let u = c as u32;
    ||| 0x9 <= u <= 0xd
    ||| u == 0x20
    ||| u == 0x85
    ||| u == 0xa0
    ||| u == 0x1680
    ||| 0x2000 <= u <= 0x200a
    ||| u == 0x2028
    ||| u == 0x2029
    ||| u == 0x202f
    ||| u == 0x205f
    ||| u == 0x3000
}

fn is_white_space(c: char) -> (b: bool)
    ensures
        b == white_space(c),
{
    let u: u32 = c as u32;
    (0x9 <= u && u <= 0xd) || u == 0x20 || u == 0x85 || u == 0xa0 || u == 0x1680 || (0x2000 <= u
        && u <= 0x200a) || u == 0x2028 || u == 0x2029 || u == 0x202f || u == 0x205f || u == 0x3000
}

/// `s` without its trailing white space.
pub open spec fn trimmed_end(s: Seq<char>) -> Seq<char>
    decreases s.len(),
{
    if s.len() > 0 && white_space(s.last()) {
        trimmed_end(s.drop_last())
    } else {
        s
    }
}

/// `s` without its leading and trailing white space.
pub open spec fn trimmed(s: Seq<char>) -> Seq<char>
    decreases s.len(),
{
    if s.len() > 0 && white_space(s[0]) {
        trimmed(s.drop_first())
    } else {
        trimmed_end(s)
    }
}

/// The characters of a string.
pub fn chars_of(s: &str) -> (v: Vec<char>)
    ensures
        v@ == s@,
{
    let mut v: Vec<char> = Vec::new();
    for c in it: s.chars()
        invariant
            it.seq() == s@,
            v@ == it.seq().take(it.index() as int),
    {
        v.push(c);
    }
    proof {
        assert(v@ =~= s@);
    }
    v
}

/// The string made of `chars[from..to]`.
fn string_of(chars: &Vec<char>, from: usize, to: usize) -> (s: String)
    requires
        from <= to <= chars@.len(),
    ensures
        s@ == chars@.subrange(from as int, to as int),
{
    let mut s = String::new();
    for i in from..to
        invariant
            from <= i <= to <= chars@.len(),
            s@ == chars@.subrange(from as int, i as int),
    {
        s.push(chars[i]);
        proof {
            assert(s@ =~= chars@.subrange(from as int, i + 1));
        }
    }
    s
}

/// Removes leading and trailing white space.
pub fn trim(s: &str) -> (r: String)
    ensures
        r@ == trimmed(s@),
{
    let chars = chars_of(s);
    let n: usize = chars.len();
    let mut from: usize = 0;
    proof {
        assert(s@.subrange(0, n as int) =~= s@);
    }
    while from < n && is_white_space(chars[from])
        invariant
            from <= n == chars@.len(),
            chars@ == s@,
            trimmed(s@) == trimmed(s@.subrange(from as int, n as int)),
        decreases n - from,
    {
        proof {
            assert(s@.subrange(from as int, n as int).drop_first() =~= s@.subrange(
                from + 1,
                n as int,
            ));
        }
        from = from + 1;
    }
    let mut to: usize = n;
    while from < to && is_white_space(chars[to - 1])
        invariant
            from <= to <= n == chars@.len(),
            chars@ == s@,
            trimmed(s@) == trimmed_end(s@.subrange(from as int, to as int)),
        decreases to,
    {
        proof {
            assert(s@.subrange(from as int, to as int).drop_last() =~= s@.subrange(
                from as int,
                to - 1,
            ));
        }
        to = to - 1;
    }
    string_of(&chars, from, to)
}

/// Trimming takes white space off both ends and touches nothing else: what is
/// left is one stretch of the text, neither end of it is white space, and all
/// that was cut is.
pub proof fn trimmed_is_the_inner_text(s: Seq<char>)
    ensures
        exists|from: int, to: int|
            {
                &&& 0 <= from <= to <= s.len()
                &&& trimmed(s) == #[trigger] s.subrange(from, to)
                &&& forall|i: int| 0 <= i < from ==> white_space(s[i])
                &&& forall|i: int| to <= i < s.len() ==> white_space(s[i])
            },
        trimmed(s).len() > 0 ==> !white_space(trimmed(s)[0]) && !white_space(trimmed(s).last()),
    decreases s.len(),
{
    if s.len() > 0 && white_space(s[0]) {
        let t = s.drop_first();
        trimmed_is_the_inner_text(t);
        let (from, to) = choose|from: int, to: int|
            {
                &&& 0 <= from <= to <= t.len()
                &&& trimmed(t) == #[trigger] t.subrange(from, to)
                &&& forall|i: int| 0 <= i < from ==> white_space(t[i])
                &&& forall|i: int| to <= i < t.len() ==> white_space(t[i])
            };
        assert(trimmed(s) =~= s.subrange(from + 1, to + 1));
        assert forall|i: int| 0 <= i < from + 1 implies white_space(s[i]) by {
            if i > 0 {
                assert(t[i - 1] == s[i]);
            }
        }
        assert forall|i: int| to + 1 <= i < s.len() implies white_space(s[i]) by {
            assert(t[i - 1] == s[i]);
        }
    } else {
        trimmed_end_is_a_prefix(s);
        let to = trimmed_end(s).len() as int;
        assert(trimmed(s) == s.subrange(0, to));
    }
}

proof fn trimmed_end_is_a_prefix(s: Seq<char>)
    ensures
        trimmed_end(s).len() <= s.len(),
        trimmed_end(s) == s.subrange(0, trimmed_end(s).len() as int),
        forall|i: int| trimmed_end(s).len() <= i < s.len() ==> white_space(s[i]),
        trimmed_end(s).len() > 0 ==> !white_space(trimmed_end(s).last()) && trimmed_end(s)[0]
            == s[0],
    decreases s.len(),
{
    if s.len() > 0 && white_space(s.last()) {
        let t = s.drop_last();
        trimmed_end_is_a_prefix(t);
        assert(trimmed_end(s) =~= s.subrange(0, trimmed_end(s).len() as int));
        assert forall|i: int| trimmed_end(s).len() <= i < s.len() implies white_space(s[i]) by {
            if i < s.len() - 1 {
                assert(t[i] == s[i]);
            }
        }
    } else {
        assert(s =~= s.subrange(0, s.len() as int));
    }
}

// ---------------------------------------------------------------------------
// Whole numbers in text
// ---------------------------------------------------------------------------

/// Whether `c` is an ASCII digit.
pub open spec fn is_digit(c: char) -> bool {
    '0' <= c <= '9'
}

/// Whether a text holds ASCII digits alone.
pub open spec fn all_digits(s: Seq<char>) -> bool {
    forall|i: int| 0 <= i < s.len() ==> is_digit(#[trigger] s[i])
}

/// `s` without the plus sign that may stand in front.
pub open spec fn unsigned_part(s: Seq<char>) -> Seq<char> {
    if s.len() > 0 && s[0] == '+' {
        s.drop_first()
    } else {
        s
    }
}

/// The number that a row of digits spells.
pub open spec fn digits_value(s: Seq<char>) -> nat
    decreases s.len(),
{
    if s.len() == 0 {
        0
    } else {
        digits_value(s.drop_last()) * 10 + (s.last() as nat - 48) as nat
    }
}

/// Text as an unsigned 64-bit number: an optional `+` and then at least one
/// digit and nothing else, for a value that fits.
pub open spec fn parsed_u64(s: Seq<char>) -> Option<u64> {
    let digits = unsigned_part(s);
    if digits.len() > 0 && all_digits(digits) && digits_value(digits) <= u64::MAX {
        Some(digits_value(digits) as u64)
    } else {
        None
    }
}

proof fn digits_value_grows(s: Seq<char>, n: int)
    requires
        0 <= n <= s.len(),
        all_digits(s),
    ensures
        digits_value(s.take(n)) <= digits_value(s),
    decreases s.len(),
{
    if n == s.len() {
        assert(s.take(n) =~= s);
    } else {
        digits_value_grows(s.drop_last(), n);
        assert(s.drop_last().take(n) =~= s.take(n));
    }
}

/// Parses an unsigned 64-bit number.
pub fn parse_u64(s: &str) -> (r: Option<u64>)
    ensures
        r == parsed_u64(s@),
{
    let chars = chars_of(s);
    let n: usize = chars.len();
    let start: usize = if n > 0 && chars[0] == '+' {
        1
    } else {
        0
    };
    let ghost digits = unsigned_part(s@);
    proof {
        assert(digits =~= s@.subrange(start as int, n as int));
        assert(digits.take(0) =~= Seq::<char>::empty());
    }
    if start == n {
        return None;
    }
    let mut value: u64 = 0;
    let mut i: usize = start;
    while i < n
        invariant
            start <= i <= n == chars@.len(),
            chars@ == s@,
            digits == s@.subrange(start as int, n as int),
            digits == unsigned_part(s@),
            digits.len() > 0,
            forall|k: int| 0 <= k < i - start ==> is_digit(#[trigger] digits[k]),
            value == digits_value(digits.take(i - start)),
        decreases n - i,
    {
        let c = chars[i];
        assert(c == digits[i - start]);
        if c < '0' || c > '9' {
            proof {
                assert(!is_digit(digits[i - start]));
            }
            return None;
        }
        let d: u64 = (c as u32 - 48) as u64;
        proof {
            assert(digits.take(i - start + 1).drop_last() =~= digits.take(i - start));
            if all_digits(digits) {
                digits_value_grows(digits, i - start + 1);
            }
        }
        if value > (u64::MAX - d) / 10 {
            return None;
        }
        value = value * 10 + d;
        i = i + 1;
    }
    proof {
        assert(digits.take(n - start) =~= digits);
    }
    Some(value)
}

/// Reading back a number written in decimal gives the number.
pub proof fn decimal_reads_back(n: u64)
    ensures
        parsed_u64(decimal(n as nat)) == Some(n),
{
    decimal_is_digits(n as nat);
    decimal_value(n as nat);
    decimal_width(n as nat);
    assert(is_digit(decimal(n as nat)[0]));
}

proof fn decimal_value(n: nat)
    ensures
        digits_value(decimal(n)) == n,
    decreases n,
{
    digit_char_is_a_digit((n % 10) as int);
    if n >= 10 {
        decimal_value(n / 10);
        assert(decimal(n).drop_last() =~= decimal(n / 10));
    } else {
        assert(decimal(n).drop_last() =~= Seq::<char>::empty());
        assert(digits_value(Seq::<char>::empty()) == 0);
    }
}

// ---------------------------------------------------------------------------
// UTF-16
// ---------------------------------------------------------------------------

/// How many UTF-16 code units a character takes.
pub open spec fn utf16_units(c: char) -> nat {
    if (c as u32) < 0x10000 {
        1
    } else {
        2
    }
}

/// How many UTF-16 code units a text takes.
pub open spec fn utf16_len(s: Seq<char>) -> nat
    decreases s.len(),
{
    if s.len() == 0 {
        0
    } else {
        utf16_len(s.drop_last()) + utf16_units(s.last())
    }
}

/// A character in UTF-16: one unit in the basic plane, a surrogate pair beyond it.
pub open spec fn utf16_char(c: char) -> Seq<u16> {
    let u = c as u32;
    if u < 0x10000 {
        seq![u as u16]
    } else {
        seq![
            (0xd800 + (u - 0x10000) / 0x400) as u16,
            (0xdc00 + (u - 0x10000) % 0x400) as u16,
        ]
    }
}

/// A text in UTF-16.
pub open spec fn utf16(s: Seq<char>) -> Seq<u16>
    decreases s.len(),
{
    if s.len() == 0 {
        Seq::empty()
    } else {
        utf16(s.drop_last()) + utf16_char(s.last())
    }
}

/// Counts the UTF-16 code units of one character.
pub fn len_utf16(c: char) -> (n: usize)
    ensures
        n == utf16_units(c),
{
    if (c as u32) < 0x10000 {
        1
    } else {
        2
    }
}

/// The length of a text in UTF-16 is the number of units of its encoding.
pub proof fn utf16_len_counts_units(s: Seq<char>)
    ensures
        utf16(s).len() == utf16_len(s),
    decreases s.len(),
{
    if s.len() > 0 {
        utf16_len_counts_units(s.drop_last());
    }
}

/// The length in UTF-16 of joined texts is the sum of their lengths.
pub proof fn utf16_len_adds(a: Seq<char>, b: Seq<char>)
    ensures
        utf16_len(a + b) == utf16_len(a) + utf16_len(b),
    decreases b.len(),
{
    if b.len() == 0 {
        assert(a + b =~= a);
    } else {
        assert((a + b).drop_last() =~= a + b.drop_last());
        utf16_len_adds(a, b.drop_last());
    }
}

/// A text takes at least one UTF-16 unit for each character.
pub proof fn utf16_len_bounds(s: Seq<char>)
    ensures
        s.len() <= utf16_len(s) <= 2 * s.len(),
        (forall|i: int| 0 <= i < s.len() ==> (#[trigger] s[i] as u32) < 0x10000) ==> utf16_len(s)
            == s.len(),
    decreases s.len(),
{
    if s.len() > 0 {
        utf16_len_bounds(s.drop_last());
        if forall|i: int| 0 <= i < s.len() ==> (#[trigger] s[i] as u32) < 0x10000 {
            assert forall|i: int| 0 <= i < s.len() - 1 implies (#[trigger] s.drop_last()[i] as u32)
                < 0x10000 by {
                assert(s.drop_last()[i] == s[i]);
            }
        }
    }
}

/// The UTF-16 form of `s` with the terminating NUL that Win32 calls expect.
pub fn wide_null(s: &str) -> (wide: Vec<u16>)
    ensures
        wide@ == utf16(s@).push(0),
{
    let chars = chars_of(s);
    let n: usize = chars.len();
    let mut wide: Vec<u16> = Vec::new();
    proof {
        assert(s@.take(0) =~= Seq::<char>::empty());
    }
    for i in 0..n
        invariant
            n == chars@.len(),
            chars@ == s@,
            wide@ == utf16(s@.take(i as int)),
    {
        let u: u32 = chars[i] as u32;
        proof {
            assert(s@.take(i + 1).drop_last() =~= s@.take(i as int));
            assert(s@.take(i + 1).last() == s@[i as int]);
        }
        if u < 0x10000 {
            wide.push(u as u16);
        } else {
            wide.push((0xd800 + (u - 0x10000) / 0x400) as u16);
            wide.push((0xdc00 + (u - 0x10000) % 0x400) as u16);
        }
        proof {
            assert(wide@ =~= utf16(s@.take(i + 1)));
        }
    }
    proof {
        assert(s@.take(n as int) =~= s@);
    }
    wide.push(0);
    wide
}

/// `char::from_u32` turns a number into the character of that number: every one up to
/// the last code point, but for the surrogates.
pub assume_specification[ char::from_u32 ](i: u32) -> (r: Option<char>)
    ensures
        r is Some <==> i < 0xd800 || 0xe000 <= i <= 0x10ffff,
        r matches Some(c) ==> c as u32 == i,
;

/// Whether a unit is the first of a surrogate pair.
pub open spec fn is_high(u: u16) -> bool {
    0xd800 <= u < 0xdc00
}

/// Whether a unit is the second of a surrogate pair.
pub open spec fn is_low(u: u16) -> bool {
    0xdc00 <= u < 0xe000
}

/// The text that units encode: a surrogate pair gives one character, a surrogate
/// without its other half the replacement character, and any other unit itself.
pub open spec fn decoded(units: Seq<u16>) -> Seq<char>
    decreases units.len(),
{
    if units.len() == 0 {
        Seq::empty()
    } else if is_high(units[0]) && units.len() > 1 && is_low(units[1]) {
        seq![(0x10000 + (units[0] - 0xd800) * 0x400 + (units[1] - 0xdc00)) as char] + decoded(
            units.skip(2),
        )
    } else if is_high(units[0]) || is_low(units[0]) {
        seq!['\u{fffd}'] + decoded(units.skip(1))
    } else {
        seq![units[0] as char] + decoded(units.skip(1))
    }
}

/// The character of a number that is one.
fn char_of(u: u32) -> (c: char)
    requires
        u < 0xd800 || 0xe000 <= u <= 0x10ffff,
    ensures
        c == u as char,
{
    match char::from_u32(u) {
        Some(c) => {
            proof {
                char_is_its_number(c);
            }
            c
        },
        None => '\u{fffd}',
    }
}

proof fn char_is_its_number(c: char)
    ensures
        (c as u32) as char == c,
{
}

/// Reads the text that units encode.
pub fn decode_utf16(units: &Vec<u16>) -> (r: String)
    ensures
        r@ == decoded(units@),
{
    let n: usize = units.len();
    let mut out = String::new();
    let mut i: usize = 0;
    proof {
        assert(units@.skip(0) =~= units@);
    }
    while i < n
        invariant
            i <= n,
            n == units@.len(),
            out@ + decoded(units@.skip(i as int)) == decoded(units@),
        decreases n - i,
    {
        let u: u16 = units[i];
        let ghost rest = units@.skip(i as int);
        let ghost before = out@;
        proof {
            assert(rest.skip(1) =~= units@.skip(i + 1));
            assert(n - i > 1 ==> rest.skip(2) =~= units@.skip(i + 2));
        }
        let high = 0xd800 <= u && u < 0xdc00;
        let low = 0xdc00 <= u && u < 0xe000;
        if high && n - i > 1 && 0xdc00 <= units[i + 1] && units[i + 1] < 0xe000 {
            let v: u16 = units[i + 1];
            let c = char_of(0x10000 + (u as u32 - 0xd800) * 0x400 + (v as u32 - 0xdc00));
            out.push(c);
            i = i + 2;
            proof {
                assert(out@ + decoded(units@.skip(i as int)) =~= before + decoded(rest));
            }
        } else {
            let c = if high || low {
                '\u{fffd}'
            } else {
                char_of(u as u32)
            };
            out.push(c);
            i = i + 1;
            proof {
                assert(out@ + decoded(units@.skip(i as int)) =~= before + decoded(rest));
            }
        }
    }
    proof {
        assert(units@.skip(n as int).len() == 0);
        assert(out@ + decoded(units@.skip(n as int)) =~= out@);
    }
    out
}

proof fn utf16_joins(a: Seq<char>, b: Seq<char>)
    ensures
        utf16(a + b) == utf16(a) + utf16(b),
    decreases b.len(),
{
    if b.len() == 0 {
        assert(a + b =~= a);
        assert(utf16(a) + utf16(b) =~= utf16(a));
    } else {
        assert((a + b).drop_last() =~= a + b.drop_last());
        utf16_joins(a, b.drop_last());
        assert(utf16(a + b) =~= utf16(a) + utf16(b));
    }
}

proof fn first_char_is_decoded(c: char, rest: Seq<u16>)
    ensures
        decoded(utf16_char(c) + rest) == seq![c] + decoded(rest),
{
    let units = utf16_char(c) + rest;
    let u = c as u32;
    if u < 0x10000 {
        assert(u < 0xd800 || 0xe000 <= u);
        assert(units.skip(1) =~= rest);
        assert(units[0] == u as u16);
        assert(units[0] as char == c);
    } else {
        assert(u <= 0x10ffff);
        assert(units.skip(2) =~= rest);
        let (h, l) = (units[0], units[1]);
        assert(h == 0xd800 + (u - 0x10000) / 0x400);
        assert(l == 0xdc00 + (u - 0x10000) % 0x400);
        assert(0x10000 + (h - 0xd800) * 0x400 + (l - 0xdc00) == u);
    }
}

/// A text is what its UTF-16 form is decoded to.
pub proof fn utf16_reads_back(s: Seq<char>)
    ensures
        decoded(utf16(s)) == s,
    decreases s.len(),
{
    if s.len() > 0 {
        let (head, tail) = (seq![s[0]], s.skip(1));
        assert(s =~= head + tail);
        utf16_joins(head, tail);
        assert(head.drop_last() =~= Seq::<char>::empty());
        assert(utf16(head) =~= utf16_char(s[0])) by {
            reveal_with_fuel(utf16, 2);
            assert(head.last() == s[0]);
        }
        first_char_is_decoded(s[0], utf16(tail));
        utf16_reads_back(tail);
    }
}

/// The units before the first NUL.
pub open spec fn until_nul(units: Seq<u16>) -> Seq<u16>
    decreases units.len(),
{
    if units.len() == 0 || units[0] == 0 {
        Seq::empty()
    } else {
        seq![units[0]] + until_nul(units.skip(1))
    }
}

/// What is read of a buffer are its units up to the first NUL, or all of them where it has
/// none.
pub proof fn until_nul_is_a_prefix(units: Seq<u16>, n: int)
    requires
        0 <= n <= units.len(),
        forall|i: int| 0 <= i < n ==> units[i] != 0,
        n < units.len() ==> units[n] == 0,
    ensures
        until_nul(units) == units.take(n),
    decreases n,
{
    if n == 0 {
        assert(units.take(0) =~= Seq::<u16>::empty());
    } else {
        let rest = units.skip(1);
        assert forall|i: int| 0 <= i < n - 1 implies rest[i] != 0 by {
            assert(rest[i] == units[i + 1]);
        }
        until_nul_is_a_prefix(rest, n - 1);
        assert(units.take(n) =~= seq![units[0]] + rest.take(n - 1));
    }
}

/// Reads a text that ends with a NUL, or with its last unit.
pub fn wide_to_string(units: &Vec<u16>) -> (r: String)
    ensures
        r@ == decoded(until_nul(units@)),
{
    let mut text: Vec<u16> = Vec::new();
    let mut i: usize = 0;
    while i < units.len() && units[i] != 0
        invariant
            i <= units@.len(),
            text@ == units@.take(i as int),
            forall|j: int| 0 <= j < i ==> units@[j] != 0,
        decreases units@.len() - i,
    {
        text.push(units[i]);
        i = i + 1;
        proof {
            assert(text@ =~= units@.take(i as int));
        }
    }
    proof {
        until_nul_is_a_prefix(units@, i as int);
    }
    decode_utf16(&text)
}

/// A text without a NUL is what its terminated UTF-16 form is read back as.
pub proof fn wide_text_reads_back(s: Seq<char>)
    requires
        forall|i: int| 0 <= i < s.len() ==> s[i] != '\0',
    ensures
        until_nul(utf16(s).push(0)) == utf16(s),
        decoded(until_nul(utf16(s).push(0))) == s,
{
    utf16_has_no_nul(s);
    let units = utf16(s).push(0);
    until_nul_is_a_prefix(units, utf16(s).len() as int);
    assert(units.take(utf16(s).len() as int) =~= utf16(s));
    utf16_reads_back(s);
}

proof fn utf16_has_no_nul(s: Seq<char>)
    requires
        forall|i: int| 0 <= i < s.len() ==> s[i] != '\0',
    ensures
        forall|i: int| 0 <= i < utf16(s).len() ==> utf16(s)[i] != 0,
    decreases s.len(),
{
    if s.len() > 0 {
        let t = s.drop_last();
        assert forall|i: int| 0 <= i < t.len() implies t[i] != '\0' by {
            assert(t[i] == s[i]);
        }
        utf16_has_no_nul(t);
        assert(s.last() == s[s.len() - 1]);
        nul_is_only_itself(s.last());
        let n = utf16(t).len();
        assert forall|i: int| 0 <= i < utf16(s).len() implies utf16(s)[i] != 0 by {
            if i >= n {
                assert(utf16(s)[i] == utf16_char(s.last())[i - n]);
            } else {
                assert(utf16(s)[i] == utf16(t)[i]);
            }
        }
    }
}

proof fn nul_is_only_itself(c: char)
    requires
        c != '\0',
    ensures
        forall|i: int| 0 <= i < utf16_char(c).len() ==> utf16_char(c)[i] != 0,
{
    let u = c as u32;
    assert(u != 0);
    if u >= 0x10000 {
        assert(u <= 0x10ffff);
    }
}

// ---------------------------------------------------------------------------
// What the building blocks promise
// ---------------------------------------------------------------------------

/// A number in decimal is its last digit behind the rest of them, and padded to two digits
/// a number under ten has a zero in front.
pub proof fn numbers_are_written_digit_by_digit(n: nat, d: nat)
    requires
        d < 10,
    ensures
        decimal(d) == seq![('0' as int + d) as char],
        n > 0 ==> decimal(n * 10 + d) == decimal(n).push(('0' as int + d) as char),
        decimal2(d) == seq!['0', ('0' as int + d) as char],
        n > 0 ==> decimal2(n * 10 + d) == decimal(n * 10 + d),
{
    assert((n * 10 + d) / 10 == n);
    assert((n * 10 + d) % 10 == d);
    assert(decimal2(d) =~= seq!['0', ('0' as int + d) as char]);
}

/// A row of digits spells ten times the number of those before the last, and the last on
/// top; one without digits spells nothing.
pub proof fn digits_count_by_their_place(s: Seq<char>, c: char)
    requires
        '0' <= c <= '9',
    ensures
        digits_value(Seq::<char>::empty()) == 0,
        digits_value(s.push(c)) == 10 * digits_value(s) + (c as int - '0' as int),
{
    assert(s.push(c).drop_last() =~= s);
}

/// What reads as a number is made of digits, with a plus sign in front or not, and spells
/// that number; and every such text whose number fits reads as it.
pub proof fn only_digits_read_as_numbers(s: Seq<char>, sign: bool)
    ensures
        ({
            let text = if sign {
                seq!['+'] + s
            } else {
                s
            };
            let digits = s.len() > 0 && forall|i: int| 0 <= i < s.len() ==> '0' <= #[trigger] s[i]
                <= '9';
            &&& digits && digits_value(s) <= u64::MAX ==> parsed_u64(text) == Some(
                digits_value(s) as u64,
            )
            &&& digits && digits_value(s) > u64::MAX ==> parsed_u64(text) is None
            &&& sign && !digits ==> parsed_u64(text) is None
            &&& !digits && (s.len() == 0 || s[0] != '+') ==> parsed_u64(s) is None
        }),
{
    let text = if sign {
        seq!['+'] + s
    } else {
        s
    };
    assert(sign ==> text.drop_first() =~= s);
    if s.len() > 0 {
        assert(s[0] == '+' ==> !is_digit(s[0]));
    }
    assert(all_digits(s) == forall|i: int| 0 <= i < s.len() ==> '0' <= #[trigger] s[i] <= '9');
}

/// Of the ASCII characters, the blank and the five from tab to carriage return are white
/// space.
pub proof fn ascii_white_space(c: char)
    requires
        (c as u32) < 0x80,
    ensures
        white_space(c) <==> c == ' ' || c == '\t' || c == '\n' || c == '\r' || c as u32 == 0xb || c
            as u32 == 0xc,
{
}

/// White space around a text is cut, and the text is kept as it is.
pub proof fn trimming_keeps_the_text(before: Seq<char>, s: Seq<char>, after: Seq<char>)
    requires
        s.len() > 0,
        !white_space(s[0]),
        !white_space(s.last()),
        forall|i: int| 0 <= i < before.len() ==> white_space(#[trigger] before[i]),
        forall|i: int| 0 <= i < after.len() ==> white_space(#[trigger] after[i]),
    ensures
        trimmed(before + s + after) == s,
    decreases before.len() + after.len(),
{
    let all = before + s + after;
    if before.len() > 0 {
        assert(all[0] == before[0]);
        assert(all.drop_first() =~= before.drop_first() + s + after);
        trimming_keeps_the_text(before.drop_first(), s, after);
    } else if after.len() > 0 {
        assert(all[0] == s[0]);
        assert(all.last() == after.last());
        assert(all.drop_last() =~= before + s + after.drop_last());
        trimming_keeps_the_text(before, s, after.drop_last());
        assert(all.drop_last()[0] == s[0]);
    } else {
        assert(all =~= s);
    }
}

/// White space alone is cut to nothing.
pub proof fn white_space_is_trimmed_to_nothing(s: Seq<char>)
    requires
        forall|i: int| 0 <= i < s.len() ==> white_space(#[trigger] s[i]),
    ensures
        trimmed(s).len() == 0,
{
    trimmed_is_the_inner_text(s);
    if trimmed(s).len() > 0 {
        let (from, to) = choose|from: int, to: int|
            {
                &&& 0 <= from <= to <= s.len()
                &&& trimmed(s) == #[trigger] s.subrange(from, to)
                &&& forall|i: int| 0 <= i < from ==> white_space(s[i])
                &&& forall|i: int| to <= i < s.len() ==> white_space(s[i])
            };
        assert(trimmed(s)[0] == s[from]);
    }
}

/// A character of the basic plane is one unit of the same number, and one beyond it a pair
/// of surrogates that hold its upper and its lower ten bits.
pub proof fn characters_have_their_units(c: char, high: int, low: int)
    requires
        0 <= high < 0x400,
        0 <= low < 0x400,
    ensures
        (c as u32) < 0x1_0000 ==> utf16_char(c) == seq![(c as u32) as u16] && utf16_units(c) == 1,
        c as u32 == 0x1_0000 + high * 0x400 + low ==> utf16_char(c) == seq![
            (0xd800 + high) as u16,
            (0xdc00 + low) as u16,
        ] && utf16_units(c) == 2,
{
}

/// A text is encoded character by character.
pub proof fn texts_are_encoded_in_order(s: Seq<char>, c: char)
    ensures
        utf16(Seq::<char>::empty()) == Seq::<u16>::empty(),
        utf16(s.push(c)) == utf16(s) + utf16_char(c),
        utf16_len(s.push(c)) == utf16_len(s) + utf16_units(c),
        utf16_len(Seq::<char>::empty()) == 0,
{
    assert(s.push(c).drop_last() =~= s);
}

/// Units are decoded from the front: a pair of surrogates to the character that they hold
/// the bits of, a surrogate without its other half to the replacement character, and any
/// other unit to the character of its number.
pub proof fn units_are_decoded_in_order(units: Seq<u16>)
    ensures
        units.len() == 0 ==> decoded(units) == Seq::<char>::empty(),
        units.len() > 0 && !(0xd800 <= units[0] < 0xe000) ==> decoded(units) == seq![
            units[0] as char,
        ] + decoded(units.skip(1)),
        units.len() > 1 && 0xd800 <= units[0] < 0xdc00 && 0xdc00 <= units[1] < 0xe000 ==> decoded(
            units,
        ) == seq![
            (0x1_0000 + (units[0] - 0xd800) * 0x400 + (units[1] - 0xdc00)) as char,
        ] + decoded(units.skip(2)),
        units.len() > 0 && (0xdc00 <= units[0] < 0xe000 || 0xd800 <= units[0] < 0xdc00 && (
        units.len() == 1 || !(0xdc00 <= units[1] < 0xe000))) ==> decoded(units) == seq!['\u{fffd}']
            + decoded(units.skip(1)),
{
}

} // verus!
