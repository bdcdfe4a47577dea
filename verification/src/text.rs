//! Strings as sequences of characters: comparing, trimming, searching, and the
//! decimal and hexadecimal notations.

use vstd::prelude::*;
use vstd::utf8::*;

verus! {

/// `String::push` of the standard library: the character goes behind the text.
pub assume_specification[ String::push ](s: &mut String, c: char)
    ensures
        final(s)@ == old(s)@.push(c),
;

/// The characters of `s`, in order.
pub fn chars_of(s: &str) -> (r: Vec<char>)
    ensures
        r@ == s@,
{
    let mut out: Vec<char> = Vec::new();
    for c in it: s.chars()
        invariant
            out@ == it.seq().take(it.index() as int),
            it.seq() == s@,
    {
        out.push(c);
        assert(it.seq().take(it.index() + 1) == it.seq().take(it.index() as int).push(c));
    }
    assert(s@.take(s@.len() as int) == s@);
    out
}

/// The text that consists of `cs`.
pub fn text_of(cs: &[char]) -> (r: String)
    ensures
        r@ == cs@,
{
    let mut out = String::new();
    for i in 0..cs.len()
        invariant
            out@ == cs@.take(i as int),
    {
        out.push(cs[i]);
        assert(cs@.take(i + 1) == cs@.take(i as int).push(cs@[i as int]));
    }
    assert(cs@.take(cs@.len() as int) == cs@);
    out
}

/// Whether the two byte strings are equal.
pub fn same_bytes(a: &[u8], b: &[u8]) -> (r: bool)
    ensures
        r == (a@ == b@),
{
    if a.len() != b.len() {
        return false;
    }
    for i in 0..a.len()
        invariant
            a@.len() == b@.len(),
            forall|j: int| 0 <= j < i ==> a@[j] == b@[j],
    {
        if a[i] != b[i] {
            return false;
        }
    }
    assert(a@ =~= b@);
    true
}

/// Whether the two texts are equal.
pub fn same_text(a: &str, b: &str) -> (r: bool)
    ensures
        r == (a@ == b@),
{
    let r = same_bytes(a.as_bytes(), b.as_bytes());
    proof {
        encode_utf8_decode_utf8(a@);
        encode_utf8_decode_utf8(b@);
    }
    r
}

/// Whether `s` starts with `prefix`.
pub fn starts_with(s: &str, prefix: &str) -> (r: bool)
    ensures
        r == prefix@.is_prefix_of(s@),
{
    let n: usize = prefix.unicode_len();
    if s.unicode_len() < n {
        return false;
    }
    assert(s@.subrange(0, n as int) == s@.take(n as int));
    same_text(s.substring_char(0, n), prefix)
}

/// Whether `needle` occurs somewhere in `s`.
pub open spec fn occurs(needle: Seq<char>, s: Seq<char>) -> bool {
    exists|i: int|
        0 <= i <= s.len() - needle.len() && #[trigger] s.subrange(i, i + needle.len()) == needle
}

/// Whether `needle` occurs somewhere in `s`.
pub fn contains_text(s: &str, needle: &str) -> (r: bool)
    ensures
        r == occurs(needle@, s@),
{
    let all: Vec<char> = chars_of(s);
    let part: Vec<char> = chars_of(needle);
    let n: usize = part.len();
    if all.len() < n {
        return false;
    }
    let last: usize = all.len() - n;
    let mut i: usize = 0;
    loop
        invariant
            all@ == s@,
            part@ == needle@,
            n == part@.len(),
            last == all@.len() - n,
            i <= last,
            forall|k: int| 0 <= k < i ==> #[trigger] s@.subrange(k, k + n) != needle@,
        decreases last - i,
    {
        let mut j: usize = 0;
        while j < n && all[i + j] == part[j]
            invariant
                n == part@.len(),
                i + n <= all.len(),
                j <= n,
                forall|k: int| 0 <= k < j ==> all@[i + k] == part@[k],
            decreases n - j,
        {
            j = j + 1;
        }
        if j == n {
            assert(s@.subrange(i as int, i + n) == needle@);
            return true;
        }
        assert(s@.subrange(i as int, i + n)[j as int] != needle@[j as int]);
        if i == last {
            return false;
        }
        i = i + 1;
    }
}

/// The characters that count as white space: those with the Unicode property `White_Space`.
pub open spec fn is_white(c: char) -> bool {
    ||| 0x9 <= c as u32 <= 0xd
    ||| c as u32 == 0x20
    ||| c as u32 == 0x85
    ||| c as u32 == 0xa0
    ||| c as u32 == 0x1680
    ||| 0x2000 <= c as u32 <= 0x200a
    ||| c as u32 == 0x2028
    ||| c as u32 == 0x2029
    ||| c as u32 == 0x202f
    ||| c as u32 == 0x205f
    ||| c as u32 == 0x3000
}

fn white(c: char) -> (r: bool)
    ensures
        r == is_white(c),
{
    let n: u32 = c as u32;
    (0x9 <= n && n <= 0xd) || n == 0x20 || n == 0x85 || n == 0xa0 || n == 0x1680 || (0x2000 <= n && n
        <= 0x200a) || n == 0x2028 || n == 0x2029 || n == 0x202f || n == 0x205f || n == 0x3000
}

/// `s` without the white space that it starts with.
pub open spec fn without_white_start(s: Seq<char>) -> Seq<char>
    decreases s.len(),
{
    if s.len() > 0 && is_white(s[0]) {
        without_white_start(s.skip(1))
    } else {
        s
    }
}

/// `s` without the white space that it ends with.
pub open spec fn without_white_end(s: Seq<char>) -> Seq<char>
    decreases s.len(),
{
    if s.len() > 0 && is_white(s.last()) {
        without_white_end(s.drop_last())
    } else {
        s
    }
}

/// `s` without the white space that it ends with.
pub fn trim_end(s: &str) -> (r: &str)
    ensures
        r@ == without_white_end(s@),
{
    let all: Vec<char> = chars_of(s);
    let mut end: usize = all.len();
    assert(s@.subrange(0, end as int) == s@);
    while end > 0 && white(all[end - 1])
        invariant
            end <= all@.len(),
            all@ == s@,
            without_white_end(s@) == without_white_end(s@.subrange(0, end as int)),
        decreases end,
    {
        assert(s@.subrange(0, end as int).drop_last() == s@.subrange(0, end - 1));
        end = end - 1;
    }
    s.substring_char(0, end)
}

/// `s` without the white space around it.
pub fn trim(s: &str) -> (r: &str)
    ensures
        r@ == without_white_end(without_white_start(s@)),
{
    let all: Vec<char> = chars_of(s);
    let mut start: usize = 0;
    assert(s@.subrange(0, s@.len() as int) == s@);
    while start < all.len() && white(all[start])
        invariant
            start <= all@.len(),
            all@ == s@,
            without_white_start(s@) == without_white_start(
                s@.subrange(start as int, s@.len() as int),
            ),
        decreases all@.len() - start,
    {
        assert(s@.subrange(start as int, s@.len() as int).skip(1) == s@.subrange(
            start + 1,
            s@.len() as int,
        ));
        start = start + 1;
    }
    trim_end(s.substring_char(start, all.len()))
}

/// The character of a decimal digit.
pub open spec fn digit_char(d: nat) -> char {
    ('0' as nat + d) as char
}

pub open spec fn is_digit(c: char) -> bool {
    '0' as u32 <= c as u32 <= '9' as u32
}

/// The decimal notation of a number.
pub open spec fn decimal(n: nat) -> Seq<char>
    decreases n,
{
    if n < 10 {
        seq![digit_char(n)]
    } else {
        decimal(n / 10).push(digit_char(n % 10))
    }
}

/// Writes a number in decimal notation.
pub fn decimal_of(n: u64) -> (r: String)
    ensures
        r@ == decimal(n as nat),
    decreases n,
{
    let mut s: String = if n < 10 {
        String::new()
    } else {
        decimal_of(n / 10)
    };
    let c: char = (48u8 + (n % 10) as u8) as char;
    s.push(c);
    assert(c == digit_char((n % 10) as nat));
    assert(n < 10 ==> s@ == seq![digit_char(n as nat)]);
    s
}

/// The value of a sequence of decimal digits.
pub open spec fn digits_value(s: Seq<char>) -> nat
    decreases s.len(),
{
    if s.len() == 0 {
        0
    } else {
        (digits_value(s.drop_last()) * 10 + (s.last() as u32 - '0' as u32)) as nat
    }
}

pub open spec fn all_digits(s: Seq<char>) -> bool {
    forall|i: int| 0 <= i < s.len() ==> is_digit(#[trigger] s[i])
}

/// The integer that a text denotes: digits, with at most one sign before them.
pub open spec fn integer_value(s: Seq<char>) -> Option<int> {
    if s.len() > 0 && all_digits(s) {
        Some(digits_value(s) as int)
    } else if s.len() > 1 && s[0] == '+' && all_digits(s.skip(1)) {
        Some(digits_value(s.skip(1)) as int)
    } else if s.len() > 1 && s[0] == '-' && all_digits(s.skip(1)) {
        Some(-(digits_value(s.skip(1)) as int))
    } else {
        None
    }
}

proof fn lemma_digits_grow(s: Seq<char>, n: int)
    requires
        0 <= n <= s.len(),
        all_digits(s),
    ensures
        digits_value(s.take(n)) <= digits_value(s),
    decreases s.len() - n,
{
    if n < s.len() {
        lemma_digits_grow(s, n + 1);
        assert(s.take(n + 1).drop_last() == s.take(n));
        assert(s.take(n + 1).last() == s[n]);
        assert(is_digit(s[n]));
    } else {
        assert(s.take(n) == s);
    }
}

/// The value of the digits from `from` on; `None` where one is no digit or the value is
/// greater than `limit`.
fn digits_from(cs: &Vec<char>, from: usize, limit: u64) -> (r: Option<u64>)
    requires
        from <= cs@.len(),
        limit <= 0x8000_0000_0000_0000,
    ensures
        match r {
            Some(v) => all_digits(cs@.skip(from as int)) && v == digits_value(cs@.skip(from as int))
                && v <= limit,
            None => !all_digits(cs@.skip(from as int)) || digits_value(cs@.skip(from as int))
                > limit,
        },
{
    let ghost s = cs@.skip(from as int);
    let mut v: u64 = 0;
    let mut i: usize = from;
    while i < cs.len()
        invariant
            from <= i <= cs@.len(),
            s == cs@.skip(from as int),
            limit <= 0x8000_0000_0000_0000,
            v <= limit,
            v == digits_value(s.take(i - from)),
            forall|k: int| 0 <= k < i - from ==> is_digit(#[trigger] s[k]),
        decreases cs@.len() - i,
    {
        let c: char = cs[i];
        assert(s[i - from] == c);
        assert(s.take(i - from + 1).drop_last() == s.take(i - from));
        assert(s.take(i - from + 1).last() == c);
        if (c as u32) < 48 || (c as u32) > 57 {
            assert(!is_digit(s[i - from]));
            return None;
        }
        let d: u64 = (c as u32 - 48) as u64;
        let next: u128 = (v as u128) * 10 + (d as u128);
        assert(next == digits_value(s.take(i - from + 1)));
        if next > limit as u128 {
            proof {
                if all_digits(s) {
                    lemma_digits_grow(s, i - from + 1);
                }
            }
            return None;
        }
        v = next as u64;
        i = i + 1;
    }
    assert(s.take(s.len() as int) == s);
    Some(v)
}

/// Reads an integer of 64 bits in decimal notation.
pub fn parse_i64(s: &str) -> (r: Option<i64>)
    ensures
        match r {
            Some(n) => integer_value(s@) == Some(n as int),
            None => match integer_value(s@) {
                Some(v) => v < i64::MIN || v > i64::MAX,
                None => true,
            },
        },
{
    let cs: Vec<char> = chars_of(s);
    if cs.len() == 0 {
        return None;
    }
    assert(cs@.skip(0) == s@);
    if cs[0] == '-' || cs[0] == '+' {
        assert(!is_digit(s@[0]));
        if cs.len() == 1 {
            return None;
        }
        if cs[0] == '+' {
            match digits_from(&cs, 1, 0x7fff_ffff_ffff_ffff) {
                Some(v) => Some(v as i64),
                None => None,
            }
        } else {
            match digits_from(&cs, 1, 0x8000_0000_0000_0000) {
                Some(v) => if v == 0x8000_0000_0000_0000 {
                    Some(-0x8000_0000_0000_0000)
                } else {
                    Some(-(v as i64))
                },
                None => None,
            }
        }
    } else {
        match digits_from(&cs, 0, 0x7fff_ffff_ffff_ffff) {
            Some(v) => Some(v as i64),
            None => None,
        }
    }
}

/// The character of a hexadecimal digit, in lower case.
pub open spec fn hex_char(d: nat) -> char {
    if d < 10 {
        ('0' as nat + d) as char
    } else {
        ('a' as nat + d - 10) as char
    }
}

/// Two hexadecimal digits for each byte.
pub open spec fn hex(bytes: Seq<u8>) -> Seq<char>
    decreases bytes.len(),
{
    if bytes.len() == 0 {
        Seq::empty()
    } else {
        hex(bytes.drop_last()).push(hex_char((bytes.last() / 16) as nat)).push(
            hex_char((bytes.last() % 16) as nat),
        )
    }
}

fn hex_digit(d: u8) -> (r: char)
    requires
        d < 16,
    ensures
        r == hex_char(d as nat),
{
    if d < 10 {
        (48u8 + d) as char
    } else {
        (87u8 + d) as char
    }
}

/// Writes bytes as hexadecimal digits.
pub fn hex_of(bytes: &[u8]) -> (r: String)
    ensures
        r@ == hex(bytes@),
{
    let mut s = String::new();
    for i in 0..bytes.len()
        invariant
            s@ == hex(bytes@.take(i as int)),
    {
        let b: u8 = bytes[i];
        assert(bytes@.take(i + 1).drop_last() == bytes@.take(i as int));
        s.push(hex_digit(b / 16));
        s.push(hex_digit(b % 16));
    }
    assert(bytes@.take(bytes@.len() as int) == bytes@);
    s
}

// ---- what the notations mean ----

/// A text occurs in another just where that is something, the text, and something behind it.
pub proof fn law_what_occurs_is_a_part(
    needle: Seq<char>,
    before: Seq<char>,
    behind: Seq<char>,
    s: Seq<char>,
)
    ensures
        occurs(needle, before + needle + behind),
        occurs(needle, s) ==> exists|a: Seq<char>, b: Seq<char>| s == #[trigger] (a + needle + b),
{
    let whole = before + needle + behind;
    let at = before.len() as int;
    assert(whole.subrange(at, at + needle.len()) =~= needle);
    if occurs(needle, s) {
        let i = choose|i: int|
            0 <= i <= s.len() - needle.len() && #[trigger] s.subrange(i, i + needle.len()) == needle;
        let a = s.take(i);
        let b = s.skip(i + needle.len());
        assert(s =~= a + s.subrange(i, i + needle.len()) + b);
        assert(s == a + needle + b);
    }
}

/// White space is what Unicode says it is.
pub proof fn law_white_space(c: char)
    ensures
        is_white(c) <==> c == '\t' || c == '\n' || c == '\u{b}' || c == '\u{c}' || c == '\r' || c
            == ' ' || c == '\u{85}' || c == '\u{a0}' || c == '\u{1680}' || '\u{2000}' <= c
            <= '\u{200a}' || c == '\u{2028}' || c == '\u{2029}' || c == '\u{202f}' || c
            == '\u{205f}' || c == '\u{3000}',
{
}

/// What is taken off the end of a text is white space, and all of it.
pub proof fn law_trimming_the_end(s: Seq<char>)
    ensures
        without_white_end(s).len() <= s.len(),
        without_white_end(s) == s.take(without_white_end(s).len() as int),
        forall|i: int| without_white_end(s).len() <= i < s.len() ==> is_white(#[trigger] s[i]),
        without_white_end(s).len() > 0 ==> !is_white(without_white_end(s).last()),
    decreases s.len(),
{
    let r = without_white_end(s);
    if s.len() > 0 && is_white(s.last()) {
        law_trimming_the_end(s.drop_last());
        assert(s.drop_last().take(r.len() as int) =~= s.take(r.len() as int));
        assert forall|i: int| r.len() <= i < s.len() implies is_white(#[trigger] s[i]) by {
            if i < s.len() - 1 {
                assert(s[i] == s.drop_last()[i]);
            }
        }
    } else {
        assert(s.take(s.len() as int) =~= s);
    }
}

/// What is taken off the start of a text is white space, and all of it.
pub proof fn law_trimming_the_start(s: Seq<char>)
    ensures
        without_white_start(s).len() <= s.len(),
        without_white_start(s) == s.skip(s.len() - without_white_start(s).len()),
        forall|i: int|
            0 <= i < s.len() - without_white_start(s).len() ==> is_white(#[trigger] s[i]),
        without_white_start(s).len() > 0 ==> !is_white(without_white_start(s)[0]),
    decreases s.len(),
{
    let r = without_white_start(s);
    if s.len() > 0 && is_white(s[0]) {
        let rest = s.skip(1);
        law_trimming_the_start(rest);
        assert(rest.skip(rest.len() - r.len()) =~= s.skip(s.len() - r.len()));
        assert forall|i: int| 0 <= i < s.len() - r.len() implies is_white(#[trigger] s[i]) by {
            if i > 0 {
                assert(s[i] == rest[i - 1]);
            }
        }
    } else {
        assert(s.skip(0) =~= s);
    }
}

/// The decimal notation of a number: its last digit stands for the remainder by ten, and the
/// digits before it for the quotient.
pub proof fn law_decimal_digits(n: nat)
    ensures
        n < 10 ==> decimal(n) == seq!["0123456789"@[n as int]],
        n >= 10 ==> decimal(n) == decimal(n / 10).push("0123456789"@[(n % 10) as int]),
{
    reveal_strlit("0123456789");
    let d = n % 10;
    assert("0123456789"@[0] == '0' && "0123456789"@[1] == '1' && "0123456789"@[2] == '2');
    assert("0123456789"@[3] == '3' && "0123456789"@[4] == '4' && "0123456789"@[5] == '5');
    assert("0123456789"@[6] == '6' && "0123456789"@[7] == '7' && "0123456789"@[8] == '8');
    assert("0123456789"@[9] == '9');
    assert(digit_char(d) == "0123456789"@[d as int]);
}

proof fn lemma_decimal(n: nat)
    ensures
        decimal(n).len() > 0,
        all_digits(decimal(n)),
        digits_value(decimal(n)) == n,
        n > 0 ==> decimal(n)[0] != '0',
    decreases n,
{
    if n >= 10 {
        lemma_decimal(n / 10);
        let head = decimal(n / 10);
        assert(decimal(n).drop_last() =~= head);
        assert(decimal(n).last() == digit_char(n % 10));
        assert forall|i: int| 0 <= i < decimal(n).len() implies is_digit(
            #[trigger] decimal(n)[i],
        ) by {
            if i < head.len() {
                assert(decimal(n)[i] == head[i]);
            }
        }
    } else {
        let s = decimal(n);
        assert(s.drop_last() =~= Seq::<char>::empty());
        assert(digits_value(s.drop_last()) == 0);
        assert(s.last() == digit_char(n));
        assert forall|i: int| 0 <= i < s.len() implies is_digit(#[trigger] s[i]) by {}
    }
}

/// A number is read back from its decimal notation, with a sign before it or without; the
/// notation has no zero that could be left out.
pub proof fn law_numbers_are_read_back(n: nat)
    ensures
        integer_value(decimal(n)) == Some(n as int),
        integer_value(seq!['+'] + decimal(n)) == Some(n as int),
        integer_value(seq!['-'] + decimal(n)) == Some(-(n as int)),
        n > 0 ==> decimal(n)[0] != '0',
{
    lemma_decimal(n);
    let plus = seq!['+'] + decimal(n);
    let minus = seq!['-'] + decimal(n);
    assert(plus.skip(1) =~= decimal(n));
    assert(minus.skip(1) =~= decimal(n));
    assert(plus[0] == '+' && minus[0] == '-');
    assert(!is_digit(plus[0]) && !is_digit(minus[0]));
}

/// A text denotes an integer just where it is one digit or more, with at most one sign before
/// them.
pub proof fn law_what_denotes_an_integer(s: Seq<char>)
    ensures
        integer_value(s) is Some <==> s.len() > 0 && (forall|i: int|
            1 <= i < s.len() ==> 48 <= (#[trigger] s[i]) as u32 <= 57) && (48 <= s[0] as u32 <= 57
            || (s.len() > 1 && (s[0] == '+' || s[0] == '-'))),
{
    let rest = s.skip(1);
    if integer_value(s) is Some {
        assert(is_digit(s[0]) || s[0] == '+' || s[0] == '-');
        assert forall|i: int| 1 <= i < s.len() implies 48 <= (#[trigger] s[i]) as u32 <= 57 by {
            assert(rest[i - 1] == s[i]);
            if all_digits(s) {
                assert(is_digit(s[i]));
            } else {
                assert(is_digit(rest[i - 1]));
            }
        }
    }
    if s.len() > 0 && forall|i: int| 1 <= i < s.len() ==> 48 <= (#[trigger] s[i]) as u32 <= 57 {
        assert forall|i: int| 0 <= i < rest.len() implies is_digit(#[trigger] rest[i]) by {
            assert(rest[i] == s[i + 1]);
        }
        if 48 <= s[0] as u32 <= 57 {
            assert forall|i: int| 0 <= i < s.len() implies is_digit(#[trigger] s[i]) by {}
        }
    }
}

/// Each byte is written as its upper and its lower half, each half as one of sixteen digits.
pub proof fn law_hex_digits(bytes: Seq<u8>, i: int)
    requires
        0 <= i < bytes.len(),
    ensures
        hex(bytes).len() == 2 * bytes.len(),
        hex(bytes)[2 * i] == "0123456789abcdef"@[bytes[i] as int / 16],
        hex(bytes)[2 * i + 1] == "0123456789abcdef"@[bytes[i] as int % 16],
    decreases bytes.len(),
{
    lemma_hex_len(bytes);
    lemma_hex_len(bytes.drop_last());
    if i < bytes.len() - 1 {
        law_hex_digits(bytes.drop_last(), i);
        assert(bytes.drop_last()[i] == bytes[i]);
    } else {
        let b = bytes.last();
        lemma_hex_char((b / 16) as nat);
        lemma_hex_char((b % 16) as nat);
    }
}

proof fn lemma_hex_len(bytes: Seq<u8>)
    ensures
        hex(bytes).len() == 2 * bytes.len(),
    decreases bytes.len(),
{
    if bytes.len() > 0 {
        lemma_hex_len(bytes.drop_last());
    }
}

proof fn lemma_hex_char(d: nat)
    requires
        d < 16,
    ensures
        hex_char(d) == "0123456789abcdef"@[d as int],
{
    reveal_strlit("0123456789abcdef");
    let all = "0123456789abcdef"@;
    assert(all[0] == '0' && all[1] == '1' && all[2] == '2' && all[3] == '3');
    assert(all[4] == '4' && all[5] == '5' && all[6] == '6' && all[7] == '7');
    assert(all[8] == '8' && all[9] == '9' && all[10] == 'a' && all[11] == 'b');
    assert(all[12] == 'c' && all[13] == 'd' && all[14] == 'e' && all[15] == 'f');
}

/// Digits count by their place: one more at the end makes ten times the value and its own, and a
/// zero at the start makes no difference.
pub proof fn law_digits_count_by_their_place(s: Seq<char>, d: nat)
    requires
        d < 10,
    ensures
        digits_value(Seq::empty()) == 0,
        digits_value(s.push("0123456789"@[d as int])) == 10 * digits_value(s) + d,
        all_digits(s) ==> digits_value(seq!['0'] + s) == digits_value(s),
    decreases s.len(),
{
    law_decimal_digits(d);
    assert(decimal(d)[0] == digit_char(d));
    let c = "0123456789"@[d as int];
    assert(s.push(c).drop_last() =~= s);
    assert(c as u32 - '0' as u32 == d);
    if all_digits(s) {
        let longer = seq!['0'] + s;
        if s.len() == 0 {
            assert(longer.drop_last() =~= Seq::<char>::empty());
            assert(longer.last() == '0');
            assert(digits_value(longer.drop_last()) == 0);
        } else {
            assert forall|i: int| 0 <= i < s.drop_last().len() implies is_digit(
                #[trigger] s.drop_last()[i],
            ) by {
                assert(s.drop_last()[i] == s[i]);
            }
            law_digits_count_by_their_place(s.drop_last(), d);
            assert(longer.drop_last() =~= seq!['0'] + s.drop_last());
            assert(longer.last() == s.last());
        }
    }
}

} // verus!
