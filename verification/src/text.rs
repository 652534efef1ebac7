//! Text normalization for extraction-noisy datasheet cells: whitespace
//! stripping, address formatting, access-mode renaming, and reset-value
//! parsing with a defaulting rule.

use vstd::prelude::*;

verus! {

/// A character with the Unicode `White_Space` property, written out by code
/// point so that contracts do not depend on an unspecified library predicate.
pub open spec fn is_space_char(c: char) -> bool {
    let u = c as u32;
    u == 0x20 || u == 0x09 || u == 0x0a || u == 0x0d || u == 0x0b || u == 0x0c || u == 0x85
        || u == 0xa0 || u == 0x1680 || (0x2000 <= u && u <= 0x200a) || u == 0x2028 || u == 0x2029
        || u == 0x202f || u == 0x205f || u == 0x3000
}

/// Runtime test for [`is_space_char`].
pub fn is_space(c: char) -> (r: bool)
    ensures
        r == is_space_char(c),
{
    let u = c as u32;
    u == 0x20 || u == 0x09 || u == 0x0a || u == 0x0d || u == 0x0b || u == 0x0c || u == 0x85
        || u == 0xa0 || u == 0x1680 || (0x2000 <= u && u <= 0x200a) || u == 0x2028 || u == 0x2029
        || u == 0x202f || u == 0x205f || u == 0x3000
}

/// Relies on `String::push`: appends the character to the end of the string.
#[verifier::external_body]
pub fn push_char(s: &mut String, c: char)
    ensures
        final(s)@ == old(s)@.push(c),
{
    s.push(c)
}

/// Compares a cell against a known token.
pub fn string_eq(a: &String, b: &str) -> (r: bool)
    ensures
        r == (a@ == b@),
{
    *a == String::from_str(b)
}

/// The cell text with every whitespace character removed.
pub open spec fn strip_spaces(s: Seq<char>) -> Seq<char> {
    s.filter(|c: char| !is_space_char(c))
}

/// A raw address cell turned into an absolute hex literal: whitespace
/// removed, then prefixed with `0x`.
pub open spec fn norm_address(s: Seq<char>) -> Seq<char> {
    "0x"@ + strip_spaces(s)
}

proof fn lemma_strip_spaces_push(s: Seq<char>, c: char)
    ensures
        strip_spaces(s.push(c)) == if is_space_char(c) {
            strip_spaces(s)
        } else {
            strip_spaces(s).push(c)
        },
{
    reveal(Seq::filter);
    assert(s.push(c).drop_last() =~= s);
}

/// Rewrites a raw address cell as an absolute hex literal, per
/// [`norm_address`]: `FFFF EEEE` becomes `0xFFFFEEEE`.
pub fn normalize_address(s: &str) -> (r: String)
    ensures
        r@ == norm_address(s@),
{
    let mut out = String::from_str("0x");
    let n = s.unicode_len();
    let mut i: usize = 0;
    while i < n
        invariant
            n == s@.len(),
            i <= n,
            out@ == "0x"@ + strip_spaces(s@.subrange(0, i as int)),
        decreases n - i,
    {
        let c = s.get_char(i);
        if !is_space(c) {
            push_char(&mut out, c);
        }
        proof {
            assert(s@.subrange(0, i + 1 as int) =~= s@.subrange(0, i as int).push(s@[i as int]));
            lemma_strip_spaces_push(s@.subrange(0, i as int), s@[i as int]);
        }
        i = i + 1;
    }
    proof {
        assert(s@.subrange(0, n as int) =~= s@);
    }
    out
}

/// A well-formed register address: it starts with `0x` and contains no
/// whitespace character anywhere.
pub open spec fn addr_normalized(a: Seq<char>) -> bool {
    a.len() >= 2 && a[0] == '0' && a[1] == 'x' && (forall|j: int|
        0 <= j < a.len() ==> !is_space_char(#[trigger] a[j]))
}

/// Whatever the raw cell held, the normalized address starts with `0x` and
/// contains no whitespace.
pub proof fn lemma_norm_address_shape(s: Seq<char>)
    ensures
        addr_normalized(norm_address(s)),
{
    broadcast use vstd::seq_lib::group_filter_ensures;

    reveal_strlit("0x");
    assert forall|j: int| 0 <= j < norm_address(s).len() implies !is_space_char(
        norm_address(s)[j],
    ) by {
        if j >= 2 {
            assert(norm_address(s)[j] == strip_spaces(s)[j - 2]);
        }
    }
}

/// SVD access-mode renaming. It is total on the four datasheet tokens
/// `R/W`, `R/O`, `R` and `W`; any other token passes through unchanged.
pub open spec fn norm_mode(s: Seq<char>) -> Seq<char> {
    if s == "R/W"@ {
        "read-write"@
    } else if s == "R/O"@ || s == "R"@ {
        "read-only"@
    } else if s == "W"@ {
        "write-only"@
    } else {
        s
    }
}

/// Rewrites a datasheet access-mode token per [`norm_mode`].
pub fn normalize_mode(mode: String) -> (r: String)
    ensures
        r@ == norm_mode(mode@),
{
    if mode == String::from_str("R/W") {
        String::from_str("read-write")
    } else if mode == String::from_str("R/O") || mode == String::from_str("R") {
        String::from_str("read-only")
    } else if mode == String::from_str("W") {
        String::from_str("write-only")
    } else {
        mode
    }
}

/// Mode normalization is total on the four datasheet tokens `R/W`, `R/O`,
/// `R` and `W`, and leaves every other token unchanged.
pub proof fn lemma_mode_normalization_total(s: Seq<char>)
    ensures
        norm_mode("R/W"@) == "read-write"@,
        norm_mode("R/O"@) == "read-only"@,
        norm_mode("R"@) == "read-only"@,
        norm_mode("W"@) == "write-only"@,
        s != "R/W"@ && s != "R/O"@ && s != "R"@ && s != "W"@ ==> norm_mode(s) == s,
{
    reveal_strlit("R/W");
    reveal_strlit("R/O");
    reveal_strlit("R");
    reveal_strlit("W");
    assert("R/W"@.len() == 3 && "R/O"@.len() == 3 && "R"@.len() == 1 && "W"@.len() == 1);
    assert("R/W"@[2] == 'W' && "R/O"@[2] == 'O');
    assert("R"@[0] == 'R' && "W"@[0] == 'W');
}

/// An ASCII decimal digit.
pub open spec fn is_digit_char(c: char) -> bool {
    0x30 <= c as u32 && c as u32 <= 0x39
}

/// The numeric value of an ASCII decimal digit.
pub open spec fn digit_val(c: char) -> int {
    c as u32 - 0x30
}

/// The value of a string of decimal digits, most significant first.
pub open spec fn digits_val(s: Seq<char>) -> int
    decreases s.len(),
{
    if s.len() == 0 {
        0
    } else {
        10 * digits_val(s.drop_last()) + digit_val(s.last())
    }
}

pub open spec fn all_digits(s: Seq<char>) -> bool {
    forall|i: int| 0 <= i < s.len() ==> is_digit_char(#[trigger] s[i])
}

/// The signed decimal integers accepted by the reset-value rule: an optional
/// sign followed by one or more ASCII digits, the value within the `i64`
/// range. Anything else fails to parse.
pub open spec fn spec_parse_i64(s: Seq<char>) -> Option<i64> {
    let signed = s.len() > 0 && (s[0] == '+' || s[0] == '-');
    let digits = if signed {
        s.drop_first()
    } else {
        s
    };
    if digits.len() == 0 || !all_digits(digits) {
        None
    } else {
        let v = if s.len() > 0 && s[0] == '-' {
            -digits_val(digits)
        } else {
            digits_val(digits)
        };
        if i64::MIN <= v <= i64::MAX {
            Some(v as i64)
        } else {
            None
        }
    }
}

proof fn lemma_digits_val_nonneg(s: Seq<char>)
    requires
        all_digits(s),
    ensures
        digits_val(s) >= 0,
    decreases s.len(),
{
    if s.len() > 0 {
        assert(all_digits(s.drop_last()));
        lemma_digits_val_nonneg(s.drop_last());
    }
}

proof fn lemma_digits_val_prefix_le(s: Seq<char>, i: int)
    requires
        all_digits(s),
        0 <= i <= s.len(),
    ensures
        digits_val(s.subrange(0, i)) <= digits_val(s),
    decreases s.len(),
{
    if i == s.len() {
        assert(s.subrange(0, i) =~= s);
    } else {
        assert(all_digits(s.drop_last()));
        assert(s.subrange(0, i) =~= s.drop_last().subrange(0, i));
        lemma_digits_val_prefix_le(s.drop_last(), i);
        lemma_digits_val_nonneg(s.drop_last());
    }
}

proof fn lemma_digits_val_push(s: Seq<char>, c: char)
    ensures
        digits_val(s.push(c)) == 10 * digits_val(s) + digit_val(c),
{
    assert(s.push(c).drop_last() =~= s);
}

/// Runtime test for [`is_digit_char`].
fn is_digit(c: char) -> (r: bool)
    ensures
        r == is_digit_char(c),
{
    let u = c as u32;
    0x30 <= u && u <= 0x39
}

/// Parses a signed decimal integer exactly as [`spec_parse_i64`] describes.
pub fn parse_i64(s: &str) -> (r: Option<i64>)
    ensures
        r == spec_parse_i64(s@),
{
    let n = s.unicode_len();
    if n == 0 {
        return None;
    }
    let c0 = s.get_char(0);
    let neg = c0 == '-';
    let start: usize = if c0 == '-' || c0 == '+' {
        1
    } else {
        0
    };
    if start == n {
        return None;
    }
    let ghost digits = if c0 == '-' || c0 == '+' {
        s@.drop_first()
    } else {
        s@
    };
    proof {
        assert(digits =~= s@.subrange(start as int, n as int));
    }
    let mut acc: i64 = 0;
    let mut i: usize = start;
    while i < n
        invariant
            n == s@.len(),
            start <= i <= n,
            start < n,
            start == 0 || start == 1,
            (start == 1) == (s@[0] == '+' || s@[0] == '-'),
            neg == (s@[0] == '-'),
            digits == s@.subrange(start as int, n as int),
            digits == if s@.len() > 0 && (s@[0] == '+' || s@[0] == '-') {
                s@.drop_first()
            } else {
                s@
            },
            all_digits(digits.subrange(0, (i - start) as int)),
            acc == -digits_val(digits.subrange(0, (i - start) as int)),
            acc <= 0,
        decreases n - i,
    {
        let c = s.get_char(i);
        let ghost pref = digits.subrange(0, (i - start) as int);
        proof {
            assert(digits.subrange(0, (i + 1 - start) as int) =~= pref.push(s@[i as int]));
            lemma_digits_val_push(pref, s@[i as int]);
        }
        if !is_digit(c) {
            proof {
                assert(digits[(i - start) as int] == s@[i as int]);
            }
            return None;
        }
        let d: i64 = (c as u32 - 0x30) as i64;
        let next = match acc.checked_mul(10) {
            Some(m) => m.checked_sub(d),
            None => None,
        };
        match next {
            Some(a) => {
                acc = a;
            },
            None => {
                proof {
                    if all_digits(digits) {
                        lemma_digits_val_prefix_le(digits, (i + 1 - start) as int);
                    }
                }
                return None;
            },
        }
        i = i + 1;
    }
    proof {
        assert(digits.subrange(0, (n - start) as int) =~= digits);
    }
    if neg {
        Some(acc)
    } else {
        if acc == i64::MIN {
            None
        } else {
            Some(-acc)
        }
    }
}

/// The cell text with leading whitespace removed.
pub open spec fn trim_front(s: Seq<char>) -> Seq<char>
    decreases s.len(),
{
    if s.len() > 0 && is_space_char(s[0]) {
        trim_front(s.drop_first())
    } else {
        s
    }
}

/// The cell text with trailing whitespace removed.
pub open spec fn trim_back(s: Seq<char>) -> Seq<char>
    decreases s.len(),
{
    if s.len() > 0 && is_space_char(s.last()) {
        trim_back(s.drop_last())
    } else {
        s
    }
}

/// The cell text with leading and trailing whitespace removed.
pub open spec fn spec_trim(s: Seq<char>) -> Seq<char> {
    trim_back(trim_front(s))
}

/// Removes leading and trailing whitespace, per [`spec_trim`].
pub fn trim_str<'a>(s: &'a str) -> (r: &'a str)
    ensures
        r@ == spec_trim(s@),
{
    let n = s.unicode_len();
    proof {
        assert(s@.subrange(0, n as int) =~= s@);
    }
    let mut lo: usize = 0;
    while lo < n && is_space(s.get_char(lo))
        invariant
            n == s@.len(),
            lo <= n,
            trim_front(s@) == trim_front(s@.subrange(lo as int, n as int)),
        decreases n - lo,
    {
        proof {
            assert(s@.subrange(lo as int, n as int).drop_first() =~= s@.subrange(
                (lo + 1) as int,
                n as int,
            ));
        }
        lo = lo + 1;
    }
    proof {
        assert(trim_front(s@) == s@.subrange(lo as int, n as int));
    }
    let mut hi: usize = n;
    while hi > lo && is_space(s.get_char(hi - 1))
        invariant
            n == s@.len(),
            lo <= hi <= n,
            trim_front(s@) == s@.subrange(lo as int, n as int),
            trim_back(s@.subrange(lo as int, n as int)) == trim_back(
                s@.subrange(lo as int, hi as int),
            ),
        decreases hi,
    {
        proof {
            assert(s@.subrange(lo as int, hi as int).drop_last() =~= s@.subrange(
                lo as int,
                (hi - 1) as int,
            ));
        }
        hi = hi - 1;
    }
    let r = s.substring_char(lo, hi);
    proof {
        assert(trim_back(s@.subrange(lo as int, hi as int)) == s@.subrange(lo as int, hi as int));
    }
    r
}

/// The reset value of a raw reset cell: the trimmed text parsed as a signed
/// decimal integer, or 0 whenever that parse fails. A parse failure is never
/// surfaced.
pub open spec fn reset_value_of(s: Seq<char>) -> i64 {
    match spec_parse_i64(spec_trim(s)) {
        Some(v) => v,
        None => 0,
    }
}

/// Parses a raw reset cell per [`reset_value_of`], substituting 0 for any
/// text that is not a signed decimal integer.
pub fn parse_reset_value(s: &str) -> (r: i64)
    ensures
        r == reset_value_of(s@),
{
    match parse_i64(trim_str(s)) {
        Some(v) => v,
        None => 0,
    }
}

/// Reset-value defaulting: any reset text that is not a signed decimal
/// integer yields reset value exactly 0, and a text that is one yields its
/// value; a parse failure is never surfaced.
pub proof fn lemma_reset_value_default(s: Seq<char>)
    ensures
        spec_parse_i64(spec_trim(s)) is None ==> reset_value_of(s) == 0,
        spec_parse_i64(spec_trim(s)) matches Some(v) ==> reset_value_of(s) == v,
{
}

/// The cell text with the trailing carriage-return artifact removed.
pub open spec fn strip_cr_back(s: Seq<char>) -> Seq<char>
    decreases s.len(),
{
    if s.len() > 0 && s.last() == '\r' {
        strip_cr_back(s.drop_last())
    } else {
        s
    }
}

/// Removes the carriage-return artifact that table extraction leaves at the
/// end of a name cell, per [`strip_cr_back`].
pub fn strip_trailing_cr(s: &str) -> (r: String)
    ensures
        r@ == strip_cr_back(s@),
{
    let n = s.unicode_len();
    proof {
        assert(s@.subrange(0, n as int) =~= s@);
    }
    let mut hi: usize = n;
    while hi > 0 && s.get_char(hi - 1) == '\r'
        invariant
            n == s@.len(),
            hi <= n,
            strip_cr_back(s@) == strip_cr_back(s@.subrange(0, hi as int)),
        decreases hi,
    {
        proof {
            assert(s@.subrange(0, hi as int).drop_last() =~= s@.subrange(0, (hi - 1) as int));
        }
        hi = hi - 1;
    }
    let sub = s.substring_char(0, hi);
    proof {
        assert(strip_cr_back(s@.subrange(0, hi as int)) == s@.subrange(0, hi as int));
    }
    String::from_str(sub)
}

/// The digit character for a value below ten.
pub open spec fn char_of_digit(d: int) -> char {
    if d == 0 {
        '0'
    } else if d == 1 {
        '1'
    } else if d == 2 {
        '2'
    } else if d == 3 {
        '3'
    } else if d == 4 {
        '4'
    } else if d == 5 {
        '5'
    } else if d == 6 {
        '6'
    } else if d == 7 {
        '7'
    } else if d == 8 {
        '8'
    } else {
        '9'
    }
}

/// The decimal rendering of a byte-sized number, most significant digit
/// first, without leading zeros.
pub open spec fn spec_u8_dec(n: u8) -> Seq<char>
    decreases n,
{
    if n < 10 {
        seq![char_of_digit(n as int)]
    } else {
        spec_u8_dec(n / 10).push(char_of_digit((n % 10) as int))
    }
}

fn digit_char(d: u8) -> (c: char)
    requires
        d < 10,
    ensures
        c == char_of_digit(d as int),
{
    if d == 0 {
        '0'
    } else if d == 1 {
        '1'
    } else if d == 2 {
        '2'
    } else if d == 3 {
        '3'
    } else if d == 4 {
        '4'
    } else if d == 5 {
        '5'
    } else if d == 6 {
        '6'
    } else if d == 7 {
        '7'
    } else if d == 8 {
        '8'
    } else {
        '9'
    }
}

/// Renders a byte-sized number in decimal, per [`spec_u8_dec`].
pub fn u8_to_dec(n: u8) -> (r: String)
    ensures
        r@ == spec_u8_dec(n),
    decreases n,
{
    if n < 10 {
        let mut s = String::new();
        push_char(&mut s, digit_char(n));
        proof {
            assert(Seq::<char>::empty().push(char_of_digit(n as int)) =~= seq![
                char_of_digit(n as int),
            ]);
        }
        s
    } else {
        let mut s = u8_to_dec(n / 10);
        push_char(&mut s, digit_char(n % 10));
        s
    }
}

} // verus!
