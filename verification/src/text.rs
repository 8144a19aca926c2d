//! Text: header bytes, JSON string framing and decimal numbers.

use vstd::prelude::*;
use vstd::utf8::*;

verus! {

/// A byte an HTTP header value may hold and still be read as text:
/// visible ASCII, or a tab.
pub open spec fn is_visible_ascii(b: u8) -> bool {
    (32 <= b && b < 127) || b == 9
}

/// Every byte of `s` is visible ASCII or a tab.
pub open spec fn all_visible_ascii(s: Seq<u8>) -> bool {
    forall|i: int| 0 <= i < s.len() ==> #[trigger] is_visible_ascii(s[i])
}

/// Whether every byte of `bytes` is visible ASCII or a tab.
pub fn is_visible_text(bytes: &[u8]) -> (r: bool)
    ensures
        r == all_visible_ascii(bytes@),
{
    let n = bytes.len();
    let mut i: usize = 0;
    while i < n
        invariant
            n == bytes@.len(),
            i <= n,
            forall|j: int| 0 <= j < i ==> #[trigger] is_visible_ascii(bytes@[j]),
        decreases n - i,
    {
        let b = bytes[i];
        if !((32 <= b && b < 127) || b == 9) {
            assert(!is_visible_ascii(bytes@[i as int]));
            return false;
        }
        i = i + 1;
    }
    true
}

/// Bytes below 128 form valid UTF-8.
pub proof fn lemma_ascii_bytes_valid_utf8(bytes: Seq<u8>)
    requires
        forall|i: int| 0 <= i < bytes.len() ==> #[trigger] bytes[i] < 128,
    ensures
        valid_utf8(bytes),
{
    assert forall|i: int| 0 <= 0 <= i < bytes.len() <= bytes.len() implies #[trigger] is_leading_byte_width_1(bytes[i]) by {
        assert(bytes[i] < 128);
    }
    assert(bytes.subrange(0, 0) =~= Seq::<u8>::empty());
    partial_valid_utf8_extend_ascii_block(bytes, 0, bytes.len() as int);
    assert(bytes.subrange(0, bytes.len() as int) =~= bytes);
}

/// `std::str::from_utf8`, then an owned copy: the text that `bytes` encode as
/// UTF-8, or `None` where they are not valid UTF-8 (as the standard library
/// documents it).
#[verifier::external_body]
pub(crate) fn utf8_text(bytes: &[u8]) -> (r: Option<String>)
    ensures
        r is Some <==> valid_utf8(bytes@),
        r matches Some(s) ==> s@ == decode_utf8(bytes@),
{
    match std::str::from_utf8(bytes) {
        Ok(s) => Some(s.to_string()),
        Err(_) => None,
    }
}

/// The lower-case hexadecimal digit of `n` (`n < 16`).
pub open spec fn hex_digit(n: int) -> char {
    "0123456789abcdef"@[n]
}

/// How serde_json writes the character `c` inside a JSON string.
pub open spec fn json_escape_char(c: char) -> Seq<char> {
    if c == '"' {
        seq!['\\', '"']
    } else if c == '\\' {
        seq!['\\', '\\']
    } else if c == '\x08' {
        seq!['\\', 'b']
    } else if c == '\t' {
        seq!['\\', 't']
    } else if c == '\n' {
        seq!['\\', 'n']
    } else if c == '\x0c' {
        seq!['\\', 'f']
    } else if c == '\r' {
        seq!['\\', 'r']
    } else if (c as u32) < 0x20 {
        seq!['\\', 'u', '0', '0', hex_digit(((c as u32) / 16) as int), hex_digit(((c as u32) % 16) as int)]
    } else {
        seq![c]
    }
}

/// The characters of `s`, each escaped as a JSON string requires.
pub open spec fn json_escape(s: Seq<char>) -> Seq<char>
    decreases s.len(),
{
    if s.len() == 0 {
        Seq::empty()
    } else {
        json_escape(s.drop_last()) + json_escape_char(s.last())
    }
}

/// `s` written as a JSON string literal, quotes included.
pub open spec fn json_string(s: Seq<char>) -> Seq<char> {
    seq!['"'] + json_escape(s) + seq!['"']
}

fn push_hex_digit(out: &mut String, n: u32)
    requires
        n < 16,
    ensures
        final(out)@ == old(out)@ + seq![hex_digit(n as int)],
{
    let digits = "0123456789abcdef";
    proof {
        reveal_strlit("0123456789abcdef");
    }
    let d = digits.substring_char(n as usize, n as usize + 1);
    assert(d@ =~= seq![hex_digit(n as int)]);
    out.append(d);
}

/// Appends `s` to `out` as a JSON string literal, written as serde_json writes it.
pub fn push_json_string(out: &mut String, s: &str)
    ensures
        final(out)@ == old(out)@ + json_string(s@),
{
    let ghost start = out@;
    out.append("\"");
    proof {
        reveal_strlit("\"");
    }
    let n = s.unicode_len();
    let mut i: usize = 0;
    while i < n
        invariant
            n == s@.len(),
            i <= n,
            out@ == start + seq!['"'] + json_escape(s@.take(i as int)),
        decreases n - i,
    {
        let c = s.get_char(i);
        let ghost before = out@;
        if c == '"' {
            out.append("\\\"");
            proof {
                reveal_strlit("\\\"");
            }
        } else if c == '\\' {
            out.append("\\\\");
            proof {
                reveal_strlit("\\\\");
            }
        } else if c == '\x08' {
            out.append("\\b");
            proof {
                reveal_strlit("\\b");
            }
        } else if c == '\t' {
            out.append("\\t");
            proof {
                reveal_strlit("\\t");
            }
        } else if c == '\n' {
            out.append("\\n");
            proof {
                reveal_strlit("\\n");
            }
        } else if c == '\x0c' {
            out.append("\\f");
            proof {
                reveal_strlit("\\f");
            }
        } else if c == '\r' {
            out.append("\\r");
            proof {
                reveal_strlit("\\r");
            }
        } else if (c as u32) < 0x20 {
            out.append("\\u00");
            proof {
                reveal_strlit("\\u00");
            }
            push_hex_digit(out, (c as u32) / 16);
            push_hex_digit(out, (c as u32) % 16);
        } else {
            out.append(s.substring_char(i, i + 1));
        }
        proof {
            assert(out@ =~= before + json_escape_char(s@[i as int]));
            assert(s@.take(i + 1).drop_last() =~= s@.take(i as int));
        }
        i = i + 1;
    }
    out.append("\"");
    proof {
        assert(s@.take(n as int) =~= s@);
        assert(out@ =~= old(out)@ + json_string(s@));
    }
}

/// The decimal digit of `d` (`d < 10`).
pub open spec fn digit_char(d: int) -> char {
    "0123456789"@[d]
}

/// The decimal numeral of `n`.
pub open spec fn nat_decimal(n: nat) -> Seq<char>
    decreases n,
{
    if n < 10 {
        seq![digit_char(n as int)]
    } else {
        nat_decimal(n / 10) + seq![digit_char((n % 10) as int)]
    }
}

/// The decimal numeral of `i`, with a leading minus sign when it is negative.
pub open spec fn int_decimal(i: int) -> Seq<char> {
    if i < 0 {
        seq!['-'] + nat_decimal((-i) as nat)
    } else {
        nat_decimal(i as nat)
    }
}

/// Appends the decimal numeral of `n` to `out`.
pub fn push_decimal(out: &mut String, n: u64)
    ensures
        final(out)@ == old(out)@ + nat_decimal(n as nat),
    decreases n,
{
    if n >= 10 {
        push_decimal(out, n / 10);
    }
    let digits = "0123456789";
    proof {
        reveal_strlit("0123456789");
    }
    let d = (n % 10) as usize;
    let s = digits.substring_char(d, d + 1);
    assert(s@ =~= seq![digit_char(d as int)]);
    out.append(s);
    proof {
        if n < 10 {
            assert(out@ =~= old(out)@ + nat_decimal(n as nat));
        } else {
            assert(out@ =~= old(out)@ + nat_decimal(n as nat));
        }
    }
}

/// Appends the decimal numeral of `x` to `out`, a minus sign first when it is negative.
pub fn push_signed_decimal(out: &mut String, x: i64)
    ensures
        final(out)@ == old(out)@ + int_decimal(x as int),
{
    if x < 0 {
        out.append("-");
        proof {
            reveal_strlit("-");
        }
        let m: u64 = if x == i64::MIN {
            9223372036854775808u64
        } else {
            (-x) as u64
        };
        assert(m as int == -(x as int));
        push_decimal(out, m);
        assert(out@ =~= old(out)@ + int_decimal(x as int));
    } else {
        push_decimal(out, x as u64);
    }
}


/// A decimal digit.
pub open spec fn is_digit(c: char) -> bool {
    '0' <= c && c <= '9'
}

/// The value of the decimal digits `s`.
pub open spec fn digits_value(s: Seq<char>) -> nat
    decreases s.len(),
{
    if s.len() == 0 {
        0
    } else {
        digits_value(s.drop_last()) * 10 + ((s.last() as nat) - ('0' as nat)) as nat
    }
}

/// `s` is a numeral: one or more decimal digits.
pub open spec fn is_numeral(s: Seq<char>) -> bool {
    s.len() > 0 && forall|i: int| 0 <= i < s.len() ==> #[trigger] is_digit(s[i])
}

/// The number the numeral `s` writes, capped at `cap`; `None` when `s` is not
/// a numeral.
pub open spec fn spec_parse_capped(s: Seq<char>, cap: nat) -> Option<nat> {
    if is_numeral(s) {
        Some(if digits_value(s) <= cap { digits_value(s) } else { cap })
    } else {
        None
    }
}

/// Reads the numeral `s` (decimal digits only), capping its value at `cap`;
/// `None` when `s` is empty or holds anything but digits.
pub fn parse_capped(s: &str, cap: u64) -> (r: Option<u64>)
    ensures
        match spec_parse_capped(s@, cap as nat) {
            Some(n) => r == Some(n as u64),
            None => r is None,
        },
{
    let n = s.unicode_len();
    if n == 0 {
        return None;
    }
    let mut acc: u64 = 0;
    let mut saturated = false;
    let mut i: usize = 0;
    while i < n
        invariant
            n == s@.len(),
            i <= n,
            forall|j: int| 0 <= j < i ==> #[trigger] is_digit(s@[j]),
            !saturated ==> acc as nat == digits_value(s@.take(i as int)) && acc <= cap,
            saturated ==> digits_value(s@.take(i as int)) > cap && acc == cap,
        decreases n - i,
    {
        let c = s.get_char(i);
        if !('0' <= c && c <= '9') {
            assert(!is_digit(s@[i as int]));
            return None;
        }
        let d = (c as u32 - '0' as u32) as u64;
        proof {
            assert(s@.take(i + 1).drop_last() =~= s@.take(i as int));
            assert(s@.take(i + 1).last() == c);
            assert(digits_value(s@.take(i + 1)) == digits_value(s@.take(i as int)) * 10 + d);
        }
        if !saturated {
            if d <= cap && acc <= (cap - d) / 10 {
                acc = acc * 10 + d;
            } else {
                saturated = true;
                acc = cap;
            }
        }
        i = i + 1;
    }
    proof {
        assert(s@.take(n as int) =~= s@);
    }
    Some(acc)
}

/// The number of decimal digits `s` ends with.
pub open spec fn trailing_digit_count(s: Seq<char>) -> nat
    decreases s.len(),
{
    if s.len() > 0 && is_digit(s.last()) {
        trailing_digit_count(s.drop_last()) + 1
    } else {
        0
    }
}

/// The decimal digit of `d` is a digit, worth `d`.
pub proof fn lemma_digit_char(d: int)
    requires
        0 <= d < 10,
    ensures
        is_digit(digit_char(d)),
        (digit_char(d) as nat) - ('0' as nat) == d,
{
    reveal_strlit("0123456789");
    assert("0123456789"@ =~= seq!['0', '1', '2', '3', '4', '5', '6', '7', '8', '9']);
}

/// A decimal numeral holds digits only, and is worth the number it writes.
pub proof fn lemma_nat_decimal_value(n: nat)
    ensures
        is_numeral(nat_decimal(n)),
        digits_value(nat_decimal(n)) == n,
    decreases n,
{
    lemma_digit_char((n % 10) as int);
    if n < 10 {
        assert(nat_decimal(n) =~= seq![digit_char(n as int)]);
        assert(nat_decimal(n).drop_last() =~= Seq::<char>::empty());
        assert(digits_value(Seq::<char>::empty()) == 0);
        assert(digits_value(nat_decimal(n)) == n);
    } else {
        lemma_nat_decimal_value(n / 10);
        let s = nat_decimal(n);
        assert(s.drop_last() =~= nat_decimal(n / 10));
        assert(s.last() == digit_char((n % 10) as int));
        assert forall|i: int| 0 <= i < s.len() implies #[trigger] is_digit(s[i]) by {
            if i < s.len() - 1 {
                assert(s[i] == nat_decimal(n / 10)[i]);
            }
        }
        assert(digits_value(s) == digits_value(nat_decimal(n / 10)) * 10 + (n % 10));
        assert(n == (n / 10) * 10 + n % 10);
    }
}

/// Text that ends with anything but a digit, followed by a decimal numeral,
/// ends with exactly the digits of that numeral.
pub proof fn lemma_trailing_digits_of_numeral(x: Seq<char>, n: nat)
    requires
        x.len() == 0 || !is_digit(x.last()),
    ensures
        trailing_digit_count(x + nat_decimal(n)) == nat_decimal(n).len(),
    decreases n,
{
    lemma_digit_char((n % 10) as int);
    let s = x + nat_decimal(n);
    if n < 10 {
        assert(s.drop_last() =~= x);
        assert(s.last() == digit_char(n as int));
        assert(trailing_digit_count(x) == 0);
    } else {
        lemma_trailing_digits_of_numeral(x, n / 10);
        assert(s.drop_last() =~= x + nat_decimal(n / 10));
        assert(s.last() == digit_char((n % 10) as int));
    }
}

} // verus!
