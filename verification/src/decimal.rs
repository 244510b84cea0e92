//! Decimal rendering and parsing of 128-bit identifiers.
//!
//! Session and account identifiers travel inside signed tokens as their
//! decimal string; this module renders an identifier to that string and
//! parses it back, and proves that parsing inverts rendering.

use vstd::prelude::*;
use vstd::arithmetic::div_mod::lemma_fundamental_div_mod;
use vstd::string::StringExecFns;
use vstd::string::StrSliceExecFns;

verus! {

/// The character of a single decimal digit value.
pub open spec fn digit_char(d: int) -> char {
    if d == 0 { '0' }
    else if d == 1 { '1' }
    else if d == 2 { '2' }
    else if d == 3 { '3' }
    else if d == 4 { '4' }
    else if d == 5 { '5' }
    else if d == 6 { '6' }
    else if d == 7 { '7' }
    else if d == 8 { '8' }
    else { '9' }
}

/// The decimal digit value of a character, if it is a digit.
pub open spec fn char_digit(c: char) -> Option<int> {
    if c == '0' { Some(0int) }
    else if c == '1' { Some(1int) }
    else if c == '2' { Some(2int) }
    else if c == '3' { Some(3int) }
    else if c == '4' { Some(4int) }
    else if c == '5' { Some(5int) }
    else if c == '6' { Some(6int) }
    else if c == '7' { Some(7int) }
    else if c == '8' { Some(8int) }
    else if c == '9' { Some(9int) }
    else { None }
}

/// The decimal rendering of a number: most significant digit first, no
/// leading zeros, and `0` itself rendered as a single digit.
pub open spec fn dec_of(n: nat) -> Seq<char>
    decreases n,
{
    if n < 10 {
        seq![digit_char(n as int)]
    } else {
        dec_of(n / 10).push(digit_char((n % 10) as int))
    }
}

/// What parsing a character sequence as an unsigned 128-bit decimal yields:
/// `None` on the empty sequence, on any non-digit character, and on a value
/// that does not fit.
pub open spec fn parse_dec(s: Seq<char>) -> Option<u128>
    decreases s.len(),
{
    if s.len() == 0 {
        None
    } else {
        match char_digit(s.last()) {
            Option::None => None,
            Option::Some(d) => {
                if s.len() == 1 {
                    Some(d as u128)
                } else {
                    match parse_dec(s.drop_last()) {
                        Option::None => None,
                        Option::Some(v) => {
                            if v * 10 + d <= u128::MAX {
                                Some((v * 10 + d) as u128)
                            } else {
                                None
                            }
                        },
                    }
                }
            },
        }
    }
}

/// A rendered number is never empty.
pub proof fn lemma_dec_of_len(n: nat)
    ensures
        dec_of(n).len() >= 1,
    decreases n,
{
    if n >= 10 {
        lemma_dec_of_len(n / 10);
    }
}

/// Parsing inverts rendering: the decimal string of `n` parses back to `n`.
pub proof fn lemma_parse_dec_of(n: u128)
    ensures
        parse_dec(dec_of(n as nat)) == Some(n),
    decreases n,
{
    if n < 10 {
        assert(parse_dec(dec_of(n as nat)) == Some(n));
    } else {
        lemma_parse_dec_of(n / 10);
        lemma_dec_of_len((n / 10) as nat);
        let s = dec_of(n as nat);
        let prefix = dec_of((n / 10) as nat);
        assert(s == prefix.push(digit_char((n % 10) as int)));
        assert(s.drop_last() =~= prefix);
        assert(s.last() == digit_char((n % 10) as int));
        lemma_fundamental_div_mod(n as int, 10);
        assert((n / 10) * 10 + (n % 10) == n as int);
        assert(parse_dec(s) == Some(n));
    }
}

fn digit_str(d: u128) -> (r: &'static str)
    requires
        d < 10,
    ensures
        r@.len() == 1,
        r@[0] == digit_char(d as int),
{
    proof {
        reveal_strlit("0");
        reveal_strlit("1");
        reveal_strlit("2");
        reveal_strlit("3");
        reveal_strlit("4");
        reveal_strlit("5");
        reveal_strlit("6");
        reveal_strlit("7");
        reveal_strlit("8");
        reveal_strlit("9");
    }
    if d == 0 { "0" }
    else if d == 1 { "1" }
    else if d == 2 { "2" }
    else if d == 3 { "3" }
    else if d == 4 { "4" }
    else if d == 5 { "5" }
    else if d == 6 { "6" }
    else if d == 7 { "7" }
    else if d == 8 { "8" }
    else { "9" }
}

/// Render an identifier as its decimal string.
pub fn u128_to_dec(n: u128) -> (r: String)
    ensures
        r@ == dec_of(n as nat),
{
    let mut s = digit_str(n % 10).to_owned();
    proof {
        lemma_fundamental_div_mod(n as int, 10);
        if n < 10 {
            assert(s@ =~= dec_of(n as nat));
        } else {
            assert(dec_of(n as nat) =~= dec_of((n / 10) as nat) + s@);
        }
    }
    let mut m = n / 10;
    while m > 0
        invariant
            m == 0 ==> s@ == dec_of(n as nat),
            m > 0 ==> dec_of(n as nat) == dec_of(m as nat) + s@,
        decreases m,
    {
        let d = m % 10;
        let mut t = digit_str(d).to_owned();
        t.append(s.as_str());
        let ghost old_s = s@;
        s = t;
        proof {
            assert(s@ =~= seq![digit_char(d as int)] + old_s);
        }
        let ghost old_m = m;
        m = m / 10;
        proof {
            lemma_fundamental_div_mod(old_m as int, 10);
            if old_m < 10 {
                assert(dec_of(old_m as nat) =~= seq![digit_char((old_m % 10) as int)]);
                assert(dec_of(old_m as nat) + old_s =~= s@);
            } else {
                assert(dec_of(old_m as nat) =~= dec_of((old_m / 10) as nat) + seq![
                    digit_char((old_m % 10) as int),
                ]);
                assert(dec_of(old_m as nat) + old_s =~= dec_of(m as nat) + s@);
            }
        }
    }
    s
}

fn char_to_digit(c: char) -> (r: Option<u128>)
    ensures
        match r {
            Option::Some(d) => char_digit(c) == Some(d as int) && d < 10,
            Option::None => char_digit(c) is None,
        },
{
    match c {
        '0' => Some(0),
        '1' => Some(1),
        '2' => Some(2),
        '3' => Some(3),
        '4' => Some(4),
        '5' => Some(5),
        '6' => Some(6),
        '7' => Some(7),
        '8' => Some(8),
        '9' => Some(9),
        _ => None,
    }
}

/// A non-digit character anywhere makes the whole sequence unparsable.
proof fn lemma_parse_none_at_nondigit(s: Seq<char>, i: int)
    requires
        0 <= i < s.len(),
        char_digit(s[i]) is None,
    ensures
        parse_dec(s) is None,
    decreases s.len(),
{
    if i == s.len() - 1 {
    } else {
        lemma_parse_none_at_nondigit(s.drop_last(), i);
    }
}

/// An unparsable prefix makes every extension unparsable.
proof fn lemma_parse_none_prefix(s: Seq<char>, j: int)
    requires
        1 <= j <= s.len(),
        parse_dec(s.subrange(0, j)) is None,
    ensures
        parse_dec(s) is None,
    decreases s.len() - j,
{
    if j == s.len() {
        assert(s.subrange(0, j) =~= s);
    } else {
        let t = s.subrange(0, j + 1);
        assert(t.drop_last() =~= s.subrange(0, j));
        lemma_parse_none_prefix(s, j + 1);
    }
}

/// Parse a decimal string as an unsigned 128-bit identifier.
pub fn parse_dec_str(s: &str) -> (r: Option<u128>)
    ensures
        r == parse_dec(s@),
{
    let len = s.unicode_len();
    if len == 0 {
        return None;
    }
    let mut v: u128 = 0;
    let mut i: usize = 0;
    while i < len
        invariant
            len == s@.len(),
            len > 0,
            0 <= i <= len,
            i > 0 ==> parse_dec(s@.subrange(0, i as int)) == Some(v),
            i == 0 ==> v == 0,
        decreases len - i,
    {
        let c = s.get_char(i);
        let d = match char_to_digit(c) {
            Option::Some(d) => d,
            Option::None => {
                proof {
                    lemma_parse_none_at_nondigit(s@, i as int);
                }
                return None;
            },
        };
        let ghost prefix = s@.subrange(0, i as int);
        let ghost ext = s@.subrange(0, i as int + 1);
        proof {
            assert(ext.drop_last() =~= prefix);
            assert(ext.last() == s@[i as int]);
        }
        if i == 0 {
            v = d;
            proof {
                assert(parse_dec(ext) == Some(v));
            }
        } else {
            if v > (u128::MAX - d) / 10 {
                proof {
                    lemma_fundamental_div_mod((u128::MAX - d) as int, 10);
                    assert(v * 10 + d > u128::MAX) by (nonlinear_arith)
                        requires
                            v > (u128::MAX - d) / 10,
                            (u128::MAX - d) as int == 10 * (((u128::MAX - d) as int) / 10) + (((
                            u128::MAX - d) as int) % 10),
                            0 <= ((u128::MAX - d) as int) % 10 < 10,
                            0 <= d < 10,
                    ;
                    assert(parse_dec(ext) is None);
                    lemma_parse_none_prefix(s@, i as int + 1);
                }
                return None;
            }
            proof {
                lemma_fundamental_div_mod((u128::MAX - d) as int, 10);
                assert(v * 10 + d <= u128::MAX) by (nonlinear_arith)
                    requires
                        v <= (u128::MAX - d) / 10,
                        (u128::MAX - d) as int == 10 * (((u128::MAX - d) as int) / 10) + (((u128::MAX
                            - d) as int) % 10),
                        0 <= ((u128::MAX - d) as int) % 10 < 10,
                        0 <= d < 10,
                ;
            }
            v = v * 10 + d;
            proof {
                assert(parse_dec(ext) == Some(v));
            }
        }
        i = i + 1;
    }
    proof {
        assert(s@.subrange(0, len as int) =~= s@);
    }
    Some(v)
}

} // verus!
