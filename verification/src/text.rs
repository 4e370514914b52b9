//! Character-level text utilities: decimal rendering of integers and
//! conversions between strings and character vectors.

use vstd::prelude::*;

verus! {

/// The character for a single decimal digit.
pub open spec fn digit_char(d: int) -> char {
    if d == 0 {
        '0'
    } else if d == 1 {
        '1'
    } else if d == 2 {
        '2'
    } else if d == 3 {
        '3'
    } else if d == 4 {
        '4'
    } else if d == 5 {
        '5'
    } else if d == 6 {
        '6'
    } else if d == 7 {
        '7'
    } else if d == 8 {
        '8'
    } else {
        '9'
    }
}

/// The decimal representation of `n`, without leading zeros
/// (a single `'0'` for zero itself).
pub open spec fn dec_rep(n: nat) -> Seq<char>
    decreases n,
{
    if n < 10 {
        seq![digit_char(n as int)]
    } else {
        dec_rep(n / 10).push(digit_char((n % 10) as int))
    }
}

/// `s` left-padded with `'0'` up to `width` characters.
pub open spec fn zero_pad(s: Seq<char>, width: int) -> Seq<char> {
    if s.len() >= width {
        s
    } else {
        Seq::new((width - s.len()) as nat, |i: int| '0') + s
    }
}

fn digit_char_of(d: u64) -> (c: char)
    requires
        d < 10,
    ensures
        c == digit_char(d as int),
{
    if d == 0 {
        '0'
    } else if d == 1 {
        '1'
    } else if d == 2 {
        '2'
    } else if d == 3 {
        '3'
    } else if d == 4 {
        '4'
    } else if d == 5 {
        '5'
    } else if d == 6 {
        '6'
    } else if d == 7 {
        '7'
    } else if d == 8 {
        '8'
    } else {
        '9'
    }
}

/// Small numbers have short decimal representations.
pub proof fn lemma_dec_rep_len(n: nat)
    ensures
        n <= 9 ==> dec_rep(n).len() == 1,
        n <= 99 ==> dec_rep(n).len() <= 2,
        n <= 999 ==> dec_rep(n).len() <= 3,
        n <= 9999 ==> dec_rep(n).len() <= 4,
    decreases n,
{
    if n >= 10 {
        lemma_dec_rep_len(n / 10);
    }
}

/// The decimal digits of `n`, most significant first.
pub fn dec_chars(n: u64) -> (digits: Vec<char>)
    ensures
        digits@ == dec_rep(n as nat),
{
    let mut digits: Vec<char> = Vec::new();
    if n == 0 {
        digits.push('0');
        assert(digits@ =~= dec_rep(0));
        return digits;
    }
    let mut m: u64 = n;
    proof {
        assert(dec_rep(n as nat) =~= dec_rep(m as nat) + digits@);
    }
    while m > 0
        invariant
            m > 0 ==> dec_rep(n as nat) == dec_rep(m as nat) + digits@,
            m == 0 ==> dec_rep(n as nat) == digits@,
        decreases m,
    {
        let ghost pre = digits@;
        let d = digit_char_of(m % 10);
        digits.insert(0, d);
        proof {
            assert(digits@ =~= seq![d] + pre);
            if m >= 10 {
                assert(dec_rep(m as nat) == dec_rep((m as nat) / 10).push(digit_char(
                    ((m as nat) % 10) as int,
                )));
                assert((m as nat) / 10 == ((m / 10) as u64) as nat);
                assert(dec_rep(m as nat) + pre =~= dec_rep((m / 10) as nat) + digits@);
            } else {
                assert(dec_rep(m as nat) =~= seq![d]);
                assert(dec_rep(m as nat) + pre =~= digits@);
            }
        }
        m = m / 10;
    }
    digits
}

/// The decimal representation of `n` as a string.
pub fn u64_to_string(n: u64) -> (s: String)
    ensures
        s@ == dec_rep(n as nat),
{
    let digits = dec_chars(n);
    chars_to_string(&digits)
}

/// The decimal representation of `n`, left-padded with zeros to at
/// least `width` characters.
pub fn u64_to_padded_string(n: u64, width: usize) -> (s: String)
    ensures
        s@ == zero_pad(dec_rep(n as nat), width as int),
{
    let mut digits = dec_chars(n);
    while digits.len() < width
        invariant
            zero_pad(digits@, width as int) == zero_pad(dec_rep(n as nat), width as int),
        decreases width - digits.len(),
    {
        let ghost pre = digits@;
        digits.insert(0, '0');
        proof {
            assert(digits@ =~= seq!['0'] + pre);
            assert(zero_pad(digits@, width as int) =~= zero_pad(pre, width as int));
        }
    }
    chars_to_string(&digits)
}

/// The characters of `s` as a vector.
pub fn str_to_chars(s: &str) -> (chars: Vec<char>)
    ensures
        chars@ == s@,
{
    let len = s.unicode_len();
    let mut chars: Vec<char> = Vec::new();
    let mut i: usize = 0;
    while i < len
        invariant
            len == s@.len(),
            i <= len,
            chars@ == s@.subrange(0, i as int),
        decreases len - i,
    {
        chars.push(s.get_char(i));
        proof {
            assert(chars@ =~= s@.subrange(0, i + 1));
        }
        i = i + 1;
    }
    proof {
        assert(chars@ =~= s@);
    }
    chars
}

/// Relies on `core::iter::Iterator::collect` for `String`: collecting
/// the characters of a vector yields the string of exactly those
/// characters, in order.
#[verifier::external_body]
pub(crate) fn chars_to_string(chars: &Vec<char>) -> (s: String)
    ensures
        s@ == chars@,
{
    chars.iter().collect()
}

} // verus!
