//! Quoted-decimal field encoder: unsigned 64-bit integers <-> canonical
//! base-10 text.
//!
//! Encoding emits the canonical decimal numeral (no sign, no leading zeros
//! except for zero itself). Decoding accepts any non-empty run of decimal
//! digits; it fails with `Error::InvalidEncoding` on any other text and with
//! `Error::Overflow` when the numeral's value does not fit in the target
//! 64-bit range. A with-default variant treats an absent field as zero.

use vstd::prelude::*;
use vstd::string::StrSliceExecFns;

use crate::error::Error;
use crate::strutil::push_char;

verus! {

/// The character for one decimal digit.
pub open spec fn dec_digit_char(n: u8) -> char
    recommends
        n < 10,
{
    ((48 + n) as u8) as char
}

/// The canonical decimal numeral of a natural number, most significant
/// digit first.
pub open spec fn dec_of(n: nat) -> Seq<char>
    decreases n,
{
    if n < 10 {
        seq![dec_digit_char(n as u8)]
    } else {
        dec_of(n / 10).push(dec_digit_char((n % 10) as u8))
    }
}

/// The value of one decimal digit character.
pub open spec fn dec_char_val(c: char) -> Option<u8> {
    let u = c as u32;
    if 48 <= u && u <= 57 {
        Some((u - 48) as u8)
    } else {
        None
    }
}

/// Whether every character of the text is a decimal digit.
pub open spec fn all_dec_digits(s: Seq<char>) -> bool {
    forall|i: int| 0 <= i < s.len() ==> dec_char_val(s[i]) is Some
}

/// The value of an all-digit text, most significant digit first.
pub open spec fn dec_val_of(s: Seq<char>) -> nat
    recommends
        all_dec_digits(s),
    decreases s.len(),
{
    if s.len() == 0 {
        0
    } else {
        dec_val_of(s.drop_last()) * 10 + (match dec_char_val(s.last()) {
            Some(d) => d as nat,
            None => 0,
        })
    }
}

/// The natural number denoted by decimal text, or `None` if the text is
/// empty or holds a non-digit character.
pub open spec fn dec_val(s: Seq<char>) -> Option<nat> {
    if s.len() > 0 && all_dec_digits(s) {
        Some(dec_val_of(s))
    } else {
        None
    }
}

/// The characters of a sequence of digits, least significant digit first,
/// read back in most-significant-first order.
spec fn rev_digit_chars(ds: Seq<u8>) -> Seq<char> {
    ds.map_values(|d: u8| dec_digit_char(d)).reverse()
}

/// Decimal decoding inverts decimal encoding on every natural number.
pub proof fn lemma_dec_round_trip(n: nat)
    ensures
        dec_val(dec_of(n)) == Some(n),
    decreases n,
{
    if n < 10 {
        reveal_with_fuel(dec_val_of, 2);
        let s = dec_of(n);
        assert(s.len() == 1);
        assert(dec_char_val(s[0]) == Some(n as u8));
        assert(s.drop_last() =~= Seq::<char>::empty());
        assert(dec_val_of(s) == n);
    } else {
        lemma_dec_round_trip(n / 10);
        let p = dec_of(n / 10);
        let s = dec_of(n);
        assert(s == p.push(dec_digit_char((n % 10) as u8)));
        assert(forall|i: int| 0 <= i < p.len() ==> s[i] == p[i]);
        assert(dec_char_val(s.last()) == Some((n % 10) as u8));
        assert(all_dec_digits(s));
        assert(s.drop_last() =~= p);
        assert(dec_val_of(s) == dec_val_of(p) * 10 + n % 10);
    }
}

/// A numeral's value never shrinks when more digits follow: the value of a
/// prefix is at most the value of the whole text.
proof fn lemma_dec_val_prefix(s: Seq<char>, j: int)
    requires
        0 <= j <= s.len(),
    ensures
        dec_val_of(s.take(j)) <= dec_val_of(s),
    decreases s.len() - j,
{
    if j == s.len() {
        assert(s.take(j) =~= s);
    } else {
        lemma_dec_val_prefix(s, j + 1);
        assert(s.take(j + 1).drop_last() =~= s.take(j));
        assert(dec_val_of(s.take(j + 1)) == dec_val_of(s.take(j)) * 10 + (
        match dec_char_val(s.take(j + 1).last()) {
            Some(d) => d as nat,
            None => 0,
        }));
        assert(dec_val_of(s.take(j)) <= dec_val_of(s.take(j)) * 10);
    }
}

fn dec_digit_exec(n: u8) -> (c: char)
    requires
        n < 10,
    ensures
        c == dec_digit_char(n),
{
    (48 + n) as char
}

fn dec_val_exec(c: char) -> (r: Option<u8>)
    ensures
        r == dec_char_val(c),
{
    let u = c as u32;
    if 48 <= u && u <= 57 {
        Some((u - 48) as u8)
    } else {
        None
    }
}

/// Encode an unsigned 64-bit integer as its canonical decimal numeral.
/// Always succeeds.
pub fn dec_encode(n: u64) -> (s: String)
    ensures
        s@ == dec_of(n as nat),
{
    let mut low_digits: Vec<u8> = Vec::new();
    let mut m: u64 = n;
    proof {
        assert(rev_digit_chars(low_digits@) =~= Seq::<char>::empty());
        assert(dec_of(m as nat) + rev_digit_chars(low_digits@) =~= dec_of(n as nat));
    }
    while m >= 10
        invariant
            dec_of(n as nat) == dec_of(m as nat) + rev_digit_chars(low_digits@),
            forall|i: int| 0 <= i < low_digits@.len() ==> low_digits@[i] < 10,
        decreases m,
    {
        let ghost prev = low_digits@;
        let ghost m_old = m as nat;
        let d: u8 = (m % 10) as u8;
        low_digits.push(d);
        m = m / 10;
        proof {
            assert(dec_of(m_old) == dec_of(m as nat).push(dec_digit_char(d)));
            assert(rev_digit_chars(low_digits@) =~= seq![dec_digit_char(d)] + rev_digit_chars(
                prev,
            ));
            assert(dec_of(m as nat).push(dec_digit_char(d)) + rev_digit_chars(prev) =~= dec_of(
                m as nat,
            ) + rev_digit_chars(low_digits@));
        }
    }
    let mut s = String::new();
    push_char(&mut s, dec_digit_exec((m % 10) as u8));
    proof {
        assert(dec_of(m as nat) =~= seq![dec_digit_char((m % 10) as u8)]);
        assert(s@ =~= dec_of(m as nat));
        assert(rev_digit_chars(low_digits@.skip(low_digits@.len() as int)) =~= Seq::<
            char,
        >::empty());
        assert(s@ =~= dec_of(m as nat) + rev_digit_chars(
            low_digits@.skip(low_digits@.len() as int),
        ));
    }
    let mut k: usize = low_digits.len();
    while k > 0
        invariant
            k <= low_digits@.len(),
            forall|i: int| 0 <= i < low_digits@.len() ==> low_digits@[i] < 10,
            s@ == dec_of(m as nat) + rev_digit_chars(low_digits@.skip(k as int)),
            dec_of(n as nat) == dec_of(m as nat) + rev_digit_chars(low_digits@),
        decreases k,
    {
        let ghost prevs = s@;
        k = k - 1;
        push_char(&mut s, dec_digit_exec(low_digits[k]));
        proof {
            assert(rev_digit_chars(low_digits@.skip(k as int)) =~= rev_digit_chars(
                low_digits@.skip(k as int + 1),
            ).push(dec_digit_char(low_digits@[k as int])));
            assert(s@ =~= dec_of(m as nat) + rev_digit_chars(low_digits@.skip(k as int)));
        }
    }
    proof {
        assert(low_digits@.skip(0) =~= low_digits@);
    }
    s
}

/// Decode decimal text into an unsigned 64-bit integer.
/// Fails with `Error::InvalidEncoding` exactly when the text is empty or
/// holds a non-digit character, and with `Error::Overflow` exactly when the
/// text is a numeral whose value exceeds the 64-bit range.
pub fn dec_decode(s: &str) -> (r: Result<u64, Error>)
    ensures
        match r {
            Ok(v) => dec_val(s@) == Some(v as nat),
            Err(e) => (e == Error::InvalidEncoding && dec_val(s@) is None) || (e
                == Error::Overflow && dec_val(s@) is Some && dec_val(s@).unwrap() > u64::MAX),
        },
{
    let n = s.unicode_len();
    if n == 0 {
        return Err(Error::InvalidEncoding);
    }
    let mut i: usize = 0;
    while i < n
        invariant
            i <= n,
            n == s@.len(),
            forall|j: int| 0 <= j < i ==> dec_char_val(s@[j]) is Some,
        decreases n - i,
    {
        let c = s.get_char(i);
        if dec_val_exec(c).is_none() {
            return Err(Error::InvalidEncoding);
        }
        i += 1;
    }
    assert(all_dec_digits(s@));
    let mut acc: u128 = 0;
    let mut j: usize = 0;
    while j < n
        invariant
            j <= n,
            n == s@.len(),
            all_dec_digits(s@),
            acc <= u64::MAX,
            acc == dec_val_of(s@.take(j as int)),
        decreases n - j,
    {
        let c = s.get_char(j);
        let d = match dec_val_exec(c) {
            Some(d) => d,
            None => {
                proof {
                    assert(dec_char_val(s@[j as int]) is Some);
                }
                0
            },
        };
        proof {
            assert(s@.take(j as int + 1).drop_last() =~= s@.take(j as int));
            assert(s@.take(j as int + 1).last() == s@[j as int]);
        }
        acc = acc * 10 + (d as u128);
        if acc > u64::MAX as u128 {
            proof {
                lemma_dec_val_prefix(s@, j as int + 1);
            }
            return Err(Error::Overflow);
        }
        j += 1;
    }
    proof {
        assert(s@.take(n as int) =~= s@);
    }
    Ok(acc as u64)
}

/// The result `dec_decode` is specified to return on the given text.
pub open spec fn dec_decode_result(s: Seq<char>) -> Result<u64, Error> {
    match dec_val(s) {
        None => Err(Error::InvalidEncoding),
        Some(v) => if v > u64::MAX {
            Err(Error::Overflow)
        } else {
            Ok(v as u64)
        },
    }
}

/// Decode an optional quoted-decimal field, substituting zero when the
/// field is absent. Present text is decoded exactly as `dec_decode` does.
pub fn dec_decode_or_default(s: Option<&String>) -> (r: Result<u64, Error>)
    ensures
        match s {
            None => r == Ok::<u64, Error>(0u64),
            Some(t) => r == dec_decode_result(t@),
        },
{
    match s {
        None => Ok(0),
        Some(t) => dec_decode(t.as_str()),
    }
}

} // verus!
