//! Base64 field encoder: byte sequences <-> standard-alphabet base64 text
//! with `=` padding.
//!
//! Encoding always succeeds. Decoding accepts only the canonical encoding:
//! a multiple of four characters, padding only in the final group, and zero
//! padding bits; anything else fails with `Error::InvalidEncoding`.

use vstd::prelude::*;
use vstd::string::StrSliceExecFns;

use crate::error::Error;
use crate::strutil::push_char;

verus! {

/// The character for one six-bit group in the standard base64 alphabet.
pub open spec fn b64_char(n: u8) -> char
    recommends
        n < 64,
{
    if n < 26 {
        ((65 + n) as u8) as char
    } else if n < 52 {
        ((97 + (n - 26)) as u8) as char
    } else if n < 62 {
        ((48 + (n - 52)) as u8) as char
    } else if n == 62 {
        '+'
    } else {
        '/'
    }
}

/// The six-bit value of one base64 character; `None` for characters outside
/// the alphabet, the padding character included.
pub open spec fn b64_val(c: char) -> Option<u8> {
    let u = c as u32;
    if 65 <= u && u <= 90 {
        Some((u - 65) as u8)
    } else if 97 <= u && u <= 122 {
        Some((u - 97 + 26) as u8)
    } else if 48 <= u && u <= 57 {
        Some((u - 48 + 52) as u8)
    } else if u == 43 {
        Some(62u8)
    } else if u == 47 {
        Some(63u8)
    } else {
        None
    }
}

/// The base64 text of a byte sequence: four characters per three-byte
/// group, with a padded final group for a one- or two-byte remainder.
pub open spec fn b64_of(b: Seq<u8>) -> Seq<char>
    decreases b.len(),
{
    if b.len() == 0 {
        Seq::<char>::empty()
    } else if b.len() == 1 {
        let x = b[0];
        seq![b64_char(x / 4), b64_char(((x % 4) * 16) as u8), '=', '=']
    } else if b.len() == 2 {
        let x = b[0];
        let y = b[1];
        seq![b64_char(x / 4), b64_char(((x % 4) * 16 + y / 16) as u8), b64_char(
            ((y % 16) * 4) as u8,
        ), '=']
    } else {
        let x = b[0];
        let y = b[1];
        let z = b[2];
        seq![b64_char(x / 4), b64_char(((x % 4) * 16 + y / 16) as u8), b64_char(
            ((y % 16) * 4 + z / 64) as u8,
        ), b64_char(z % 64)] + b64_of(b.skip(3))
    }
}

/// The bytes of one final four-character group, honoring `=` padding, or
/// `None` if the group is not canonical.
pub open spec fn b64_last_group(s: Seq<char>) -> Option<Seq<u8>>
    recommends
        s.len() == 4,
{
    match (b64_val(s[0]), b64_val(s[1])) {
        (Some(a), Some(b)) => if s[2] == '=' && s[3] == '=' {
            if b % 16 == 0 {
                Some(seq![(a * 4 + b / 16) as u8])
            } else {
                None
            }
        } else if s[3] == '=' {
            match b64_val(s[2]) {
                Some(c) => if c % 4 == 0 {
                    Some(seq![(a * 4 + b / 16) as u8, ((b % 16) * 16 + c / 4) as u8])
                } else {
                    None
                },
                None => None,
            }
        } else {
            match (b64_val(s[2]), b64_val(s[3])) {
                (Some(c), Some(d)) => Some(
                    seq![
                        (a * 4 + b / 16) as u8,
                        ((b % 16) * 16 + c / 4) as u8,
                        ((c % 4) * 64 + d) as u8,
                    ],
                ),
                _ => None,
            }
        },
        _ => None,
    }
}

/// The byte sequence denoted by base64 text, or `None` if the text is not
/// the canonical base64 encoding of any byte sequence.
pub open spec fn bytes_of_b64(s: Seq<char>) -> Option<Seq<u8>>
    decreases s.len(),
{
    if s.len() == 0 {
        Some(Seq::<u8>::empty())
    } else if s.len() < 4 {
        None::<Seq<u8>>
    } else if s.len() == 4 {
        b64_last_group(s)
    } else {
        match (b64_val(s[0]), b64_val(s[1]), b64_val(s[2]), b64_val(s[3]), bytes_of_b64(
            s.skip(4),
        )) {
            (Some(a), Some(b), Some(c), Some(d), Some(rest)) => Some(
                seq![(a * 4 + b / 16) as u8, ((b % 16) * 16 + c / 4) as u8, ((c % 4) * 64
                    + d) as u8] + rest,
            ),
            _ => None,
        }
    }
}

proof fn lemma_b64_char_val(n: u8)
    requires
        n < 64,
    ensures
        b64_val(b64_char(n)) == Some(n),
{
}

proof fn lemma_b64_rt_one(b: Seq<u8>)
    requires
        b.len() == 1,
    ensures
        bytes_of_b64(b64_of(b)) == Some(b),
{
    let x = b[0];
    lemma_b64_char_val(x / 4);
    lemma_b64_char_val(((x % 4) * 16) as u8);
    let s = b64_of(b);
    assert(s.len() == 4);
    assert(bytes_of_b64(s) is Some);
    assert(bytes_of_b64(s).unwrap() =~= b);
}

proof fn lemma_b64_rt_two(b: Seq<u8>)
    requires
        b.len() == 2,
    ensures
        bytes_of_b64(b64_of(b)) == Some(b),
{
    let x = b[0];
    let y = b[1];
    lemma_b64_char_val(x / 4);
    lemma_b64_char_val(((x % 4) * 16 + y / 16) as u8);
    lemma_b64_char_val(((y % 16) * 4) as u8);
    let s = b64_of(b);
    assert(s.len() == 4);
    assert(bytes_of_b64(s) is Some);
    assert(bytes_of_b64(s).unwrap() =~= b);
}

proof fn lemma_b64_rt_three(b: Seq<u8>)
    requires
        b.len() == 3,
    ensures
        bytes_of_b64(b64_of(b)) == Some(b),
{
    reveal_with_fuel(b64_of, 2);
    let x = b[0];
    let y = b[1];
    let z = b[2];
    lemma_b64_char_val(x / 4);
    lemma_b64_char_val(((x % 4) * 16 + y / 16) as u8);
    lemma_b64_char_val(((y % 16) * 4 + z / 64) as u8);
    lemma_b64_char_val(z % 64);
    let s = b64_of(b);
    assert(b.skip(3) =~= Seq::<u8>::empty());
    assert(s.len() == 4);
    assert(s[3] != '=');
    assert(bytes_of_b64(s) is Some);
    assert(bytes_of_b64(s).unwrap() =~= b);
}

proof fn lemma_b64_rt_step(b: Seq<u8>)
    requires
        b.len() > 3,
        bytes_of_b64(b64_of(b.skip(3))) == Some(b.skip(3)),
    ensures
        bytes_of_b64(b64_of(b)) == Some(b),
{
    let x = b[0];
    let y = b[1];
    let z = b[2];
    lemma_b64_char_val(x / 4);
    lemma_b64_char_val(((x % 4) * 16 + y / 16) as u8);
    lemma_b64_char_val(((y % 16) * 4 + z / 64) as u8);
    lemma_b64_char_val(z % 64);
    let s = b64_of(b);
    let rest = b64_of(b.skip(3));
    assert(rest.len() >= 4) by {
        reveal_with_fuel(b64_of, 2);
        assert(b.skip(3).len() >= 1);
        if bytes_of_b64(rest) is Some && rest.len() < 4 {
            assert(rest.len() == 0);
        }
    }
    assert(s.len() > 4);
    assert(s.skip(4) =~= rest);
    assert(bytes_of_b64(s) is Some);
    assert(bytes_of_b64(s).unwrap() =~= b);
}

/// Base64 decoding inverts base64 encoding on every byte sequence, the
/// empty one included.
pub proof fn lemma_b64_round_trip(b: Seq<u8>)
    ensures
        bytes_of_b64(b64_of(b)) == Some(b),
    decreases b.len(),
{
    if b.len() == 0 {
    } else if b.len() == 1 {
        lemma_b64_rt_one(b);
    } else if b.len() == 2 {
        lemma_b64_rt_two(b);
    } else if b.len() == 3 {
        lemma_b64_rt_three(b);
    } else {
        lemma_b64_round_trip(b.skip(3));
        lemma_b64_rt_step(b);
    }
}

fn b64_char_exec(n: u8) -> (c: char)
    requires
        n < 64,
    ensures
        c == b64_char(n),
{
    if n < 26 {
        (65 + n) as char
    } else if n < 52 {
        (97 + (n - 26)) as char
    } else if n < 62 {
        (48 + (n - 52)) as char
    } else if n == 62 {
        '+'
    } else {
        '/'
    }
}

fn b64_val_exec(c: char) -> (r: Option<u8>)
    ensures
        r == b64_val(c),
{
    let u = c as u32;
    if 65 <= u && u <= 90 {
        Some((u - 65) as u8)
    } else if 97 <= u && u <= 122 {
        Some((u - 97 + 26) as u8)
    } else if 48 <= u && u <= 57 {
        Some((u - 48 + 52) as u8)
    } else if u == 43 {
        Some(62)
    } else if u == 47 {
        Some(63)
    } else {
        None
    }
}

/// Encode a byte sequence as canonical base64 text. Always succeeds.
pub fn b64_encode(b: &Vec<u8>) -> (s: String)
    ensures
        s@ == b64_of(b@),
{
    let mut s = String::new();
    let mut i: usize = 0;
    let n = b.len();
    proof {
        assert(b@.skip(0) =~= b@);
        assert(s@ + b64_of(b@) =~= b64_of(b@));
    }
    while n - i >= 3
        invariant
            i <= n,
            n == b@.len(),
            b64_of(b@) == s@ + b64_of(b@.skip(i as int)),
        decreases n - i,
    {
        let x = b[i];
        let y = b[i + 1];
        let z = b[i + 2];
        let ghost prev = s@;
        push_char(&mut s, b64_char_exec(x / 4));
        push_char(&mut s, b64_char_exec((x % 4) * 16 + y / 16));
        push_char(&mut s, b64_char_exec((y % 16) * 4 + z / 64));
        push_char(&mut s, b64_char_exec(z % 64));
        proof {
            let rem = b@.skip(i as int);
            assert(rem.len() >= 3);
            assert(rem[0] == b@[i as int]);
            assert(rem[1] == b@[i as int + 1]);
            assert(rem[2] == b@[i as int + 2]);
            assert(rem.skip(3) =~= b@.skip(i as int + 3));
            assert(s@ =~= prev + seq![
                b64_char(rem[0] / 4),
                b64_char(((rem[0] % 4) * 16 + rem[1] / 16) as u8),
                b64_char(((rem[1] % 16) * 4 + rem[2] / 64) as u8),
                b64_char(rem[2] % 64),
            ]);
            assert(prev + b64_of(rem) =~= s@ + b64_of(b@.skip(i as int + 3)));
        }
        i += 3;
    }
    if n - i == 1 {
        let x = b[i];
        let ghost prev = s@;
        push_char(&mut s, b64_char_exec(x / 4));
        push_char(&mut s, b64_char_exec((x % 4) * 16));
        push_char(&mut s, '=');
        push_char(&mut s, '=');
        proof {
            let rem = b@.skip(i as int);
            assert(rem.len() == 1);
            assert(rem[0] == b@[i as int]);
            assert(s@ =~= prev + b64_of(rem));
        }
    } else if n - i == 2 {
        let x = b[i];
        let y = b[i + 1];
        let ghost prev = s@;
        push_char(&mut s, b64_char_exec(x / 4));
        push_char(&mut s, b64_char_exec((x % 4) * 16 + y / 16));
        push_char(&mut s, b64_char_exec((y % 16) * 4));
        push_char(&mut s, '=');
        proof {
            let rem = b@.skip(i as int);
            assert(rem.len() == 2);
            assert(rem[0] == b@[i as int]);
            assert(rem[1] == b@[i as int + 1]);
            assert(s@ =~= prev + b64_of(rem));
        }
    } else {
        proof {
            assert(b@.skip(i as int) =~= Seq::<u8>::empty());
            assert(s@ + b64_of(b@.skip(i as int)) =~= s@);
        }
    }
    s
}

/// Decode canonical base64 text into the byte sequence it denotes; fails
/// with `Error::InvalidEncoding` exactly when the text is not the canonical
/// encoding of any byte sequence.
pub fn b64_decode(s: &str) -> (r: Result<Vec<u8>, Error>)
    ensures
        match r {
            Ok(v) => bytes_of_b64(s@) == Some(v@),
            Err(e) => e == Error::InvalidEncoding && bytes_of_b64(s@) is None,
        },
{
    let n = s.unicode_len();
    let mut out: Vec<u8> = Vec::new();
    let mut i: usize = 0;
    proof {
        assert(s@.skip(0) =~= s@);
        match bytes_of_b64(s@) {
            Some(rest) => {
                assert(out@ + rest =~= rest);
            },
            None => {},
        }
    }
    while n - i > 4
        invariant
            i <= n,
            n == s@.len(),
            bytes_of_b64(s@) == (match bytes_of_b64(s@.skip(i as int)) {
                Some(rest) => Some(out@ + rest),
                None => None::<Seq<u8>>,
            }),
        decreases n - i,
    {
        let c0 = s.get_char(i);
        let c1 = s.get_char(i + 1);
        let c2 = s.get_char(i + 2);
        let c3 = s.get_char(i + 3);
        proof {
            let rem = s@.skip(i as int);
            assert(rem.len() > 4);
            assert(rem[0] == s@[i as int]);
            assert(rem[1] == s@[i as int + 1]);
            assert(rem[2] == s@[i as int + 2]);
            assert(rem[3] == s@[i as int + 3]);
            assert(rem.skip(4) =~= s@.skip(i as int + 4));
        }
        let (a, bb, c, d) = match (b64_val_exec(c0), b64_val_exec(c1), b64_val_exec(c2),
            b64_val_exec(c3)) {
            (Some(a), Some(bb), Some(c), Some(d)) => (a, bb, c, d),
            _ => {
                return Err(Error::InvalidEncoding);
            },
        };
        let ghost prev = out@;
        out.push(a * 4 + bb / 16);
        out.push((bb % 16) * 16 + c / 4);
        out.push((c % 4) * 64 + d);
        proof {
            match bytes_of_b64(s@.skip(i as int + 4)) {
                Some(rest) => {
                    assert(prev + (seq![
                        (a * 4 + bb / 16) as u8,
                        ((bb % 16) * 16 + c / 4) as u8,
                        ((c % 4) * 64 + d) as u8,
                    ] + rest) =~= out@ + rest);
                },
                None => {},
            }
        }
        i += 4;
    }
    if n == i {
        proof {
            assert(s@.skip(i as int) =~= Seq::<char>::empty());
            assert(out@ + Seq::<u8>::empty() =~= out@);
        }
        return Ok(out);
    }
    if n - i < 4 {
        return Err(Error::InvalidEncoding);
    }
    // Final group of exactly four characters; padding is allowed here.
    let c0 = s.get_char(i);
    let c1 = s.get_char(i + 1);
    let c2 = s.get_char(i + 2);
    let c3 = s.get_char(i + 3);
    proof {
        let rem = s@.skip(i as int);
        assert(rem.len() == 4);
        assert(rem[0] == s@[i as int]);
        assert(rem[1] == s@[i as int + 1]);
        assert(rem[2] == s@[i as int + 2]);
        assert(rem[3] == s@[i as int + 3]);
    }
    let (a, bb) = match (b64_val_exec(c0), b64_val_exec(c1)) {
        (Some(a), Some(bb)) => (a, bb),
        _ => {
            return Err(Error::InvalidEncoding);
        },
    };
    if c2 == '=' && c3 == '=' {
        if bb % 16 != 0 {
            return Err(Error::InvalidEncoding);
        }
        let ghost prev = out@;
        out.push(a * 4 + bb / 16);
        proof {
            assert(prev + seq![(a * 4 + bb / 16) as u8] =~= out@);
        }
        Ok(out)
    } else if c3 == '=' {
        let c = match b64_val_exec(c2) {
            Some(c) => c,
            None => {
                return Err(Error::InvalidEncoding);
            },
        };
        if c % 4 != 0 {
            return Err(Error::InvalidEncoding);
        }
        let ghost prev = out@;
        out.push(a * 4 + bb / 16);
        out.push((bb % 16) * 16 + c / 4);
        proof {
            assert(prev + seq![(a * 4 + bb / 16) as u8, ((bb % 16) * 16 + c / 4) as u8] =~= out@);
        }
        Ok(out)
    } else {
        let (c, d) = match (b64_val_exec(c2), b64_val_exec(c3)) {
            (Some(c), Some(d)) => (c, d),
            _ => {
                return Err(Error::InvalidEncoding);
            },
        };
        let ghost prev = out@;
        out.push(a * 4 + bb / 16);
        out.push((bb % 16) * 16 + c / 4);
        out.push((c % 4) * 64 + d);
        proof {
            assert(prev + seq![
                (a * 4 + bb / 16) as u8,
                ((bb % 16) * 16 + c / 4) as u8,
                ((c % 4) * 64 + d) as u8,
            ] =~= out@);
        }
        Ok(out)
    }
}

} // verus!
