//! Hex field encoder: byte sequences <-> lowercase hexadecimal text.
//!
//! Encoding always succeeds and emits two lowercase digits per byte.
//! Decoding accepts upper- and lowercase digits and fails with
//! `Error::InvalidEncoding` on any other input, including odd-length text.

use vstd::prelude::*;
use vstd::string::StrSliceExecFns;

use crate::error::Error;
use crate::strutil::push_char;

verus! {

/// The lowercase hex digit for a nibble.
pub open spec fn hex_digit_char(n: u8) -> char
    recommends
        n < 16,
{
    if n < 10 {
        ((48 + n) as u8) as char
    } else {
        ((87 + n) as u8) as char
    }
}

/// The hex text of a byte sequence: two digits per byte, high nibble first.
pub open spec fn hex_of(b: Seq<u8>) -> Seq<char>
    decreases b.len(),
{
    if b.len() == 0 {
        Seq::<char>::empty()
    } else {
        seq![hex_digit_char(b[0] / 16), hex_digit_char(b[0] % 16)] + hex_of(b.skip(1))
    }
}

/// The nibble value of one hex character, upper- or lowercase.
pub open spec fn hex_char_val(c: char) -> Option<u8> {
    let u = c as u32;
    if 48 <= u && u <= 57 {
        Some((u - 48) as u8)
    } else if 97 <= u && u <= 102 {
        Some((u - 87) as u8)
    } else if 65 <= u && u <= 70 {
        Some((u - 55) as u8)
    } else {
        None
    }
}

/// The byte sequence denoted by hex text, or `None` if the text is not
/// well-formed hex (an odd length or a character outside the hex alphabet).
pub open spec fn bytes_of_hex(s: Seq<char>) -> Option<Seq<u8>>
    decreases s.len(),
{
    if s.len() == 0 {
        Some(Seq::<u8>::empty())
    } else if s.len() == 1 {
        None::<Seq<u8>>
    } else {
        match (hex_char_val(s[0]), hex_char_val(s[1]), bytes_of_hex(s.skip(2))) {
            (Some(h), Some(l), Some(rest)) => Some(seq![(h * 16 + l) as u8] + rest),
            _ => None,
        }
    }
}

proof fn lemma_hex_of_push(b: Seq<u8>, x: u8)
    ensures
        hex_of(b.push(x)) == hex_of(b) + seq![hex_digit_char(x / 16), hex_digit_char(x % 16)],
    decreases b.len(),
{
    if b.len() == 0 {
        assert(b.push(x).skip(1) =~= Seq::<u8>::empty());
        assert(b.push(x)[0] == x);
        assert(hex_of(b) == Seq::<char>::empty());
        assert(hex_of(b.push(x).skip(1)) == Seq::<char>::empty());
        assert(hex_of(b.push(x)) =~= hex_of(b) + seq![
            hex_digit_char(x / 16),
            hex_digit_char(x % 16),
        ]);
    } else {
        assert(b.push(x).skip(1) =~= b.skip(1).push(x));
        lemma_hex_of_push(b.skip(1), x);
        assert(hex_of(b.push(x)) =~= hex_of(b) + seq![
            hex_digit_char(x / 16),
            hex_digit_char(x % 16),
        ]);
    }
}

/// Hex decoding inverts hex encoding on every byte sequence, the empty one
/// included.
pub proof fn lemma_hex_round_trip(b: Seq<u8>)
    ensures
        bytes_of_hex(hex_of(b)) == Some(b),
    decreases b.len(),
{
    if b.len() == 0 {
        assert(bytes_of_hex(hex_of(b)) =~= Some(b));
    } else {
        lemma_hex_round_trip(b.skip(1));
        let s = hex_of(b);
        assert(s.skip(2) =~= hex_of(b.skip(1)));
        assert(hex_char_val(hex_digit_char(b[0] / 16)) == Some((b[0] / 16) as u8));
        assert(hex_char_val(hex_digit_char(b[0] % 16)) == Some((b[0] % 16) as u8));
        assert(seq![(b[0] / 16 * 16 + b[0] % 16) as u8] + b.skip(1) =~= b);
    }
}

fn hex_digit_exec(n: u8) -> (c: char)
    requires
        n < 16,
    ensures
        c == hex_digit_char(n),
{
    if n < 10 {
        (48 + n) as char
    } else {
        (87 + n) as char
    }
}

fn hex_val_exec(c: char) -> (r: Option<u8>)
    ensures
        r == hex_char_val(c),
{
    let u = c as u32;
    if 48 <= u && u <= 57 {
        Some((u - 48) as u8)
    } else if 97 <= u && u <= 102 {
        Some((u - 87) as u8)
    } else if 65 <= u && u <= 70 {
        Some((u - 55) as u8)
    } else {
        None
    }
}

/// Encode a byte sequence as lowercase hex text. Always succeeds.
pub fn hex_encode(b: &Vec<u8>) -> (s: String)
    ensures
        s@ == hex_of(b@),
{
    let mut s = String::new();
    let mut i: usize = 0;
    while i < b.len()
        invariant
            i <= b@.len(),
            s@ == hex_of(b@.take(i as int)),
        decreases b@.len() - i,
    {
        let x = b[i];
        let hi = hex_digit_exec(x / 16);
        let lo = hex_digit_exec(x % 16);
        push_char(&mut s, hi);
        push_char(&mut s, lo);
        proof {
            lemma_hex_of_push(b@.take(i as int), b@[i as int]);
            assert(b@.take(i as int).push(b@[i as int]) =~= b@.take(i + 1));
        }
        i += 1;
    }
    proof {
        assert(b@.take(b@.len() as int) =~= b@);
    }
    s
}

/// Decode hex text into the byte sequence it denotes; fails with
/// `Error::InvalidEncoding` exactly when the text is not well-formed hex.
pub fn hex_decode(s: &str) -> (r: Result<Vec<u8>, Error>)
    ensures
        match r {
            Ok(v) => bytes_of_hex(s@) == Some(v@),
            Err(e) => e == Error::InvalidEncoding && bytes_of_hex(s@) is None,
        },
{
    let n = s.unicode_len();
    let mut out: Vec<u8> = Vec::new();
    let mut i: usize = 0;
    proof {
        assert(s@.skip(0) =~= s@);
        match bytes_of_hex(s@) {
            Some(rest) => {
                assert(out@ + rest =~= rest);
            },
            None => {},
        }
    }
    while i < n / 2
        invariant
            2 * i <= n,
            n == s@.len(),
            bytes_of_hex(s@) == (match bytes_of_hex(s@.skip(2 * (i as int))) {
                Some(rest) => Some(out@ + rest),
                None => None::<Seq<u8>>,
            }),
        decreases n - 2 * i,
    {
        let c0 = s.get_char(i + i);
        let c1 = s.get_char(i + i + 1);
        let h = hex_val_exec(c0);
        let l = hex_val_exec(c1);
        proof {
            let rem = s@.skip(2 * (i as int));
            assert(rem[0] == s@[2 * (i as int)]);
            assert(rem[1] == s@[2 * (i as int) + 1]);
            assert(rem.skip(2) =~= s@.skip(2 * (i as int) + 2));
        }
        match (h, l) {
            (Some(hv), Some(lv)) => {
                let ghost prev = out@;
                out.push(hv * 16 + lv);
                proof {
                    match bytes_of_hex(s@.skip(2 * (i as int) + 2)) {
                        Some(rest) => {
                            assert(prev + (seq![(hv * 16 + lv) as u8] + rest) =~= out@ + rest);
                        },
                        None => {},
                    }
                }
            },
            _ => {
                return Err(Error::InvalidEncoding);
            },
        }
        i += 1;
    }
    if i + i == n {
        proof {
            assert(s@.skip(2 * (i as int)) =~= Seq::<char>::empty());
            assert(out@ + Seq::<u8>::empty() =~= out@);
        }
        Ok(out)
    } else {
        proof {
            assert(2 * i + 1 == n);
            assert(s@.skip(2 * (i as int)).len() == 1);
        }
        Err(Error::InvalidEncoding)
    }
}

} // verus!
