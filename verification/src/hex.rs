use vstd::prelude::*;
use vstd::string::*;

use crate::tracker::FileUtil;

verus! {

/// Whether `c` is an ASCII hexadecimal digit.
pub open spec fn is_hex_digit(c: char) -> bool {
    let x = c as u32;
    (48 <= x && x <= 57) || (97 <= x && x <= 102) || (65 <= x && x <= 70)
}

/// The value of an ASCII hexadecimal digit (0 for anything else).
pub open spec fn hex_digit_val(c: char) -> u8 {
    let x = c as u32;
    if 48 <= x && x <= 57 {
        (x - 48) as u8
    } else if 97 <= x && x <= 102 {
        (x - 87) as u8
    } else if 65 <= x && x <= 70 {
        (x - 55) as u8
    } else {
        0
    }
}

/// Lenient hex decoding: the input is consumed two characters at a time; a
/// pair of hexadecimal digits contributes one byte, any other pair is
/// dropped, and a trailing unpaired character is left unconsumed.
pub open spec fn spec_hex_decode(s: Seq<char>) -> Seq<u8>
    decreases s.len(),
{
    if s.len() < 2 {
        Seq::empty()
    } else {
        let rest = spec_hex_decode(s.skip(2));
        if is_hex_digit(s[0]) && is_hex_digit(s[1]) {
            seq![(hex_digit_val(s[0]) * 16 + hex_digit_val(s[1])) as u8] + rest
        } else {
            rest
        }
    }
}

/// The value of `c` as a hexadecimal digit, or `None` if it is not one.
fn hex_val(c: char) -> (r: Option<u8>)
    ensures
        r is Some <==> is_hex_digit(c),
        is_hex_digit(c) ==> r == Some(hex_digit_val(c)),
{
    let x = c as u32;
    if 48 <= x && x <= 57 {
        Some((x - 48) as u8)
    } else if 97 <= x && x <= 102 {
        Some((x - 87) as u8)
    } else if 65 <= x && x <= 70 {
        Some((x - 55) as u8)
    } else {
        None
    }
}

impl FileUtil {
    /// Decodes a string of hexadecimal digit pairs into raw bytes. A pair
    /// that is not two hexadecimal digits is silently dropped, and an
    /// odd-length input leaves its trailing character unconsumed.
    pub fn hex_to_bin(hex: &str) -> (r: Vec<u8>)
        ensures
            r@ == spec_hex_decode(hex@),
    {
        let n = hex.unicode_len();
        let mut out: Vec<u8> = Vec::new();
        let mut i: usize = 0;
        proof {
            assert(hex@.skip(0) =~= hex@);
        }
        while i < n && i + 1 < n
            invariant
                n == hex@.len(),
                i <= n,
                spec_hex_decode(hex@) == out@ + spec_hex_decode(hex@.skip(i as int)),
            decreases n - i,
        {
            let c0 = hex.get_char(i);
            let c1 = hex.get_char(i + 1);
            proof {
                assert(hex@.skip(i as int).skip(2) =~= hex@.skip(i as int + 2));
                assert(hex@.skip(i as int)[0] == c0);
                assert(hex@.skip(i as int)[1] == c1);
            }
            let ghost prev = out@;
            let ghost rest = spec_hex_decode(hex@.skip(i as int + 2));
            match (hex_val(c0), hex_val(c1)) {
                (Some(h), Some(l)) => {
                    let b = h * 16 + l;
                    out.push(b);
                    proof {
                        assert(out@ =~= prev + seq![b]);
                        assert(prev + (seq![b] + rest) =~= (prev + seq![b]) + rest);
                    }
                },
                _ => {},
            }
            i += 2;
        }
        proof {
            assert(spec_hex_decode(hex@.skip(i as int)) =~= Seq::<u8>::empty());
            assert(out@ + Seq::<u8>::empty() =~= out@);
        }
        out
    }
}

} // verus!
