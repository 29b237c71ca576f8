use vstd::prelude::*;
use vstd::string::*;

verus! {

/// ASCII lower-casing on unicode scalar values: the upper-case ASCII letters
/// move down to their lower-case forms, every other scalar is unchanged.
pub open spec fn lower_scalar(x: u32) -> u32 {
    if 65 <= x && x <= 90 {
        (x + 32) as u32
    } else {
        x
    }
}

/// Two character sequences are equal up to ASCII case.
pub open spec fn eq_ignore_ascii_case(a: Seq<char>, b: Seq<char>) -> bool {
    &&& a.len() == b.len()
    &&& forall|i: int|
        0 <= i < a.len() ==> lower_scalar(#[trigger] a[i] as u32) == lower_scalar(b[i] as u32)
}

/// Case-insensitive (ASCII) equality of two strings.
pub(crate) fn str_eq_ignore_ascii_case(a: &str, b: &str) -> (r: bool)
    ensures
        r == eq_ignore_ascii_case(a@, b@),
{
    let an = a.unicode_len();
    let bn = b.unicode_len();
    if an != bn {
        return false;
    }
    let mut i: usize = 0;
    while i < an
        invariant
            an == a@.len(),
            bn == b@.len(),
            an == bn,
            i <= an,
            forall|j: int|
                0 <= j < i ==> lower_scalar(#[trigger] a@[j] as u32) == lower_scalar(b@[j] as u32),
        decreases an - i,
    {
        let ca = a.get_char(i) as u32;
        let cb = b.get_char(i) as u32;
        let la = if 65 <= ca && ca <= 90 {
            ca + 32
        } else {
            ca
        };
        let lb = if 65 <= cb && cb <= 90 {
            cb + 32
        } else {
            cb
        };
        if la != lb {
            return false;
        }
        i += 1;
    }
    true
}

} // verus!
