//! Verified text helpers: string equality, substring search and decimal
//! rendering of integers, used by the tag model and the query builders.

use vstd::prelude::*;
use vstd::string::*;

verus! {

/// True when `needle` occurs in `hay` starting at position `i`.
pub open spec fn matches_at(hay: Seq<char>, needle: Seq<char>, i: int) -> bool {
    0 <= i && i + needle.len() <= hay.len() && hay.subrange(i, i + needle.len() as int)
        == needle
}

/// True when `needle` occurs somewhere in `hay`.
pub open spec fn contains_seq(hay: Seq<char>, needle: Seq<char>) -> bool {
    exists|i: int| matches_at(hay, needle, i)
}

/// Character-by-character equality of two string slices.
pub fn str_equal(a: &str, b: &str) -> (r: bool)
    ensures
        r == (a@ == b@),
{
    let an = a.unicode_len();
    let bn = b.unicode_len();
    if an != bn {
        return false;
    }
    let mut i: usize = 0;
    while i < an
        invariant
            0 <= i <= an,
            an == a@.len(),
            bn == b@.len(),
            an == bn,
            forall|j: int| 0 <= j < i ==> a@[j] == b@[j],
        decreases an - i,
    {
        if a.get_char(i) != b.get_char(i) {
            return false;
        }
        i = i + 1;
    }
    proof {
        assert(a@ =~= b@);
    }
    true
}

/// Tests whether `needle` occurs in `hay` at the given start position.
fn occurs_at(hay: &str, needle: &str, i: usize) -> (r: bool)
    requires
        i + needle@.len() <= hay@.len(),
    ensures
        r == matches_at(hay@, needle@, i as int),
{
    let n = needle.unicode_len();
    let hl = hay.unicode_len();
    let mut j: usize = 0;
    while j < n
        invariant
            0 <= j <= n,
            n == needle@.len(),
            hl == hay@.len(),
            i + n <= hl,
            forall|k: int| 0 <= k < j ==> hay@[i + k] == needle@[k],
        decreases n - j,
    {
        if hay.get_char(i + j) != needle.get_char(j) {
            proof {
                assert(hay@.subrange(i as int, i + n as int)[j as int] == hay@[i + j]);
            }
            return false;
        }
        j = j + 1;
    }
    proof {
        assert(hay@.subrange(i as int, i + n as int) =~= needle@);
    }
    true
}

/// Substring search: does `hay` contain `needle`?
pub fn str_contains(hay: &str, needle: &str) -> (r: bool)
    ensures
        r == contains_seq(hay@, needle@),
{
    let hn = hay.unicode_len();
    let nn = needle.unicode_len();
    if nn > hn {
        proof {
            assert(forall|k: int| !matches_at(hay@, needle@, k));
        }
        return false;
    }
    let limit: usize = hn - nn;
    let mut i: usize = 0;
    loop
        invariant
            0 <= i <= limit,
            nn <= hn,
            hn == hay@.len(),
            nn == needle@.len(),
            limit == hn - nn,
            forall|k: int| 0 <= k < i ==> !matches_at(hay@, needle@, k),
        decreases limit - i,
    {
        if occurs_at(hay, needle, i) {
            return true;
        }
        if i == limit {
            proof {
                assert forall|k: int| !matches_at(hay@, needle@, k) by {
                    if 0 <= k < i {
                    } else if k == i {
                    }
                }
            }
            return false;
        }
        i = i + 1;
    }
}

/// The character for one decimal digit.
pub open spec fn dec_digit(d: int) -> char {
    if d == 0 {
        '0'
    } else if d == 1 {
        '1'
    } else if d == 2 {
        '2'
    } else if d == 3 {
        '3'
    } else if d == 4 {
        '4'
    } else if d == 5 {
        '5'
    } else if d == 6 {
        '6'
    } else if d == 7 {
        '7'
    } else if d == 8 {
        '8'
    } else {
        '9'
    }
}

/// Decimal rendering of a natural number, most significant digit first.
pub open spec fn spec_udec(n: nat) -> Seq<char>
    decreases n,
{
    if n < 10 {
        seq![dec_digit(n as int)]
    } else {
        spec_udec((n / 10) as nat).push(dec_digit((n % 10) as int))
    }
}

/// Decimal rendering of a signed number: a minus sign before the magnitude.
pub open spec fn spec_idec(v: int) -> Seq<char> {
    if v < 0 {
        seq!['-'] + spec_udec((-v) as nat)
    } else {
        spec_udec(v as nat)
    }
}

/// One decimal digit as a string slice.
fn digit_str(d: u8) -> (r: &'static str)
    requires
        d < 10,
    ensures
        r@ =~= seq![dec_digit(d as int)],
{
    proof {
        reveal_strlit("0");
        reveal_strlit("1");
        reveal_strlit("2");
        reveal_strlit("3");
        reveal_strlit("4");
        reveal_strlit("5");
        reveal_strlit("6");
        reveal_strlit("7");
        reveal_strlit("8");
        reveal_strlit("9");
    }
    if d == 0 {
        "0"
    } else if d == 1 {
        "1"
    } else if d == 2 {
        "2"
    } else if d == 3 {
        "3"
    } else if d == 4 {
        "4"
    } else if d == 5 {
        "5"
    } else if d == 6 {
        "6"
    } else if d == 7 {
        "7"
    } else if d == 8 {
        "8"
    } else {
        "9"
    }
}

/// The digit characters of `ds`, read from the last element to the first.
spec fn digits_rev(ds: Seq<u8>) -> Seq<char> {
    Seq::new(ds.len(), |i: int| dec_digit(ds[ds.len() - 1 - i] as int))
}

proof fn lemma_digits_rev_push(ds: Seq<u8>, d: u8)
    ensures
        digits_rev(ds.push(d)) =~= seq![dec_digit(d as int)] + digits_rev(ds),
{
}

/// Decimal rendering of an unsigned integer.
pub fn u64_to_string(v: u64) -> (r: String)
    ensures
        r@ == spec_udec(v as nat),
{
    if v == 0 {
        let zero = String::from_str("0");
        proof {
            reveal_strlit("0");
            assert(zero@ =~= seq![dec_digit(0)]);
        }
        return zero;
    }
    let mut digits: Vec<u8> = Vec::new();
    let mut x: u64 = v;
    proof {
        assert(spec_udec(v as nat) =~= spec_udec(v as nat) + digits_rev(digits@));
    }
    while x > 0
        invariant
            forall|j: int| 0 <= j < digits@.len() ==> digits@[j] < 10,
            x > 0 ==> spec_udec(v as nat) == spec_udec(x as nat) + digits_rev(digits@),
            x == 0 ==> spec_udec(v as nat) == digits_rev(digits@),
        decreases x,
    {
        let d: u8 = (x % 10) as u8;
        proof {
            let ghost xi = x as nat;
            if xi < 10 {
                assert(spec_udec(xi) == seq![dec_digit(xi as int)]);
            } else {
                assert(spec_udec(xi) == spec_udec((xi / 10) as nat).push(
                    dec_digit((xi % 10) as int),
                ));
            }
            lemma_digits_rev_push(digits@, d);
        }
        digits.push(d);
        x = x / 10;
        proof {
            if x > 0 {
                assert(spec_udec(v as nat) =~= spec_udec(x as nat) + digits_rev(digits@));
            } else {
                assert(spec_udec(v as nat) =~= digits_rev(digits@));
            }
        }
    }
    let n = digits.len();
    let mut out = String::new();
    let mut i: usize = 0;
    while i < n
        invariant
            0 <= i <= n,
            n == digits@.len(),
            forall|j: int| 0 <= j < n ==> digits@[j] < 10,
            spec_udec(v as nat) == digits_rev(digits@),
            out@ == digits_rev(digits@).subrange(0, i as int),
        decreases n - i,
    {
        let d = digits[n - 1 - i];
        let piece = digit_str(d);
        out.append(piece);
        proof {
            assert(out@ =~= digits_rev(digits@).subrange(0, i + 1));
        }
        i = i + 1;
    }
    proof {
        assert(out@ =~= digits_rev(digits@));
    }
    out
}

/// Decimal rendering of a signed integer.
pub fn i64_to_string(v: i64) -> (r: String)
    ensures
        r@ == spec_idec(v as int),
{
    if v >= 0 {
        u64_to_string(v as u64)
    } else {
        let m: u64 = if v == i64::MIN {
            9223372036854775808u64
        } else {
            (-v) as u64
        };
        let digits = u64_to_string(m);
        let mut out = String::from_str("-");
        proof {
            reveal_strlit("-");
        }
        out.append(digits.as_str());
        proof {
            assert(out@ =~= seq!['-'] + spec_udec((-(v as int)) as nat));
        }
        out
    }
}

} // verus!
