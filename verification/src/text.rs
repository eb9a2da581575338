//! Small verified text utilities: string equality, character appends, and
//! decimal rendering of integers.

use vstd::prelude::*;
use vstd::string::StringExecFns;
use vstd::string::StringSliceAdditionalSpecFns;
use vstd::utf8::encode_utf8_decode_utf8;

verus! {

/// Appends one character to the string. The standard library documents
/// `String::push` as appending the given `char` to the end of the string.
pub assume_specification[ String::push ](s: &mut String, c: char)
    ensures
        final(s)@ == old(s)@.push(c),
;

/// Decides whether two string slices hold the same characters, by comparing
/// their UTF-8 bytes.
pub fn str_eq(a: &str, b: &str) -> (r: bool)
    ensures
        r == (a@ == b@),
{
    let ab = a.as_bytes();
    let bb = b.as_bytes();
    if ab.len() != bb.len() {
        proof {
            if a@ == b@ {
                assert(a.spec_bytes() == b.spec_bytes());
                assert(ab@.len() == bb@.len());
            }
        }
        return false;
    }
    let n = ab.len();
    for i in 0..n
        invariant
            n == ab@.len(),
            n == bb@.len(),
            ab@ == a.spec_bytes(),
            bb@ == b.spec_bytes(),
            forall|j: int| 0 <= j < i ==> ab@[j] == bb@[j],
    {
        if ab[i] != bb[i] {
            proof {
                if a@ == b@ {
                    assert(a.spec_bytes() == b.spec_bytes());
                    assert(ab@[i as int] == bb@[i as int]);
                }
            }
            return false;
        }
    }
    proof {
        assert(a.spec_bytes() =~= b.spec_bytes());
        encode_utf8_decode_utf8(a@);
        encode_utf8_decode_utf8(b@);
    }
    true
}

/// The character for one decimal digit.
pub open spec fn spec_digit_char(d: nat) -> char {
    if d == 0 {
        '0'
    } else if d == 1 {
        '1'
    } else if d == 2 {
        '2'
    } else if d == 3 {
        '3'
    } else if d == 4 {
        '4'
    } else if d == 5 {
        '5'
    } else if d == 6 {
        '6'
    } else if d == 7 {
        '7'
    } else if d == 8 {
        '8'
    } else {
        '9'
    }
}

fn digit_char(d: u64) -> (c: char)
    requires
        d < 10,
    ensures
        c == spec_digit_char(d as nat),
{
    match d {
        0 => '0',
        1 => '1',
        2 => '2',
        3 => '3',
        4 => '4',
        5 => '5',
        6 => '6',
        7 => '7',
        8 => '8',
        _ => '9',
    }
}

/// The decimal rendering of a natural number, without leading zeros.
pub open spec fn spec_u64_dec(n: nat) -> Seq<char>
    decreases n,
{
    if n < 10 {
        seq![spec_digit_char(n)]
    } else {
        spec_u64_dec(n / 10).push(spec_digit_char(n % 10))
    }
}

/// The decimal rendering of an integer: a minus sign for negative values,
/// then the decimal digits of the magnitude.
pub open spec fn spec_i64_dec(n: int) -> Seq<char> {
    if n >= 0 {
        spec_u64_dec(n as nat)
    } else {
        seq!['-'] + spec_u64_dec((-n) as nat)
    }
}

proof fn lemma_reverse_unfold<A>(s: Seq<A>)
    requires
        s.len() > 0,
    ensures
        s.reverse() =~= seq![s.last()] + s.drop_last().reverse(),
{
}

/// Renders an unsigned integer in decimal.
pub fn u64_dec(n: u64) -> (r: String)
    ensures
        r@ == spec_u64_dec(n as nat),
{
    let mut digits: Vec<char> = Vec::new();
    let mut m: u64 = n;
    while m >= 10
        invariant
            spec_u64_dec(n as nat) =~= spec_u64_dec(m as nat) + digits@.reverse(),
        decreases m,
    {
        let ghost pre = digits@;
        let ghost mpre = m as nat;
        let d = m % 10;
        digits.push(digit_char(d));
        m = m / 10;
        proof {
            assert(digits@.drop_last() =~= pre);
            lemma_reverse_unfold(digits@);
            assert(spec_u64_dec(mpre) == spec_u64_dec(mpre / 10).push(
                spec_digit_char(mpre % 10),
            ));
            assert(spec_u64_dec(n as nat) =~= spec_u64_dec(m as nat) + digits@.reverse());
        }
    }
    let mut out = String::new();
    out.push(digit_char(m));
    proof {
        assert(out@ + digits@.reverse() =~= spec_u64_dec(n as nat));
    }
    while digits.len() > 0
        invariant
            out@ + digits@.reverse() =~= spec_u64_dec(n as nat),
        decreases digits.len(),
    {
        let ghost pre = digits@;
        proof {
            lemma_reverse_unfold(pre);
        }
        let c = digits.pop().unwrap();
        out.push(c);
        proof {
            assert(out@ + digits@.reverse() =~= spec_u64_dec(n as nat));
        }
    }
    proof {
        assert(out@ =~= spec_u64_dec(n as nat));
    }
    out
}

/// Renders a signed integer in decimal.
pub fn i64_dec(n: i64) -> (r: String)
    ensures
        r@ == spec_i64_dec(n as int),
{
    if n >= 0 {
        u64_dec(n as u64)
    } else {
        let mag: u64 = ((-(n + 1)) as u64) + 1;
        assert(mag as int == -(n as int));
        let mut out = String::new();
        out.push('-');
        let ds = u64_dec(mag);
        out.append(ds.as_str());
        proof {
            assert(out@ =~= spec_i64_dec(n as int));
        }
        out
    }
}

} // verus!
