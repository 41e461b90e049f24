//! Small string-building helpers shared by the envelope signer, the job
//! dispatcher and the parsers: appending single characters, rendering
//! integers in decimal, and equality of string slices.

use vstd::prelude::*;
use vstd::string::*;

verus! {

/// Relies on `String::push` of std: appends exactly one character.
#[verifier::external_body]
pub fn string_push(s: &mut String, c: char)
    ensures
        final(s)@ == old(s)@.push(c),
{
    s.push(c);
}

/// Equality of two string slices, stated over their character views.
pub fn str_eq(a: &str, b: &str) -> (r: bool)
    ensures
        r == (a@ == b@),
{
    let x = a.to_owned();
    let y = b.to_owned();
    x == y
}

/// The decimal digit character for a value below ten.
pub open spec fn spec_dec_digit(d: nat) -> char {
    ((48 + d) as u8) as char
}

/// The decimal rendering of a natural number, most significant digit first.
pub open spec fn spec_dec_nat(n: nat) -> Seq<char>
    decreases n,
{
    if n < 10 {
        seq![spec_dec_digit(n)]
    } else {
        spec_dec_nat(n / 10).push(spec_dec_digit(n % 10))
    }
}

/// The decimal rendering of a signed value: a leading minus sign for
/// negative values, then the digits of the magnitude.
pub open spec fn spec_dec_int(v: int) -> Seq<char> {
    if v < 0 {
        seq!['-'] + spec_dec_nat((-v) as nat)
    } else {
        spec_dec_nat(v as nat)
    }
}

fn dec_digit(d: u8) -> (c: char)
    requires
        d < 10,
    ensures
        c == spec_dec_digit(d as nat),
{
    (48 + d) as char
}

/// Appends the decimal rendering of `n` to `s`.
pub fn push_dec_u64(s: &mut String, n: u64)
    ensures
        final(s)@ == old(s)@ + spec_dec_nat(n as nat),
    decreases n,
{
    if n < 10 {
        string_push(s, dec_digit(n as u8));
        assert(s@ =~= old(s)@ + spec_dec_nat(n as nat));
    } else {
        push_dec_u64(s, n / 10);
        string_push(s, dec_digit((n % 10) as u8));
        assert(s@ =~= old(s)@ + spec_dec_nat(n as nat));
    }
}

/// Appends the decimal rendering of `v` to `s`, with a minus sign for
/// negative values.
pub fn push_dec_i64(s: &mut String, v: i64)
    ensures
        final(s)@ == old(s)@ + spec_dec_int(v as int),
{
    if v < 0 {
        string_push(s, '-');
        let mag128: i128 = -(v as i128);
        assert(0 <= mag128 <= 0x8000_0000_0000_0000_i128);
        let mag: u64 = mag128 as u64;
        push_dec_u64(s, mag);
        assert(s@ =~= old(s)@ + spec_dec_int(v as int));
    } else {
        push_dec_u64(s, v as u64);
    }
}

/// The decimal rendering of `n` as a fresh string.
pub fn u64_to_dec(n: u64) -> (r: String)
    ensures
        r@ == spec_dec_nat(n as nat),
{
    let mut s = String::new();
    push_dec_u64(&mut s, n);
    assert(s@ =~= spec_dec_nat(n as nat));
    s
}

/// The views of a list of strings.
pub open spec fn spec_strs_view(v: Seq<String>) -> Seq<Seq<char>> {
    v.map_values(|s: String| s@)
}

/// A fresh copy of a list of strings, character for character.
pub fn clone_strings(v: &Vec<String>) -> (r: Vec<String>)
    ensures
        spec_strs_view(r@) == spec_strs_view(v@),
{
    let mut r: Vec<String> = Vec::new();
    let n = v.len();
    let mut i: usize = 0;
    while i < n
        invariant
            i <= n,
            n == v@.len(),
            r@.len() == i,
            forall|j: int| 0 <= j < i ==> (#[trigger] r@[j])@ == v@[j]@,
        decreases n - i,
    {
        r.push(v[i].as_str().to_owned());
        i = i + 1;
    }
    proof {
        assert(spec_strs_view(r@) =~= spec_strs_view(v@));
    }
    r
}

/// The decimal rendering of `v` as a fresh string.
pub fn i64_to_dec(v: i64) -> (r: String)
    ensures
        r@ == spec_dec_int(v as int),
{
    let mut s = String::new();
    push_dec_i64(&mut s, v);
    s
}

} // verus!
