//! Cryptographic primitives of the envelope signer: the HMAC-SHA256 tag,
//! named but not interpreted, and a verified lowercase hex encoding.

use vstd::prelude::*;
use vstd::string::*;
use crate::text::string_push;
use hmac::{Hmac, KeyInit, Mac};

verus! {

/// The HMAC-SHA256 tag of `msg` under `key`. The digest is a function of
/// the two byte sequences alone; its value is not stated here.
pub uninterp spec fn hmac_sha256_of(key: Seq<u8>, msg: Seq<u8>) -> Seq<u8>;

/// Relies on `hmac::Hmac<sha2::Sha256>`: the HMAC-SHA256 tag of the UTF-8
/// bytes of `msg` under the UTF-8 bytes of `key`, 32 bytes long. HMAC
/// accepts keys of any length, so key setup cannot fail.
#[verifier::external_body]
pub fn hmac_sha256_tag(key: &str, msg: &str) -> (r: Vec<u8>)
    ensures
        r@ == hmac_sha256_of(key.spec_bytes(), msg.spec_bytes()),
        r@.len() == 32,
{
    let mut mac = <Hmac<sha2::Sha256> as KeyInit>::new_from_slice(key.as_bytes())
        .expect("HMAC accepts keys of any length");
    mac.update(msg.as_bytes());
    mac.finalize().into_bytes().to_vec()
}

/// The lowercase hex digit for a value below sixteen.
pub open spec fn spec_hex_digit(d: nat) -> char {
    if d < 10 {
        ((48 + d) as u8) as char
    } else {
        ((87 + d) as u8) as char
    }
}

/// The lowercase hex encoding of a byte sequence: two digits per byte,
/// high nibble first.
pub open spec fn spec_hex_of(bytes: Seq<u8>) -> Seq<char>
    decreases bytes.len(),
{
    if bytes.len() == 0 {
        seq![]
    } else {
        spec_hex_of(bytes.drop_last()) + seq![
            spec_hex_digit((bytes.last() / 16) as nat),
            spec_hex_digit((bytes.last() % 16) as nat),
        ]
    }
}

pub(crate) fn hex_digit(d: u8) -> (c: char)
    requires
        d < 16,
    ensures
        c == spec_hex_digit(d as nat),
{
    if d < 10 {
        (48 + d) as char
    } else {
        (87 + d) as char
    }
}

/// The lowercase hex encoding of `bytes`.
pub fn hex_encode(bytes: &[u8]) -> (r: String)
    ensures
        r@ == spec_hex_of(bytes@),
{
    let mut s = String::new();
    let n = bytes.len();
    let mut i: usize = 0;
    while i < n
        invariant
            n == bytes@.len(),
            i <= n,
            s@ == spec_hex_of(bytes@.take(i as int)),
        decreases n - i,
    {
        let b = bytes[i];
        string_push(&mut s, hex_digit(b / 16));
        string_push(&mut s, hex_digit(b % 16));
        proof {
            let t = bytes@.take(i + 1 as int);
            assert(t.drop_last() =~= bytes@.take(i as int));
            assert(t.last() == bytes@[i as int]);
            assert(s@ =~= spec_hex_of(bytes@.take(i + 1 as int)));
        }
        i = i + 1;
    }
    proof {
        assert(bytes@.take(n as int) =~= bytes@);
    }
    s
}

} // verus!
