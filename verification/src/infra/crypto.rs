//! The `Hasher` port over SHA-256.

use sha2::Digest;
use vstd::prelude::*;

use crate::domain::shared::Hasher;
use crate::text::push_char;

verus! {

/// The SHA-256 digest of a text's UTF-8 bytes.
pub uninterp spec fn sha256_digest(text: Seq<char>) -> Seq<u8>;

/// `sha2::Sha256::digest` over the UTF-8 bytes of `input`: the 32-byte
/// digest, which depends on the text alone.
#[verifier::external_body]
fn sha256_bytes(input: &str) -> (r: Vec<u8>)
    ensures
        r@ == sha256_digest(input@),
        r.len() == 32,
{
    sha2::Sha256::digest(input.as_bytes()).to_vec()
}

/// The lower-case hexadecimal digit of a value below 16.
pub open spec fn hex_digit(n: int) -> char {
    if n < 10 {
        (('0' as int) + n) as char
    } else {
        (('a' as int) + n - 10) as char
    }
}

/// Two lower-case hexadecimal digits per byte, most significant first.
pub open spec fn hex_of(bytes: Seq<u8>) -> Seq<char>
    decreases bytes.len(),
{
    if bytes.len() == 0 {
        Seq::empty()
    } else {
        hex_of(bytes.drop_last()) + seq![
            hex_digit(bytes.last() as int / 16),
            hex_digit(bytes.last() as int % 16),
        ]
    }
}

fn hex_char(n: u8) -> (c: char)
    requires
        n < 16,
    ensures
        c == hex_digit(n as int),
{
    let chars: [char; 16] = [
        '0', '1', '2', '3', '4', '5', '6', '7', '8', '9', 'a', 'b', 'c', 'd', 'e', 'f',
    ];
    let c = chars[n as usize];
    proof {
        assert(('0' as int) == 48);
        assert(('a' as int) == 97);
    }
    assert(c == hex_digit(n as int)) by {
        assert(chars@[n as int] == c);
    }
    c
}

/// The lower-case hexadecimal text of `bytes`.
pub fn to_hex(bytes: &Vec<u8>) -> (s: String)
    ensures
        s@ == hex_of(bytes@),
{
    let mut s = String::new();
    let mut i: usize = 0;
    while i < bytes.len()
        invariant
            i <= bytes.len(),
            s@ == hex_of(bytes@.take(i as int)),
        decreases bytes.len() - i,
    {
        let b = bytes[i];
        proof {
            assert(bytes@.take(i + 1).drop_last() =~= bytes@.take(i as int));
        }
        push_char(&mut s, hex_char(b / 16));
        push_char(&mut s, hex_char(b % 16));
        i = i + 1;
    }
    assert(bytes@.take(bytes.len() as int) =~= bytes@);
    s
}

/// SHA-256 as lower-case hex.
pub struct Sha256Hasher;

impl Hasher for Sha256Hasher {
    open spec fn spec_sha256_hex(&self, input: Seq<char>) -> Seq<char> {
        hex_of(sha256_digest(input))
    }

    fn sha256_hex(&self, input: &str) -> (digest: String) {
        let bytes = sha256_bytes(input);
        to_hex(&bytes)
    }
}

} // verus!
