//! Salted SHA-256 digests and their comparison.

use vstd::prelude::*;
use vstd::string::*;
use vstd::utf8::*;

verus! {

/// The lowercase hexadecimal SHA-256 digest of the UTF-8 encoding of `text`.
pub uninterp spec fn sha256_hex(text: Seq<char>) -> Seq<char>;

/// The digest stored for, or computed from, a secret and its salt: the digest
/// of the secret followed by the salt.
pub open spec fn salted(secret: Seq<char>, salt: Seq<char>) -> Seq<char> {
    sha256_hex(secret + salt)
}

/// Calls `sha256::digest` on an owned string. The result is taken on trust to
/// be a function of the text alone, named `sha256_hex`; nothing else is
/// claimed of it.
#[verifier::external_body]
fn sha256_digest(text: String) -> (hex: String)
    ensures
        hex@ == sha256_hex(text@),
{
    sha256::digest(text)
}

/// Digest of `secret` followed by `salt`.
pub fn salted_digest(secret: &str, salt: &str) -> (hex: String)
    ensures
        hex@ == salted(secret@, salt@),
{
    let text = String::from_str(secret).concat(salt);
    sha256_digest(text)
}

/// Two texts with the same UTF-8 encoding are the same text.
pub proof fn lemma_encoding_injective(a: Seq<char>, b: Seq<char>)
    requires
        encode_utf8(a) == encode_utf8(b),
    ensures
        a == b,
{
    encode_utf8_decode_utf8(a);
    encode_utf8_decode_utf8(b);
}

/// Compares two strings without stopping at the first difference: once the
/// lengths agree, every byte is visited whatever the contents are.
pub fn constant_time_eq(a: &str, b: &str) -> (same: bool)
    ensures
        same == (a@ == b@),
{
    let x = a.as_bytes();
    let y = b.as_bytes();
    if x.len() != y.len() {
        return false;
    }
    let n: usize = x.len();
    let mut diff: u8 = 0;
    let mut i: usize = 0;
    while i < n
        invariant
            i <= n,
            n == x@.len(),
            n == y@.len(),
            (diff == 0) <==> (x@.take(i as int) =~= y@.take(i as int)),
        decreases n - i,
    {
        let p: u8 = x[i];
        let q: u8 = y[i];
        let next: u8 = diff | (p ^ q);
        proof {
            assert((next == 0) <==> (diff == 0 && p == q)) by (bit_vector)
                requires
                    next == diff | (p ^ q),
            ;
            let j = i as int;
            assert(x@.take(j + 1).drop_last() == x@.take(j));
            assert(y@.take(j + 1).drop_last() == y@.take(j));
            assert(x@.take(j + 1).last() == p);
            assert(y@.take(j + 1).last() == q);
            if x@.take(j) == y@.take(j) && p == q {
                assert(x@.take(j + 1) =~= x@.take(j).push(p));
                assert(y@.take(j + 1) =~= y@.take(j).push(q));
            }
        }
        diff = next;
        i += 1;
    }
    proof {
        assert(x@.take(n as int) == x@);
        assert(y@.take(n as int) == y@);
        if x@ == y@ {
            lemma_encoding_injective(a@, b@);
        }
    }
    diff == 0
}

} // verus!
