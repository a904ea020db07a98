//! Hashes and hexadecimal text.
use crate::json::hex_char;
use sha2::Digest;
use vstd::prelude::*;

verus! {

/// The SHA-256 hash of `bytes`.
pub uninterp spec fn sha256_of(bytes: Seq<u8>) -> Seq<u8>;

/// Calls `sha2::Sha256::digest`, whose result has 32 bytes.
#[verifier::external_body]
pub(crate) fn sha256(bytes: &Vec<u8>) -> (r: Vec<u8>)
    ensures
        r@ == sha256_of(bytes@),
        r@.len() == 32,
{
    sha2::Sha256::digest(bytes).to_vec()
}

/// The two hexadecimal digits of each byte, one byte after another, in lower case.
pub open spec fn hex_text(bytes: Seq<u8>) -> Seq<char>
    decreases bytes.len(),
{
    if bytes.len() == 0 {
        Seq::empty()
    } else {
        hex_text(bytes.drop_last()).push(hex_char(bytes.last() as nat / 16)).push(
            hex_char(bytes.last() as nat % 16),
        )
    }
}

/// Calls `hex::encode`: two lower-case digits for each byte.
#[verifier::external_body]
pub(crate) fn hex_encode(bytes: &Vec<u8>) -> (r: String)
    ensures
        r@ == hex_text(bytes@),
{
    hex::encode(bytes)
}

/// The SHA-256 hash of `bytes` in hexadecimal.
pub fn sha256_hex(bytes: &Vec<u8>) -> (r: String)
    ensures
        r@ == hex_text(sha256_of(bytes@)),
        r@.len() == 64,
{
    let hash: Vec<u8> = sha256(bytes);
    proof {
        lemma_hex_text_len(hash@);
    }
    hex_encode(&hash)
}

proof fn lemma_hex_text_len(bytes: Seq<u8>)
    ensures
        hex_text(bytes).len() == 2 * bytes.len(),
    decreases bytes.len(),
{
    if bytes.len() > 0 {
        lemma_hex_text_len(bytes.drop_last());
    }
}

/// Different bytes have different hexadecimal text.
pub proof fn law_hex_text_is_faithful(a: Seq<u8>, b: Seq<u8>)
    requires
        hex_text(a) == hex_text(b),
    ensures
        a == b,
    decreases a.len(),
{
    lemma_hex_text_len(a);
    lemma_hex_text_len(b);
    if a.len() > 0 {
        let x = hex_text(a);
        let y = hex_text(b);
        let n = x.len() as int;
        assert(hex_text(a.drop_last()) =~= x.take(n - 2));
        assert(hex_text(b.drop_last()) =~= y.take(n - 2));
        law_hex_text_is_faithful(a.drop_last(), b.drop_last());
        assert(x[n - 2] == hex_char(a.last() as nat / 16));
        assert(y[n - 2] == hex_char(b.last() as nat / 16));
        assert(x[n - 1] == hex_char(a.last() as nat % 16));
        assert(y[n - 1] == hex_char(b.last() as nat % 16));
        assert(a.last() == b.last());
        assert(a =~= a.drop_last().push(a.last()));
        assert(b =~= b.drop_last().push(b.last()));
    } else {
        assert(a =~= b);
    }
}

} // verus!
