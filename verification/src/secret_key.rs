//! Signing keys, as text.
use crate::text::opt_text;
use vstd::prelude::*;

verus! {

/// The secret key that `text` writes and its public key, both as near-crypto writes them; nothing
/// where `text` writes no secret key.
pub uninterp spec fn secret_key_texts(text: Seq<char>) -> Option<(Seq<char>, Seq<char>)>;

/// The public key that `text` writes, as near-crypto writes it; nothing where it writes none.
pub uninterp spec fn public_key_text(text: Seq<char>) -> Option<Seq<char>>;

/// The view of a pair of texts.
pub open spec fn opt_pair(pair: Option<(String, String)>) -> Option<(Seq<char>, Seq<char>)> {
    match pair {
        Some((a, b)) => Some((a@, b@)),
        None => None,
    }
}

/// Whether a secret key and its public key are written as near-crypto writes them: read back, they
/// are the same again.
pub open spec fn full_form(key: (Seq<char>, Seq<char>)) -> bool {
    secret_key_texts(key.0) == Some(key) && public_key_text(key.1) == Some(key.1)
}

/// Calls `FromStr`, `public_key` and `Display` of `near_crypto::SecretKey`: the key in its full
/// form (`ed25519:` and base 58, say), and the public key that belongs to it. What `Display` of
/// either key writes is read back as the same key.
#[verifier::external_body]
fn read_secret_key(text: &str) -> (r: Option<(String, String)>)
    ensures
        opt_pair(r) == secret_key_texts(text@),
        r is Some ==> full_form(opt_pair(r)->0),
{
    let key: near_crypto::SecretKey = text.parse().ok()?;
    Some((key.to_string(), key.public_key().to_string()))
}

/// Calls `FromStr` and `Display` of `near_crypto::PublicKey`: the key in its full form.
#[verifier::external_body]
fn read_public_key(text: &str) -> (r: Option<String>)
    ensures
        opt_text(r) == public_key_text(text@),
{
    text.parse::<near_crypto::PublicKey>().ok().map(|key| key.to_string())
}

/// A secret key with its public key.
pub struct SecretKey {
    text: String,
    public_key: String,
}

impl View for SecretKey {
    type V = (Seq<char>, Seq<char>);

    closed spec fn view(&self) -> (Seq<char>, Seq<char>) {
        (self.text@, self.public_key@)
    }
}

impl SecretKey {
    #[verifier::type_invariant]
    spec fn well_formed(self) -> bool {
        full_form((self.text@, self.public_key@))
    }

    /// The secret key that `text` writes.
    pub fn parse(text: &str) -> (r: Option<SecretKey>)
        ensures
            match r {
                Some(key) => secret_key_texts(text@) == Some(key@),
                None => secret_key_texts(text@) is None,
            },
    {
        match read_secret_key(text) {
            Some((text, public_key)) => Some(SecretKey { text, public_key }),
            None => None,
        }
    }

    /// The secret key in its full form.
    pub fn as_str(&self) -> (r: &str)
        ensures
            r@ == self@.0,
            full_form(self@),
    {
        proof {
            use_type_invariant(self);
        }
        self.text.as_str()
    }

    /// The public key that belongs to it.
    pub fn public_key(&self) -> (r: &str)
        ensures
            r@ == self@.1,
    {
        self.public_key.as_str()
    }

    /// The same key again.
    pub fn copy(&self) -> (r: SecretKey)
        ensures
            r@ == self@,
    {
        proof {
            use_type_invariant(self);
        }
        SecretKey { text: self.text.clone(), public_key: self.public_key.clone() }
    }
}

/// The public key that `text` writes, in its full form.
pub fn normal_public_key(text: &str) -> (r: Option<String>)
    ensures
        opt_text(r) == public_key_text(text@),
{
    read_public_key(text)
}

} // verus!
