//! RSA key pairs as plain byte strings, and the RSA-PSS operations on them.
//!
//! Every number is held big-endian. The public exponent is always 65537.

use crate::crypto::base64::{base64url, encodable, encode_base64url, same_bytes};
use jsonwebkey::{JsonWebKey, Key};
use rand::thread_rng;
use rsa::pkcs8::FromPublicKey;
use rsa::{BigUint, PaddingScheme, PublicKey, PublicKeyParts, RsaPrivateKey, RsaPublicKey};
use sha2::{Digest, Sha256};
use vstd::prelude::*;
use vstd::string::StringExecFns;

verus! {

/// A key pair for development and tests, as a JSON Web Key. It is public:
/// nothing of value may be signed with it.
pub const DEVELOPMENT_KEYPAIR: &'static str =
    "{\"kty\":\"RSA\",\"e\":\"AQAB\",\"n\":\"rPhtdGvcfvKr34d_MePIcyMgjDIHAXKYUFq3eWZWV05FXWhc\
     FcIWT-SfO43HNcYKtoxetbgYAeBYjdH333VFgn7W4uE1qaAVHMsD5fmtCYc2CP4aauLyTOIlcKzCEeyItdmZboOv\
     NYySPivtpdzMAGLo7NirTDfmsQSNi-34ZoWVRDgHJOTYWjZwvE8DohbUJKLT4Q7QHDIdEU5QjAzETEF3ENtgoazQ\
     EmixBwJr0qiiC1VIjzDG2f7BllHGgJXAaRWLadZNeS3IDuEnq4kSpn1kWjMhjYMswmYZGIGXLDWu7nEIq_tfKkHr\
     kaPPgtycNXRsoHK_zq8MLcSFmksfUQ\",\"d\":\"WdVIW3-ta80zEIu5trp7n7itrcJJuym-C3Wh9o3856kCA4o\
     w0SgVGHc_b9mpjbcGV1q90ZkD9u2CcF2NY-PvLuAbUIfwq-E1NdgGdUlf4iP0H2WBaOPnPaDyGvvOayqyseeKdUg\
     1FhWk2l9MNKlg1g6ItIGvLY2W5Xbc4MC-EtgRYuJbcUkE9yk3p3XfudvQENN4Dh8UY6hhQwgIVs2xp0M5MrDL1X6\
     dQg5wU9YOOEhGs41yos7858tHjUod0VNifnxYI6gs7O-30VT0XMfnH-vTfyVYFNi_t75KNTgtaZiJcY8-wLNwCE5\
     maxUw9NN2eCL7sEOBHnvCOoubGZvqsQ\",\"p\":\"0oXM6y_STyeUq0VUbsfrwEBx6WgPbAtY9BO3X7JfY1ig_5\
     fPdiwvAqJcAsO8I54oSCjTaEZmmhqwTaGCt7dqXgX2Dy_v4-S4YsrdZnGkvG69ionBlpcqsMbEBszfsiO8ooLMa8\
     H9PntNcjCrqdlPpvD0z2h9kestbknZKHSO9k0\",\"q\":\"0lXveQru4ihRpiveLg3Zn5X5TB3FipGmqcfuU8Fz\
     fe5oc-DaxKmgDGpX3CmrXe5uDVXE3cNGl9Qhn7P2moMIUlxFudrnkuaT-KDy211I6zrJ0iKhEVe1jiSb0lqJXPnO\
     jK3igqKhPhX4T-FrdlemGWzU2JMCHOX5ZPt_6xQwFxU\",\"dp\":\"ZuLHVEWp1c91RAL9EasZF3sncLfPmbEuB\
     xM_skA9iBL_lAqAdLOBQhtRNnSslQetjh6Nu090w2m5sib1-I1mKY9mQuPdrJXSW03jyDZQGVtRvMw4VT2Jup1Zn\
     i0wQiJfBVlBSISlHI0sO1t3-elfmSn3qwnZHKBAMr9apv_YAp0\",\"dq\":\"wSIZZuqsGMvu1Qd41o7vIgMiy0\
     qXBbrh7wnfA9chBiQwkx6Hoocip-PJ0yYL7Y8uTF5SC1Lwch9d1Hf52zywGngRqiuf8Zp5ipW3CcgpWZ08jhAwF2\
     2TDvb8gXWSpeXXTAOqdkuAhTLFNAwHkb2_jZ8J_edWzFQ64QeyGJgL5FU\",\"qi\":\"Q4kG93ZgfErodtmNdXY\
     YbcuuARZ7sOFHfceSQ-HHT9K7XEEkvjnoEztecbtJuXUCKN4yhRX4AeUZEq1rEx90vXT2qdhbiS2fQPJPowBWjsF\
     5w8Xn2i5DrUHpdRDnsjggEWf13CyA2jRBU7tob5b0kwJC8aZYsvVbAwN2Tku-JP0\"}";

/// The PKCS#8 DER bytes that `jsonwebkey` writes for the key that it reads
/// from the JSON text `jwk`, or `None` where it cannot read or encode one.
pub uninterp spec fn jwk_der(jwk: Seq<char>) -> Option<Seq<u8>>;

/// The modulus and public exponent that `rsa` reads from a DER-encoded
/// public key, or `None` where it rejects the bytes.
pub uninterp spec fn der_rsa_public_key(der: Seq<u8>) -> Option<(Seq<u8>, Seq<u8>)>;

/// Whether `rsa` accepts `signature` as an RSA-PSS signature (SHA-256, salt
/// length detected) on the digest `hashed` under the public key
/// `(modulus, exponent)`.
pub uninterp spec fn rsa_pss_sha256_accepts(
    modulus: Seq<u8>,
    exponent: Seq<u8>,
    hashed: Seq<u8>,
    signature: Seq<u8>,
) -> bool;

/// The modulus, private exponent and two prime factors that `jsonwebkey`
/// reads from the JSON text of a private RSA key, or `None` where the text is
/// no such key.
pub uninterp spec fn jwk_rsa_private_key(jwk: Seq<char>) -> Option<
    (Seq<u8>, Seq<u8>, Seq<u8>, Seq<u8>),
>;

/// The public exponent 65537.
pub open spec fn public_exponent() -> Seq<u8> {
    seq![1u8, 0u8, 1u8]
}

/// A modulus that the RSA backend can verify under: no leading zero byte, a
/// leading byte other than 1 (so that the bit length is not one above a
/// multiple of eight), and no more than 2^32 - 1 bytes.
pub open spec fn usable_modulus(modulus: Seq<u8>) -> bool {
    &&& 1 <= modulus.len() <= 0xFFFF_FFFF
    &&& modulus[0] >= 2
}

/// A modulus wide enough to sign a SHA-256 digest with a salt of the
/// backend's default length: at least 34 bytes.
pub open spec fn signing_modulus(modulus: Seq<u8>) -> bool {
    usable_modulus(modulus) && modulus.len() >= 34
}

/// Whether the big-endian number `bytes` is at least 2.
pub open spec fn at_least_two(bytes: Seq<u8>) -> bool {
    exists|i: int|
        0 <= i < bytes.len() && (#[trigger] bytes[i] >= 2 || (bytes[i] != 0 && i < bytes.len()
            - 1))
}

/// The JSON Web Key text of the RSA public key whose modulus reads `n_text`
/// in base64url.
pub open spec fn public_jwk(n_text: Seq<char>) -> Seq<char> {
    "{\"kty\":\"RSA\",\"e\":\"AQAB\",\"n\":\""@ + n_text + "\"}"@
}

/// The modulus under which signatures of the owner `owner` are verified: the
/// owner's bytes, written as a JSON Web Key with exponent 65537, encoded as
/// DER and read back as an RSA public key. `None` where any step fails or the
/// key read back is not usable.
pub open spec fn verifying_modulus(owner: Seq<u8>) -> Option<Seq<u8>> {
    if !encodable(owner) {
        None
    } else {
        match jwk_der(public_jwk(base64url(owner))) {
            None => None,
            Some(der) => match der_rsa_public_key(der) {
                None => None,
                Some((n, e)) => if e == public_exponent() && usable_modulus(n) {
                    Some(n)
                } else {
                    None
                },
            },
        }
    }
}

/// The parts of a well-formed key pair: a modulus wide enough to sign,
/// factors of at least 2, and a modulus that is its own verifying modulus.
pub open spec fn key_parts_wf(modulus: Seq<u8>, prime_p: Seq<u8>, prime_q: Seq<u8>) -> bool {
    &&& signing_modulus(modulus)
    &&& at_least_two(prime_p)
    &&& at_least_two(prime_q)
    &&& verifying_modulus(modulus) == Some(modulus)
}

/// Whether the JSON text `jwk` holds a private RSA key whose parts are well
/// formed.
pub open spec fn jwk_key_wf(jwk: Seq<char>) -> bool {
    jwk_rsa_private_key(jwk) matches Some(parts) && key_parts_wf(parts.0, parts.2, parts.3)
}

/// The bytes of an optional byte vector.
pub open spec fn opt_bytes(bytes: Option<Vec<u8>>) -> Option<Seq<u8>> {
    match bytes {
        Some(b) => Some(b@),
        None => None,
    }
}

/// The four numbers of a private RSA key, not yet checked.
pub struct KeyParts {
    pub modulus: Vec<u8>,
    pub private_exponent: Vec<u8>,
    pub prime_p: Vec<u8>,
    pub prime_q: Vec<u8>,
}

impl KeyParts {
    /// The four numbers as mathematical byte strings.
    pub open spec fn view(&self) -> (Seq<u8>, Seq<u8>, Seq<u8>, Seq<u8>) {
        (self.modulus@, self.private_exponent@, self.prime_p@, self.prime_q@)
    }
}

/// A private RSA key with public exponent 65537.
pub struct KeyPair {
    modulus: Vec<u8>,
    private_exponent: Vec<u8>,
    prime_p: Vec<u8>,
    prime_q: Vec<u8>,
}

/// Parses `jwk` with `jsonwebkey` and asks it for the key's DER encoding
/// (`try_to_der`).
/// Trusted: the result is the encoding that the crate gives, `None` where
/// parsing or encoding fails.
#[verifier::external_body]
fn jwk_to_der(jwk: &str) -> (der: Option<Vec<u8>>)
    ensures
        opt_bytes(der) == jwk_der(jwk@),
{
    jwk.parse::<JsonWebKey>().ok()?.key.try_to_der().ok()
}

/// Reads a DER-encoded public key with `rsa::RsaPublicKey::from_public_key_der`
/// and hands out its modulus and exponent as big-endian bytes.
/// Trusted: the result is the pair that the crate reads, `None` where it
/// rejects the bytes.
#[verifier::external_body]
fn rsa_public_key_from_der(der: &[u8]) -> (key: Option<(Vec<u8>, Vec<u8>)>)
    ensures
        match key {
            Some((n, e)) => der_rsa_public_key(der@) == Some((n@, e@)),
            None => der_rsa_public_key(der@) is None,
        },
{
    let key = RsaPublicKey::from_public_key_der(der).ok()?;
    Some((key.n().to_bytes_be(), key.e().to_bytes_be()))
}

/// Builds an `rsa::RsaPublicKey` from `modulus` and `exponent` and calls its
/// `verify` with PSS padding over SHA-256.
/// Trusted: the answer is whether the crate accepts the signature. The crate
/// panics on a zero modulus and on one whose bit length is one above a
/// multiple of eight, and on moduli beyond 2^32 bytes: `usable_modulus` leaves
/// those out.
#[verifier::external_body]
fn rsa_pss_verify(modulus: &[u8], exponent: &[u8], hashed: &[u8], signature: &[u8]) -> (ok: bool)
    requires
        usable_modulus(modulus@),
    ensures
        ok == rsa_pss_sha256_accepts(modulus@, exponent@, hashed@, signature@),
{
    let padding = PaddingScheme::PSS {
        salt_rng: Box::new(thread_rng()),
        digest: Box::new(Sha256::new()),
        salt_len: None,
    };
    match RsaPublicKey::new(BigUint::from_bytes_be(modulus), BigUint::from_bytes_be(exponent)) {
        Ok(key) => key.verify(padding, hashed, signature).is_ok(),
        Err(_) => false,
    }
}

/// Builds an `rsa::RsaPrivateKey` from the key's numbers, has the crate
/// validate it, and calls its `sign` with PSS padding over SHA-256 and a
/// random salt of the default length.
/// Trusted: a signature that comes back has the length of the modulus and is
/// one that `verify` accepts for the same digest under the key's public part
/// (the crate checks the signature against the public exponent before it
/// returns it). Which signature comes back depends on the salt. The crate
/// panics on factors below 2 and on moduli under 34 bytes: the key's
/// invariant leaves those out.
#[verifier::external_body]
fn rsa_pss_sign(key: &KeyPair, exponent: &[u8], hashed: &[u8]) -> (signature: Option<Vec<u8>>)
    requires
        key.wf(),
    ensures
        signature matches Some(s) ==> s@.len() == key.modulus().len() && rsa_pss_sha256_accepts(
            key.modulus(),
            exponent@,
            hashed@,
            s@,
        ),
{
    let primes = vec![BigUint::from_bytes_be(&key.prime_p), BigUint::from_bytes_be(&key.prime_q)];
    let private_key = RsaPrivateKey::from_components(
        BigUint::from_bytes_be(&key.modulus),
        BigUint::from_bytes_be(exponent),
        BigUint::from_bytes_be(&key.private_exponent),
        primes,
    );
    private_key.validate().ok()?;
    let padding = PaddingScheme::PSS {
        salt_rng: Box::new(thread_rng()),
        digest: Box::new(Sha256::new()),
        salt_len: None,
    };
    private_key.sign(padding, hashed).ok()
}

/// Parses `jwk` with `jsonwebkey` and hands out the numbers of a private RSA
/// key.
/// Trusted: the result holds the fields `n`, `d`, `p` and `q` as the crate
/// decoded them, `None` where the text is not a private RSA key with both
/// factors.
#[verifier::external_body]
fn jwk_private_parts(jwk: &str) -> (parts: Option<KeyParts>)
    ensures
        match parts {
            Some(k) => jwk_rsa_private_key(jwk@) == Some(k@),
            None => jwk_rsa_private_key(jwk@) is None,
        },
{
    match *jwk.parse::<JsonWebKey>().ok()?.key {
        Key::RSA { ref public, private: Some(ref private) } => Some(
            KeyParts {
                modulus: public.n.to_vec(),
                private_exponent: private.d.to_vec(),
                prime_p: private.p.as_ref()?.to_vec(),
                prime_q: private.q.as_ref()?.to_vec(),
            },
        ),
        _ => None,
    }
}

/// The bytes of the public exponent 65537.
pub fn public_exponent_bytes() -> (e: Vec<u8>)
    ensures
        e@ == public_exponent(),
{
    let mut e: Vec<u8> = Vec::new();
    e.push(1);
    e.push(0);
    e.push(1);
    assert(e@ =~= public_exponent());
    e
}

/// Whether the big-endian number `bytes` is at least 2.
pub fn is_at_least_two(bytes: &[u8]) -> (yes: bool)
    ensures
        yes == at_least_two(bytes@),
{
    let mut i: usize = 0;
    while i < bytes.len()
        invariant
            i <= bytes.len(),
            forall|j: int|
                0 <= j < i ==> !(#[trigger] bytes@[j] >= 2 || (bytes@[j] != 0 && j < bytes@.len()
                    - 1)),
        decreases bytes.len() - i,
    {
        if bytes[i] >= 2 || (bytes[i] != 0 && i < bytes.len() - 1) {
            return true;
        }
        i += 1;
    }
    false
}

/// Whether `modulus` is one that the backend can verify under.
pub fn is_usable_modulus(modulus: &[u8]) -> (yes: bool)
    ensures
        yes == usable_modulus(modulus@),
{
    modulus.len() >= 1 && modulus.len() <= 0xFFFF_FFFF && modulus[0] >= 2
}

/// Derives the modulus under which signatures of `owner` are verified.
pub fn public_key_of(owner: &[u8]) -> (modulus: Option<Vec<u8>>)
    ensures
        opt_bytes(modulus) == verifying_modulus(owner@),
{
    if owner.len() > usize::MAX / 512 {
        return None;
    }
    let n_text = encode_base64url(owner);
    let jwk = String::from_str("{\"kty\":\"RSA\",\"e\":\"AQAB\",\"n\":\"").concat(
        n_text.as_str(),
    ).concat("\"}");
    let der = match jwk_to_der(jwk.as_str()) {
        Some(der) => der,
        None => {
            return None;
        },
    };
    match rsa_public_key_from_der(der.as_slice()) {
        Some((n, e)) => {
            let expected = public_exponent_bytes();
            if same_bytes(e.as_slice(), expected.as_slice()) && is_usable_modulus(n.as_slice()) {
                Some(n)
            } else {
                None
            }
        },
        None => None,
    }
}

impl KeyPair {
    /// The modulus, which is the public key.
    pub closed spec fn modulus(&self) -> Seq<u8> {
        self.modulus@
    }

    /// The private exponent.
    pub closed spec fn private_exponent(&self) -> Seq<u8> {
        self.private_exponent@
    }

    /// The first prime factor.
    pub closed spec fn prime_p(&self) -> Seq<u8> {
        self.prime_p@
    }

    /// The second prime factor.
    pub closed spec fn prime_q(&self) -> Seq<u8> {
        self.prime_q@
    }

    /// The four numbers of the key.
    pub open spec fn view(&self) -> (Seq<u8>, Seq<u8>, Seq<u8>, Seq<u8>) {
        (self.modulus(), self.private_exponent(), self.prime_p(), self.prime_q())
    }

    /// What holds of every key pair.
    #[verifier::type_invariant]
    pub closed spec fn wf(&self) -> bool {
        key_parts_wf(self.modulus@, self.prime_p@, self.prime_q@)
    }

    /// A key pair is well formed exactly when its parts are.
    pub proof fn lemma_wf(self)
        ensures
            self.wf() == key_parts_wf(self.modulus(), self.prime_p(), self.prime_q()),
    {
    }

    /// Makes a key pair of the four numbers, if they are well formed.
    pub fn new(parts: KeyParts) -> (key: Option<KeyPair>)
        ensures
            key is Some <==> key_parts_wf(parts.modulus@, parts.prime_p@, parts.prime_q@),
            key matches Some(k) ==> k@ == parts@ && k.wf(),
    {
        if parts.modulus.len() < 34 || !is_usable_modulus(parts.modulus.as_slice()) {
            return None;
        }
        if !is_at_least_two(parts.prime_p.as_slice()) || !is_at_least_two(
            parts.prime_q.as_slice(),
        ) {
            return None;
        }
        match public_key_of(parts.modulus.as_slice()) {
            Some(n) => {
                if same_bytes(n.as_slice(), parts.modulus.as_slice()) {
                    Some(
                        KeyPair {
                            modulus: parts.modulus,
                            private_exponent: parts.private_exponent,
                            prime_p: parts.prime_p,
                            prime_q: parts.prime_q,
                        },
                    )
                } else {
                    None
                }
            },
            None => None,
        }
    }

    /// Reads a private RSA key from the text of a JSON Web Key.
    pub fn from_jwk(jwk: &str) -> (key: Option<KeyPair>)
        ensures
            key is Some <==> jwk_key_wf(jwk@),
            key matches Some(k) ==> jwk_rsa_private_key(jwk@) == Some(k@) && k.wf(),
    {
        match jwk_private_parts(jwk) {
            Some(parts) => KeyPair::new(parts),
            None => None,
        }
    }

    /// The development key pair. `None` where the RSA backend does not
    /// read it as a well-formed key.
    pub fn development() -> (key: Option<KeyPair>)
        ensures
            key is Some <==> jwk_key_wf(DEVELOPMENT_KEYPAIR@),
            key matches Some(k) ==> jwk_rsa_private_key(DEVELOPMENT_KEYPAIR@) == Some(k@)
                && k.wf(),
    {
        KeyPair::from_jwk(DEVELOPMENT_KEYPAIR)
    }

    /// The modulus of the key.
    pub fn modulus_bytes(&self) -> (modulus: Vec<u8>)
        ensures
            modulus@ == self.modulus(),
    {
        self.modulus.clone()
    }

    /// Signs the SHA-256 digest `hashed` with RSA-PSS. `None` where the RSA
    /// backend refuses the key or fails.
    pub fn sign_digest(&self, hashed: &[u8]) -> (signature: Option<Vec<u8>>)
        ensures
            signature matches Some(s) ==> s@.len() == self.modulus().len()
                && rsa_pss_sha256_accepts(self.modulus(), public_exponent(), hashed@, s@),
    {
        proof {
            use_type_invariant(self);
        }
        let e = public_exponent_bytes();
        rsa_pss_sign(self, e.as_slice(), hashed)
    }
}

/// Verifies an RSA-PSS signature on the SHA-256 digest `hashed` under the
/// modulus `modulus` and the exponent 65537. Nothing verifies under a
/// modulus that is not usable.
pub fn verify_digest(modulus: &[u8], hashed: &[u8], signature: &[u8]) -> (ok: bool)
    ensures
        ok == (usable_modulus(modulus@) && rsa_pss_sha256_accepts(
            modulus@,
            public_exponent(),
            hashed@,
            signature@,
        )),
{
    if !is_usable_modulus(modulus) {
        return false;
    }
    let e = public_exponent_bytes();
    rsa_pss_verify(modulus, e.as_slice(), hashed, signature)
}

} // verus!
