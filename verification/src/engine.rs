//! Algorithm-polymorphic post-quantum detached signing and verification.
//!
//! The supported algorithm set is closed: the Falcon hash-and-sign family at
//! parameter levels 512 and 1024, and the Dilithium Fiat-Shamir-with-aborts
//! family at levels 2, 3 and 5. Any other tag is rejected before any key
//! material is touched. Verification fails closed: it returns a plain
//! boolean, and every mismatch of message, key or signature yields `false`.

use vstd::prelude::*;

use crate::Error;

#[allow(unused_imports)]
use crypt_guard::legacy::sign::SignatureFunctions;

verus! {

/// The closed set of supported post-quantum signature schemes.
#[derive(Clone, Copy, Debug, PartialEq, Eq, Structural)]
pub enum Algorithm {
    Falcon512,
    Falcon1024,
    Dilithium2,
    Dilithium3,
    Dilithium5,
}

/// Whether `pk`/`sk` are a matching Falcon-512 keypair as generated by the
/// scheme's key generation.
pub uninterp spec fn falcon512_keypair_ok(pk: Seq<u8>, sk: Seq<u8>) -> bool;

/// Whether `pk`/`sk` are a matching Falcon-1024 keypair.
pub uninterp spec fn falcon1024_keypair_ok(pk: Seq<u8>, sk: Seq<u8>) -> bool;

/// Whether `pk`/`sk` are a matching Dilithium-2 keypair.
pub uninterp spec fn dilithium2_keypair_ok(pk: Seq<u8>, sk: Seq<u8>) -> bool;

/// Whether `pk`/`sk` are a matching Dilithium-3 keypair.
pub uninterp spec fn dilithium3_keypair_ok(pk: Seq<u8>, sk: Seq<u8>) -> bool;

/// Whether `pk`/`sk` are a matching Dilithium-5 keypair.
pub uninterp spec fn dilithium5_keypair_ok(pk: Seq<u8>, sk: Seq<u8>) -> bool;

/// What Falcon-512 detached verification decides for a public key, a
/// detached signature and a message.
pub uninterp spec fn falcon512_verifies(pk: Seq<u8>, sig: Seq<u8>, msg: Seq<u8>) -> bool;

/// What Falcon-1024 detached verification decides.
pub uninterp spec fn falcon1024_verifies(pk: Seq<u8>, sig: Seq<u8>, msg: Seq<u8>) -> bool;

/// What Dilithium-2 detached verification decides.
pub uninterp spec fn dilithium2_verifies(pk: Seq<u8>, sig: Seq<u8>, msg: Seq<u8>) -> bool;

/// What Dilithium-3 detached verification decides.
pub uninterp spec fn dilithium3_verifies(pk: Seq<u8>, sig: Seq<u8>, msg: Seq<u8>) -> bool;

/// What Dilithium-5 detached verification decides.
pub uninterp spec fn dilithium5_verifies(pk: Seq<u8>, sig: Seq<u8>, msg: Seq<u8>) -> bool;

/// Whether `pk`/`sk` are a matching keypair of the given scheme.
pub open spec fn keypair_ok(alg: Algorithm, pk: Seq<u8>, sk: Seq<u8>) -> bool {
    match alg {
        Algorithm::Falcon512 => falcon512_keypair_ok(pk, sk),
        Algorithm::Falcon1024 => falcon1024_keypair_ok(pk, sk),
        Algorithm::Dilithium2 => dilithium2_keypair_ok(pk, sk),
        Algorithm::Dilithium3 => dilithium3_keypair_ok(pk, sk),
        Algorithm::Dilithium5 => dilithium5_keypair_ok(pk, sk),
    }
}

/// What detached verification of the given scheme decides.
pub open spec fn verifies(alg: Algorithm, pk: Seq<u8>, sig: Seq<u8>, msg: Seq<u8>) -> bool {
    match alg {
        Algorithm::Falcon512 => falcon512_verifies(pk, sig, msg),
        Algorithm::Falcon1024 => falcon1024_verifies(pk, sig, msg),
        Algorithm::Dilithium2 => dilithium2_verifies(pk, sig, msg),
        Algorithm::Dilithium3 => dilithium3_verifies(pk, sig, msg),
        Algorithm::Dilithium5 => dilithium5_verifies(pk, sig, msg),
    }
}

/// A freshly generated keypair. The secret key is owned exclusively by the
/// holder and must be wiped with [`wipe`] once it is no longer needed.
pub struct Keypair {
    pub algorithm: Algorithm,
    pub public_key: Vec<u8>,
    pub secret_key: Vec<u8>,
}

impl Keypair {
    /// The keys match each other under the keypair's own scheme.
    pub open spec fn wf(&self) -> bool {
        keypair_ok(self.algorithm, self.public_key@, self.secret_key@)
    }
}

/// Relies on zeroize's `Zeroize` for `Vec<u8>`: every byte of the vector's
/// capacity is overwritten with zeros and the vector is left empty.
#[verifier::external_body]
pub fn wipe(buf: &mut Vec<u8>)
    ensures
        final(buf)@.len() == 0,
{
    zeroize::Zeroize::zeroize(buf);
}

/// Relies on crypt_guard's `Falcon512::keypair` (pqcrypto-falcon key
/// generation): returns a matching public/secret keypair.
#[verifier::external_body]
fn falcon512_keypair() -> (r: Result<(Vec<u8>, Vec<u8>), Error>)
    ensures
        r matches Ok(k) ==> falcon512_keypair_ok(k.0@, k.1@),
        r matches Err(e) ==> e == Error::CryptoError,
{
    match crypt_guard::legacy::sign::Falcon512::keypair() {
        Ok(k) => Ok(k),
        Err(_) => Err(Error::CryptoError),
    }
}

/// Relies on crypt_guard's `Falcon1024::keypair`: returns a matching keypair.
#[verifier::external_body]
fn falcon1024_keypair() -> (r: Result<(Vec<u8>, Vec<u8>), Error>)
    ensures
        r matches Ok(k) ==> falcon1024_keypair_ok(k.0@, k.1@),
        r matches Err(e) ==> e == Error::CryptoError,
{
    match crypt_guard::legacy::sign::Falcon1024::keypair() {
        Ok(k) => Ok(k),
        Err(_) => Err(Error::CryptoError),
    }
}

/// Relies on crypt_guard's `Dilithium2::keypair`: returns a matching keypair.
#[verifier::external_body]
fn dilithium2_keypair() -> (r: Result<(Vec<u8>, Vec<u8>), Error>)
    ensures
        r matches Ok(k) ==> dilithium2_keypair_ok(k.0@, k.1@),
        r matches Err(e) ==> e == Error::CryptoError,
{
    match crypt_guard::legacy::sign::Dilithium2::keypair() {
        Ok(k) => Ok(k),
        Err(_) => Err(Error::CryptoError),
    }
}

/// Relies on crypt_guard's `Dilithium3::keypair`: returns a matching keypair.
#[verifier::external_body]
fn dilithium3_keypair() -> (r: Result<(Vec<u8>, Vec<u8>), Error>)
    ensures
        r matches Ok(k) ==> dilithium3_keypair_ok(k.0@, k.1@),
        r matches Err(e) ==> e == Error::CryptoError,
{
    match crypt_guard::legacy::sign::Dilithium3::keypair() {
        Ok(k) => Ok(k),
        Err(_) => Err(Error::CryptoError),
    }
}

/// Relies on crypt_guard's `Dilithium5::keypair`: returns a matching keypair.
#[verifier::external_body]
fn dilithium5_keypair() -> (r: Result<(Vec<u8>, Vec<u8>), Error>)
    ensures
        r matches Ok(k) ==> dilithium5_keypair_ok(k.0@, k.1@),
        r matches Err(e) ==> e == Error::CryptoError,
{
    match crypt_guard::legacy::sign::Dilithium5::keypair() {
        Ok(k) => Ok(k),
        Err(_) => Err(Error::CryptoError),
    }
}

/// Relies on crypt_guard's `Falcon512` `detached_signature`: a signature it
/// returns verifies under the public key matching the signing key.
#[verifier::external_body]
fn falcon512_sign(sk: &Vec<u8>, msg: &Vec<u8>) -> (r: Result<Vec<u8>, Error>)
    ensures
        r matches Ok(sig) ==> forall|pk: Seq<u8>|
            #[trigger] falcon512_keypair_ok(pk, sk@) ==> falcon512_verifies(pk, sig@, msg@),
        r matches Err(e) ==> e == Error::CryptoError,
{
    match crypt_guard::legacy::sign::Falcon512::detached_signature(msg.clone(), sk.clone()) {
        Ok(sig) => Ok(sig),
        Err(_) => Err(Error::CryptoError),
    }
}

/// Relies on crypt_guard's `Falcon1024` `detached_signature`, as above.
#[verifier::external_body]
fn falcon1024_sign(sk: &Vec<u8>, msg: &Vec<u8>) -> (r: Result<Vec<u8>, Error>)
    ensures
        r matches Ok(sig) ==> forall|pk: Seq<u8>|
            #[trigger] falcon1024_keypair_ok(pk, sk@) ==> falcon1024_verifies(pk, sig@, msg@),
        r matches Err(e) ==> e == Error::CryptoError,
{
    match crypt_guard::legacy::sign::Falcon1024::detached_signature(msg.clone(), sk.clone()) {
        Ok(sig) => Ok(sig),
        Err(_) => Err(Error::CryptoError),
    }
}

/// Relies on crypt_guard's `Dilithium2` `detached_signature`, as above.
#[verifier::external_body]
fn dilithium2_sign(sk: &Vec<u8>, msg: &Vec<u8>) -> (r: Result<Vec<u8>, Error>)
    ensures
        r matches Ok(sig) ==> forall|pk: Seq<u8>|
            #[trigger] dilithium2_keypair_ok(pk, sk@) ==> dilithium2_verifies(pk, sig@, msg@),
        r matches Err(e) ==> e == Error::CryptoError,
{
    match crypt_guard::legacy::sign::Dilithium2::detached_signature(msg.clone(), sk.clone()) {
        Ok(sig) => Ok(sig),
        Err(_) => Err(Error::CryptoError),
    }
}

/// Relies on crypt_guard's `Dilithium3` `detached_signature`, as above.
#[verifier::external_body]
fn dilithium3_sign(sk: &Vec<u8>, msg: &Vec<u8>) -> (r: Result<Vec<u8>, Error>)
    ensures
        r matches Ok(sig) ==> forall|pk: Seq<u8>|
            #[trigger] dilithium3_keypair_ok(pk, sk@) ==> dilithium3_verifies(pk, sig@, msg@),
        r matches Err(e) ==> e == Error::CryptoError,
{
    match crypt_guard::legacy::sign::Dilithium3::detached_signature(msg.clone(), sk.clone()) {
        Ok(sig) => Ok(sig),
        Err(_) => Err(Error::CryptoError),
    }
}

/// Relies on crypt_guard's `Dilithium5` `detached_signature`, as above.
#[verifier::external_body]
fn dilithium5_sign(sk: &Vec<u8>, msg: &Vec<u8>) -> (r: Result<Vec<u8>, Error>)
    ensures
        r matches Ok(sig) ==> forall|pk: Seq<u8>|
            #[trigger] dilithium5_keypair_ok(pk, sk@) ==> dilithium5_verifies(pk, sig@, msg@),
        r matches Err(e) ==> e == Error::CryptoError,
{
    match crypt_guard::legacy::sign::Dilithium5::detached_signature(msg.clone(), sk.clone()) {
        Ok(sig) => Ok(sig),
        Err(_) => Err(Error::CryptoError),
    }
}

/// Relies on crypt_guard's `Falcon512` `verify`: returns true exactly when
/// the detached signature verifies; a malformed key, a malformed signature
/// or a mismatch all yield false.
#[verifier::external_body]
fn falcon512_verify(pk: &Vec<u8>, sig: &Vec<u8>, msg: &Vec<u8>) -> (r: bool)
    ensures
        r == falcon512_verifies(pk@, sig@, msg@),
{
    match crypt_guard::legacy::sign::Falcon512::verify(sig.clone(), msg.clone(), pk.clone()) {
        Ok(b) => b,
        Err(_) => false,
    }
}

/// Relies on crypt_guard's `Falcon1024` `verify`, as above.
#[verifier::external_body]
fn falcon1024_verify(pk: &Vec<u8>, sig: &Vec<u8>, msg: &Vec<u8>) -> (r: bool)
    ensures
        r == falcon1024_verifies(pk@, sig@, msg@),
{
    match crypt_guard::legacy::sign::Falcon1024::verify(sig.clone(), msg.clone(), pk.clone()) {
        Ok(b) => b,
        Err(_) => false,
    }
}

/// Relies on crypt_guard's `Dilithium2` `verify`, as above.
#[verifier::external_body]
fn dilithium2_verify(pk: &Vec<u8>, sig: &Vec<u8>, msg: &Vec<u8>) -> (r: bool)
    ensures
        r == dilithium2_verifies(pk@, sig@, msg@),
{
    match crypt_guard::legacy::sign::Dilithium2::verify(sig.clone(), msg.clone(), pk.clone()) {
        Ok(b) => b,
        Err(_) => false,
    }
}

/// Relies on crypt_guard's `Dilithium3` `verify`, as above.
#[verifier::external_body]
fn dilithium3_verify(pk: &Vec<u8>, sig: &Vec<u8>, msg: &Vec<u8>) -> (r: bool)
    ensures
        r == dilithium3_verifies(pk@, sig@, msg@),
{
    match crypt_guard::legacy::sign::Dilithium3::verify(sig.clone(), msg.clone(), pk.clone()) {
        Ok(b) => b,
        Err(_) => false,
    }
}

/// Relies on crypt_guard's `Dilithium5` `verify`, as above.
#[verifier::external_body]
fn dilithium5_verify(pk: &Vec<u8>, sig: &Vec<u8>, msg: &Vec<u8>) -> (r: bool)
    ensures
        r == dilithium5_verifies(pk@, sig@, msg@),
{
    match crypt_guard::legacy::sign::Dilithium5::verify(sig.clone(), msg.clone(), pk.clone()) {
        Ok(b) => b,
        Err(_) => false,
    }
}

/// Generates a fresh keypair of the given scheme.
pub fn generate_keypair(alg: Algorithm) -> (r: Result<Keypair, Error>)
    ensures
        r matches Ok(k) ==> k.algorithm == alg && k.wf(),
        r matches Err(e) ==> e == Error::CryptoError,
{
    let raw = match alg {
        Algorithm::Falcon512 => falcon512_keypair(),
        Algorithm::Falcon1024 => falcon1024_keypair(),
        Algorithm::Dilithium2 => dilithium2_keypair(),
        Algorithm::Dilithium3 => dilithium3_keypair(),
        Algorithm::Dilithium5 => dilithium5_keypair(),
    };
    match raw {
        Ok(k) => Ok(Keypair { algorithm: alg, public_key: k.0, secret_key: k.1 }),
        Err(e) => Err(e),
    }
}

/// Produces a detached signature over `message` with the given secret key.
///
/// A signature this returns verifies under every public key that forms a
/// generated keypair with `secret_key` for the same scheme.
pub fn sign(alg: Algorithm, secret_key: &Vec<u8>, message: &Vec<u8>) -> (r: Result<Vec<u8>, Error>)
    ensures
        r matches Ok(sig) ==> forall|pk: Seq<u8>|
            #[trigger] keypair_ok(alg, pk, secret_key@) ==> verifies(alg, pk, sig@, message@),
        r matches Err(e) ==> e == Error::CryptoError,
{
    match alg {
        Algorithm::Falcon512 => falcon512_sign(secret_key, message),
        Algorithm::Falcon1024 => falcon1024_sign(secret_key, message),
        Algorithm::Dilithium2 => dilithium2_sign(secret_key, message),
        Algorithm::Dilithium3 => dilithium3_sign(secret_key, message),
        Algorithm::Dilithium5 => dilithium5_sign(secret_key, message),
    }
}

/// Verifies a detached signature. Fail-closed: the result is a plain
/// boolean and every mismatch yields `false`, never an exception.
pub fn verify(alg: Algorithm, public_key: &Vec<u8>, signature: &Vec<u8>, message: &Vec<u8>) -> (r:
    bool)
    ensures
        r == verifies(alg, public_key@, signature@, message@),
{
    match alg {
        Algorithm::Falcon512 => falcon512_verify(public_key, signature, message),
        Algorithm::Falcon1024 => falcon1024_verify(public_key, signature, message),
        Algorithm::Dilithium2 => dilithium2_verify(public_key, signature, message),
        Algorithm::Dilithium3 => dilithium3_verify(public_key, signature, message),
        Algorithm::Dilithium5 => dilithium5_verify(public_key, signature, message),
    }
}

/// The tag under which each supported scheme is requested.
pub open spec fn algorithm_of_tag(t: Seq<char>) -> Option<Algorithm> {
    if t == "falcon512"@ {
        Some(Algorithm::Falcon512)
    } else if t == "falcon1024"@ {
        Some(Algorithm::Falcon1024)
    } else if t == "dilithium2"@ {
        Some(Algorithm::Dilithium2)
    } else if t == "dilithium3"@ {
        Some(Algorithm::Dilithium3)
    } else if t == "dilithium5"@ {
        Some(Algorithm::Dilithium5)
    } else {
        None
    }
}

/// Resolves an operator-supplied algorithm tag. Every unsupported tag is
/// rejected with `UnknownAlgorithm` before any key material is touched.
pub fn parse_algorithm(tag: &String) -> (r: Result<Algorithm, Error>)
    ensures
        r matches Ok(a) ==> algorithm_of_tag(tag@) == Some(a),
        r matches Err(e) ==> e == Error::UnknownAlgorithm && algorithm_of_tag(tag@) is None,
        r is Ok <==> algorithm_of_tag(tag@) is Some,
{
    if *tag == String::from_str("falcon512") {
        Ok(Algorithm::Falcon512)
    } else if *tag == String::from_str("falcon1024") {
        Ok(Algorithm::Falcon1024)
    } else if *tag == String::from_str("dilithium2") {
        Ok(Algorithm::Dilithium2)
    } else if *tag == String::from_str("dilithium3") {
        Ok(Algorithm::Dilithium3)
    } else if *tag == String::from_str("dilithium5") {
        Ok(Algorithm::Dilithium5)
    } else {
        Err(Error::UnknownAlgorithm)
    }
}

/// Law: a detached signature freshly produced by [`sign`] verifies.
///
/// For every scheme, every message and every generated keypair, what `sign`
/// promises of its output and what `verify` reports are the same predicate,
/// so a round trip through both returns `true`.
pub proof fn lemma_sign_verify_round_trip(
    alg: Algorithm,
    pk: Seq<u8>,
    sk: Seq<u8>,
    sig: Seq<u8>,
    msg: Seq<u8>,
)
    requires
        keypair_ok(alg, pk, sk),
        forall|p: Seq<u8>| #[trigger] keypair_ok(alg, p, sk) ==> verifies(alg, p, sig, msg),
    ensures
        verifies(alg, pk, sig, msg),
{
}

} // verus!
