use crate::claims::{decode_registered, decodes_to, registered_decodes, Claims};
use crate::error::OidcError;
use crate::provider::parse_json;
use crate::keys::{Jwk, KeyAlgorithm, RsaPublicKey};
use biscuit::jwa::SignatureAlgorithm;
use biscuit::jwk::AlgorithmParameters;
use vstd::prelude::*;

verus! {

#[verifier::external_type_specification]
#[verifier::external_body]
pub struct ExJsonValue(serde_json::Value);

/// The RSA signature algorithms a token may be verified under.
#[derive(Debug, Clone, Copy, PartialEq, Eq, Structural)]
pub enum RsaAlgorithm {
    RS256,
    RS384,
    RS512,
}

/// The algorithm under which tokens are verified.
pub const TOKEN_ALGORITHM: RsaAlgorithm = RsaAlgorithm::RS256;

/// Whether the bytes are a JSON key set, `{"keys": [...]}`, that biscuit's
/// `JWKSet` deserialises.
pub uninterp spec fn key_set_parses(body: Seq<u8>) -> bool;

/// The keys of a key-set document that parses, in the order published, each
/// reduced to its algorithm family and, for RSA, its modulus and exponent.
pub uninterp spec fn published_keys(body: Seq<u8>) -> Seq<Jwk>;

/// The payload bytes of the compact token where biscuit accepts it as
/// signed under `alg` by the RSA key of modulus `n` and exponent `e`
/// (big-endian), with a header naming `alg`; `None` otherwise.
pub uninterp spec fn rsa_payload(token: Seq<char>, alg: RsaAlgorithm, n: Seq<u8>, e: Seq<u8>) -> Option<Seq<u8>>;

/// Relies on `serde_json::from_slice` into `biscuit::jwk::JWKSet`: the body
/// parses as a whole or not at all; each key's `AlgorithmParameters` variant
/// and, for RSA, `BigUint::to_bytes_be` of `n` and `e` are kept.
#[verifier::external_body]
fn parse_key_set(body: &[u8]) -> (r: Result<Vec<Jwk>, String>)
    ensures
        r is Ok <==> key_set_parses(body@),
        r is Ok ==> r->Ok_0@ == published_keys(body@),
{
    let set = serde_json::from_slice::<biscuit::jwk::JWKSet<biscuit::Empty>>(body).map_err(|e| e.to_string())?;
    Ok(set.keys.into_iter().map(|k| Jwk { algorithm: match k.algorithm {
        AlgorithmParameters::RSA(p) => KeyAlgorithm::Rsa(RsaPublicKey { n: p.n.to_bytes_be(), e: p.e.to_bytes_be() }),
        AlgorithmParameters::EllipticCurve(_) => KeyAlgorithm::EllipticCurve,
        AlgorithmParameters::OctetKey(_) => KeyAlgorithm::OctetKey,
        AlgorithmParameters::OctetKeyPair(_) => KeyAlgorithm::OctetKeyPair,
    } }).collect())
}

/// Relies on `biscuit::jws::Compact::decode` with an RSA public key made by
/// `BigUint::from_bytes_be`, the payload taken as raw bytes: it returns them
/// exactly when the signature verifies under `alg` and the header decodes
/// and names `alg`.
#[verifier::external_body]
fn decode_rsa(token: &str, alg: RsaAlgorithm, key: &RsaPublicKey) -> (r: Option<Vec<u8>>)
    ensures
        r is Some <==> rsa_payload(token@, alg, key.n@, key.e@) is Some,
        r is Some ==> r->0@ == rsa_payload(token@, alg, key.n@, key.e@)->0,
{
    let alg = match alg {
        RsaAlgorithm::RS256 => SignatureAlgorithm::RS256,
        RsaAlgorithm::RS384 => SignatureAlgorithm::RS384,
        RsaAlgorithm::RS512 => SignatureAlgorithm::RS512,
    };
    let n = num_bigint::BigUint::from_bytes_be(&key.n);
    let e = num_bigint::BigUint::from_bytes_be(&key.e);
    let secret = biscuit::jws::Secret::RSAModulusExponent { n, e };
    biscuit::jws::Compact::<Vec<u8>, biscuit::Empty>::new_encoded(token)
        .decode(&secret, alg).ok().map(|c| c.unwrap_decoded().1)
}

/// Reads a key-set document into its keys, in the order published.
pub fn load_key_set(body: &[u8]) -> (r: Result<Vec<Jwk>, OidcError>)
    ensures
        r is Ok <==> key_set_parses(body@),
        r is Ok ==> r->Ok_0@ == published_keys(body@),
        r is Err ==> r->Err_0 is Serde,
{
    match parse_key_set(body) {
        Ok(keys) => Ok(keys),
        Err(msg) => Err(OidcError::Serde(msg)),
    }
}

/// The payload of the token under the first key of the set, where that key
/// is an RSA key and the token verifies under it.
pub open spec fn payload_under(keys: Seq<Jwk>, token: Seq<char>) -> Option<Seq<u8>> {
    if keys.len() > 0 && keys[0].algorithm is Rsa {
        rsa_payload(token, TOKEN_ALGORITHM, keys[0].algorithm->Rsa_0.n@, keys[0].algorithm->Rsa_0.e@)
    } else {
        None
    }
}

/// Whether verification against the key set accepts the token: the first
/// key is an RSA key under which the token verifies, and its registered
/// claims are well formed.
pub open spec fn token_verifies(keys: Seq<Jwk>, token: Seq<char>) -> bool {
    &&& payload_under(keys, token) is Some
    &&& registered_decodes(payload_under(keys, token)->0)
}

/// Verifies `token` against a key set: the first key is selected, must be
/// an RSA key, and must verify the token's RS256 signature; the claims of
/// the payload are returned.
pub fn verify_with_keys(keys: &Vec<Jwk>, token: &str) -> (r: Result<Claims, OidcError>)
    ensures
        keys@.len() == 0 ==> r is Err && r->Err_0 is NoRemoteKeys,
        keys@.len() > 0 && !(keys@[0].algorithm is Rsa) ==> r is Err
            && r->Err_0 is InvalidRemoteKeys,
        keys@.len() > 0 && keys@[0].algorithm is Rsa && r is Err ==> r->Err_0 is ValidationError,
        r is Ok <==> token_verifies(keys@, token@),
        r is Ok ==> decodes_to(payload_under(keys@, token@)->0, r->Ok_0.registered),
        (forall|i: int|
            #![trigger keys@[i]]
            0 <= i < keys@.len() && keys@[i].algorithm is Rsa ==> rsa_payload(
                token@,
                TOKEN_ALGORITHM,
                keys@[i].algorithm->Rsa_0.n@,
                keys@[i].algorithm->Rsa_0.e@,
            ) is None) ==> r is Err,
{
    if keys.len() == 0 {
        return Err(OidcError::NoRemoteKeys);
    }
    let jwk = &keys[0];
    match &jwk.algorithm {
        KeyAlgorithm::Rsa(rsa) => match decode_rsa(token, TOKEN_ALGORITHM, rsa) {
            Some(payload) => match decode_registered(&payload) {
                Ok(registered) => match parse_json(&payload) {
                    Ok(private) => Ok(Claims { registered, private }),
                    Err(_) => Err(OidcError::ValidationError),
                },
                Err(_) => Err(OidcError::ValidationError),
            },
            None => Err(OidcError::ValidationError),
        },
        _ => Err(OidcError::InvalidRemoteKeys),
    }
}

} // verus!
