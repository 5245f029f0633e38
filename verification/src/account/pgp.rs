//! PGP key pairs, signatures and decryption on top of the `pgp` crate.
//!
//! The cryptography is the crate's; this module chains its steps, maps
//! each failure to the error of the step, and chooses the key to
//! encrypt to.

use std::io::Cursor;

use pgp::types::{KeyTrait, SecretKeyTrait};
use pgp::{Deserializable, SecretKeyParamsBuilder, SubkeyParamsBuilder};
use smallvec::SmallVec;
use vstd::prelude::*;

use crate::text::string_of;

verus! {

#[verifier::external_type_specification]
#[verifier::external_body]
pub struct ExSignedPublicKey(pgp::SignedPublicKey);

#[verifier::external_type_specification]
#[verifier::external_body]
pub struct ExSignedSecretKey(pgp::SignedSecretKey);

#[verifier::external_type_specification]
#[verifier::external_body]
pub struct ExSecretKey(pgp::SecretKey);

#[verifier::external_type_specification]
#[verifier::external_body]
pub struct ExPublicKey(pgp::PublicKey);

#[verifier::external_type_specification]
#[verifier::external_body]
pub struct ExSecretKeyParams(pgp::SecretKeyParams);

#[verifier::external_type_specification]
#[verifier::external_body]
pub struct ExSubkeyParams(pgp::SubkeyParams);

#[verifier::external_type_specification]
#[verifier::external_body]
pub struct ExStandaloneSignature(pgp::StandaloneSignature);

#[verifier::external_type_specification]
#[verifier::external_body]
pub struct ExMessage(pgp::Message);

#[verifier::external_type_specification]
#[verifier::external_body]
pub struct ExPgpLibError(pgp::errors::Error);

#[verifier::external_type_specification]
#[verifier::external_body]
pub struct ExSecretKeyParamsBuilderError(pgp::SecretKeyParamsBuilderError);

#[verifier::external_type_specification]
#[verifier::external_body]
pub struct ExSubkeyParamsBuilderError(pgp::SubkeyParamsBuilderError);

#[verifier::external_type_specification]
#[verifier::external_body]
pub struct ExKeyType(pgp::KeyType);

#[verifier::external_type_specification]
#[verifier::external_body]
pub struct ExSymmetricKeyAlgorithm(pgp::crypto::sym::SymmetricKeyAlgorithm);

#[verifier::external_type_specification]
#[verifier::external_body]
pub struct ExHashAlgorithm(pgp::crypto::hash::HashAlgorithm);

#[verifier::external_type_specification]
#[verifier::external_body]
pub struct ExCompressionAlgorithm(pgp::types::CompressionAlgorithm);

/// Errors related to PGP.
#[derive(Debug)]
pub enum PgpError {
    BuildSecretKeyParamsError(pgp::SecretKeyParamsBuilderError),
    GenerateSecretKeyError(pgp::errors::Error),
    SignSecretKeyError(pgp::errors::Error),
    VerifySecretKeyError(pgp::errors::Error),
    BuildSubkeyParamsError(pgp::SubkeyParamsBuilderError),
    SignPublicKeyError(pgp::errors::Error),
    VerifyPublicKeyError(pgp::errors::Error),
    EncryptMessageError(pgp::errors::Error),
    ExportEncryptedMessageToArmorError(pgp::errors::Error),
    ImportMessageFromArmorError(pgp::errors::Error),
    SignMessageError(pgp::errors::Error),
    ExportSignedMessageToArmorError(pgp::errors::Error),
    DecryptMessageError(pgp::errors::Error),
    DecompressMessageError(pgp::errors::Error),
    GetMessageContentError(pgp::errors::Error),
    GetMessageContentEmptyError,
    GetMessageEmptyError,
    TrimMessageCrLfError,
    ImportSignatureFromArmorError(pgp::errors::Error),
}

/// The public key algorithms of OpenPGP.
#[derive(Debug, Clone, Copy, PartialEq, Eq)]
pub enum KeyAlgorithm {
    RSA,
    RSAEncrypt,
    RSASign,
    ElgamalSign,
    DSA,
    ECDH,
    ECDSA,
    Elgamal,
    DiffieHellman,
    EdDSA,
    Private100,
    Private101,
    Private102,
    Private103,
    Private104,
    Private105,
    Private106,
    Private107,
    Private108,
    Private109,
    Private110,
}

/// Whether keys of the algorithm can encrypt.
pub open spec fn encrypts(alg: KeyAlgorithm) -> bool {
    alg is RSA || alg is RSAEncrypt || alg is ECDH || alg is DiffieHellman || alg is Elgamal
}

/// Whether keys of the algorithm can encrypt (`KeyTrait::is_encryption_key`).
pub fn is_encryption_algorithm(alg: KeyAlgorithm) -> (b: bool)
    ensures
        b == encrypts(alg),
{
    match alg {
        KeyAlgorithm::RSA | KeyAlgorithm::RSAEncrypt | KeyAlgorithm::ECDH
        | KeyAlgorithm::DiffieHellman | KeyAlgorithm::Elgamal => true,
        _ => false,
    }
}

/// The key chosen to encrypt to.
#[derive(Debug, Clone, Copy, PartialEq, Eq)]
pub enum EncryptionKey {
    /// The primary key.
    Primary,
    /// The subkey at this position.
    Subkey(usize),
}

/// The key to encrypt to: the first subkey that can encrypt, else the
/// primary key if it can, else none.
pub open spec fn encryption_key_spec(primary: KeyAlgorithm, subkeys: Seq<KeyAlgorithm>) -> Option<EncryptionKey> {
    if exists|i: int| 0 <= i < subkeys.len() && encrypts(#[trigger] subkeys[i]) {
        let i = choose|i: int| 0 <= i < subkeys.len() && encrypts(#[trigger] subkeys[i])
            && forall|j: int| 0 <= j < i ==> !encrypts(#[trigger] subkeys[j]);
        Some(EncryptionKey::Subkey(i as usize))
    } else if encrypts(primary) {
        Some(EncryptionKey::Primary)
    } else {
        None
    }
}

/// The key to encrypt to, from the algorithms of the primary key and of
/// the subkeys.
pub fn select_for_encryption(primary: KeyAlgorithm, subkeys: &Vec<KeyAlgorithm>) -> (r: Option<EncryptionKey>)
    ensures
        r == encryption_key_spec(primary, subkeys@),
{
    let mut i: usize = 0;
    while i < subkeys.len()
        invariant
            i <= subkeys.len(),
            forall|j: int| 0 <= j < i ==> !encrypts(#[trigger] subkeys@[j]),
        decreases subkeys.len() - i,
    {
        if is_encryption_algorithm(subkeys[i]) {
            let ghost k = choose|k: int| 0 <= k < subkeys@.len() && encrypts(#[trigger] subkeys@[k])
                && forall|j: int| 0 <= j < k ==> !encrypts(#[trigger] subkeys@[j]);
            assert(encrypts(subkeys@[i as int]));
            assert(k == i) by {
                if k < i {
                    assert(!encrypts(subkeys@[k]));
                } else if k > i {
                    assert(!encrypts(subkeys@[i as int]));
                }
            }
            return Some(EncryptionKey::Subkey(i));
        }
        i += 1;
    }
    if is_encryption_algorithm(primary) {
        Some(EncryptionKey::Primary)
    } else {
        None
    }
}

/// The algorithm of an OpenPGP algorithm identifier, if it is one.
pub open spec fn algorithm_of_code(code: u8) -> Option<KeyAlgorithm> {
    if code == 1 { Some(KeyAlgorithm::RSA) }
    else if code == 2 { Some(KeyAlgorithm::RSAEncrypt) }
    else if code == 3 { Some(KeyAlgorithm::RSASign) }
    else if code == 16 { Some(KeyAlgorithm::ElgamalSign) }
    else if code == 17 { Some(KeyAlgorithm::DSA) }
    else if code == 18 { Some(KeyAlgorithm::ECDH) }
    else if code == 19 { Some(KeyAlgorithm::ECDSA) }
    else if code == 20 { Some(KeyAlgorithm::Elgamal) }
    else if code == 21 { Some(KeyAlgorithm::DiffieHellman) }
    else if code == 22 { Some(KeyAlgorithm::EdDSA) }
    else if code == 100 { Some(KeyAlgorithm::Private100) }
    else if code == 101 { Some(KeyAlgorithm::Private101) }
    else if code == 102 { Some(KeyAlgorithm::Private102) }
    else if code == 103 { Some(KeyAlgorithm::Private103) }
    else if code == 104 { Some(KeyAlgorithm::Private104) }
    else if code == 105 { Some(KeyAlgorithm::Private105) }
    else if code == 106 { Some(KeyAlgorithm::Private106) }
    else if code == 107 { Some(KeyAlgorithm::Private107) }
    else if code == 108 { Some(KeyAlgorithm::Private108) }
    else if code == 109 { Some(KeyAlgorithm::Private109) }
    else if code == 110 { Some(KeyAlgorithm::Private110) }
    else { None }
}

/// The key to encrypt to among keys of the given algorithm identifiers.
pub open spec fn encryption_key_of_codes(primary: u8, subkeys: Seq<u8>) -> Option<EncryptionKey> {
    encryption_key_spec(
        algorithm_of_code(primary).unwrap(),
        subkeys.map_values(|c: u8| algorithm_of_code(c).unwrap()),
    )
}

impl KeyAlgorithm {
    /// The algorithm of an OpenPGP algorithm identifier (RFC 4880,
    /// 9.1), if it is one.
    pub fn from_code(code: u8) -> (r: Option<KeyAlgorithm>)
        ensures
            r == algorithm_of_code(code),
            r is Some <==> (1 <= code <= 3 || 16 <= code <= 22 || 100 <= code <= 110),
            r matches Some(a) ==> (encrypts(a) <==> (code == 1 || code == 2 || code == 18 || code == 20 || code == 21)),
    {
        match code {
            1 => Some(KeyAlgorithm::RSA),
            2 => Some(KeyAlgorithm::RSAEncrypt),
            3 => Some(KeyAlgorithm::RSASign),
            16 => Some(KeyAlgorithm::ElgamalSign),
            17 => Some(KeyAlgorithm::DSA),
            18 => Some(KeyAlgorithm::ECDH),
            19 => Some(KeyAlgorithm::ECDSA),
            20 => Some(KeyAlgorithm::Elgamal),
            21 => Some(KeyAlgorithm::DiffieHellman),
            22 => Some(KeyAlgorithm::EdDSA),
            100 => Some(KeyAlgorithm::Private100),
            101 => Some(KeyAlgorithm::Private101),
            102 => Some(KeyAlgorithm::Private102),
            103 => Some(KeyAlgorithm::Private103),
            104 => Some(KeyAlgorithm::Private104),
            105 => Some(KeyAlgorithm::Private105),
            106 => Some(KeyAlgorithm::Private106),
            107 => Some(KeyAlgorithm::Private107),
            108 => Some(KeyAlgorithm::Private108),
            109 => Some(KeyAlgorithm::Private109),
            110 => Some(KeyAlgorithm::Private110),
            _ => None,
        }
    }
}

/// Whether a number is the identifier of one of the public key
/// algorithms that `PublicKeyAlgorithm` has.
pub open spec fn known_algorithm_code(code: u8) -> bool {
    1 <= code <= 3 || 16 <= code <= 22 || 100 <= code <= 110
}

/// The identifier of the algorithm of a public key's primary key.
pub uninterp spec fn primary_algorithm_of(key: pgp::SignedPublicKey) -> u8;

/// The identifiers of the algorithms of a public key's subkeys, in the
/// order of its collection of subkeys.
pub uninterp spec fn subkey_algorithms_of(key: pgp::SignedPublicKey) -> Seq<u8>;

/// Reads `KeyTrait::algorithm` of a public key's primary key, as its
/// OpenPGP identifier. The contract claims that it is a function of
/// the key, the identifier of one of the variants of
/// `PublicKeyAlgorithm` as the crate's source declares them.
#[verifier::external_body]
fn primary_algorithm(key: &pgp::SignedPublicKey) -> (r: u8)
    ensures
        r == primary_algorithm_of(*key),
        known_algorithm_code(r),
{
    key.algorithm() as u8
}

/// Reads `KeyTrait::algorithm` of each of a public key's subkeys (the
/// key's collection `public_subkeys`), in their order, as OpenPGP
/// identifiers. The contract claims that the identifiers are those of
/// the key's subkeys, each of a variant of `PublicKeyAlgorithm`.
#[verifier::external_body]
fn subkey_algorithms(key: &pgp::SignedPublicKey) -> (r: Vec<u8>)
    ensures
        r@ == subkey_algorithms_of(*key),
        forall|i: int| 0 <= i < r@.len() ==> known_algorithm_code(#[trigger] r@[i]),
{
    key.public_subkeys.iter().map(|k| k.algorithm() as u8).collect()
}

/// The key of a public key to encrypt to: the first subkey that can
/// encrypt, else the primary key if it can, else none.
pub fn select_pk_for_encryption(key: &pgp::SignedPublicKey) -> (r: Option<EncryptionKey>)
    ensures
        r == encryption_key_of_codes(primary_algorithm_of(*key), subkey_algorithms_of(*key)),
{
    let p = primary_algorithm(key);
    let primary = match KeyAlgorithm::from_code(p) {
        Some(a) => a,
        None => return None,
    };
    let codes = subkey_algorithms(key);
    let mut subkeys: Vec<KeyAlgorithm> = Vec::new();
    let mut i: usize = 0;
    while i < codes.len()
        invariant
            i <= codes.len(),
            forall|k: int| 0 <= k < codes@.len() ==> known_algorithm_code(#[trigger] codes@[k]),
            subkeys@ == codes@.take(i as int).map_values(|c: u8| algorithm_of_code(c).unwrap()),
        decreases codes.len() - i,
    {
        assert(known_algorithm_code(codes@[i as int]));
        match KeyAlgorithm::from_code(codes[i]) {
            Some(a) => {
                subkeys.push(a);
                assert(subkeys@ =~= codes@.take(i + 1).map_values(|c: u8| algorithm_of_code(c).unwrap()));
            },
            None => return None,
        }
        i += 1;
    }
    assert(codes@.take(i as int) =~= codes@);
    let r = select_for_encryption(primary, &subkeys);
    assert(r == encryption_key_spec(primary, subkeys@));
    r
}

/// The kind of a generated key.
#[derive(Debug, Clone, Copy, PartialEq, Eq, Structural)]
pub enum KeyKind {
    /// An EdDSA key, to certify and sign.
    EdDsa,
    /// An ECDH key, to encrypt.
    Ecdh,
}

/// A symmetric cipher that a key prefers.
#[derive(Debug, Clone, Copy, PartialEq, Eq, Structural)]
pub enum PreferredCipher {
    Aes256,
}

/// A hash that a key prefers.
#[derive(Debug, Clone, Copy, PartialEq, Eq, Structural)]
pub enum PreferredHash {
    Sha2_512,
}

/// A compression that a key prefers.
#[derive(Debug, Clone, Copy, PartialEq, Eq, Structural)]
pub enum PreferredCompression {
    Zlib,
}

/// What the library's generated key pairs are made of.
#[derive(Debug)]
pub struct KeyPolicy {
    /// The kind of the primary key.
    pub primary: KeyKind,
    /// Whether the primary key certifies.
    pub primary_certifies: bool,
    /// Whether the primary key signs.
    pub primary_signs: bool,
    /// The kind of the subkey.
    pub subkey: KeyKind,
    /// Whether the subkey encrypts.
    pub subkey_encrypts: bool,
    /// The passphrase that protects the keys, if any.
    pub passphrase: Option<String>,
    /// The preferred symmetric cipher.
    pub cipher: PreferredCipher,
    /// The preferred hash.
    pub hash: PreferredHash,
    /// The preferred compression.
    pub compression: PreferredCompression,
}

impl KeyPolicy {
    /// The policy of the library's key pairs: an EdDSA primary key that
    /// certifies and signs, an ECDH subkey that encrypts, no passphrase,
    /// and AES-256, SHA2-512 and ZLIB preferred.
    pub fn standard() -> (p: KeyPolicy)
        ensures
            p.primary == KeyKind::EdDsa,
            p.primary_certifies && p.primary_signs,
            p.subkey == KeyKind::Ecdh,
            p.subkey_encrypts,
            p.passphrase is None,
            p.cipher == PreferredCipher::Aes256,
            p.hash == PreferredHash::Sha2_512,
            p.compression == PreferredCompression::Zlib,
    {
        KeyPolicy {
            primary: KeyKind::EdDsa,
            primary_certifies: true,
            primary_signs: true,
            subkey: KeyKind::Ecdh,
            subkey_encrypts: true,
            passphrase: None,
            cipher: PreferredCipher::Aes256,
            hash: PreferredHash::Sha2_512,
            compression: PreferredCompression::Zlib,
        }
    }
}

/// The crate's key type of a kind of key.
#[verifier::external_body]
fn key_type(kind: KeyKind) -> pgp::KeyType {
    match kind {
        KeyKind::EdDsa => pgp::KeyType::EdDSA,
        KeyKind::Ecdh => pgp::KeyType::ECDH,
    }
}

/// The crate's symmetric algorithm of a preferred cipher.
#[verifier::external_body]
fn symmetric_algorithm(cipher: PreferredCipher) -> pgp::crypto::sym::SymmetricKeyAlgorithm {
    match cipher {
        PreferredCipher::Aes256 => pgp::crypto::sym::SymmetricKeyAlgorithm::AES256,
    }
}

/// The crate's hash algorithm of a preferred hash.
#[verifier::external_body]
fn hash_algorithm(hash: PreferredHash) -> pgp::crypto::hash::HashAlgorithm {
    match hash {
        PreferredHash::Sha2_512 => pgp::crypto::hash::HashAlgorithm::SHA2_512,
    }
}

/// The crate's compression algorithm of a preferred compression.
#[verifier::external_body]
fn compression_algorithm(compression: PreferredCompression) -> pgp::types::CompressionAlgorithm {
    match compression {
        PreferredCompression::Zlib => pgp::types::CompressionAlgorithm::ZLIB,
    }
}

/// Builds the parameters of a subkey with `SubkeyParamsBuilder`.
/// Nothing is claimed of the outcome.
#[verifier::external_body]
fn subkey_params(kind: pgp::KeyType, can_encrypt: bool, passphrase: Option<String>) -> Result<pgp::SubkeyParams, pgp::SubkeyParamsBuilderError> {
    SubkeyParamsBuilder::default().key_type(kind).can_encrypt(can_encrypt).passphrase(passphrase).build()
}

/// Builds the parameters of a primary key for the user id `email` with
/// its subkey (`SecretKeyParamsBuilder`). Nothing is claimed of the
/// outcome.
#[verifier::external_body]
fn primary_key_params(
    email: &str,
    kind: pgp::KeyType,
    can_certify: bool,
    can_sign: bool,
    passphrase: Option<String>,
    preferred: (pgp::crypto::sym::SymmetricKeyAlgorithm, pgp::crypto::hash::HashAlgorithm, pgp::types::CompressionAlgorithm),
    subkey: pgp::SubkeyParams,
) -> Result<pgp::SecretKeyParams, pgp::SecretKeyParamsBuilderError> {
    SecretKeyParamsBuilder::default()
        .key_type(kind)
        .can_create_certificates(can_certify)
        .can_sign(can_sign)
        .primary_user_id(email.to_owned())
        .passphrase(passphrase)
        .preferred_symmetric_algorithms(SmallVec::from_slice(&[preferred.0]))
        .preferred_hash_algorithms(SmallVec::from_slice(&[preferred.1]))
        .preferred_compression_algorithms(SmallVec::from_slice(&[preferred.2]))
        .subkey(subkey)
        .build()
}

/// Calls `SecretKeyParams::generate`, which draws random numbers.
/// Nothing is claimed of the outcome.
#[verifier::external_body]
fn generate_secret_key(params: pgp::SecretKeyParams) -> Result<pgp::SecretKey, pgp::errors::Error> {
    params.generate()
}

/// A secret key signed by `SecretKey::sign`. Only that call makes one,
/// so the key has what `SecretKeyTrait::public_key` needs: a primary
/// user with its signature (`KeyDetails::sign` always writes one) and a
/// signature on each subkey.
pub struct SelfSignedKey(pgp::SignedSecretKey);

/// Calls `SecretKey::sign` with an empty passphrase. Nothing is claimed
/// of the outcome.
#[verifier::external_body]
fn self_sign_secret_key(key: pgp::SecretKey) -> Result<SelfSignedKey, pgp::errors::Error> {
    key.sign(|| String::new()).map(SelfSignedKey)
}

/// Calls `SignedSecretKey::verify`. Nothing is claimed of the outcome.
#[verifier::external_body]
fn verify_secret_key(key: &SelfSignedKey) -> Result<(), pgp::errors::Error> {
    key.0.verify()
}

/// Calls `SecretKeyTrait::public_key` of a self-signed secret key,
/// which has the signed primary user and signed subkeys that the call
/// needs. Nothing is claimed of the key.
#[verifier::external_body]
fn public_part(key: &SelfSignedKey) -> pgp::PublicKey {
    key.0.public_key()
}

/// Calls `PublicKey::sign` with the self-signed secret key and an empty
/// passphrase. Nothing is claimed of the outcome.
#[verifier::external_body]
fn sign_public_key(key: pgp::PublicKey, secret: &SelfSignedKey) -> Result<pgp::SignedPublicKey, pgp::errors::Error> {
    key.sign(&secret.0, || String::new())
}

/// Calls `SignedPublicKey::verify`. Nothing is claimed of the outcome.
#[verifier::external_body]
fn verify_public_key(key: &pgp::SignedPublicKey) -> Result<(), pgp::errors::Error> {
    key.verify()
}

/// A copy of a passphrase.
fn clone_passphrase(p: &Option<String>) -> (r: Option<String>)
    ensures
        r == *p,
{
    match p {
        Some(s) => Some(s.clone()),
        None => None,
    }
}

/// The PGP key pair of an email address: the public and secret keys
/// kept together as one unit.
#[derive(Debug)]
pub struct KeyPair {
    /// The email address.
    pub email: String,
    /// The signed public key.
    pub public: pgp::SignedPublicKey,
    /// The signed secret key.
    pub secret: pgp::SignedSecretKey,
}

impl KeyPair {
    /// Creates a new key pair for an email address after the standard
    /// key policy (an EdDSA signing key with an ECDH encryption subkey),
    /// self-signed and verified, and its public key signed by it and
    /// verified. A failing step gives the
    /// error of that step.
    pub fn new(email: &str) -> (r: Result<KeyPair, PgpError>)
        ensures
            r matches Ok(kp) ==> kp.email@ == email@,
    {
        let policy = KeyPolicy::standard();
        let subkey = match subkey_params(key_type(policy.subkey), policy.subkey_encrypts, clone_passphrase(&policy.passphrase)) {
            Ok(s) => s,
            Err(e) => return Err(PgpError::BuildSubkeyParamsError(e)),
        };
        let preferred = (
            symmetric_algorithm(policy.cipher),
            hash_algorithm(policy.hash),
            compression_algorithm(policy.compression),
        );
        let params = match primary_key_params(
            email,
            key_type(policy.primary),
            policy.primary_certifies,
            policy.primary_signs,
            clone_passphrase(&policy.passphrase),
            preferred,
            subkey,
        ) {
            Ok(p) => p,
            Err(e) => return Err(PgpError::BuildSecretKeyParamsError(e)),
        };
        let secret = match generate_secret_key(params) {
            Ok(k) => k,
            Err(e) => return Err(PgpError::GenerateSecretKeyError(e)),
        };
        let secret = match self_sign_secret_key(secret) {
            Ok(k) => k,
            Err(e) => return Err(PgpError::SignSecretKeyError(e)),
        };
        if let Err(e) = verify_secret_key(&secret) {
            return Err(PgpError::VerifySecretKeyError(e));
        }
        let public = public_part(&secret);
        let public = match sign_public_key(public, &secret) {
            Ok(k) => k,
            Err(e) => return Err(PgpError::SignPublicKeyError(e)),
        };
        if let Err(e) = verify_public_key(&public) {
            return Err(PgpError::VerifyPublicKeyError(e));
        }
        let SelfSignedKey(secret) = secret;
        Ok(KeyPair { email: string_of(email), public, secret })
    }
}

/// The versions of the packets of a secret key, as their numbers: its
/// primary key first, then each of its collection of secret subkeys.
pub uninterp spec fn secret_key_versions_of(key: pgp::SignedSecretKey) -> Seq<u8>;

/// Reads the versions of a secret key's primary key and subkeys
/// (`SecretKey::version`, `SecretSubkey::version`) as their numbers.
/// The contract claims that they are a function of the key, the primary
/// key's first.
#[verifier::external_body]
fn secret_key_versions(key: &pgp::SignedSecretKey) -> (r: Vec<u8>)
    ensures
        r@ == secret_key_versions_of(*key),
        r@.len() >= 1,
{
    let mut v = vec![key.primary_key.version() as u8];
    v.extend(key.secret_subkeys.iter().map(|k| k.key.version() as u8));
    v
}

/// The id of a key packet can be computed for any version 4 packet; for
/// an older one the crate panics unless it is RSA.
pub open spec fn primary_key_id_computable(key: pgp::SignedSecretKey) -> bool {
    secret_key_versions_of(key).len() >= 1 && secret_key_versions_of(key)[0] == 4
}

/// The ids of the primary key and of every subkey can be computed.
pub open spec fn key_ids_computable(key: pgp::SignedSecretKey) -> bool {
    forall|i: int| 0 <= i < secret_key_versions_of(key).len() ==> secret_key_versions_of(key)[i] == 4
}

/// Whether the ids of the primary key and of every subkey of a secret
/// key can be computed: all its packets are of version 4.
pub fn has_current_key_packets(key: &pgp::SignedSecretKey) -> (r: bool)
    ensures
        r == key_ids_computable(*key),
        r ==> primary_key_id_computable(*key),
{
    let v = secret_key_versions(key);
    let mut i: usize = 0;
    while i < v.len()
        invariant
            i <= v.len(),
            v@ == secret_key_versions_of(*key),
            forall|j: int| 0 <= j < i ==> v@[j] == 4,
        decreases v.len() - i,
    {
        if v[i] != 4 {
            return false;
        }
        i += 1;
    }
    true
}

/// Signs a literal message of the bytes with the secret key (empty
/// passphrase, default hash) by `Message::sign`, and turns the signed
/// message into its standalone signature (`Message::into_signature`,
/// which a signed message always satisfies). Signing computes the
/// key's id, so the key's primary packet must be of version 4. Nothing
/// is claimed of the outcome, which holds the time of signing.
#[verifier::external_body]
fn sign_literal(plain: &[u8], key: &pgp::SignedSecretKey) -> Result<pgp::StandaloneSignature, pgp::errors::Error>
    requires
        primary_key_id_computable(*key),
{
    pgp::Message::new_literal_bytes("", plain)
        .sign(key, || String::new(), Default::default())
        .map(pgp::Message::into_signature)
}

/// The first line of an armored signature without headers, and the
/// empty line that ends its (empty) headers.
pub open spec fn signature_armor_head() -> Seq<char> {
    "-----BEGIN PGP SIGNATURE-----\n\n"@
}

/// The last line of an armored signature.
pub open spec fn signature_armor_tail() -> Seq<char> {
    "\n-----END PGP SIGNATURE-----\n"@
}

/// Whether a text is an armored signature block: it opens with the
/// signature header line and closes with the signature footer line.
pub open spec fn armored_signature_block(s: Seq<char>) -> bool {
    &&& s.len() >= signature_armor_head().len() + signature_armor_tail().len()
    &&& s.take(signature_armor_head().len() as int) == signature_armor_head()
    &&& s.skip(s.len() - signature_armor_tail().len()) == signature_armor_tail()
}

/// Calls `StandaloneSignature::to_armored_string` without headers. The
/// contract claims, as the crate's armor writer shows, that the text
/// opens with the `BEGIN PGP SIGNATURE` line and an empty line and
/// closes with the `END PGP SIGNATURE` line; the body is not claimed.
#[verifier::external_body]
fn armored_signature(sig: &pgp::StandaloneSignature) -> (r: Result<String, pgp::errors::Error>)
    ensures
        r matches Ok(s) ==> armored_signature_block(s@),
{
    sig.to_armored_string(None)
}

/// Signs the bytes with the secret key and gives the armored standalone
/// signature; a failure to sign or to armor gives its own error.
pub fn sign(plain: &[u8], key: &pgp::SignedSecretKey) -> (r: Result<String, PgpError>)
    requires
        primary_key_id_computable(*key),
    ensures
        r matches Err(e) ==> (e is SignMessageError || e is ExportSignedMessageToArmorError),
        r matches Ok(s) ==> armored_signature_block(s@),
{
    let sig = match sign_literal(plain, key) {
        Ok(s) => s,
        Err(e) => return Err(PgpError::SignMessageError(e)),
    };
    match armored_signature(&sig) {
        Ok(s) => Ok(s),
        Err(e) => Err(PgpError::ExportSignedMessageToArmorError(e)),
    }
}

/// Whether bytes read as one armored standalone signature.
pub uninterp spec fn signature_armor_reads(bytes: Seq<u8>) -> bool;

/// Reads one armored standalone signature
/// (`Deserializable::from_armor_single`). The contract claims that
/// whether the bytes read is a function of the bytes; the signature
/// read is not claimed.
#[verifier::external_body]
fn signature_from_armor(bytes: &[u8]) -> (r: Result<pgp::StandaloneSignature, pgp::errors::Error>)
    ensures
        r is Ok <==> signature_armor_reads(bytes@),
{
    pgp::StandaloneSignature::from_armor_single(Cursor::new(bytes)).map(|(s, _)| s)
}

/// The bytes covered by a detached signature: the content without its
/// last two bytes, the line break that RFC 3156 counts as part of the
/// MIME delimiter (nothing is left of a shorter content).
pub fn signed_content(content: &[u8]) -> (r: Vec<u8>)
    ensures
        content@.len() >= 2 ==> r@ == content@.subrange(0, content@.len() - 2),
        content@.len() < 2 ==> r@.len() == 0,
{
    let n: usize = if content.len() >= 2 { content.len() - 2 } else { 0 };
    let mut r: Vec<u8> = Vec::new();
    let mut i: usize = 0;
    while i < n
        invariant
            i <= n <= content@.len(),
            n == (if content@.len() >= 2 { content@.len() - 2 } else { 0 }),
            r@ == content@.subrange(0, i as int),
        decreases n - i,
    {
        r.push(content[i]);
        assert(r@ =~= content@.subrange(0, i + 1));
        i += 1;
    }
    r
}

/// The version of the packet of a public key's primary key, as its
/// number.
pub uninterp spec fn primary_key_version_of(key: pgp::SignedPublicKey) -> u8;

/// Reads the version of a public key's primary key
/// (`PublicKey::version`) as its number. The contract claims that it is
/// a function of the key.
#[verifier::external_body]
fn primary_key_version(key: &pgp::SignedPublicKey) -> (r: u8)
    ensures
        r == primary_key_version_of(*key),
{
    key.primary_key.version() as u8
}

/// Calls `StandaloneSignature::verify` with a public key on the
/// content. Verifying computes the key's id, which panics for a version
/// 2 or 3 key that is not RSA, so only version 4 keys are admitted.
/// Nothing is claimed of the outcome.
#[verifier::external_body]
fn signature_verifies(sig: &pgp::StandaloneSignature, key: &pgp::SignedPublicKey, content: &[u8]) -> bool
    requires
        primary_key_version_of(*key) == 4,
{
    sig.verify(key, content).is_ok()
}

/// Verifies the armored standalone signature of a content with each
/// public key, the content taken without its last two bytes. A key that
/// does not verify it is only reported, and keys older than version 4,
/// whose id cannot always be computed, are passed over; the function
/// fails only when the signature cannot be read.
pub fn verify(content: &[u8], signature: &[u8], public_keys: &[pgp::SignedPublicKey]) -> (r: Result<(), PgpError>)
    ensures
        r matches Err(e) ==> e is ImportSignatureFromArmorError,
        r is Ok <==> signature_armor_reads(signature@),
{
    let sig = match signature_from_armor(signature) {
        Ok(s) => s,
        Err(e) => return Err(PgpError::ImportSignatureFromArmorError(e)),
    };
    let signed = signed_content(content);
    let mut i: usize = 0;
    while i < public_keys.len()
        invariant
            i <= public_keys.len(),
        decreases public_keys.len() - i,
    {
        if primary_key_version(&public_keys[i]) == 4 {
            let _verified = signature_verifies(&sig, &public_keys[i], signed.as_slice());
        }
        i += 1;
    }
    Ok(())
}

/// The message that `Deserializable::from_armor_single` reads from the
/// bytes, when they read as one armored message.
pub uninterp spec fn armored_message(bytes: Seq<u8>) -> Option<pgp::Message>;

/// Reads one armored message (`Deserializable::from_armor_single`). The
/// contract claims that what is read is a function of the bytes.
#[verifier::external_body]
fn message_from_armor(bytes: Vec<u8>) -> (r: Result<pgp::Message, pgp::errors::Error>)
    ensures
        match r {
            Ok(m) => armored_message(bytes@) == Some(m),
            Err(_) => armored_message(bytes@) is None,
        },
{
    pgp::Message::from_armor_single(Cursor::new(bytes)).map(|(m, _)| m)
}

/// The messages that `Message::decrypt` yields for the message with the
/// secret key and an empty passphrase, when it decrypts.
pub uninterp spec fn decrypted_messages(msg: pgp::Message, key: pgp::SignedSecretKey) -> Option<Seq<pgp::Message>>;

/// Decrypts a message with the secret key and an empty passphrase
/// (`Message::decrypt`) and collects the messages it holds. The contract
/// claims that the outcome is a function of the message and the key:
/// decrypting takes the session key out of the message with the secret
/// key, which involves no chance. Finding that key computes the ids of
/// the primary key and of every subkey, so all must be of version 4.
#[verifier::external_body]
fn decrypt_message(msg: &pgp::Message, key: &pgp::SignedSecretKey) -> (r: Result<Vec<pgp::Message>, pgp::errors::Error>)
    requires
        key_ids_computable(*key),
    ensures
        match r {
            Ok(v) => decrypted_messages(*msg, *key) == Some(v@),
            Err(_) => decrypted_messages(*msg, *key) is None,
        },
{
    msg.decrypt(|| String::new(), &[key]).and_then(|(d, _)| d.collect())
}

/// The message that `Message::decompress` gives, when it decompresses.
pub uninterp spec fn decompressed_message(msg: pgp::Message) -> Option<pgp::Message>;

/// Calls `Message::decompress`. The contract claims that the outcome is
/// a function of the message.
#[verifier::external_body]
fn decompress_message(msg: pgp::Message) -> (r: Result<pgp::Message, pgp::errors::Error>)
    ensures
        match r {
            Ok(m) => decompressed_message(msg) == Some(m),
            Err(_) => decompressed_message(msg) is None,
        },
{
    msg.decompress()
}

/// What `Message::get_content` gives for the message, when it succeeds:
/// its content, if it has one.
pub uninterp spec fn message_content_of(msg: pgp::Message) -> Option<Option<Seq<u8>>>;

/// Calls `Message::get_content`. The contract claims that the outcome
/// is a function of the message.
#[verifier::external_body]
fn message_content(msg: &pgp::Message) -> (r: Result<Option<Vec<u8>>, pgp::errors::Error>)
    ensures
        match r {
            Ok(Some(c)) => message_content_of(*msg) == Some(Some(c@)),
            Ok(None) => message_content_of(*msg) == Some(None::<Seq<u8>>),
            Err(_) => message_content_of(*msg) is None,
        },
{
    msg.get_content()
}

/// The content of the first message of a decrypted message, the error
/// `GetMessageEmptyError` when there is none.
pub fn first_message(msgs: Vec<pgp::Message>) -> (r: Result<pgp::Message, PgpError>)
    ensures
        msgs@.len() == 0 <==> r matches Err(PgpError::GetMessageEmptyError),
        msgs@.len() > 0 ==> r == Ok::<pgp::Message, PgpError>(msgs@[0]),
{
    let mut msgs = msgs;
    if msgs.len() == 0 {
        Err(PgpError::GetMessageEmptyError)
    } else {
        Ok(msgs.remove(0))
    }
}

/// What decrypting the armored message `ctext` with the key gives: the
/// error of the first step that fails, or the content of the first
/// message it holds, decompressed.
pub open spec fn decrypt_outcome(ctext: Seq<u8>, key: pgp::SignedSecretKey, r: Result<Vec<u8>, PgpError>) -> bool {
    match armored_message(ctext) {
        None => r matches Err(PgpError::ImportMessageFromArmorError(_)),
        Some(msg) => match decrypted_messages(msg, key) {
            None => r matches Err(PgpError::DecryptMessageError(_)),
            Some(msgs) => if msgs.len() == 0 {
                r matches Err(PgpError::GetMessageEmptyError)
            } else {
                match decompressed_message(msgs[0]) {
                    None => r matches Err(PgpError::DecompressMessageError(_)),
                    Some(plain) => match message_content_of(plain) {
                        None => r matches Err(PgpError::GetMessageContentError(_)),
                        Some(None) => r matches Err(PgpError::GetMessageContentEmptyError),
                        Some(Some(c)) => r matches Ok(content) && content@ == c,
                    },
                }
            },
        },
    }
}

/// Decrypts an armored message with the secret key and gives the
/// content of the first message it holds, decompressed. Each failing
/// step gives its own error; no message, or a message without content,
/// gives `GetMessageEmptyError` or `GetMessageContentEmptyError`.
pub fn decrypt(ctext: Vec<u8>, key: &pgp::SignedSecretKey) -> (r: Result<Vec<u8>, PgpError>)
    requires
        key_ids_computable(*key),
    ensures
        decrypt_outcome(ctext@, *key, r),
{
    let msg = match message_from_armor(ctext) {
        Ok(m) => m,
        Err(e) => return Err(PgpError::ImportMessageFromArmorError(e)),
    };
    let msgs = match decrypt_message(&msg, key) {
        Ok(m) => m,
        Err(e) => return Err(PgpError::DecryptMessageError(e)),
    };
    let first = match first_message(msgs) {
        Ok(m) => m,
        Err(e) => return Err(e),
    };
    let plain = match decompress_message(first) {
        Ok(m) => m,
        Err(e) => return Err(PgpError::DecompressMessageError(e)),
    };
    match message_content(&plain) {
        Ok(Some(c)) => Ok(c),
        Ok(None) => Err(PgpError::GetMessageContentEmptyError),
        Err(e) => Err(PgpError::GetMessageContentError(e)),
    }
}

/// Signs the bytes as `sign` does, when the key's packets are all of
/// version 4; `None` for an older key, whose id cannot always be
/// computed.
pub fn sign_with_current_key(plain: &[u8], key: &pgp::SignedSecretKey) -> (r: Option<Result<String, PgpError>>)
    ensures
        r is None <==> !key_ids_computable(*key),
        r matches Some(Ok(s)) ==> armored_signature_block(s@),
        r matches Some(Err(e)) ==> (e is SignMessageError || e is ExportSignedMessageToArmorError),
{
    if has_current_key_packets(key) {
        Some(sign(plain, key))
    } else {
        None
    }
}

/// Decrypts the armored message as `decrypt` does, when the key's
/// packets are all of version 4; `None` for an older key, whose ids
/// cannot always be computed.
pub fn decrypt_with_current_key(ctext: Vec<u8>, key: &pgp::SignedSecretKey) -> (r: Option<Result<Vec<u8>, PgpError>>)
    ensures
        r is None <==> !key_ids_computable(*key),
        r matches Some(x) ==> decrypt_outcome(ctext@, *key, x),
{
    if has_current_key_packets(key) {
        Some(decrypt(ctext, key))
    } else {
        None
    }
}

} // verus!
