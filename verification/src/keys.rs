//! Key manipulation: documents to keys, and a seed to a fresh pair of
//! documents.
use vstd::prelude::*;
use ed25519_dalek::pkcs8::{DecodePrivateKey, DecodePublicKey, EncodePrivateKey, EncodePublicKey};
use ed25519_dalek::{SigningKey, VerifyingKey};
use rand_chacha::rand_core::SeedableRng;
use rand_chacha::ChaCha20Rng;
use crate::commands::{Reply, Request};
use crate::error::BinsignError;

verus! {

/// The private key, held without looking inside.
#[verifier::external_type_specification]
#[verifier::external_body]
pub struct ExSigningKey(SigningKey);

/// The public key, held without looking inside.
#[verifier::external_type_specification]
#[verifier::external_body]
pub struct ExVerifyingKey(VerifyingKey);

/// The 32 secret bytes that a private key holds.
pub uninterp spec fn secret_bytes(key: SigningKey) -> Seq<u8>;

/// The 32 bytes of the compressed point that a public key holds.
pub uninterp spec fn public_bytes(key: VerifyingKey) -> Seq<u8>;

/// The secret bytes of the private key in a PKCS#8 document in DER, or `None`
/// where the document holds no such key.
pub uninterp spec fn pkcs8_secret(document: Seq<u8>) -> Option<Seq<u8>>;

/// The bytes of the public key in a SubjectPublicKeyInfo document in DER, or
/// `None` where the document holds no such key.
pub uninterp spec fn spki_public(document: Seq<u8>) -> Option<Seq<u8>>;

/// The bytes of the public key that belongs to the private key with these
/// secret bytes.
pub uninterp spec fn ed25519_public(secret: Seq<u8>) -> Seq<u8>;

/// The secret bytes of the private key that the ChaCha20 generator seeded
/// with `seed` yields first.
pub uninterp spec fn chacha20_secret(seed: Seq<u8>) -> Seq<u8>;

/// The PKCS#8 document in DER for the private key with these secret bytes,
/// or `None` where it cannot be written.
pub uninterp spec fn pkcs8_document(secret: Seq<u8>) -> Option<Seq<u8>>;

/// The SubjectPublicKeyInfo document in DER for the public key with these
/// bytes, or `None` where it cannot be written.
pub uninterp spec fn spki_document(public: Seq<u8>) -> Option<Seq<u8>>;

/// `SigningKey::from_pkcs8_der`, through `pkcs8::DecodePrivateKey`: parses a
/// private key document. Whether it parses, and to which key, depends on the
/// bytes alone.
#[verifier::external_body]
fn signing_key_from_document(document: &[u8]) -> (res: Result<
    SigningKey,
    ed25519_dalek::pkcs8::Error,
>)
    ensures
        match res {
            Ok(key) => pkcs8_secret(document@) == Some(secret_bytes(key)),
            Err(_) => pkcs8_secret(document@) is None,
        },
{
    SigningKey::from_pkcs8_der(document)
}

/// `VerifyingKey::from_public_key_der`, through `spki::DecodePublicKey`:
/// parses a public key document. Whether it parses, and to which key,
/// depends on the bytes alone.
#[verifier::external_body]
fn verifying_key_from_document(document: &[u8]) -> (res: Result<
    VerifyingKey,
    ed25519_dalek::pkcs8::spki::Error,
>)
    ensures
        match res {
            Ok(key) => spki_public(document@) == Some(public_bytes(key)),
            Err(_) => spki_public(document@) is None,
        },
{
    VerifyingKey::from_public_key_der(document)
}

/// `SigningKey::verifying_key`: the public half that the private key carries,
/// which is the public key of its secret bytes.
#[verifier::external_body]
fn verifying_key_of(key: &SigningKey) -> (public: VerifyingKey)
    ensures
        public_bytes(public) == ed25519_public(secret_bytes(*key)),
{
    key.verifying_key()
}

/// `ChaCha20Rng::from_seed`, then `SigningKey::generate` on that generator:
/// the key is a function of the seed, since the generator is deterministic
/// and `generate` draws its 32 secret bytes from it and nothing else.
#[verifier::external_body]
fn signing_key_from_seed(seed: [u8; 32]) -> (key: SigningKey)
    ensures
        secret_bytes(key) == chacha20_secret(seed@),
{
    let mut generator = ChaCha20Rng::from_seed(seed);
    SigningKey::generate(&mut generator)
}

/// `SigningKey::to_pkcs8_der`, through `pkcs8::EncodePrivateKey`: the bytes
/// of the private key document.
#[verifier::external_body]
fn document_of_signing_key(key: &SigningKey) -> (res: Result<Vec<u8>, ed25519_dalek::pkcs8::Error>)
    ensures
        match res {
            Ok(document) => pkcs8_document(secret_bytes(*key)) == Some(document@),
            Err(_) => pkcs8_document(secret_bytes(*key)) is None,
        },
{
    key.to_pkcs8_der().map(|document| document.as_bytes().to_vec())
}

/// `VerifyingKey::to_public_key_der`, through `spki::EncodePublicKey`: the
/// bytes of the public key document.
#[verifier::external_body]
fn document_of_verifying_key(key: &VerifyingKey) -> (res: Result<
    Vec<u8>,
    ed25519_dalek::pkcs8::spki::Error,
>)
    ensures
        match res {
            Ok(document) => spki_document(public_bytes(*key)) == Some(document@),
            Err(_) => spki_document(public_bytes(*key)) is None,
        },
{
    key.to_public_key_der().map(|document| document.as_bytes().to_vec())
}

/// The private key in the document that was read at the key's path, with the
/// public key derived from it. A failed read is a file error; a document that
/// does not parse is a private key error.
pub fn read_keypair_from_file(read: Result<Vec<u8>, std::io::Error>) -> (res: Result<
    (SigningKey, VerifyingKey),
    BinsignError,
>)
    ensures
        match read {
            Err(e) => res matches Err(BinsignError::FileIO(f)) && f == e,
            Ok(document) => match pkcs8_secret(document@) {
                Some(secret) => res matches Ok(pair) && secret_bytes(pair.0) == secret
                    && public_bytes(pair.1) == ed25519_public(secret),
                None => res matches Err(BinsignError::PrivateKeyDeserialization(_)),
            },
        },
{
    let document = match read {
        Ok(document) => document,
        Err(e) => { return Err(BinsignError::FileIO(e)); },
    };
    match signing_key_from_document(document.as_slice()) {
        Ok(signing_key) => {
            let verifying_key = verifying_key_of(&signing_key);
            Ok((signing_key, verifying_key))
        },
        Err(e) => Err(BinsignError::PrivateKeyDeserialization(e)),
    }
}

/// The public key in the document that was read at the key's path. A failed
/// read is a file error; a document that does not parse is a public key
/// error.
pub fn read_verifying_key_from_file(read: Result<Vec<u8>, std::io::Error>) -> (res: Result<
    VerifyingKey,
    BinsignError,
>)
    ensures
        match read {
            Err(e) => res matches Err(BinsignError::FileIO(f)) && f == e,
            Ok(document) => match spki_public(document@) {
                Some(public) => res matches Ok(key) && public_bytes(key) == public,
                None => res matches Err(BinsignError::PublicKeyDeserialization(_)),
            },
        },
{
    let document = match read {
        Ok(document) => document,
        Err(e) => { return Err(BinsignError::FileIO(e)); },
    };
    match verifying_key_from_document(document.as_slice()) {
        Ok(verifying_key) => Ok(verifying_key),
        Err(e) => Err(BinsignError::PublicKeyDeserialization(e)),
    }
}

/// The two documents of the key pair that `seed` determines, where both can
/// be written.
pub open spec fn generated_documents(seed: Seq<u8>) -> Option<(Seq<u8>, Seq<u8>)> {
    let secret = chacha20_secret(seed);
    match (pkcs8_document(secret), spki_document(ed25519_public(secret))) {
        (Some(private), Some(public)) => Some((private, public)),
        _ => None,
    }
}

/// Whether `error` is what key generation reports where `seed` gives no pair
/// of documents: the private key's document is tried first.
pub open spec fn generation_failure(seed: Seq<u8>, error: BinsignError) -> bool {
    if pkcs8_document(chacha20_secret(seed)) is None {
        error is PrivateKeySerialization
    } else {
        error is PublicKeySerialization
    }
}

/// A new key pair from 32 bytes of entropy, as the private key document and
/// the public key document. Neither is handed out unless both exist.
pub fn keypair_documents(seed: [u8; 32]) -> (res: Result<(Vec<u8>, Vec<u8>), BinsignError>)
    ensures
        match generated_documents(seed@) {
            Some(documents) => res matches Ok(pair) && pair.0@ == documents.0 && pair.1@
                == documents.1,
            None => res matches Err(error) && generation_failure(seed@, error),
        },
{
    let signing_key = signing_key_from_seed(seed);
    let verifying_key = verifying_key_of(&signing_key);
    let private = match document_of_signing_key(&signing_key) {
        Ok(document) => document,
        Err(e) => { return Err(BinsignError::PrivateKeySerialization(e)); },
    };
    let public = match document_of_verifying_key(&verifying_key) {
        Ok(document) => document,
        Err(e) => { return Err(BinsignError::PublicKeySerialization(e)); },
    };
    Ok((private, public))
}

/// How far the generation of a key pair has come.
#[derive(Debug)]
pub enum GenerateStage {
    /// The entropy for the seed has been asked for.
    AwaitingEntropy { private_key_path: String, public_key_path: String },
    /// The private key document has been handed over for writing.
    AwaitingPrivateWrite { public_key_path: String, public_document: Vec<u8> },
    /// The public key document has been handed over for writing.
    AwaitingPublicWrite,
    /// The pipeline has ended.
    Finished,
}

impl GenerateStage {
    /// Whether the pipeline holds the public key document and its path, and
    /// waits for the private key document to be written.
    pub open spec fn awaits_private_write(self, path: Seq<char>, document: Seq<u8>) -> bool {
        self matches GenerateStage::AwaitingPrivateWrite { public_key_path, public_document }
            && public_key_path@ == path && public_document@ == document
    }
}

/// The steps of key generation: the entropy, then both documents, then the
/// private key's file, then the public key's. Nothing is written unless both
/// documents exist. `res` is `None` exactly where `reply` does not answer what
/// `stage` has asked for.
pub open spec fn generate_step(
    stage: GenerateStage,
    reply: Reply,
    res: Option<(GenerateStage, Request)>,
) -> bool {
    match (stage, reply) {
        (
            GenerateStage::AwaitingEntropy { private_key_path, public_key_path },
            Reply::Entropy(seed),
        ) => res matches Some((next, request)) && match generated_documents(seed@) {
            None => next is Finished && request.failure() is Some && generation_failure(
                seed@,
                request.failure()->0,
            ),
            Some(documents) => request.writes(private_key_path@, documents.0)
                && next.awaits_private_write(public_key_path@, documents.1),
        },
        (
            GenerateStage::AwaitingPrivateWrite { public_key_path, public_document },
            Reply::FileWritten(outcome),
        ) => res matches Some((next, request)) && match outcome {
            Err(e) => next is Finished && request.fails_with(BinsignError::FileIO(e)),
            Ok(()) => next is AwaitingPublicWrite && request.writes(
                public_key_path@,
                public_document@,
            ),
        },
        (GenerateStage::AwaitingPublicWrite, Reply::FileWritten(outcome)) => res matches Some(
            (next, request),
        ) && next is Finished && request == crate::commands::written(outcome),
        _ => res is None,
    }
}

/// Takes the generation of a key pair one step further.
pub fn generate_keypair(stage: GenerateStage, reply: Reply) -> (res: Option<
    (GenerateStage, Request),
>)
    ensures
        generate_step(stage, reply, res),
{
    match (stage, reply) {
        (
            GenerateStage::AwaitingEntropy { private_key_path, public_key_path },
            Reply::Entropy(seed),
        ) => {
            match keypair_documents(seed) {
                Ok((private_document, public_document)) => Some(
                    (
                        GenerateStage::AwaitingPrivateWrite { public_key_path, public_document },
                        Request::WriteFile { path: private_key_path, content: private_document },
                    ),
                ),
                Err(e) => Some((GenerateStage::Finished, Request::Done(Err(e)))),
            }
        },
        (
            GenerateStage::AwaitingPrivateWrite { public_key_path, public_document },
            Reply::FileWritten(outcome),
        ) => {
            match outcome {
                Ok(()) => Some(
                    (
                        GenerateStage::AwaitingPublicWrite,
                        Request::WriteFile { path: public_key_path, content: public_document },
                    ),
                ),
                Err(e) => Some(
                    (GenerateStage::Finished, Request::Done(Err(BinsignError::FileIO(e)))),
                ),
            }
        },
        (GenerateStage::AwaitingPublicWrite, Reply::FileWritten(outcome)) => {
            match outcome {
                Ok(()) => Some((GenerateStage::Finished, Request::Done(Ok(())))),
                Err(e) => Some(
                    (GenerateStage::Finished, Request::Done(Err(BinsignError::FileIO(e)))),
                ),
            }
        },
        _ => None,
    }
}

} // verus!
