//! The errors that end a pipeline.
use vstd::prelude::*;

verus! {

/// Failure of the operating system on a read or a write, or of the
/// compression service, carried through unread.
#[verifier::external_type_specification]
#[verifier::external_body]
pub struct ExIoError(std::io::Error);

/// Failure of the signature scheme, carried through unread.
#[verifier::external_type_specification]
#[verifier::external_body]
pub struct ExSignatureError(ed25519_dalek::SignatureError);

/// Failure to read or write a private key document, carried through unread.
#[verifier::external_type_specification]
#[verifier::external_body]
pub struct ExPrivateKeyError(ed25519_dalek::pkcs8::Error);

/// Failure to read or write a public key document, carried through unread.
#[verifier::external_type_specification]
#[verifier::external_body]
pub struct ExPublicKeyError(ed25519_dalek::pkcs8::spki::Error);

/// Why a bundle could not be encoded.
#[derive(Debug, Clone, Copy, PartialEq, Eq, Structural)]
pub enum EncodingError {
    /// The payload leaves no room for the header within the largest buffer
    /// this machine can address.
    TooLong { payload_length: usize },
}

/// Why a byte stream is not a well-formed bundle.
#[derive(Debug, Clone, Copy, PartialEq, Eq, Structural)]
pub enum DecodingError {
    /// The stream ends before the fixed-width header does.
    Truncated { length: usize },
    /// The declared payload length is not the number of bytes that follow the
    /// header.
    LengthMismatch { declared: u64, remaining: usize },
}

/// Why content could not be compressed.
#[derive(Debug)]
pub enum CompressionError {
    /// The compression service reported a failure.
    Service(std::io::Error),
    /// The content is so long that the buffer for its compressed form would
    /// be beyond what this machine can allocate.
    TooLong { length: usize },
}

/// Why a payload could not be decompressed to the original content.
#[derive(Debug)]
pub enum DecompressionError {
    /// The compression service rejected the payload: it is malformed, or its
    /// content did not fit in the room for the declared original size.
    Corrupt(std::io::Error),
    /// The payload decompressed to another number of bytes than the declared
    /// original size.
    SizeMismatch { declared: u64, actual: usize },
    /// This machine has no room for a buffer of the declared original size.
    Oversized { declared: u64 },
}

/// The tagged error every pipeline reports.
#[derive(Debug)]
pub enum BinsignError {
    /// A file could not be read or written.
    FileIO(std::io::Error),
    /// A freshly generated private key could not be serialized.
    PrivateKeySerialization(ed25519_dalek::pkcs8::Error),
    /// A freshly generated public key could not be serialized.
    PublicKeySerialization(ed25519_dalek::pkcs8::spki::Error),
    /// The private key document is malformed.
    PrivateKeyDeserialization(ed25519_dalek::pkcs8::Error),
    /// The public key document is malformed.
    PublicKeyDeserialization(ed25519_dalek::pkcs8::spki::Error),
    /// The signature scheme failed to sign the digest.
    Signing(ed25519_dalek::SignatureError),
    /// The signature does not match the recovered content and the public key.
    Verification(ed25519_dalek::SignatureError),
    /// The bundle could not be encoded.
    FileEncoding(EncodingError),
    /// The byte stream is not a well-formed bundle.
    FileDecoding(DecodingError),
    /// The compression service failed on the original content.
    ZstdCompression(CompressionError),
    /// The payload is corrupt or inconsistent with the declared original size.
    ZstdDecompression(DecompressionError),
}

} // verus!
