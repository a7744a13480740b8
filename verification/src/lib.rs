//! Sign a file and bundle the signature with a compressed copy of its content,
//! and later open such a bundle, check it and recover the content.
//!
//! The library never touches the file system, the operating system's entropy
//! source or the signature scheme itself. A pipeline says what has to happen
//! next in a [`commands::Request`]; whoever drives it carries the request out
//! and hands back a [`commands::Reply`].
use vstd::prelude::*;
use ed25519_dalek::{SigningKey, VerifyingKey};

pub mod blake;
pub mod commands;
pub mod compression;
pub mod error;
pub mod keys;
pub mod signed_file;

pub use blake::BlakeHasher;
pub use commands::{Reply, Request};
pub use error::BinsignError;
pub use signed_file::SignedFile;

verus! {

/// A hasher that has been fed `file_data` and nothing else.
pub fn get_file_hasher(file_data: &[u8]) -> (hasher: BlakeHasher)
    ensures
        hasher@ == file_data@,
{
    let mut hasher = BlakeHasher::new();
    hasher.update(file_data);
    assert(Seq::<u8>::empty() + file_data@ =~= file_data@);
    hasher
}

/// How far a sign pipeline has come.
#[derive(Debug)]
pub enum SignStage {
    /// The private key document has been asked for.
    AwaitingKey { file_path: String, output_path: String, compression_level: i32 },
    /// The file to sign has been asked for.
    AwaitingFile { signing_key: SigningKey, output_path: String, compression_level: i32 },
    /// The signature on the digest of `content` has been asked for.
    AwaitingSignature { content: Vec<u8>, output_path: String, compression_level: i32 },
    /// The bundle has been handed over for writing.
    AwaitingWrite,
    /// The pipeline has ended.
    Finished,
}

/// How far a verify pipeline has come.
#[derive(Debug)]
pub enum VerifyStage {
    /// The public key document has been asked for.
    AwaitingKey { file_path: String, output_path: String },
    /// The bundle has been asked for.
    AwaitingFile { verifying_key: VerifyingKey, output_path: String },
    /// The verdict on the signature and the digest of `content` has been
    /// asked for.
    AwaitingVerdict { content: Vec<u8>, output_path: String },
    /// The content has been handed over for writing.
    AwaitingWrite,
    /// The pipeline has ended.
    Finished,
}

impl SignStage {
    /// Whether the pipeline holds the key and these settings, and waits for
    /// the file.
    pub open spec fn awaits_file(self, secret: Seq<u8>, output: Seq<char>, level: i32) -> bool {
        self matches SignStage::AwaitingFile { signing_key, output_path, compression_level }
            && keys::secret_bytes(signing_key) == secret && output_path@ == output
            && compression_level == level
    }

    /// Whether the pipeline holds the file's bytes and these settings, and
    /// waits for the signature.
    pub open spec fn awaits_signature(self, file: Seq<u8>, output: Seq<char>, level: i32) -> bool {
        self matches SignStage::AwaitingSignature { content, output_path, compression_level }
            && content@ == file && output_path@ == output && compression_level == level
    }
}

impl VerifyStage {
    /// Whether the pipeline holds the key and the output path, and waits for
    /// the bundle.
    pub open spec fn awaits_file(self, public: Seq<u8>, output: Seq<char>) -> bool {
        self matches VerifyStage::AwaitingFile { verifying_key, output_path }
            && keys::public_bytes(verifying_key) == public && output_path@ == output
    }

    /// Whether the pipeline holds the recovered content and the output path,
    /// and waits for the verdict.
    pub open spec fn awaits_verdict(self, recovered: Seq<u8>, output: Seq<char>) -> bool {
        self matches VerifyStage::AwaitingVerdict { content, output_path } && content@
            == recovered && output_path@ == output
    }
}

/// The steps of the sign pipeline: the key, then the file, then the signature
/// on the digest of the file's bytes as they were read, then compression and
/// the bundle, then the write. `res` is `None` exactly where `reply` does not
/// answer what `stage` has asked for.
pub open spec fn sign_step(stage: SignStage, reply: Reply, res: Option<(SignStage, Request)>)
    -> bool {
    match (stage, reply) {
        (
            SignStage::AwaitingKey { file_path, output_path, compression_level },
            Reply::FileRead(read),
        ) => res matches Some((next, request)) && match read {
            Err(e) => next is Finished && request.fails_with(BinsignError::FileIO(e)),
            Ok(document) => match keys::pkcs8_secret(document@) {
                None => next is Finished && request.failure() is Some && request.failure()->0
                    is PrivateKeyDeserialization,
                Some(secret) => request.reads(file_path@) && next.awaits_file(
                    secret,
                    output_path@,
                    compression_level,
                ),
            },
        },
        (
            SignStage::AwaitingFile { signing_key, output_path, compression_level },
            Reply::FileRead(read),
        ) => res matches Some((next, request)) && match read {
            Err(e) => next is Finished && request.fails_with(BinsignError::FileIO(e)),
            Ok(file) => request.asks_signature(keys::secret_bytes(signing_key), file@)
                && next.awaits_signature(
                file@,
                output_path@,
                compression_level,
            ),
        },
        (
            SignStage::AwaitingSignature { content, output_path, compression_level },
            Reply::Signed(signed),
        ) => res matches Some((next, request)) && match signed {
            Err(e) => next is Finished && request.fails_with(BinsignError::Signing(e)),
            Ok(signature) => match signed_file::sealed(
                content@,
                signature@,
                compression_level as int,
            ) {
                Some(stream) => next is AwaitingWrite && request.writes(output_path@, stream)
                    && signed_file::recovered(stream) == Some((signature@, content@)),
                None => next is Finished && request.failure() is Some
                    && signed_file::sealing_failure(
                    content@,
                    compression_level as int,
                    request.failure()->0,
                ),
            },
        },
        (SignStage::AwaitingWrite, Reply::FileWritten(outcome)) => res matches Some(
            (next, request),
        ) && next is Finished && request == commands::written(outcome),
        _ => res is None,
    }
}

/// Takes the sign pipeline one step further.
pub fn sign_file(stage: SignStage, reply: Reply) -> (res: Option<(SignStage, Request)>)
    ensures
        sign_step(stage, reply, res),
{
    match (stage, reply) {
        (
            SignStage::AwaitingKey { file_path, output_path, compression_level },
            Reply::FileRead(read),
        ) => {
            match keys::read_keypair_from_file(read) {
                Ok((signing_key, _)) => Some(
                    (
                        SignStage::AwaitingFile { signing_key, output_path, compression_level },
                        Request::ReadFile { path: file_path },
                    ),
                ),
                Err(e) => Some((SignStage::Finished, Request::Done(Err(e)))),
            }
        },
        (
            SignStage::AwaitingFile { signing_key, output_path, compression_level },
            Reply::FileRead(read),
        ) => {
            match read {
                Ok(content) => {
                    let hasher = get_file_hasher(content.as_slice());
                    Some(
                        (
                            SignStage::AwaitingSignature { content, output_path, compression_level },
                            Request::Sign { signing_key, hasher },
                        ),
                    )
                },
                Err(e) => Some((SignStage::Finished, Request::Done(Err(BinsignError::FileIO(e))))),
            }
        },
        (
            SignStage::AwaitingSignature { content, output_path, compression_level },
            Reply::Signed(signed),
        ) => {
            let signature = match signed {
                Ok(signature) => signature,
                Err(e) => {
                    return Some(
                        (SignStage::Finished, Request::Done(Err(BinsignError::Signing(e)))),
                    );
                },
            };
            let bundle = match SignedFile::seal(content.as_slice(), signature, compression_level) {
                Ok(bundle) => bundle,
                Err(e) => { return Some((SignStage::Finished, Request::Done(Err(e)))); },
            };
            proof {
                bundle.lemma_constructible();
                signed_file::lemma_recover_encoded(bundle@);
            }
            match bundle.encode() {
                Ok(stream) => Some(
                    (
                        SignStage::AwaitingWrite,
                        Request::WriteFile { path: output_path, content: stream },
                    ),
                ),
                Err(e) => Some((SignStage::Finished, Request::Done(Err(e)))),
            }
        },
        (SignStage::AwaitingWrite, Reply::FileWritten(outcome)) => {
            match outcome {
                Ok(()) => Some((SignStage::Finished, Request::Done(Ok(())))),
                Err(e) => Some((SignStage::Finished, Request::Done(Err(BinsignError::FileIO(e))))),
            }
        },
        _ => None,
    }
}

/// Whether `error` is a decompression error that may come of a bundle with
/// this content: any kind where the bundle is not sound, and for a sound
/// bundle only a refusal by the compression service or the allocator.
pub open spec fn refuses_payload(error: BinsignError, content: Option<Seq<u8>>) -> bool {
    error matches BinsignError::ZstdDecompression(kind) && (content is Some ==> kind is Corrupt
        || kind is Oversized)
}

/// The steps of the verify pipeline: the key, then the bundle, which is
/// decoded, decompressed and hashed, then the verdict on the signature, then
/// the write. Content is handed over for writing in one case only: the
/// verdict on its own digest was an acceptance. `res` is `None` exactly where
/// `reply` does not answer what `stage` has asked for.
pub open spec fn verify_step(stage: VerifyStage, reply: Reply, res: Option<(VerifyStage, Request)>)
    -> bool {
    match (stage, reply) {
        (VerifyStage::AwaitingKey { file_path, output_path }, Reply::FileRead(read)) =>
            res matches Some((next, request)) && match read {
            Err(e) => next is Finished && request.fails_with(BinsignError::FileIO(e)),
            Ok(document) => match keys::spki_public(document@) {
                None => next is Finished && request.failure() is Some && request.failure()->0
                    is PublicKeyDeserialization,
                Some(public) => request.reads(file_path@) && next.awaits_file(
                    public,
                    output_path@,
                ),
            },
        },
        (VerifyStage::AwaitingFile { verifying_key, output_path }, Reply::FileRead(read)) =>
            res matches Some((next, request)) && match read {
            Err(e) => next is Finished && request.fails_with(BinsignError::FileIO(e)),
            Ok(stream) => match signed_file::decoding(stream@) {
                None => next is Finished && request.fails_with(
                    BinsignError::FileDecoding(signed_file::decoding_fault(stream@)),
                ),
                Some(bundle) => match request.failure() {
                    Some(error) => next is Finished && refuses_payload(error, bundle.content()),
                    None => bundle.content() is Some && request.asks_verdict(
                        keys::public_bytes(verifying_key),
                        bundle.content()->0,
                        bundle.signature,
                    ) && next.awaits_verdict(bundle.content()->0, output_path@),
                },
            },
        },
        (VerifyStage::AwaitingVerdict { content, output_path }, Reply::Verified(verdict)) =>
            res matches Some((next, request)) && match verdict {
            Err(e) => next is Finished && request.fails_with(BinsignError::Verification(e)),
            Ok(()) => next is AwaitingWrite && request.writes(output_path@, content@),
        },
        (VerifyStage::AwaitingWrite, Reply::FileWritten(outcome)) => res matches Some(
            (next, request),
        ) && next is Finished && request == commands::written(outcome),
        _ => res is None,
    }
}

/// Takes the verify pipeline one step further.
pub fn verify_file(stage: VerifyStage, reply: Reply) -> (res: Option<(VerifyStage, Request)>)
    ensures
        verify_step(stage, reply, res),
{
    match (stage, reply) {
        (VerifyStage::AwaitingKey { file_path, output_path }, Reply::FileRead(read)) => {
            match keys::read_verifying_key_from_file(read) {
                Ok(verifying_key) => Some(
                    (
                        VerifyStage::AwaitingFile { verifying_key, output_path },
                        Request::ReadFile { path: file_path },
                    ),
                ),
                Err(e) => Some((VerifyStage::Finished, Request::Done(Err(e)))),
            }
        },
        (VerifyStage::AwaitingFile { verifying_key, output_path }, Reply::FileRead(read)) => {
            let stream = match read {
                Ok(stream) => stream,
                Err(e) => {
                    return Some(
                        (VerifyStage::Finished, Request::Done(Err(BinsignError::FileIO(e)))),
                    );
                },
            };
            let bundle = match SignedFile::decode(stream) {
                Ok(bundle) => bundle,
                Err(e) => { return Some((VerifyStage::Finished, Request::Done(Err(e)))); },
            };
            let content = match bundle.open() {
                Ok(content) => content,
                Err(e) => { return Some((VerifyStage::Finished, Request::Done(Err(e)))); },
            };
            let hasher = get_file_hasher(content.as_slice());
            Some(
                (
                    VerifyStage::AwaitingVerdict { content, output_path },
                    Request::Verify { verifying_key, hasher, signature: bundle.signature },
                ),
            )
        },
        (VerifyStage::AwaitingVerdict { content, output_path }, Reply::Verified(verdict)) => {
            match verdict {
                Ok(()) => Some(
                    (VerifyStage::AwaitingWrite, Request::WriteFile { path: output_path, content }),
                ),
                Err(e) => Some(
                    (VerifyStage::Finished, Request::Done(Err(BinsignError::Verification(e)))),
                ),
            }
        },
        (VerifyStage::AwaitingWrite, Reply::FileWritten(outcome)) => {
            match outcome {
                Ok(()) => Some((VerifyStage::Finished, Request::Done(Ok(())))),
                Err(e) => Some(
                    (VerifyStage::Finished, Request::Done(Err(BinsignError::FileIO(e)))),
                ),
            }
        },
        _ => None,
    }
}

/// Sign, then verify: the bundle that the sign pipeline hands over for
/// writing, read back by a verify pipeline, makes it ask for the verdict on
/// the very signature that was bundled and on the digest of the very bytes
/// that were signed, whatever the compression level was. Once that verdict is
/// an acceptance, those bytes are what the verify pipeline writes. The one
/// other way on is a refusal by the compression service or the allocator.
pub proof fn lemma_signed_bundle_verifies(
    signing: SignStage,
    signature: [u8; 64],
    signed: (SignStage, Request),
    verifying: VerifyStage,
    stream: Vec<u8>,
    res: Option<(VerifyStage, Request)>,
)
    requires
        signing is AwaitingSignature,
        sign_step(signing, Reply::Signed(Ok(signature)), Some(signed)),
        signed matches (_, Request::WriteFile { content, .. }) && content@ == stream@,
        verifying is AwaitingFile,
        verify_step(verifying, Reply::FileRead(Ok(stream)), res),
    ensures
        ({
            &&& res matches Some((next, request))
            &&& signing matches SignStage::AwaitingSignature { content, .. }
            &&& verifying matches VerifyStage::AwaitingFile { verifying_key, output_path }
            &&& match request.failure() {
                Some(error) => refuses_payload(error, Some(content@)),
                None => {
                    &&& request.asks_verdict(
                        keys::public_bytes(verifying_key),
                        content@,
                        signature@,
                    )
                    &&& next.awaits_verdict(content@, output_path@)
                    &&& forall|after: VerifyStage, write: Request|
                        verify_step(next, Reply::Verified(Ok(())), Some((after, write)))
                            ==> write.writes(output_path@, content@)
                },
            }
        }),
{
}

/// The verify pipeline is a strict gate: it hands content over for writing
/// only in answer to an accepting verdict, and then it is the content whose
/// digest the verdict was asked on.
pub proof fn lemma_verify_writes_only_accepted(
    stage: VerifyStage,
    reply: Reply,
    next: VerifyStage,
    request: Request,
)
    requires
        verify_step(stage, reply, Some((next, request))),
        request is WriteFile,
    ensures
        reply matches Reply::Verified(verdict) && verdict is Ok,
        stage matches VerifyStage::AwaitingVerdict { content, output_path } && request.writes(
            output_path@,
            content@,
        ),
{
}

/// The sign pipeline fails fast: an error from any step ends it on the spot,
/// with no request to write, and once ended it takes no further reply.
pub proof fn lemma_sign_fails_fast(
    stage: SignStage,
    reply: Reply,
    res: Option<(SignStage, Request)>,
)
    requires
        sign_step(stage, reply, res),
    ensures
        stage is Finished ==> res is None,
        res matches Some((next, request)) ==> (request is Done <==> next is Finished),
{
}

/// The verify pipeline fails fast: an error from any step ends it on the
/// spot, with no request to write, and once ended it takes no further reply.
pub proof fn lemma_verify_fails_fast(
    stage: VerifyStage,
    reply: Reply,
    res: Option<(VerifyStage, Request)>,
)
    requires
        verify_step(stage, reply, res),
    ensures
        stage is Finished ==> res is None,
        res matches Some((next, request)) ==> (request is Done <==> next is Finished),
{
}

} // verus!
