use binsign::blake::BlakeHasher;
use binsign::commands::{
    handle_commands, Commands, GenerateArgs, Job, Reply, Request, SignArgs, VerifyArgs,
};
use binsign::error::{BinsignError, DecodingError};
use binsign::keys::keypair_documents;
use binsign::signed_file::SignedFile;
use binsign::{sign_file, verify_file, SignStage, VerifyStage};
use curve25519_dalek::digest::{typenum, FixedOutput, HashMarker, OutputSizeUser, Reset, Update};
use ed25519_dalek::{Signature, SigningKey};
use std::collections::BTreeMap;

/// The hasher as the signature scheme wants to see it.
#[derive(Default)]
struct Prehash(BlakeHasher);

impl Update for Prehash {
    fn update(&mut self, data: &[u8]) {
        self.0.update(data);
    }
}

impl Reset for Prehash {
    fn reset(&mut self) {
        self.0.reset();
    }
}

impl HashMarker for Prehash {}

impl OutputSizeUser for Prehash {
    type OutputSize = typenum::U64;
}

impl FixedOutput for Prehash {
    fn finalize_into(self, out: &mut curve25519_dalek::digest::Output<Self>) {
        let mut digest = [0u8; 64];
        self.0.finalize_into(&mut digest);
        out.copy_from_slice(&digest);
    }
}

/// A file system in memory, and a driver that answers every request from it.
struct Disk {
    files: BTreeMap<String, Vec<u8>>,
    seed: [u8; 32],
    log: Vec<String>,
}

impl Disk {
    fn new() -> Disk {
        Disk { files: BTreeMap::new(), seed: [0x11; 32], log: Vec::new() }
    }

    fn with_keys(seed: [u8; 32]) -> Disk {
        let mut disk = Disk::new();
        let (private, public) = keypair_documents(seed).unwrap();
        disk.files.insert("key.der".to_string(), private);
        disk.files.insert("key.pub".to_string(), public);
        disk
    }

    fn answer(&mut self, request: Request) -> Result<Reply, Result<(), BinsignError>> {
        Ok(match request {
            Request::ReadFile { path } => {
                self.log.push(format!("read {path}"));
                Reply::FileRead(self.files.get(&path).cloned().ok_or_else(|| {
                    std::io::Error::new(std::io::ErrorKind::NotFound, "no such file")
                }))
            }
            Request::Entropy => {
                self.log.push("entropy".to_string());
                Reply::Entropy(self.seed)
            }
            Request::Sign { signing_key, hasher } => {
                self.log.push("sign".to_string());
                Reply::Signed(
                    signing_key.sign_prehashed(Prehash(hasher), None).map(|s| s.to_bytes()),
                )
            }
            Request::Verify { verifying_key, hasher, signature } => {
                self.log.push("verify".to_string());
                Reply::Verified(verifying_key.verify_prehashed(
                    Prehash(hasher),
                    None,
                    &Signature::from_bytes(&signature),
                ))
            }
            Request::WriteFile { path, content } => {
                self.log.push(format!("write {path}"));
                self.files.insert(path, content);
                Reply::FileWritten(Ok(()))
            }
            Request::BuildComplete => {
                self.log.push("complete".to_string());
                Reply::CompleteBuilt
            }
            Request::Done(result) => return Err(result),
        })
    }

    fn run(&mut self, command: Commands) -> Result<(), BinsignError> {
        let (mut job, mut request) = handle_commands(command);
        loop {
            let reply = match self.answer(request) {
                Ok(reply) => reply,
                Err(result) => return result,
            };
            match job.step(reply) {
                Some((next, asked)) => {
                    job = next;
                    request = asked;
                }
                None => panic!("the job refused the answer to its own request"),
            }
        }
    }

    fn sign(&mut self, level: i32) -> Result<(), BinsignError> {
        self.run(Commands::Sign(SignArgs {
            compression_level: level,
            key_path: "key.der".to_string(),
            file_path: "file".to_string(),
            output_file_path: None,
        }))
    }

    fn verify(&mut self, key_path: &str) -> Result<(), BinsignError> {
        self.run(Commands::Verify(VerifyArgs {
            key_path: key_path.to_string(),
            file_path: "file.sig".to_string(),
            output_file_path: None,
        }))
    }
}

fn patterned(length: usize) -> Vec<u8> {
    let mut state: u32 = 0x2545_F491;
    (0..length)
        .map(|i| {
            if i % 4096 == 0 {
                state ^= state << 13;
                state ^= state >> 17;
                state ^= state << 5;
            }
            (state >> ((i % 4) * 8)) as u8 ^ (i / 4096) as u8
        })
        .collect()
}

#[test]
fn verify_recovers_what_sign_bundled() {
    let content = patterned(50_000);
    for level in [-7, 0, 1, 3, 19, 22] {
        let mut disk = Disk::with_keys([0x21; 32]);
        disk.files.insert("file".to_string(), content.clone());
        disk.sign(level).unwrap();
        disk.verify("key.pub").unwrap();
        assert_eq!(disk.files["file.sig.ver"], content);
    }
}

#[test]
fn sign_goes_through_its_steps_in_order() {
    let mut disk = Disk::with_keys([0x21; 32]);
    disk.files.insert("file".to_string(), b"content".to_vec());
    disk.sign(3).unwrap();
    assert_eq!(disk.log, ["read key.der", "read file", "sign", "write file.sig"]);
}

#[test]
fn verify_goes_through_its_steps_in_order() {
    let mut disk = Disk::with_keys([0x21; 32]);
    disk.files.insert("file".to_string(), b"content".to_vec());
    disk.sign(3).unwrap();
    disk.log.clear();
    disk.verify("key.pub").unwrap();
    assert_eq!(disk.log, ["read key.pub", "read file.sig", "verify", "write file.sig.ver"]);
}

#[test]
fn the_bundle_holds_the_signature_of_the_digest_of_the_content() {
    let content = patterned(10_000);
    let mut disk = Disk::with_keys([0x21; 32]);
    disk.files.insert("file".to_string(), content.clone());
    disk.sign(3).unwrap();
    let bundle = SignedFile::decode(disk.files["file.sig"].clone()).unwrap();
    let (private, _) = keypair_documents([0x21; 32]).unwrap();
    let (key, _) = binsign::keys::read_keypair_from_file(Ok(private)).unwrap();
    let expected = key
        .sign_prehashed(Prehash(binsign::get_file_hasher(&content)), None)
        .unwrap()
        .to_bytes();
    assert_eq!(bundle.signature, expected);
    assert_eq!(bundle.file_size, 10_000);
    assert_eq!(bundle.file, zstd::bulk::compress(&content, 3).unwrap());
}

#[test]
fn the_compression_level_does_not_touch_the_signature() {
    let content = patterned(30_000);
    let mut low = Disk::with_keys([0x21; 32]);
    low.files.insert("file".to_string(), content.clone());
    low.sign(1).unwrap();
    let mut high = Disk::with_keys([0x21; 32]);
    high.files.insert("file".to_string(), content);
    high.sign(19).unwrap();
    let low = SignedFile::decode(low.files["file.sig"].clone()).unwrap();
    let high = SignedFile::decode(high.files["file.sig"].clone()).unwrap();
    assert_eq!(low.signature, high.signature);
    assert_ne!(low.file, high.file);
}

#[test]
fn an_empty_file_survives_the_round_trip() {
    let mut disk = Disk::with_keys([0x21; 32]);
    disk.files.insert("file".to_string(), Vec::new());
    disk.sign(3).unwrap();
    let bundle = SignedFile::decode(disk.files["file.sig"].clone()).unwrap();
    assert_eq!(bundle.file_size, 0);
    disk.verify("key.pub").unwrap();
    assert_eq!(disk.files["file.sig.ver"], Vec::<u8>::new());
}

#[test]
fn ten_megabytes_survive_the_round_trip_at_the_highest_level() {
    let content = patterned(10 * 1024 * 1024);
    let mut disk = Disk::with_keys([0x21; 32]);
    disk.files.insert("file".to_string(), content.clone());
    disk.sign(*zstd::compression_level_range().end()).unwrap();
    disk.verify("key.pub").unwrap();
    assert!(disk.files["file.sig.ver"] == content);
}

#[test]
fn a_flipped_bit_in_the_signature_fails_verification() {
    let content = patterned(2_000);
    let mut disk = Disk::with_keys([0x21; 32]);
    disk.files.insert("file".to_string(), content);
    disk.sign(3).unwrap();
    let bundle = disk.files["file.sig"].clone();
    for position in [0usize, 17, 31, 32, 50, 63] {
        for bit in [0u8, 3, 7] {
            let mut tampered = bundle.clone();
            tampered[position] ^= 1 << bit;
            disk.files.insert("file.sig".to_string(), tampered);
            disk.files.remove("file.sig.ver");
            assert!(matches!(disk.verify("key.pub"), Err(BinsignError::Verification(_))));
            assert!(!disk.files.contains_key("file.sig.ver"));
        }
    }
}

#[test]
fn a_flipped_bit_in_the_original_size_fails_verification() {
    let content = patterned(2_000);
    let mut disk = Disk::with_keys([0x21; 32]);
    disk.files.insert("file".to_string(), content);
    disk.sign(3).unwrap();
    let bundle = disk.files["file.sig"].clone();
    for position in 64usize..72 {
        for bit in 0u8..8 {
            let mut tampered = bundle.clone();
            tampered[position] ^= 1 << bit;
            disk.files.insert("file.sig".to_string(), tampered);
            assert!(matches!(disk.verify("key.pub"), Err(BinsignError::ZstdDecompression(_))));
            assert!(!disk.files.contains_key("file.sig.ver"));
        }
    }
}

#[test]
fn a_flipped_bit_in_the_payload_length_fails_decoding() {
    let mut disk = Disk::with_keys([0x21; 32]);
    disk.files.insert("file".to_string(), patterned(2_000));
    disk.sign(3).unwrap();
    let bundle = disk.files["file.sig"].clone();
    for position in 72usize..80 {
        let mut tampered = bundle.clone();
        tampered[position] ^= 1;
        disk.files.insert("file.sig".to_string(), tampered);
        assert!(matches!(
            disk.verify("key.pub"),
            Err(BinsignError::FileDecoding(DecodingError::LengthMismatch { .. }))
        ));
        assert!(!disk.files.contains_key("file.sig.ver"));
    }
}

#[test]
fn a_damaged_payload_never_yields_content() {
    let content = patterned(100_000);
    let mut disk = Disk::with_keys([0x21; 32]);
    disk.files.insert("file".to_string(), content.clone());
    disk.sign(3).unwrap();
    let bundle = disk.files["file.sig"].clone();
    let middle = 80 + (bundle.len() - 80) / 2;
    for position in [80usize, 85, middle, bundle.len() - 1] {
        for bit in [0u8, 4, 7] {
            let mut tampered = bundle.clone();
            tampered[position] ^= 1 << bit;
            disk.files.insert("file.sig".to_string(), tampered);
            disk.files.remove("file.sig.ver");
            match disk.verify("key.pub") {
                Err(BinsignError::ZstdDecompression(_)) | Err(BinsignError::Verification(_)) => {
                    assert!(!disk.files.contains_key("file.sig.ver"))
                }
                Ok(()) => assert!(disk.files["file.sig.ver"] == content),
                Err(_) => panic!("a damaged payload is a decompression or verification error"),
            }
        }
    }
}

#[test]
fn a_corrupt_byte_in_the_middle_of_the_payload_fails_verification() {
    let content = patterned(100_000);
    let mut disk = Disk::with_keys([0x21; 32]);
    disk.files.insert("file".to_string(), content);
    disk.sign(3).unwrap();
    let mut bundle = disk.files["file.sig"].clone();
    let middle = 80 + (bundle.len() - 80) / 2;
    bundle[middle] = !bundle[middle];
    disk.files.insert("file.sig".to_string(), bundle);
    assert!(matches!(
        disk.verify("key.pub"),
        Err(BinsignError::ZstdDecompression(_)) | Err(BinsignError::Verification(_))
    ));
    assert!(!disk.files.contains_key("file.sig.ver"));
}

#[test]
fn another_key_fails_verification() {
    let mut disk = Disk::with_keys([0x21; 32]);
    let (_, other) = keypair_documents([0x22; 32]).unwrap();
    disk.files.insert("other.pub".to_string(), other);
    disk.files.insert("file".to_string(), patterned(5_000));
    disk.sign(3).unwrap();
    assert!(matches!(disk.verify("other.pub"), Err(BinsignError::Verification(_))));
    assert!(!disk.files.contains_key("file.sig.ver"));
    disk.verify("key.pub").unwrap();
}

#[test]
fn a_bundle_of_other_content_fails_verification() {
    let mut disk = Disk::with_keys([0x21; 32]);
    disk.files.insert("file".to_string(), b"what was signed".to_vec());
    disk.sign(3).unwrap();
    let signed = SignedFile::decode(disk.files["file.sig"].clone()).unwrap();
    let forged = SignedFile::seal(b"what was not", signed.signature, 3).unwrap();
    disk.files.insert("file.sig".to_string(), forged.encode().unwrap());
    assert!(matches!(disk.verify("key.pub"), Err(BinsignError::Verification(_))));
    assert!(!disk.files.contains_key("file.sig.ver"));
}

#[test]
fn sign_stops_at_a_missing_key() {
    let mut disk = Disk::new();
    disk.files.insert("file".to_string(), b"content".to_vec());
    assert!(matches!(disk.sign(3), Err(BinsignError::FileIO(_))));
    assert_eq!(disk.log, ["read key.der"]);
}

#[test]
fn sign_stops_at_a_malformed_key() {
    let mut disk = Disk::with_keys([0x21; 32]);
    disk.files.insert("key.der".to_string(), b"not a key".to_vec());
    assert!(matches!(disk.sign(3), Err(BinsignError::PrivateKeyDeserialization(_))));
    assert_eq!(disk.log, ["read key.der"]);
}

#[test]
fn sign_stops_at_a_missing_file() {
    let mut disk = Disk::with_keys([0x21; 32]);
    assert!(matches!(disk.sign(3), Err(BinsignError::FileIO(_))));
    assert_eq!(disk.log, ["read key.der", "read file"]);
    assert!(!disk.files.contains_key("file.sig"));
}

#[test]
fn verify_stops_at_a_malformed_key() {
    let mut disk = Disk::with_keys([0x21; 32]);
    disk.files.insert("file".to_string(), b"content".to_vec());
    disk.sign(3).unwrap();
    disk.log.clear();
    assert!(matches!(disk.verify("key.der"), Err(BinsignError::PublicKeyDeserialization(_))));
    assert_eq!(disk.log, ["read key.der"]);
}

#[test]
fn verify_stops_at_a_malformed_bundle() {
    let mut disk = Disk::with_keys([0x21; 32]);
    disk.files.insert("file.sig".to_string(), vec![0u8; 79]);
    assert!(matches!(
        disk.verify("key.pub"),
        Err(BinsignError::FileDecoding(DecodingError::Truncated { length: 79 }))
    ));
    assert_eq!(disk.log, ["read key.pub", "read file.sig"]);
}

#[test]
fn sign_reports_a_failure_of_the_signature_scheme() {
    let stage = SignStage::AwaitingSignature {
        content: b"content".to_vec(),
        output_path: "file.sig".to_string(),
        compression_level: 3,
    };
    let failure = ed25519_dalek::SignatureError::new();
    let (stage, request) = sign_file(stage, Reply::Signed(Err(failure))).unwrap();
    assert!(matches!(stage, SignStage::Finished));
    assert!(matches!(request, Request::Done(Err(BinsignError::Signing(_)))));
}

#[test]
fn sign_reports_a_failed_write() {
    let full = std::io::Error::new(std::io::ErrorKind::Other, "disk full");
    let (stage, request) =
        sign_file(SignStage::AwaitingWrite, Reply::FileWritten(Err(full))).unwrap();
    assert!(matches!(stage, SignStage::Finished));
    match request {
        Request::Done(Err(BinsignError::FileIO(e))) => assert_eq!(e.to_string(), "disk full"),
        _ => panic!("a failed write is a file error"),
    }
}

#[test]
fn sign_hands_the_bytes_it_read_to_the_signer() {
    let key = SigningKey::from_bytes(&[3u8; 32]);
    let stage = SignStage::AwaitingFile {
        signing_key: key.clone(),
        output_path: "out".to_string(),
        compression_level: 7,
    };
    let (stage, request) = sign_file(stage, Reply::FileRead(Ok(b"abc".to_vec()))).unwrap();
    match request {
        Request::Sign { signing_key, hasher } => {
            assert_eq!(signing_key, key);
            let mut digest = [0u8; 64];
            hasher.finalize_into(&mut digest);
            let mut expected = [0u8; 64];
            blake3::Hasher::new().update(b"abc").finalize_xof().fill(&mut expected);
            assert_eq!(digest, expected);
        }
        _ => panic!("the signature comes after the file"),
    }
    match stage {
        SignStage::AwaitingSignature { content, output_path, compression_level } => {
            assert_eq!(content, b"abc");
            assert_eq!(output_path, "out");
            assert_eq!(compression_level, 7);
        }
        _ => panic!("the pipeline waits for the signature"),
    }
}

#[test]
fn sign_refuses_a_reply_it_did_not_ask_for() {
    assert!(sign_file(SignStage::AwaitingWrite, Reply::CompleteBuilt).is_none());
    assert!(sign_file(SignStage::AwaitingWrite, Reply::FileRead(Ok(Vec::new()))).is_none());
    assert!(sign_file(SignStage::Finished, Reply::FileWritten(Ok(()))).is_none());
    let stage = SignStage::AwaitingKey {
        file_path: "file".to_string(),
        output_path: "file.sig".to_string(),
        compression_level: 3,
    };
    assert!(sign_file(stage, Reply::Signed(Ok([0; 64]))).is_none());
}

#[test]
fn verify_writes_only_after_an_acceptance() {
    let awaiting = || VerifyStage::AwaitingVerdict {
        content: b"content".to_vec(),
        output_path: "out".to_string(),
    };
    let rejection = ed25519_dalek::SignatureError::new();
    let (stage, request) = verify_file(awaiting(), Reply::Verified(Err(rejection))).unwrap();
    assert!(matches!(stage, VerifyStage::Finished));
    assert!(matches!(request, Request::Done(Err(BinsignError::Verification(_)))));
    let (stage, request) = verify_file(awaiting(), Reply::Verified(Ok(()))).unwrap();
    assert!(matches!(stage, VerifyStage::AwaitingWrite));
    match request {
        Request::WriteFile { path, content } => {
            assert_eq!(path, "out");
            assert_eq!(content, b"content");
        }
        _ => panic!("accepted content is written"),
    }
    let (stage, request) = verify_file(stage, Reply::FileWritten(Ok(()))).unwrap();
    assert!(matches!(stage, VerifyStage::Finished));
    assert!(matches!(request, Request::Done(Ok(()))));
}

#[test]
fn verify_refuses_a_reply_it_did_not_ask_for() {
    let awaiting = || VerifyStage::AwaitingVerdict {
        content: b"content".to_vec(),
        output_path: "out".to_string(),
    };
    assert!(verify_file(awaiting(), Reply::FileWritten(Ok(()))).is_none());
    assert!(verify_file(awaiting(), Reply::Signed(Ok([0; 64]))).is_none());
    assert!(verify_file(VerifyStage::AwaitingWrite, Reply::Verified(Ok(()))).is_none());
    assert!(verify_file(VerifyStage::Finished, Reply::Verified(Ok(()))).is_none());
}

#[test]
fn handle_commands_names_the_bundle_after_the_file() {
    let (job, request) = handle_commands(Commands::Sign(SignArgs {
        compression_level: 22,
        key_path: "keys/private.der".to_string(),
        file_path: "dir/report.pdf".to_string(),
        output_file_path: None,
    }));
    match request {
        Request::ReadFile { path } => assert_eq!(path, "keys/private.der"),
        _ => panic!("the key comes first"),
    }
    match job {
        Job::Sign(SignStage::AwaitingKey { file_path, output_path, compression_level }) => {
            assert_eq!(file_path, "dir/report.pdf");
            assert_eq!(output_path, "dir/report.pdf.sig");
            assert_eq!(compression_level, 22);
        }
        _ => panic!("a sign job waits for its key"),
    }
}

#[test]
fn handle_commands_names_the_content_after_the_bundle() {
    let (job, request) = handle_commands(Commands::Verify(VerifyArgs {
        key_path: "keys/public.der".to_string(),
        file_path: "dir/report.pdf.sig".to_string(),
        output_file_path: None,
    }));
    match request {
        Request::ReadFile { path } => assert_eq!(path, "keys/public.der"),
        _ => panic!("the key comes first"),
    }
    match job {
        Job::Verify(VerifyStage::AwaitingKey { file_path, output_path }) => {
            assert_eq!(file_path, "dir/report.pdf.sig");
            assert_eq!(output_path, "dir/report.pdf.sig.ver");
        }
        _ => panic!("a verify job waits for its key"),
    }
}

#[test]
fn handle_commands_keeps_an_explicit_output_path() {
    let (job, _) = handle_commands(Commands::Sign(SignArgs {
        compression_level: 3,
        key_path: "k".to_string(),
        file_path: "f".to_string(),
        output_file_path: Some("elsewhere/bundle".to_string()),
    }));
    match job {
        Job::Sign(SignStage::AwaitingKey { output_path, .. }) => {
            assert_eq!(output_path, "elsewhere/bundle")
        }
        _ => panic!("a sign job waits for its key"),
    }
    let (job, _) = handle_commands(Commands::Verify(VerifyArgs {
        key_path: "k".to_string(),
        file_path: "f".to_string(),
        output_file_path: Some("elsewhere/content".to_string()),
    }));
    match job {
        Job::Verify(VerifyStage::AwaitingKey { output_path, .. }) => {
            assert_eq!(output_path, "elsewhere/content")
        }
        _ => panic!("a verify job waits for its key"),
    }
}

#[test]
fn explicit_output_paths_are_written_to() {
    let mut disk = Disk::with_keys([0x21; 32]);
    disk.files.insert("file".to_string(), b"content".to_vec());
    disk.run(Commands::Sign(SignArgs {
        compression_level: 3,
        key_path: "key.der".to_string(),
        file_path: "file".to_string(),
        output_file_path: Some("bundle".to_string()),
    }))
    .unwrap();
    disk.run(Commands::Verify(VerifyArgs {
        key_path: "key.pub".to_string(),
        file_path: "bundle".to_string(),
        output_file_path: Some("content".to_string()),
    }))
    .unwrap();
    assert_eq!(disk.files["content"], b"content");
    assert!(!disk.files.contains_key("file.sig"));
}

#[test]
fn generate_writes_a_pair_that_signs_and_verifies() {
    let mut disk = Disk::new();
    disk.seed = [0x77; 32];
    disk.run(Commands::Generate(GenerateArgs {
        private_key_path: "key.der".to_string(),
        public_key_path: "key.pub".to_string(),
    }))
    .unwrap();
    assert_eq!(disk.log, ["entropy", "write key.der", "write key.pub"]);
    let (private, public) = keypair_documents([0x77; 32]).unwrap();
    assert_eq!(disk.files["key.der"], private);
    assert_eq!(disk.files["key.pub"], public);
    disk.files.insert("file".to_string(), b"content".to_vec());
    disk.sign(3).unwrap();
    disk.verify("key.pub").unwrap();
    assert_eq!(disk.files["file.sig.ver"], b"content");
}

#[test]
fn build_complete_asks_for_the_scripts_once() {
    let mut disk = Disk::new();
    disk.run(Commands::BuildComplete).unwrap();
    assert_eq!(disk.log, ["complete"]);
    let (job, _) = handle_commands(Commands::BuildComplete);
    assert!(job.step(Reply::FileWritten(Ok(()))).is_none());
    let (job, _) = handle_commands(Commands::BuildComplete);
    let (job, request) = job.step(Reply::CompleteBuilt).unwrap();
    assert!(matches!(request, Request::Done(Ok(()))));
    assert!(job.step(Reply::CompleteBuilt).is_none());
}

#[test]
fn a_flipped_bit_that_the_decompressor_ignores_yields_the_same_content() {
    let content = patterned(100_000);
    let mut disk = Disk::with_keys([0x21; 32]);
    disk.files.insert("file".to_string(), content.clone());
    disk.sign(3).unwrap();
    let mut bundle = disk.files["file.sig"].clone();
    bundle[84] ^= 0x10;
    disk.files.insert("file.sig".to_string(), bundle);
    disk.verify("key.pub").unwrap();
    assert!(disk.files["file.sig.ver"] == content);
}
