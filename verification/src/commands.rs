//! The commands, and the exchange between the library and whoever drives it.
//!
//! A command starts a job. The job asks for one thing at a time, in the fixed
//! order of its pipeline, and is told how that went; the first failure ends
//! it, before anything further is asked.
use vstd::prelude::*;
use vstd::string::StringExecFns;
use ed25519_dalek::{SigningKey, VerifyingKey};
use crate::blake::BlakeHasher;
use crate::error::BinsignError;
use crate::keys::{generate_keypair, generate_step, public_bytes, secret_bytes, GenerateStage};
use crate::{sign_file, sign_step, verify_file, verify_step, SignStage, VerifyStage};

verus! {

/// What to sign, with which key, and where the bundle goes.
#[derive(Debug)]
pub struct SignArgs {
    pub compression_level: i32,
    pub key_path: String,
    pub file_path: String,
    pub output_file_path: Option<String>,
}

/// Which bundle to verify, with which key, and where the content goes.
#[derive(Debug)]
pub struct VerifyArgs {
    pub key_path: String,
    pub file_path: String,
    pub output_file_path: Option<String>,
}

/// Where the two documents of a new key pair go.
#[derive(Debug)]
pub struct GenerateArgs {
    pub private_key_path: String,
    pub public_key_path: String,
}

/// What the program can be told to do.
#[derive(Debug)]
pub enum Commands {
    Sign(SignArgs),
    Verify(VerifyArgs),
    Generate(GenerateArgs),
    BuildComplete,
}

/// What a job asks its driver to do next.
#[derive(Debug)]
pub enum Request {
    /// Read the whole file at `path`.
    ReadFile { path: String },
    /// Draw 32 bytes from the operating system's entropy source.
    Entropy,
    /// Sign, in pre-hashed mode and without a context, the digest that
    /// `hasher` stands for.
    Sign { signing_key: SigningKey, hasher: BlakeHasher },
    /// Check `signature`, in pre-hashed mode and without a context, against
    /// the digest that `hasher` stands for.
    Verify { verifying_key: VerifyingKey, hasher: BlakeHasher, signature: [u8; 64] },
    /// Create or overwrite the file at `path` with `content`.
    WriteFile { path: String, content: Vec<u8> },
    /// Write the shell completion scripts.
    BuildComplete,
    /// Nothing more: the job has ended this way.
    Done(Result<(), BinsignError>),
}

/// How the last request went.
#[derive(Debug)]
pub enum Reply {
    FileRead(Result<Vec<u8>, std::io::Error>),
    Entropy([u8; 32]),
    Signed(Result<[u8; 64], ed25519_dalek::SignatureError>),
    Verified(Result<(), ed25519_dalek::SignatureError>),
    FileWritten(Result<(), std::io::Error>),
    CompleteBuilt,
}

impl Request {
    /// Whether this asks to read the file at `path`.
    pub open spec fn reads(self, path: Seq<char>) -> bool {
        self matches Request::ReadFile { path: asked } && asked@ == path
    }

    /// Whether this asks to write `content` to the file at `path`.
    pub open spec fn writes(self, path: Seq<char>, content: Seq<u8>) -> bool {
        self matches Request::WriteFile { path: asked, content: given } && asked@ == path
            && given@ == content
    }

    /// Whether this asks for the signature, by the private key with these
    /// secret bytes, on the digest of `input`.
    pub open spec fn asks_signature(self, secret: Seq<u8>, input: Seq<u8>) -> bool {
        self matches Request::Sign { signing_key, hasher } && secret_bytes(signing_key) == secret
            && hasher@ == input
    }

    /// Whether this asks for the verdict, by the public key with these bytes,
    /// on `signature` and the digest of `input`.
    pub open spec fn asks_verdict(self, public: Seq<u8>, input: Seq<u8>, signature: Seq<u8>)
        -> bool {
        self matches Request::Verify { verifying_key, hasher, signature: given } && public_bytes(
            verifying_key,
        ) == public && hasher@ == input && given@ == signature
    }

    /// Whether this ends the job with `error`.
    pub open spec fn fails_with(self, error: BinsignError) -> bool {
        self == Request::Done(Err(error))
    }

    /// The error this ends the job with, if it does.
    pub open spec fn failure(self) -> Option<BinsignError> {
        match self {
            Request::Done(Err(error)) => Some(error),
            _ => None,
        }
    }
}

/// The suffix of a bundle beside the file it was made from.
pub open spec fn signed_suffix() -> Seq<char> {
    ".sig"@
}

/// The suffix of recovered content beside the bundle it came from.
pub open spec fn verified_suffix() -> Seq<char> {
    ".ver"@
}

/// Where the output goes: the explicit path where one is given, else the
/// input path with `suffix` appended.
pub open spec fn output_path(file_path: Seq<char>, explicit: Option<String>, suffix: Seq<char>)
    -> Seq<char> {
    match explicit {
        Some(path) => path@,
        None => file_path + suffix,
    }
}

/// Resolves the output path of a pipeline.
pub fn resolve_output_path(file_path: &String, explicit: Option<String>, suffix: &str) -> (path:
    String)
    ensures
        path@ == output_path(file_path@, explicit, suffix@),
{
    match explicit {
        Some(path) => path,
        None => file_path.clone().concat(suffix),
    }
}

/// What ends a job once the last file has been handed over for writing.
pub open spec fn written(outcome: Result<(), std::io::Error>) -> Request {
    match outcome {
        Ok(()) => Request::Done(Ok(())),
        Err(e) => Request::Done(Err(BinsignError::FileIO(e))),
    }
}

/// A command under way.
#[derive(Debug)]
pub enum Job {
    Sign(SignStage),
    Verify(VerifyStage),
    Generate(GenerateStage),
    /// The completion scripts have been asked for.
    BuildComplete,
    /// The completion scripts are written.
    Done,
}

/// How each command starts: a sign or verify job asks for its key, with the
/// output path settled; key generation asks for entropy; the completion
/// scripts are asked for as they are.
pub open spec fn started(command: Commands, job: Job, request: Request) -> bool {
    match (command, job) {
        (
            Commands::Sign(args),
            Job::Sign(SignStage::AwaitingKey { file_path, output_path: output, compression_level }),
        ) => request.reads(args.key_path@) && file_path@ == args.file_path@ && output@
            == output_path(args.file_path@, args.output_file_path, signed_suffix())
            && compression_level == args.compression_level,
        (
            Commands::Verify(args),
            Job::Verify(VerifyStage::AwaitingKey { file_path, output_path: output }),
        ) => request.reads(args.key_path@) && file_path@ == args.file_path@ && output@
            == output_path(args.file_path@, args.output_file_path, verified_suffix()),
        (
            Commands::Generate(args),
            Job::Generate(GenerateStage::AwaitingEntropy { private_key_path, public_key_path }),
        ) => request is Entropy && private_key_path@ == args.private_key_path@
            && public_key_path@ == args.public_key_path@,
        (Commands::BuildComplete, Job::BuildComplete) => request is BuildComplete,
        _ => false,
    }
}

/// Starts the job for `command` and says what it needs first.
pub fn handle_commands(command: Commands) -> (res: (Job, Request))
    ensures
        started(command, res.0, res.1),
{
    match command {
        Commands::Sign(args) => {
            let output_path = resolve_output_path(&args.file_path, args.output_file_path, ".sig");
            (
                Job::Sign(
                    SignStage::AwaitingKey {
                        file_path: args.file_path,
                        output_path,
                        compression_level: args.compression_level,
                    },
                ),
                Request::ReadFile { path: args.key_path },
            )
        },
        Commands::Verify(args) => {
            let output_path = resolve_output_path(&args.file_path, args.output_file_path, ".ver");
            (
                Job::Verify(VerifyStage::AwaitingKey { file_path: args.file_path, output_path }),
                Request::ReadFile { path: args.key_path },
            )
        },
        Commands::Generate(args) => (
            Job::Generate(
                GenerateStage::AwaitingEntropy {
                    private_key_path: args.private_key_path,
                    public_key_path: args.public_key_path,
                },
            ),
            Request::Entropy,
        ),
        Commands::BuildComplete => (Job::BuildComplete, Request::BuildComplete),
    }
}

/// How a job goes on: each pipeline by its own steps. `res` is `None` exactly
/// where `reply` does not answer what the job has asked for.
pub open spec fn job_step(job: Job, reply: Reply, res: Option<(Job, Request)>) -> bool {
    match job {
        Job::Sign(stage) => match res {
            Some((Job::Sign(next), request)) => sign_step(stage, reply, Some((next, request))),
            Some(_) => false,
            None => sign_step(stage, reply, None),
        },
        Job::Verify(stage) => match res {
            Some((Job::Verify(next), request)) => verify_step(stage, reply, Some((next, request))),
            Some(_) => false,
            None => verify_step(stage, reply, None),
        },
        Job::Generate(stage) => match res {
            Some((Job::Generate(next), request)) => generate_step(
                stage,
                reply,
                Some((next, request)),
            ),
            Some(_) => false,
            None => generate_step(stage, reply, None),
        },
        Job::BuildComplete => match reply {
            Reply::CompleteBuilt => res == Some((Job::Done, Request::Done(Ok(())))),
            _ => res is None,
        },
        Job::Done => res is None,
    }
}

impl Job {
    /// Takes the job one step further.
    pub fn step(self, reply: Reply) -> (res: Option<(Job, Request)>)
        ensures
            job_step(self, reply, res),
    {
        match self {
            Job::Sign(stage) => match sign_file(stage, reply) {
                Some((next, request)) => Some((Job::Sign(next), request)),
                None => None,
            },
            Job::Verify(stage) => match verify_file(stage, reply) {
                Some((next, request)) => Some((Job::Verify(next), request)),
                None => None,
            },
            Job::Generate(stage) => match generate_keypair(stage, reply) {
                Some((next, request)) => Some((Job::Generate(next), request)),
                None => None,
            },
            Job::BuildComplete => match reply {
                Reply::CompleteBuilt => Some((Job::Done, Request::Done(Ok(())))),
                _ => None,
            },
            Job::Done => None,
        }
    }
}

} // verus!
