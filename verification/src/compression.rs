//! The compression service: zstd on whole buffers.
use vstd::prelude::*;
use crate::error::{BinsignError, CompressionError, DecompressionError};

verus! {

/// What zstd makes of `data` at `level`, or `None` where it reports a
/// failure.
pub uninterp spec fn zstd_compressed(data: Seq<u8>, level: int) -> Option<Seq<u8>>;

/// The content that the zstd frames in `data` decompress to, or `None` where
/// `data` is not a sequence of well-formed frames.
pub uninterp spec fn zstd_content(data: Seq<u8>) -> Option<Seq<u8>>;

/// Whether the worst-case buffer for compressing `length` bytes can be
/// allocated at all on this machine.
pub open spec fn compressible_length(length: nat) -> bool {
    length + length / 256 + 64 <= isize::MAX
}

/// `zstd::bulk::compress`: the compressed form of `data`, a block that
/// decompresses to `data` again. The call allocates a buffer of zstd's
/// worst-case bound for the input, at most the length, a 256th of it and 64
/// bytes more; `requires` keeps that within what an allocation may ask for.
#[verifier::external_body]
fn zstd_compress(data: &[u8], level: i32) -> (res: Result<Vec<u8>, std::io::Error>)
    requires
        compressible_length(data@.len()),
    ensures
        match res {
            Ok(payload) => zstd_compressed(data@, level as int) == Some(payload@) && zstd_content(
                payload@,
            ) == Some(data@),
            Err(_) => zstd_compressed(data@, level as int) is None,
        },
{
    zstd::bulk::compress(data, level)
}

/// `zstd::bulk::Decompressor::new`, then `decompress_to_buffer` on that
/// decompressor, as `zstd::bulk::decompress` does on a buffer of its own:
/// where it succeeds, `buffer` holds the content of `data` and nothing else,
/// and the result is its length. An error leaves nothing to rely on in
/// `buffer`. The call allocates no output memory: it writes into the room
/// that `buffer` has, and reports an error where that is too little.
#[verifier::external_body]
fn zstd_decompress_into(data: &[u8], buffer: &mut Vec<u8>) -> (res: Result<usize, std::io::Error>)
    ensures
        res matches Ok(length) ==> zstd_content(data@) == Some(final(buffer)@) && length
            == final(buffer)@.len(),
{
    zstd::bulk::Decompressor::new()?.decompress_to_buffer(data, buffer)
}

/// The payload for `content`, where the compression service delivers one.
pub open spec fn compressed(content: Seq<u8>, level: int) -> Option<Seq<u8>> {
    if compressible_length(content.len()) {
        zstd_compressed(content, level)
    } else {
        None
    }
}

/// The content of `payload`, where it is well-formed and decompresses to
/// exactly `original_size` bytes.
pub open spec fn expanded(payload: Seq<u8>, original_size: u64) -> Option<Seq<u8>> {
    match zstd_content(payload) {
        Some(content) => if content.len() == original_size {
            Some(content)
        } else {
            None
        },
        None => None,
    }
}

/// What the sign pipeline makes of the compression service's answer: the
/// payload, or the tagged error.
pub fn check_compressed(outcome: Result<Vec<u8>, std::io::Error>) -> (res: Result<
    Vec<u8>,
    BinsignError,
>)
    ensures
        match outcome {
            Ok(payload) => res == Ok::<Vec<u8>, BinsignError>(payload),
            Err(e) => res matches Err(BinsignError::ZstdCompression(CompressionError::Service(f)))
                && f == e,
        },
{
    match outcome {
        Ok(payload) => Ok(payload),
        Err(e) => Err(BinsignError::ZstdCompression(CompressionError::Service(e))),
    }
}

/// What the verify pipeline makes of the compression service's answer: the
/// content if it has exactly the declared size, else the tagged error.
/// Content of any other length is refused, not passed on.
pub fn check_decompressed(outcome: Result<Vec<u8>, std::io::Error>, original_size: u64) -> (res:
    Result<Vec<u8>, BinsignError>)
    ensures
        match outcome {
            Ok(content) => if content.len() == original_size {
                res == Ok::<Vec<u8>, BinsignError>(content)
            } else {
                res matches Err(
                    BinsignError::ZstdDecompression(
                        DecompressionError::SizeMismatch { declared, actual },
                    ),
                ) && declared == original_size && actual == content.len()
            },
            Err(e) => res matches Err(
                BinsignError::ZstdDecompression(DecompressionError::Corrupt(f)),
            ) && f == e,
        },
{
    match outcome {
        Ok(content) => {
            let actual = content.len();
            if actual as u64 == original_size {
                Ok(content)
            } else {
                Err(
                    BinsignError::ZstdDecompression(
                        DecompressionError::SizeMismatch { declared: original_size, actual },
                    ),
                )
            }
        },
        Err(e) => Err(BinsignError::ZstdDecompression(DecompressionError::Corrupt(e))),
    }
}

/// Compresses `content` at `level`.
pub fn compress(content: &[u8], level: i32) -> (res: Result<Vec<u8>, BinsignError>)
    ensures
        match res {
            Ok(payload) => compressed(content@, level as int) == Some(payload@) && zstd_content(
                payload@,
            ) == Some(content@),
            Err(BinsignError::ZstdCompression(CompressionError::Service(_))) => compressible_length(
                content@.len(),
            ) && compressed(content@, level as int) is None,
            Err(BinsignError::ZstdCompression(CompressionError::TooLong { length })) =>
                !compressible_length(content@.len()) && length == content@.len(),
            Err(_) => false,
        },
{
    let length = content.len();
    if length > (isize::MAX as usize) - 64 || length + length / 256 > (isize::MAX as usize) - 64 {
        return Err(BinsignError::ZstdCompression(CompressionError::TooLong { length }));
    }
    check_compressed(zstd_compress(content, level))
}

/// Decompresses `payload` against the declared size of the original content.
/// Content is returned only where the payload is well-formed and holds
/// exactly `original_size` bytes; a wrong size, too small or too large, is an
/// error and never a shortened or padded result. Room for `original_size`
/// bytes is asked for before anything is decompressed, and a refusal is an
/// error like any other: a size that this machine cannot serve ends the
/// operation, not the process.
pub fn decompress(payload: &[u8], original_size: u64) -> (res: Result<Vec<u8>, BinsignError>)
    ensures
        match res {
            Ok(content) => expanded(payload@, original_size) == Some(content@),
            Err(BinsignError::ZstdDecompression(error)) => match error {
                DecompressionError::Corrupt(_) => true,
                DecompressionError::SizeMismatch { declared, actual } => declared == original_size
                    && actual != original_size && zstd_content(payload@) is Some && zstd_content(
                    payload@,
                )->0.len() == actual,
                DecompressionError::Oversized { declared } => declared == original_size,
            },
            Err(_) => false,
        },
        expanded(payload@, original_size) is None ==> res is Err,
{
    if original_size > usize::MAX as u64 {
        return Err(
            BinsignError::ZstdDecompression(DecompressionError::Oversized { declared: original_size }),
        );
    }
    let mut content: Vec<u8> = Vec::new();
    if content.try_reserve(original_size as usize).is_err() {
        return Err(
            BinsignError::ZstdDecompression(DecompressionError::Oversized { declared: original_size }),
        );
    }
    let outcome = match zstd_decompress_into(payload, &mut content) {
        Ok(_) => Ok(content),
        Err(e) => Err(e),
    };
    check_decompressed(outcome, original_size)
}

} // verus!
