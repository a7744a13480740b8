//! The bundle and its binary encoding.
//!
//! A bundle is laid out as the 64 signature bytes, the original size as eight
//! little-endian bytes, the payload length as eight little-endian bytes, and
//! the payload.
use vstd::prelude::*;
use crate::compression::{compress, compressed, compressible_length, decompress, expanded};
use crate::error::{BinsignError, CompressionError, DecodingError, DecompressionError, EncodingError};

verus! {

/// Width of the signature field.
pub const SIGNATURE_LENGTH: usize = 64;

/// Width of everything that precedes the payload.
pub const HEADER_LENGTH: usize = 80;

/// The `width` low-order base-256 digits of `value`, least significant first.
pub open spec fn le_bytes(value: nat, width: nat) -> Seq<u8>
    decreases width,
{
    if width == 0 {
        Seq::empty()
    } else {
        seq![(value % 256) as u8] + le_bytes(value / 256, (width - 1) as nat)
    }
}

/// The number whose base-256 digits, least significant first, are `bytes`.
pub open spec fn le_value(bytes: Seq<u8>) -> nat
    decreases bytes.len(),
{
    if bytes.len() == 0 {
        0
    } else {
        bytes[0] as nat + 256 * le_value(bytes.subrange(1, bytes.len() as int))
    }
}

/// 256 to the power `width`.
pub open spec fn radix_pow(width: nat) -> nat
    decreases width,
{
    if width == 0 {
        1
    } else {
        256 * radix_pow((width - 1) as nat)
    }
}

/// Writing a number in `width` digits gives `width` bytes.
pub proof fn lemma_le_bytes_len(value: nat, width: nat)
    ensures
        le_bytes(value, width).len() == width,
    decreases width,
{
    if width > 0 {
        lemma_le_bytes_len(value / 256, (width - 1) as nat);
    }
}

/// The number that some digits stand for is below 256 to the power of their
/// count.
pub proof fn lemma_le_value_bound(bytes: Seq<u8>)
    ensures
        le_value(bytes) < radix_pow(bytes.len()),
    decreases bytes.len(),
{
    if bytes.len() > 0 {
        lemma_le_value_bound(bytes.subrange(1, bytes.len() as int));
    }
}

/// Reading back the digits of a number that fits in `width` digits gives the
/// number.
pub proof fn lemma_le_value_of_bytes(value: nat, width: nat)
    requires
        value < radix_pow(width),
    ensures
        le_value(le_bytes(value, width)) == value,
    decreases width,
{
    if width > 0 {
        let rest = le_bytes(value / 256, (width - 1) as nat);
        let all = le_bytes(value, width);
        lemma_le_bytes_len(value / 256, (width - 1) as nat);
        assert(all.subrange(1, all.len() as int) =~= rest);
        lemma_le_value_of_bytes(value / 256, (width - 1) as nat);
    }
}

/// Writing out the number that some digits stand for gives the digits back.
pub proof fn lemma_le_bytes_of_value(bytes: Seq<u8>)
    ensures
        le_bytes(le_value(bytes), bytes.len()) == bytes,
    decreases bytes.len(),
{
    if bytes.len() > 0 {
        let tail = bytes.subrange(1, bytes.len() as int);
        lemma_le_bytes_of_value(tail);
        let value = le_value(bytes);
        assert(value % 256 == bytes[0] as nat && value / 256 == le_value(tail));
        assert(le_bytes(value, bytes.len()) =~= bytes);
    }
}

/// A signed file: the signature, the size of the original content and the
/// compressed content.
pub struct SignedFile {
    pub signature: [u8; 64],
    pub file_size: u64,
    pub file: Vec<u8>,
}

/// What a bundle holds, as mathematical values.
pub struct SignedFileView {
    pub signature: Seq<u8>,
    pub file_size: u64,
    pub file: Seq<u8>,
}

impl View for SignedFile {
    type V = SignedFileView;

    open spec fn view(&self) -> SignedFileView {
        SignedFileView { signature: self.signature@, file_size: self.file_size, file: self.file@ }
    }
}

impl SignedFileView {
    /// Whether some bundle in memory has this content: the signature has its
    /// fixed width and the payload length fits its eight-byte field.
    pub open spec fn constructible(self) -> bool {
        self.signature.len() == SIGNATURE_LENGTH && self.file.len() <= u64::MAX
    }

    /// The original content, where the bundle is sound: the payload is
    /// well-formed and decompresses to exactly `file_size` bytes.
    pub open spec fn content(self) -> Option<Seq<u8>> {
        expanded(self.file, self.file_size)
    }
}

/// The byte stream that stands for a bundle.
pub open spec fn encoding(bundle: SignedFileView) -> Seq<u8> {
    bundle.signature + le_bytes(bundle.file_size as nat, 8) + le_bytes(bundle.file.len(), 8)
        + bundle.file
}

/// The bundle that a byte stream stands for, if it is well-formed: long enough
/// for the header, and with a declared payload length equal to the number of
/// bytes after the header.
pub open spec fn decoding(data: Seq<u8>) -> Option<SignedFileView> {
    if data.len() >= HEADER_LENGTH && le_value(data.subrange(72, 80)) == data.len()
        - HEADER_LENGTH {
        Some(
            SignedFileView {
                signature: data.subrange(0, 64),
                file_size: le_value(data.subrange(64, 72)) as u64,
                file: data.subrange(80, data.len() as int),
            },
        )
    } else {
        None
    }
}

/// What is wrong with a byte stream that is not a well-formed bundle.
pub open spec fn decoding_fault(data: Seq<u8>) -> DecodingError {
    if data.len() < HEADER_LENGTH {
        DecodingError::Truncated { length: data.len() as usize }
    } else {
        DecodingError::LengthMismatch {
            declared: le_value(data.subrange(72, 80)) as u64,
            remaining: (data.len() - HEADER_LENGTH) as usize,
        }
    }
}

/// The byte stream that the sign pipeline makes of `content` and
/// `signature`, where compression succeeds and the stream fits in memory.
pub open spec fn sealed(content: Seq<u8>, signature: Seq<u8>, level: int) -> Option<Seq<u8>> {
    match compressed(content, level) {
        Some(payload) => if payload.len() + HEADER_LENGTH <= usize::MAX {
            Some(
                encoding(
                    SignedFileView { signature, file_size: content.len() as u64, file: payload },
                ),
            )
        } else {
            None
        },
        None => None,
    }
}

/// Whether `error` is what the sign pipeline reports where there is no byte
/// stream for `content`: content too long to compress, a failure of the
/// compression service, or a payload too long to encode.
pub open spec fn sealing_failure(content: Seq<u8>, level: int, error: BinsignError) -> bool {
    if !compressible_length(content.len()) {
        error == BinsignError::ZstdCompression(
            CompressionError::TooLong { length: content.len() as usize },
        )
    } else {
        match compressed(content, level) {
            None => error matches BinsignError::ZstdCompression(CompressionError::Service(_)),
            Some(payload) => payload.len() + HEADER_LENGTH > usize::MAX && error
                == BinsignError::FileEncoding(
                EncodingError::TooLong { payload_length: payload.len() as usize },
            ),
        }
    }
}

/// The signature and the original content that the verify pipeline finds in
/// a byte stream, where the stream is a well-formed and sound bundle.
pub open spec fn recovered(data: Seq<u8>) -> Option<(Seq<u8>, Seq<u8>)> {
    match decoding(data) {
        Some(bundle) => match bundle.content() {
            Some(content) => Some((bundle.signature, content)),
            None => None,
        },
        None => None,
    }
}

proof fn lemma_radix_pow_8()
    ensures
        radix_pow(8) == 0x1_0000_0000_0000_0000,
{
    reveal_with_fuel(radix_pow, 9);
}

/// Decoding undoes encoding: every constructible bundle survives the round
/// trip through its byte stream unchanged, an empty payload included.
pub proof fn lemma_decode_encode(bundle: SignedFileView)
    requires
        bundle.constructible(),
    ensures
        decoding(encoding(bundle)) == Some(bundle),
{
    let size = le_bytes(bundle.file_size as nat, 8);
    let length = le_bytes(bundle.file.len(), 8);
    let data = encoding(bundle);
    lemma_le_bytes_len(bundle.file_size as nat, 8);
    lemma_le_bytes_len(bundle.file.len(), 8);
    lemma_radix_pow_8();
    lemma_le_value_of_bytes(bundle.file_size as nat, 8);
    lemma_le_value_of_bytes(bundle.file.len(), 8);
    assert(data.subrange(0, 64) =~= bundle.signature);
    assert(data.subrange(64, 72) =~= size);
    assert(data.subrange(72, 80) =~= length);
    assert(data.subrange(80, data.len() as int) =~= bundle.file);
}

/// Encoding undoes decoding: a well-formed byte stream is the encoding of the
/// bundle it stands for, so no two byte streams stand for the same bundle.
pub proof fn lemma_encode_decode(data: Seq<u8>)
    requires
        decoding(data) is Some,
    ensures
        decoding(data)->0.constructible(),
        encoding(decoding(data)->0) == data,
{
    let bundle = decoding(data)->0;
    let size = data.subrange(64, 72);
    let length = data.subrange(72, 80);
    lemma_radix_pow_8();
    lemma_le_value_bound(size);
    lemma_le_value_bound(length);
    lemma_le_bytes_of_value(size);
    lemma_le_bytes_of_value(length);
    assert(encoding(bundle) =~= data);
}

/// What was bundled is what is recovered: the byte stream of a sound bundle
/// gives back the bundle's signature and the original content, whatever the
/// payload looks like and whatever compression level produced it.
pub proof fn lemma_recover_encoded(bundle: SignedFileView)
    requires
        bundle.constructible(),
        bundle.content() is Some,
    ensures
        recovered(encoding(bundle)) == Some((bundle.signature, bundle.content()->0)),
{
    lemma_decode_encode(bundle);
}

/// A bundle declares one size only: with any other original size in its
/// place, a sound bundle is no longer sound, so changing so much as one bit of
/// the size field makes the verify pipeline fail.
pub proof fn lemma_tampered_size_rejected(bundle: SignedFileView, tampered_size: u64)
    requires
        bundle.constructible(),
        bundle.content() is Some,
        tampered_size != bundle.file_size,
    ensures
        recovered(encoding(SignedFileView { file_size: tampered_size, ..bundle })) is None,
{
    let tampered = SignedFileView { file_size: tampered_size, ..bundle };
    lemma_decode_encode(tampered);
}

/// Content that is recovered has the size that the stream declares.
pub proof fn lemma_recovered_size(data: Seq<u8>)
    requires
        recovered(data) is Some,
    ensures
        recovered(data) matches Some((_, content)) && decoding(data) matches Some(bundle)
            && content.len() == bundle.file_size,
{
}

/// Appends the eight little-endian bytes of `value` to `out`.
fn put_le(out: &mut Vec<u8>, value: u64)
    ensures
        final(out)@ == old(out)@ + le_bytes(value as nat, 8),
{
    let mut rest: u64 = value;
    let mut written: usize = 0;
    while written < 8
        invariant
            written <= 8,
            out@ + le_bytes(rest as nat, (8 - written) as nat) == old(out)@ + le_bytes(
                value as nat,
                8,
            ),
        decreases 8 - written,
    {
        let ghost before = out@;
        out.push((rest % 256) as u8);
        proof {
            let tail = le_bytes((rest / 256) as nat, (8 - written - 1) as nat);
            assert(before + le_bytes(rest as nat, (8 - written) as nat) =~= out@ + tail);
        }
        rest = rest / 256;
        written = written + 1;
    }
    assert(out@ + le_bytes(rest as nat, 0) =~= out@);
}

/// Reads the eight little-endian bytes that start at `start`.
fn get_le(data: &[u8], start: usize) -> (value: u64)
    requires
        start + 8 <= data.len(),
    ensures
        value == le_value(data@.subrange(start as int, start + 8)),
{
    let mut value: u64 = 0;
    let mut left: usize = 8;
    proof {
        assert(le_value(data@.subrange(start + 8, start + 8)) == 0);
    }
    while left > 0
        invariant
            left <= 8,
            start + 8 <= data.len(),
            value == le_value(data@.subrange(start + left, start + 8)),
        decreases left,
    {
        left = left - 1;
        proof {
            let here = data@.subrange(start + left, start + 8);
            let after = data@.subrange(start + left + 1, start + 8);
            assert(here.subrange(1, here.len() as int) =~= after);
            lemma_le_value_bound(after);
            lemma_le_value_bound(here);
            reveal_with_fuel(radix_pow, 9);
            lemma_radix_pow_monotonic(here.len(), 8);
        }
        value = value * 256 + data[start + left] as u64;
    }
    value
}

proof fn lemma_radix_pow_monotonic(low: nat, high: nat)
    requires
        low <= high,
    ensures
        radix_pow(low) <= radix_pow(high),
    decreases high,
{
    if low < high {
        lemma_radix_pow_monotonic(low, (high - 1) as nat);
    }
}

impl SignedFile {
    /// Every bundle in memory has constructible content.
    pub proof fn lemma_constructible(self)
        ensures
            self@.constructible(),
    {
        assert(self.signature@.len() == SIGNATURE_LENGTH);
        assert(self.file@.len() == self.file.len());
    }

    /// A bundle of the compressed content `file`, the signature and the size of
    /// the original content.
    pub fn new(file: Vec<u8>, signature: [u8; 64], file_size: u64) -> (bundle: SignedFile)
        ensures
            bundle.file == file,
            bundle.signature == signature,
            bundle.file_size == file_size,
    {
        SignedFile { signature, file_size, file }
    }

    /// The bundle for `content` under `signature`: the content compressed at
    /// `compression_level`, and its length as the original size. The
    /// signature is taken as it is; whatever the level, the bundle's content
    /// is `content` again.
    pub fn seal(content: &[u8], signature: [u8; 64], compression_level: i32) -> (res: Result<
        SignedFile,
        BinsignError,
    >)
        ensures
            match res {
                Ok(bundle) => compressed(content@, compression_level as int) == Some(bundle.file@)
                    && bundle.signature == signature && bundle.file_size == content@.len()
                    && bundle@.content() == Some(content@),
                Err(BinsignError::ZstdCompression(CompressionError::Service(_))) => compressed(
                    content@,
                    compression_level as int,
                ) is None && compressible_length(content@.len()),
                Err(BinsignError::ZstdCompression(CompressionError::TooLong { length })) => length
                    == content@.len() && !compressible_length(content@.len()),
                Err(_) => false,
            },
    {
        let payload = compress(content, compression_level)?;
        Ok(SignedFile::new(payload, signature, content.len() as u64))
    }

    /// The original content of the bundle. It is returned only where the
    /// bundle is sound; a payload that is corrupt, or whose content has
    /// another size than the bundle declares, is an error. A sound bundle
    /// fails to open only where the compression service or the allocator
    /// refuses.
    pub fn open(&self) -> (res: Result<Vec<u8>, BinsignError>)
        ensures
            match res {
                Ok(content) => self@.content() == Some(content@),
                Err(BinsignError::ZstdDecompression(error)) => self@.content() is Some ==> error
                    is Corrupt || error is Oversized,
                Err(_) => false,
            },
    {
        decompress(self.file.as_slice(), self.file_size)
    }

    /// The byte stream of the bundle. It fails only where the stream would be
    /// longer than the largest buffer this machine can address.
    pub fn encode(self) -> (res: Result<Vec<u8>, BinsignError>)
        ensures
            match res {
                Ok(data) => self.file.len() + HEADER_LENGTH <= usize::MAX && data@ == encoding(
                    self@,
                ),
                Err(BinsignError::FileEncoding(EncodingError::TooLong { payload_length })) =>
                    self.file.len() + HEADER_LENGTH > usize::MAX && payload_length
                        == self.file.len(),
                Err(_) => false,
            },
    {
        let payload_length = self.file.len();
        if payload_length > usize::MAX - HEADER_LENGTH {
            return Err(BinsignError::FileEncoding(EncodingError::TooLong { payload_length }));
        }
        let mut data: Vec<u8> = Vec::with_capacity(payload_length + HEADER_LENGTH);
        data.extend_from_slice(self.signature.as_slice());
        put_le(&mut data, self.file_size);
        put_le(&mut data, payload_length as u64);
        data.extend_from_slice(self.file.as_slice());
        Ok(data)
    }

    /// The bundle that `data` stands for, or the reason why it stands for
    /// none.
    pub fn decode(data: Vec<u8>) -> (res: Result<SignedFile, BinsignError>)
        ensures
            match decoding(data@) {
                Some(bundle) => res matches Ok(decoded) && decoded@ == bundle,
                None => res matches Err(BinsignError::FileDecoding(fault)) && fault
                    == decoding_fault(data@),
            },
    {
        let length = data.len();
        if length < HEADER_LENGTH {
            return Err(BinsignError::FileDecoding(DecodingError::Truncated { length }));
        }
        let remaining = length - HEADER_LENGTH;
        let file_size = get_le(data.as_slice(), SIGNATURE_LENGTH);
        let declared = get_le(data.as_slice(), SIGNATURE_LENGTH + 8);
        if declared != remaining as u64 {
            return Err(
                BinsignError::FileDecoding(DecodingError::LengthMismatch { declared, remaining }),
            );
        }
        let mut signature = [0u8; 64];
        let mut at: usize = 0;
        while at < SIGNATURE_LENGTH
            invariant
                at <= SIGNATURE_LENGTH,
                HEADER_LENGTH <= data.len(),
                forall|i: int| 0 <= i < at ==> signature@[i] == data@[i],
            decreases SIGNATURE_LENGTH - at,
        {
            signature[at] = data[at];
            at = at + 1;
        }
        let mut file: Vec<u8> = Vec::with_capacity(remaining);
        file.extend_from_slice(vstd::slice::slice_subrange(data.as_slice(), HEADER_LENGTH, length));
        proof {
            assert(signature@ =~= data@.subrange(0, 64));
            assert(file@ =~= data@.subrange(80, data.len() as int));
            lemma_radix_pow_8();
            lemma_le_value_bound(data@.subrange(64, 72));
            lemma_le_value_bound(data@.subrange(72, 80));
        }
        Ok(SignedFile { signature, file_size, file })
    }
}

} // verus!
