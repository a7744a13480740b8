//! The hasher: BLAKE3 behind an incremental interface with a 64-byte digest.
use vstd::prelude::*;

verus! {

/// The incremental BLAKE3 state, held without looking inside.
#[verifier::external_type_specification]
#[verifier::external_body]
pub struct ExHasher(blake3::Hasher);

/// The bytes that a BLAKE3 state has absorbed since it was created or last
/// reset, in the order in which they came.
pub uninterp spec fn absorbed(state: blake3::Hasher) -> Seq<u8>;

/// The first 64 bytes of the extended BLAKE3 output for `input`.
pub uninterp spec fn blake3_digest(input: Seq<u8>) -> Seq<u8>;

/// `blake3::Hasher::new`: a state for the regular hash function, which has
/// absorbed nothing yet.
#[verifier::external_body]
fn state_new() -> (state: blake3::Hasher)
    ensures
        absorbed(state) == Seq::<u8>::empty(),
{
    blake3::Hasher::new()
}

/// `blake3::Hasher::update_rayon`: adds `data` to the input, as `update` does;
/// the worker threads it may use do not show in the state it leaves.
#[verifier::external_body]
fn state_update(state: &mut blake3::Hasher, data: &[u8])
    ensures
        absorbed(*final(state)) == absorbed(*old(state)) + data@,
{
    state.update_rayon(data);
}

/// `blake3::Hasher::reset`: back to the initial state, as if newly created.
#[verifier::external_body]
fn state_reset(state: &mut blake3::Hasher)
    ensures
        absorbed(*final(state)) == Seq::<u8>::empty(),
{
    state.reset();
}

/// `blake3::Hasher::finalize_xof` followed by `blake3::OutputReader::fill` on
/// a 64-byte buffer: the first 64 output bytes for the input absorbed so far.
/// The state is left as it was.
#[verifier::external_body]
fn state_digest(state: &blake3::Hasher) -> (digest: [u8; 64])
    ensures
        digest@ == blake3_digest(absorbed(*state)),
{
    let mut digest = [0u8; 64];
    state.finalize_xof().fill(&mut digest);
    digest
}

/// An incremental hasher. Its view is the input it has been fed so far.
#[derive(Debug)]
pub struct BlakeHasher {
    hasher: blake3::Hasher,
}

impl View for BlakeHasher {
    type V = Seq<u8>;

    closed spec fn view(&self) -> Seq<u8> {
        absorbed(self.hasher)
    }
}

impl BlakeHasher {
    /// A hasher that has been fed nothing.
    pub fn new() -> (hasher: BlakeHasher)
        ensures
            hasher@ == Seq::<u8>::empty(),
    {
        BlakeHasher { hasher: state_new() }
    }

    /// Forgets all input.
    pub fn reset(&mut self)
        ensures
            final(self)@ == Seq::<u8>::empty(),
    {
        state_reset(&mut self.hasher);
    }

    /// Feeds `data` after the input so far. How the input is cut into calls
    /// does not matter: only the concatenation shows in the view.
    pub fn update(&mut self, data: &[u8])
        ensures
            final(self)@ == old(self)@ + data@,
    {
        state_update(&mut self.hasher, data);
    }

    /// Writes the digest of the input so far to `out`.
    pub fn finalize_into(self, out: &mut [u8; 64])
        ensures
            final(out)@ == blake3_digest(self@),
    {
        *out = state_digest(&self.hasher);
    }
}

impl Default for BlakeHasher {
    fn default() -> (hasher: BlakeHasher)
        ensures
            hasher@ == Seq::<u8>::empty(),
    {
        BlakeHasher::new()
    }
}

/// The input after feeding `chunks` one by one to a hasher whose input so far
/// is `start`.
pub open spec fn fed(start: Seq<u8>, chunks: Seq<Seq<u8>>) -> Seq<u8>
    decreases chunks.len(),
{
    if chunks.len() == 0 {
        start
    } else {
        fed(start + chunks[0], chunks.subrange(1, chunks.len() as int))
    }
}

/// The concatenation of `chunks`.
pub open spec fn joined(chunks: Seq<Seq<u8>>) -> Seq<u8>
    decreases chunks.len(),
{
    if chunks.len() == 0 {
        Seq::empty()
    } else {
        chunks[0] + joined(chunks.subrange(1, chunks.len() as int))
    }
}

/// Feeding chunks one by one amounts to feeding their concatenation at once.
pub proof fn lemma_fed_is_joined(start: Seq<u8>, chunks: Seq<Seq<u8>>)
    ensures
        fed(start, chunks) == start + joined(chunks),
    decreases chunks.len(),
{
    if chunks.len() == 0 {
        assert(start + joined(chunks) =~= start);
    } else {
        let rest = chunks.subrange(1, chunks.len() as int);
        lemma_fed_is_joined(start + chunks[0], rest);
        assert((start + chunks[0]) + joined(rest) =~= start + (chunks[0] + joined(rest)));
    }
}

/// The digest depends on the bytes alone: two ways of cutting the same bytes
/// into chunks, fed incrementally to fresh hashers, end in the same digest,
/// and so does feeding the bytes as one chunk.
pub proof fn lemma_digest_ignores_chunking(first: Seq<Seq<u8>>, second: Seq<Seq<u8>>)
    requires
        joined(first) == joined(second),
    ensures
        blake3_digest(fed(Seq::empty(), first)) == blake3_digest(fed(Seq::empty(), second)),
        blake3_digest(fed(Seq::empty(), first)) == blake3_digest(joined(first)),
{
    lemma_fed_is_joined(Seq::empty(), first);
    lemma_fed_is_joined(Seq::empty(), second);
    assert(Seq::<u8>::empty() + joined(first) =~= joined(first));
    assert(Seq::<u8>::empty() + joined(second) =~= joined(second));
}

} // verus!
