//! Content hashing of attachment files: SHA-256, streamed in chunks, rendered
//! as lowercase hex.
use sha2::Digest;
use vstd::prelude::*;

use crate::text::{hex_of, hex_string};

verus! {

/// A SHA-256 hashing state of the `sha2` crate, opaque to proofs: what it
/// holds is named by `hashed_input`.
#[verifier::external_body]
pub struct Sha256State {
    inner: sha2::Sha256,
}

/// The SHA-256 digest of a byte sequence.
pub uninterp spec fn sha256_of(data: Seq<u8>) -> Seq<u8>;

/// The bytes fed so far into a SHA-256 hashing state.
pub uninterp spec fn hashed_input(h: Sha256State) -> Seq<u8>;

/// Relies on `sha2::Sha256::new` (via `Digest::new`): a fresh state has been fed nothing.
#[verifier::external_body]
fn sha256_start() -> (r: Sha256State)
    ensures
        hashed_input(r) == Seq::<u8>::empty(),
{
    Sha256State { inner: <sha2::Sha256 as Digest>::new() }
}

/// Relies on `Digest::update` for `sha2::Sha256`: the chunk is appended to the input.
#[verifier::external_body]
fn sha256_feed(h: &mut Sha256State, chunk: &[u8])
    ensures
        hashed_input(*final(h)) == hashed_input(*old(h)) + chunk@,
{
    Digest::update(&mut h.inner, chunk)
}

/// Relies on `Digest::finalize` for `sha2::Sha256`: the 32-byte digest of all input fed.
#[verifier::external_body]
fn sha256_finish(h: Sha256State) -> (r: Vec<u8>)
    ensures
        r@ == sha256_of(hashed_input(h)),
        r@.len() == 32,
{
    Digest::finalize(h.inner).to_vec()
}

/// The content hash recorded for a file with these bytes: hex SHA-256.
pub open spec fn file_hash(content: Seq<u8>) -> Seq<char> {
    hex_of(sha256_of(content))
}

/// A streaming content hasher: the file is fed in chunks, so memory use does
/// not grow with the file's size.
pub struct FileHasher {
    state: Sha256State,
}

impl FileHasher {
    /// The bytes fed so far.
    pub closed spec fn input(&self) -> Seq<u8> {
        hashed_input(self.state)
    }

    pub fn new() -> (r: FileHasher)
        ensures
            r.input() == Seq::<u8>::empty(),
    {
        FileHasher { state: sha256_start() }
    }

    /// Appends one chunk of the file's content.
    pub fn feed(&mut self, chunk: &[u8])
        ensures
            final(self).input() == old(self).input() + chunk@,
    {
        sha256_feed(&mut self.state, chunk);
    }

    /// The hex content hash of everything fed.
    pub fn finish(self) -> (r: String)
        ensures
            r@ == file_hash(self.input()),
            r@.len() == 64,
    {
        let digest = sha256_finish(self.state);
        hex_string(digest.as_slice())
    }
}

/// Hashing depends on the content alone: two files with the same bytes, from
/// whatever paths and fed in whatever chunks, get the same content hash.
pub proof fn law_hash_depends_on_content(chunks_a: Seq<Seq<u8>>, chunks_b: Seq<Seq<u8>>)
    requires
        chunks_a.fold_left(Seq::<u8>::empty(), |acc: Seq<u8>, c: Seq<u8>| acc + c)
            == chunks_b.fold_left(Seq::<u8>::empty(), |acc: Seq<u8>, c: Seq<u8>| acc + c),
    ensures
        file_hash(chunks_a.fold_left(Seq::<u8>::empty(), |acc: Seq<u8>, c: Seq<u8>| acc + c))
            == file_hash(chunks_b.fold_left(Seq::<u8>::empty(), |acc: Seq<u8>, c: Seq<u8>| acc + c)),
{
}

} // verus!
