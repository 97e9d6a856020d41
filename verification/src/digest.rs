//! Download accounting: the byte limit on a chart download and the
//! SHA-256 of the archive, taken as the chunks arrive.

use vstd::prelude::*;
use sha2::Digest;
use crate::archive::MAX_ARCHIVE_BYTES;
use crate::text;

verus! {

/// A `sha2::Sha256` hasher.  Verus refuses a declaration of the hasher type
/// itself (it is an alias over several generic layers), so it is held here,
/// opaque, and read through the name `absorbed`.
#[verifier::external_body]
pub struct ChunkHasher {
    inner: sha2::Sha256,
}

/// The bytes a `sha2::Sha256` hasher has been fed so far.
pub uninterp spec fn absorbed(h: ChunkHasher) -> Seq<u8>;

/// What `Sha256::finalize` returns for a hasher fed `data`: the SHA-256
/// digest of `data`.
pub uninterp spec fn sha256_of(data: Seq<u8>) -> Seq<u8>;

/// `Sha256::new`: a hasher fed nothing.
#[verifier::external_body]
fn hasher_new() -> (r: ChunkHasher)
    ensures
        absorbed(r) == Seq::<u8>::empty(),
{
    ChunkHasher { inner: sha2::Sha256::new() }
}

/// `Digest::update`: the hasher is fed `data` after what it had.
#[verifier::external_body]
fn hasher_update(h: &mut ChunkHasher, data: &[u8])
    ensures
        absorbed(*final(h)) == absorbed(*old(h)) + data@,
{
    h.inner.update(data);
}

/// `Digest::finalize`: the 32-byte digest of everything fed.
#[verifier::external_body]
fn hasher_finalize(h: ChunkHasher) -> (r: Vec<u8>)
    ensures
        r@ == sha256_of(absorbed(h)),
        r@.len() == 32,
{
    h.inner.finalize().to_vec()
}

pub open spec fn hex_digit(d: u8) -> char {
    if d < 10 {
        (('0' as u8) + d) as char
    } else {
        (('a' as u8) + d - 10) as char
    }
}

/// Lowercase hexadecimal, two digits per byte (`format!("{:x}", digest)`).
pub open spec fn hex_lower(data: Seq<u8>) -> Seq<char>
    decreases data.len(),
{
    if data.len() == 0 {
        seq![]
    } else {
        hex_lower(data.drop_last()) + seq![hex_digit(data.last() / 16), hex_digit(data.last() % 16)]
    }
}

fn hex_char(d: u8) -> (r: char)
    requires
        d < 16,
    ensures
        r == hex_digit(d),
{
    if d < 10 {
        ((48u8 + d) as char)
    } else {
        ((97u8 + d - 10) as char)
    }
}

/// `data` in lowercase hexadecimal.
pub fn to_hex_lower(data: &Vec<u8>) -> (r: String)
    ensures
        r@ == hex_lower(data@),
{
    let mut out: Vec<char> = Vec::new();
    let mut i: usize = 0;
    while i < data.len()
        invariant
            i <= data@.len(),
            out@ == hex_lower(data@.take(i as int)),
        decreases data@.len() - i,
    {
        let b = data[i];
        out.push(hex_char(b / 16));
        out.push(hex_char(b % 16));
        assert(data@.take(i + 1).drop_last() == data@.take(i as int));
        i = i + 1;
    }
    assert(data@.take(data@.len() as int) == data@);
    text::string_from(&out)
}

pub open spec fn download_limit_message() -> Seq<char> {
    "the chart archive exceeds the 250 MB download limit."@
}

/// The announced size of a download, refused when over 250 MB.
pub fn check_announced_size(total_bytes: Option<u64>) -> (r: Result<(), String>)
    ensures
        r is Ok <==> !(total_bytes matches Some(n) && n > MAX_ARCHIVE_BYTES),
        r matches Err(e) ==> e@ == download_limit_message(),
{
    match total_bytes {
        Some(n) => if n > MAX_ARCHIVE_BYTES {
            Err(text::string_from(&text::chars_of("the chart archive exceeds the 250 MB download limit.")))
        } else {
            Ok(())
        },
        None => Ok(()),
    }
}

/// A chart download in progress: the bytes received and their hash.
pub struct DownloadProgress {
    downloaded_bytes: u64,
    hasher: ChunkHasher,
}

impl DownloadProgress {
    /// The bytes accepted so far, in order.
    pub closed spec fn received(&self) -> Seq<u8> {
        absorbed(self.hasher)
    }

    /// The number of bytes accepted so far.
    pub closed spec fn count(&self) -> nat {
        self.downloaded_bytes as nat
    }

    /// The number of bytes accepted so far.
    pub fn downloaded_bytes(&self) -> (r: u64)
        ensures
            r == self.count(),
    {
        self.downloaded_bytes
    }

    /// The count matches the bytes received, which stay within 250 MB.
    pub closed spec fn wf(&self) -> bool {
        &&& self.downloaded_bytes == absorbed(self.hasher).len()
        &&& self.downloaded_bytes <= MAX_ARCHIVE_BYTES
    }

    /// A well-formed progress never counts more than 250 MB.
    pub proof fn lemma_count_within_limit(&self)
        requires
            self.wf(),
        ensures
            self.count() <= MAX_ARCHIVE_BYTES,
            self.count() == self.received().len(),
    {
    }

    pub fn new() -> (r: DownloadProgress)
        ensures
            r.wf(),
            r.received() == Seq::<u8>::empty(),
            r.count() == 0,
    {
        DownloadProgress { downloaded_bytes: 0, hasher: hasher_new() }
    }

    /// Accepts the next chunk of the download, unless the total would
    /// overflow or pass 250 MB; a refused chunk leaves the progress as it was.
    pub fn accept_chunk(&mut self, chunk: &[u8]) -> (r: Result<(), String>)
        requires
            old(self).wf(),
        ensures
            final(self).wf(),
            match r {
                Ok(()) => final(self).received() == old(self).received() + chunk@
                    && final(self).count() == old(self).count() + chunk@.len(),
                Err(e) => *final(self) == *old(self) && (if old(self).count() + chunk@.len()
                    > u64::MAX {
                    e@ == "download size overflow."@
                } else {
                    old(self).count() + chunk@.len() > MAX_ARCHIVE_BYTES
                        && e@ == download_limit_message()
                }),
            },
    {
        let len = chunk.len();
        if len as u128 > u64::MAX as u128 {
            return Err(text::string_from(&text::chars_of("download size overflow.")));
        }
        let n = match self.downloaded_bytes.checked_add(len as u64) {
            Some(n) => n,
            None => {
                return Err(text::string_from(&text::chars_of("download size overflow.")));
            },
        };
        if n > MAX_ARCHIVE_BYTES {
            return Err(
                text::string_from(&text::chars_of("the chart archive exceeds the 250 MB download limit.")),
            );
        }
        hasher_update(&mut self.hasher, chunk);
        self.downloaded_bytes = n;
        Ok(())
    }

    /// The lowercase hexadecimal SHA-256 of everything received.
    pub fn archive_sha256(self) -> (r: String)
        ensures
            r@ == hex_lower(sha256_of(self.received())),
    {
        let digest = hasher_finalize(self.hasher);
        to_hex_lower(&digest)
    }
}

} // verus!
