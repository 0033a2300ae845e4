use vstd::prelude::*;
use std::io::Read;
use crate::error::ZinharoError;

verus! {

/// The bytes that a bzip2 stream decompresses to, if it is a valid stream.
pub uninterp spec fn bzip2_contents(compressed: Seq<u8>) -> Option<Seq<u8>>;

/// Relies on `bzip2::read::BzDecoder` read to its end: the decompressed
/// bytes of the stream, or an error when the stream is not valid bzip2.
#[verifier::external_body]
fn bzip2_decompress(compressed: &[u8]) -> (r: Option<Vec<u8>>)
    ensures
        r is Some <==> bzip2_contents(compressed@) is Some,
        r is Some ==> r->0@ == bzip2_contents(compressed@)->0,
{
    let mut decoder = bzip2::read::BzDecoder::new(compressed);
    let mut contents: Vec<u8> = Vec::new();
    match decoder.read_to_end(&mut contents) {
        Ok(_) => Some(contents),
        Err(_) => None,
    }
}

/// Decompresses the downloaded wordlist; `InvalidResponse` when the download
/// is not a valid bzip2 stream.
pub fn unpack_wordlist(compressed: &Vec<u8>) -> (r: Result<Vec<u8>, ZinharoError>)
    ensures
        r is Ok <==> bzip2_contents(compressed@) is Some,
        r is Ok ==> r->Ok_0@ == bzip2_contents(compressed@)->0,
        r is Err ==> r matches Err(ZinharoError::InvalidResponse),
{
    match bzip2_decompress(compressed.as_slice()) {
        Some(v) => Ok(v),
        None => Err(ZinharoError::InvalidResponse),
    }
}

/// How the wordlist is to be had.
#[derive(Debug, Clone, Copy, PartialEq, Eq, Structural)]
pub enum WordlistSource {
    /// It is already on disk: use it.
    Cached,
    /// Download it, decompress it and save it, then use it.
    Download,
}

pub open spec fn source_spec(on_disk: bool) -> WordlistSource {
    if on_disk {
        WordlistSource::Cached
    } else {
        WordlistSource::Download
    }
}

/// Chooses how to get the wordlist, given whether it is already on disk.
pub fn wordlist_source(on_disk: bool) -> (r: WordlistSource)
    ensures
        r == source_spec(on_disk),
{
    if on_disk {
        WordlistSource::Cached
    } else {
        WordlistSource::Download
    }
}

/// Whether the wordlist is on disk once a source has been served: a
/// download saves it.
pub open spec fn on_disk_after(on_disk: bool, source: WordlistSource) -> bool {
    on_disk || source == WordlistSource::Download
}

pub open spec fn downloads(source: WordlistSource) -> nat {
    if source == WordlistSource::Download {
        1
    } else {
        0
    }
}

/// Asking for the wordlist twice downloads it at most once: the first
/// request leaves it on disk, and the second finds it there.
pub proof fn lemma_wordlist_downloaded_once(on_disk: bool)
    ensures
        ({
            let first = source_spec(on_disk);
            let second = source_spec(on_disk_after(on_disk, first));
            &&& second == WordlistSource::Cached
            &&& downloads(first) + downloads(second) <= 1
        }),
{
}

} // verus!
