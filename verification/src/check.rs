//! The integrity checker: decides from a file's bytes whether it already
//! satisfies an expected size and content digest, so that only missing or
//! corrupt files are planned for download.

use vstd::prelude::*;
use sha1::{Digest, Sha1};
use crate::download::Sha1Hash;

verus! {

/// The 20-byte digest of a byte sequence, as the outside hash computes it.
pub uninterp spec fn sha1_of(data: Seq<u8>) -> Seq<u8>;

/// Relies on sha1::Sha1 through the Digest trait: the returned 20-byte
/// digest is a function of the input bytes alone.
#[verifier::external_body]
pub fn sha1_digest(data: &[u8]) -> (h: [u8; 20])
    ensures
        h@ == sha1_of(data@),
{
    Sha1::digest(data).into()
}

/// Byte-wise digest equality.
fn hash_eq(a: &Sha1Hash, b: &Sha1Hash) -> (r: bool)
    ensures
        r == (a@ == b@),
{
    let mut i: usize = 0;
    while i < 20
        invariant
            i <= 20,
            a@.len() == 20,
            b@.len() == 20,
            forall|k: int| 0 <= k < i ==> a@[k] == b@[k],
        decreases 20 - i,
    {
        if *vstd::array::array_index_get(a, i) != *vstd::array::array_index_get(b, i) {
            return false;
        }
        i += 1;
    }
    proof {
        assert(a@ =~= b@);
    }
    true
}

/// Whether a file in this state must be (re)downloaded. `file` is `None`
/// when no file exists, else its full content. With a digest expected, a
/// wrong length or wrong digest demands a download; with only a size
/// expected, a wrong length does; with no expectation at all, an existing
/// file is trusted as it stands.
pub open spec fn spec_needs_download(
    file: Option<Seq<u8>>,
    size: Option<u32>,
    sha1: Option<Seq<u8>>,
) -> bool {
    match file {
        None => true,
        Some(data) => match sha1 {
            Some(expected) => (match size {
                Some(s) => data.len() != s,
                None => false,
            }) || sha1_of(data) != expected,
            None => match size {
                Some(s) => data.len() != s,
                None => false,
            },
        },
    }
}

/// Decide from a file's bytes whether it must be (re)downloaded.
pub fn needs_download(file: Option<&Vec<u8>>, size: Option<u32>, sha1: Option<&Sha1Hash>) -> (r:
    bool)
    ensures
        r == spec_needs_download(
            (match file {
                Some(data) => Some(data@),
                None => None::<Seq<u8>>,
            }),
            size,
            (match sha1 {
                Some(h) => Some(h@),
                None => None::<Seq<u8>>,
            }),
        ),
{
    match file {
        None => true,
        Some(data) => {
            match sha1 {
                Some(expected) => {
                    if let Some(s) = size {
                        if data.len() != s as usize {
                            return true;
                        }
                    }
                    let h = sha1_digest(data.as_slice());
                    !hash_eq(&h, expected)
                },
                None => {
                    match size {
                        Some(s) => data.len() != s as usize,
                        None => false,
                    }
                },
            }
        },
    }
}

/// Law: a missing file always needs a download, whatever is expected of it.
pub proof fn lemma_missing_file_needs_download(size: Option<u32>, sha1: Option<Seq<u8>>)
    ensures
        spec_needs_download(None, size, sha1),
{
}

/// Law: a file whose bytes have the expected length and the expected digest
/// never needs a download — so a run that finds every planned file already
/// correct plans nothing anew.
pub proof fn lemma_satisfied_file_needs_no_download(
    data: Seq<u8>,
    size: Option<u32>,
    sha1: Option<Seq<u8>>,
)
    requires
        match size {
            Some(s) => data.len() == s,
            None => true,
        },
        match sha1 {
            Some(h) => sha1_of(data) == h,
            None => true,
        },
    ensures
        !spec_needs_download(Some(data), size, sha1),
{
}

} // verus!
