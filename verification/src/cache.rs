use crate::digest::Digest;
use crate::digest::digest_of_bytes;
use crate::digest::digest_matches;
use crate::digest::sri_of;
use vstd::prelude::*;
use vstd::string::StringExecFns;

verus! {

#[verifier::external_type_specification]
#[verifier::external_body]
pub struct ExValue(serde_json::Value);

#[verifier::external_type_specification]
#[verifier::external_body]
pub struct ExUid(nix::unistd::Uid);

#[verifier::external_type_specification]
#[verifier::external_body]
pub struct ExGid(nix::unistd::Gid);

/// One record of the index log. It associates a logical key with the digest
/// under which the payload is stored, the payload's byte length, a commit
/// timestamp in milliseconds since the epoch, free-form metadata that this
/// crate never looks into, and the ownership to apply to on-disk artifacts
/// (absent means: inherit the process defaults). Immutable once written.
pub struct Entry {
    pub key: String,
    pub sri: Digest,
    pub size: usize,
    pub time: u128,
    pub metadata: Option<serde_json::Value>,
    pub uid: Option<nix::unistd::Uid>,
    pub gid: Option<nix::unistd::Gid>,
}

/// The authoritative record for `key` in an append-only log: the newest
/// entry whose key matches, if there is one.
pub open spec fn newest_entry(log: Seq<Entry>, key: Seq<char>) -> Option<Entry>
    decreases log.len(),
{
    if log.len() == 0 {
        None
    } else if log.last().key@ == key {
        Some(log.last())
    } else {
        newest_entry(log.drop_last(), key)
    }
}

/// The digests a content-addressed blob store holds after content with
/// digest `id` is written into it: writing already-present content changes
/// nothing.
pub open spec fn blobs_after_write(blobs: Seq<Seq<char>>, id: Seq<char>) -> Seq<Seq<char>> {
    if blobs.contains(id) {
        blobs
    } else {
        blobs.push(id)
    }
}

/// One cache instance: a content-addressed blob store next to an append-only
/// index log that maps logical keys to digests. The two are deliberately
/// independent: a blob with no index entry pointing at it is harmless, and
/// key lookup is decided by the index alone.
pub struct Cache {
    root: String,
    blobs: Vec<Digest>,
    entries: Vec<Entry>,
}

impl Cache {
    /// The path that names this cache instance, as given at construction.
    pub closed spec fn root_path(self) -> Seq<char> {
        self.root@
    }

    /// The path that names this cache instance. Recorded as given; whether
    /// it is usable as a location on disk is the persistence layer's concern.
    pub fn root(&self) -> (r: &str)
        ensures
            r@ == self.root_path(),
    {
        self.root.as_str()
    }

    /// The digests of the blobs the store holds, in write order.
    pub closed spec fn blob_digests(self) -> Seq<Seq<char>> {
        Seq::new(self.blobs@.len(), |i: int| self.blobs@[i]@)
    }

    /// The index log, oldest entry first.
    pub closed spec fn log(self) -> Seq<Entry> {
        self.entries@
    }

    /// An empty cache under the given root path.
    pub fn new(root: &str) -> (c: Cache)
        ensures
            c.root_path() == root@,
            c.blob_digests() == Seq::<Seq<char>>::empty(),
            c.log() == Seq::<Entry>::empty(),
    {
        let c = Cache { root: String::from_str(root), blobs: Vec::new(), entries: Vec::new() };
        proof {
            assert(c.blob_digests() =~= Seq::<Seq<char>>::empty());
        }
        c
    }

    /// Does the blob store hold content with this digest?
    pub fn has_blob(&self, d: &Digest) -> (r: bool)
        ensures
            r == self.blob_digests().contains(d@),
    {
        let mut i: usize = 0;
        while i < self.blobs.len()
            invariant
                i <= self.blobs.len(),
                forall|j: int| 0 <= j < i ==> self.blob_digests()[j] != d@,
            decreases self.blobs.len() - i,
        {
            if self.blobs[i] == *d {
                proof {
                    assert(self.blob_digests()[i as int] == d@);
                }
                return true;
            }
            i += 1;
        }
        proof {
            assert(!self.blob_digests().contains(d@)) by {
                assert(forall|j: int|
                    0 <= j < self.blob_digests().len() ==> self.blob_digests()[j] != d@);
            }
        }
        false
    }

    /// How many distinct blobs the store holds.
    pub fn blob_count(&self) -> (n: usize)
        ensures
            n == self.blob_digests().len(),
    {
        self.blobs.len()
    }

    /// How many entries the index log holds.
    pub fn entry_count(&self) -> (n: usize)
        ensures
            n == self.log().len(),
    {
        self.entries.len()
    }

    /// Writes a payload into the content-addressed blob store and returns the
    /// digest computed over it. Writing bytes whose digest is already present
    /// leaves the store as it is, so concurrent or repeated writes of the
    /// same content are safe to race.
    pub fn write_blob(&mut self, data: &[u8]) -> (d: Digest)
        ensures
            d@ == sri_of(data@),
            digest_matches(d@, data@),
            final(self).blob_digests() == blobs_after_write(
                old(self).blob_digests(),
                sri_of(data@),
            ),
            final(self).log() == old(self).log(),
            final(self).root_path() == old(self).root_path(),
    {
        let d = digest_of_bytes(data);
        if !self.has_blob(&d) {
            self.blobs.push(d.clone());
            proof {
                assert(self.blob_digests() =~= old(self).blob_digests().push(d@));
            }
        } else {
            proof {
                assert(self.blob_digests() =~= old(self).blob_digests());
            }
        }
        d
    }

    /// Appends one entry to the index log. History is kept: an entry for a
    /// key that already has entries does not replace them, it outranks them.
    pub(crate) fn insert(&mut self, e: Entry)
        ensures
            final(self).log() == old(self).log().push(e),
            final(self).blob_digests() == old(self).blob_digests(),
            final(self).root_path() == old(self).root_path(),
    {
        self.entries.push(e);
        proof {
            assert(self.blob_digests() =~= old(self).blob_digests());
        }
    }

    /// Finds the authoritative entry for a key: the newest one recorded for
    /// it, or `None` if the key was never committed to this cache.
    pub fn lookup<'a>(&'a self, key: &str) -> (r: Option<&'a Entry>)
        ensures
            match r {
                Some(e) => newest_entry(self.log(), key@) == Some(*e),
                None => newest_entry(self.log(), key@) is None,
            },
    {
        let k = String::from_str(key);
        let mut i: usize = self.entries.len();
        proof {
            assert(self.log().take(self.entries.len() as int) =~= self.log());
        }
        while i > 0
            invariant
                i <= self.entries.len(),
                k@ == key@,
                newest_entry(self.log().take(i as int), key@) == newest_entry(self.log(), key@),
            decreases i,
        {
            i = i - 1;
            let e = &self.entries[i];
            proof {
                assert(self.log().take(i as int + 1).last() == self.log()[i as int]);
                assert(self.log().take(i as int + 1).drop_last() =~= self.log().take(i as int));
            }
            if e.key == k {
                return Some(e);
            }
        }
        proof {
            assert(self.log().take(0) =~= Seq::<Entry>::empty());
        }
        None
    }
}

} // verus!
