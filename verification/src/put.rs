use crate::cache::Cache;
use crate::cache::Entry;
use crate::cache::blobs_after_write;
use crate::digest::Digest;
use crate::digest::digest_check;
use crate::digest::digest_matches;
use crate::digest::sri_of;
use crate::errors::Error;
use crate::laws::lemma_blob_write_idempotent;
use vstd::prelude::*;
use vstd::string::StrSliceExecFns;
use vstd::string::StringExecFns;

verus! {

/// The current wall-clock time in milliseconds since the epoch.
///
/// Relies on `std::time::SystemTime::now`; the value depends on the clock,
/// so nothing is promised of it.
#[verifier::external_body]
fn now_millis() -> u128 {
    std::time::SystemTime::now()
        .duration_since(std::time::UNIX_EPOCH)
        .map(|d| d.as_millis())
        .unwrap_or(0)
}

/// A write descriptor: accumulates the parameters of one staged write and
/// performs the commit. Built by [`Writer::new`], configured by any number
/// of the `with`-style methods in any order, and consumed by [`Writer::commit`]
/// (move semantics make reuse after commit impossible).
pub struct Writer {
    /// The path that names the cache instance the write is aimed at.
    pub cache: String,
    /// The logical key the payload is published under. Must be non-empty by
    /// commit time, or the commit fails with `ConfigError`.
    pub key: String,
    /// An optional digest the payload must match.
    pub sri: Option<Digest>,
    /// An optional byte length the payload must have.
    pub size: Option<usize>,
    /// An optional commit time in milliseconds since the epoch; when absent,
    /// commit reads the clock.
    pub time: Option<u128>,
    /// Optional free-form metadata, recorded verbatim and never read here.
    pub metadata: Option<serde_json::Value>,
    /// Optional owning user for on-disk artifacts; absent means inherit.
    pub uid: Option<nix::unistd::Uid>,
    /// Optional owning group for on-disk artifacts; absent means inherit.
    pub gid: Option<nix::unistd::Gid>,
}

impl Writer {
    /// The configured key is usable: non-empty.
    pub open spec fn key_ok(self) -> bool {
        self.key@.len() > 0
    }

    /// The payload matches the expected digest, if one was configured.
    pub open spec fn digest_ok(self, data: Seq<u8>) -> bool {
        match self.sri {
            Some(d) => digest_matches(d@, data),
            None => true,
        }
    }

    /// The payload has the expected byte length, if one was configured.
    pub open spec fn size_ok(self, data: Seq<u8>) -> bool {
        match self.size {
            Some(n) => n == data.len(),
            None => true,
        }
    }

    /// All of the builder's pre-write validations accept the payload.
    pub open spec fn accepts(self, data: Seq<u8>) -> bool {
        self.key_ok() && self.digest_ok(data) && self.size_ok(data)
    }

    /// What the index records of one committed write: the builder's key, the
    /// digest and length of the payload, the configured timestamp if one was
    /// given (else whatever the clock said), and the metadata and ownership
    /// exactly as configured.
    pub open spec fn entry_records(self, e: Entry, data: Seq<u8>) -> bool {
        &&& e.key@ == self.key@
        &&& e.sri@ == sri_of(data)
        &&& e.size == data.len()
        &&& (self.time matches Some(t) ==> e.time == t)
        &&& e.metadata == self.metadata
        &&& e.uid == self.uid
        &&& e.gid == self.gid
    }

    /// A fresh, unconfigured builder for one write of `key` into the cache
    /// named `cache`.
    pub fn new(cache: &str, key: &str) -> (w: Writer)
        ensures
            w.cache@ == cache@,
            w.key@ == key@,
            w.sri is None,
            w.size is None,
            w.time is None,
            w.metadata is None,
            w.uid is None,
            w.gid is None,
    {
        Writer {
            cache: String::from_str(cache),
            key: String::from_str(key),
            sri: None,
            size: None,
            time: None,
            metadata: None,
            uid: None,
            gid: None,
        }
    }

    /// Configure the byte length the payload must have. Last value wins.
    pub fn size(self, size: usize) -> (w: Self)
        ensures
            w == (Writer { size: Some(size), ..self }),
    {
        Writer { size: Some(size), ..self }
    }

    /// Attach free-form metadata to the entry. Last value wins.
    pub fn metadata(self, metadata: serde_json::Value) -> (w: Self)
        ensures
            w == (Writer { metadata: Some(metadata), ..self }),
    {
        Writer { metadata: Some(metadata), ..self }
    }

    /// Configure an explicit commit time, in milliseconds since the epoch.
    /// Last value wins.
    pub fn time(self, time: u128) -> (w: Self)
        ensures
            w == (Writer { time: Some(time), ..self }),
    {
        Writer { time: Some(time), ..self }
    }

    /// Configure a digest the payload must match. Last value wins.
    pub fn integrity(self, sri: Digest) -> (w: Self)
        ensures
            w == (Writer { sri: Some(sri), ..self }),
    {
        Writer { sri: Some(sri), ..self }
    }

    /// Configure the ownership to apply to written artifacts; `None` means
    /// inherit the process defaults. Last values win.
    pub fn chown(self, uid: Option<nix::unistd::Uid>, gid: Option<nix::unistd::Gid>) -> (w: Self)
        ensures
            w == (Writer { uid, gid, ..self }),
    {
        Writer { uid, gid, ..self }
    }

    /// Commits one payload: validates it against the configured
    /// expectations, writes it into the blob store, and publishes an index
    /// entry for the key. Returns the digest the blob store computed over
    /// the payload, which is authoritative (the expected digest is only ever
    /// checked against, never returned).
    ///
    /// Validation happens before any write, so a rejected payload leaves the
    /// cache untouched. The blob write and the index append are two
    /// independent steps with no rollback in between: the store is
    /// content-addressed, so a blob without an index entry is harmless, and
    /// the key-lookup view of the cache is decided by the index alone.
    pub fn commit(self, store: &mut Cache, data: &[u8]) -> (r: Result<Digest, Error>)
        ensures
            !self.key_ok() ==> r == Err::<Digest, Error>(Error::ConfigError),
            self.key_ok() && !self.digest_ok(data@) ==> r == Err::<Digest, Error>(
                Error::IntegrityError,
            ),
            self.key_ok() && self.digest_ok(data@) && !self.size_ok(data@) ==> r == Err::<
                Digest,
                Error,
            >(Error::SizeError),
            !self.accepts(data@) ==> *final(store) == *old(store)
                && final(store).log() == old(store).log(),
            self.accepts(data@) ==> {
                &&& r matches Ok(d) && d@ == sri_of(data@)
                &&& digest_matches(sri_of(data@), data@)
                &&& final(store).root_path() == old(store).root_path()
                &&& final(store).blob_digests() == blobs_after_write(
                    old(store).blob_digests(),
                    sri_of(data@),
                )
                &&& final(store).log().len() == old(store).log().len() + 1
                &&& final(store).log().drop_last() == old(store).log()
                &&& self.entry_records(final(store).log().last(), data@)
            },
    {
        if self.key.as_str().unicode_len() == 0 {
            return Err(Error::ConfigError);
        }
        if let Some(d) = &self.sri {
            if !digest_check(d, data) {
                return Err(Error::IntegrityError);
            }
        }
        if let Some(n) = self.size {
            if n != data.len() {
                return Err(Error::SizeError);
            }
        }
        let d = store.write_blob(data);
        let time = match self.time {
            Some(t) => t,
            None => now_millis(),
        };
        let entry = Entry {
            key: self.key,
            sri: d.clone(),
            size: data.len(),
            time,
            metadata: self.metadata,
            uid: self.uid,
            gid: self.gid,
        };
        store.insert(entry);
        proof {
            assert(store.log().drop_last() =~= old(store).log());
        }
        Ok(d)
    }
}

/// Writes `data` into the cache under `key` in one call, with no
/// expectations to check. The digest is obtained from the blob store's own
/// write and attached to the builder as the expected digest, so the commit's
/// verification is satisfied by construction rather than duplicated here;
/// the commit's second blob write of the same content is a no-op.
pub fn data(cache: &mut Cache, key: &str, payload: &[u8]) -> (r: Result<Digest, Error>)
    ensures
        key@.len() == 0 ==> r == Err::<Digest, Error>(Error::ConfigError),
        final(cache).root_path() == old(cache).root_path(),
        final(cache).blob_digests() == blobs_after_write(
            old(cache).blob_digests(),
            sri_of(payload@),
        ),
        key@.len() == 0 ==> final(cache).log() == old(cache).log(),
        key@.len() > 0 ==> {
            &&& r matches Ok(d) && d@ == sri_of(payload@)
            &&& final(cache).log().len() == old(cache).log().len() + 1
            &&& final(cache).log().drop_last() == old(cache).log()
            &&& {
                let e = final(cache).log().last();
                &&& e.key@ == key@
                &&& e.sri@ == sri_of(payload@)
                &&& e.size == payload.len()
                &&& e.metadata is None
                &&& e.uid is None
                &&& e.gid is None
            }
        },
{
    let w = Writer::new(cache.root(), key);
    let sri = cache.write_blob(payload);
    proof {
        lemma_blob_write_idempotent(old(cache).blob_digests(), sri_of(payload@));
    }
    w.integrity(sri).commit(cache, payload)
}

} // verus!
