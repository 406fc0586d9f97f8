use vstd::prelude::*;

verus! {

/// The canonical subresource-integrity text that the blob store computes for
/// a byte buffer. Its exact value is `ssri::Integrity::from`'s business; what
/// matters here is that it is a function of the bytes alone.
pub uninterp spec fn sri_of(data: Seq<u8>) -> Seq<char>;

/// Whether a byte buffer's content matches at least one of the
/// algorithm/hash pairs of the digest written as `digest`. Decided by
/// `ssri::Integrity::check`; a function of the digest text and the bytes
/// alone.
pub uninterp spec fn digest_matches(digest: Seq<char>, data: Seq<u8>) -> bool;

#[verifier::external_type_specification]
#[verifier::external_body]
pub struct ExIntegrity(ssri::Integrity);

/// Relies on `ssri::Integrity`'s derived `Clone`: the clone equals the
/// original.
pub assume_specification[ <ssri::Integrity as Clone>::clone ](i: &ssri::Integrity) -> (r: ssri::Integrity)
    ensures
        r == *i,
;

/// A content digest: one or more (algorithm, hash) pairs that a payload can
/// be checked against, kept both as the parsed `ssri` value and as its
/// canonical text. Immutable once constructed; every value holds at least
/// one pair. Produced by the blob store on write, or taken over from an
/// earlier write as a caller expectation.
pub struct Digest {
    text: String,
    inner: ssri::Integrity,
}

impl View for Digest {
    type V = Seq<char>;

    closed spec fn view(&self) -> Seq<char> {
        self.text@
    }
}

impl Digest {
    /// The digest's canonical subresource-integrity text.
    pub fn as_str(&self) -> (r: &str)
        ensures
            r@ == self@,
    {
        self.text.as_str()
    }
}

impl Clone for Digest {
    fn clone(&self) -> (r: Self)
        ensures
            r@ == self@,
    {
        Digest { text: self.text.clone(), inner: self.inner.clone() }
    }
}

impl PartialEq for Digest {
    fn eq(&self, other: &Digest) -> bool {
        self.text == other.text
    }
}

impl vstd::std_specs::cmp::PartialEqSpecImpl for Digest {
    open spec fn obeys_eq_spec() -> bool {
        true
    }

    open spec fn eq_spec(&self, other: &Digest) -> bool {
        self@ == other@
    }
}

/// Computes the digest of a byte buffer, exactly as the blob store does when
/// it persists the buffer.
///
/// Relies on `ssri::Integrity::from`: the digest is computed over the bytes
/// alone (its text is named `sri_of`), the resulting value matches the bytes
/// it was computed over, and it always holds one algorithm/hash pair.
#[verifier::external_body]
pub(crate) fn digest_of_bytes(data: &[u8]) -> (d: Digest)
    ensures
        d@ == sri_of(data@),
        digest_matches(d@, data@),
        d@.len() > 0,
{
    let inner = ssri::Integrity::from(data);
    Digest { text: inner.to_string(), inner }
}

/// Decides whether a byte buffer matches a digest.
///
/// Relies on `ssri::Integrity::check`: the outcome is a function of the
/// digest and the bytes alone (named `digest_matches`). `check` reads the
/// digest's first pair, which every `Digest` has by construction.
#[verifier::external_body]
pub(crate) fn digest_check(d: &Digest, data: &[u8]) -> (r: bool)
    ensures
        r == digest_matches(d@, data@),
{
    d.inner.check(data).is_ok()
}

} // verus!
