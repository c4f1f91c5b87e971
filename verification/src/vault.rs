//! Content kept under its digest.
use crate::digest;
use crate::digest::Sha256Digest;
use crate::ordered;
use crate::ordered::TextMap;
use crate::text;
use vstd::prelude::*;
use vstd::string::*;

verus! {

/// The contents with some bytes kept under their digest.
pub open spec fn kept(artifacts: Map<Seq<char>, Seq<u8>>, bytes: Seq<u8>) -> Map<
    Seq<char>,
    Seq<u8>,
> {
    if artifacts.dom().contains(digest::digest_text(bytes)) {
        artifacts
    } else {
        artifacts.insert(digest::digest_text(bytes), bytes)
    }
}

/// The bytes under a digest, or why they cannot be read: there are none, or more than the bound.
pub open spec fn readable(
    artifacts: Map<Seq<char>, Seq<u8>>,
    identity: Seq<char>,
    limit: usize,
) -> Result<Seq<u8>, Seq<char>> {
    if !artifacts.dom().contains(identity) {
        Err("Artifact "@ + identity + " is absent"@)
    } else if artifacts[identity].len() > limit {
        Err(
            "Artifact "@ + identity + " exceeds context bound "@ + text::decimal(limit as nat),
        )
    } else {
        Ok(artifacts[identity])
    }
}

/// What stands under a digest has that digest.
pub open spec fn addressed(artifacts: Map<Seq<char>, Seq<u8>>) -> bool {
    forall|k: Seq<char>| #[trigger]
        artifacts.dom().contains(k) ==> digest::digest_text(artifacts[k]) == k
}

/// A content-addressed store that is held in memory.
#[derive(Debug)]
pub struct ArtifactVault {
    contents: TextMap<Vec<u8>>,
}

impl View for ArtifactVault {
    type V = Map<Seq<char>, Seq<u8>>;

    closed spec fn view(&self) -> Map<Seq<char>, Seq<u8>> {
        ordered::values(self.contents@)
    }
}

impl ArtifactVault {
    #[verifier::type_invariant]
    spec fn is_addressed(self) -> bool {
        addressed(ordered::values(self.contents@))
    }

    pub fn new() -> (r: Self)
        ensures
            r@ == Map::<Seq<char>, Seq<u8>>::empty(),
    {
        let contents: TextMap<Vec<u8>> = TextMap::new();
        assert(ordered::values(contents@) =~= Map::<Seq<char>, Seq<u8>>::empty());
        ArtifactVault { contents }
    }

    /// Keeps bytes under their digest.
    pub fn ingest(&mut self, bytes: &[u8]) -> (r: Sha256Digest)
        ensures
            r@ == digest::digest_text(bytes@),
            final(self)@ == kept(old(self)@, bytes@),
            addressed(final(self)@),
    {
        proof {
            use_type_invariant(&*self);
        }
        let identity = Sha256Digest::digest_bytes(bytes);
        if !self.contents.contains(identity.as_str()) {
            let mut contents: TextMap<Vec<u8>> = TextMap::new();
            assert(ordered::values(contents@) =~= Map::<Seq<char>, Seq<u8>>::empty());
            std::mem::swap(&mut contents, &mut self.contents);
            let ghost before = contents@;
            let copy = text::copy_bytes(bytes);
            let _ = contents.insert(identity.as_str().to_owned(), copy);
            proof {
                ordered::values_insert(before, identity@, copy);
            }
            self.contents = contents;
        }
        identity
    }

    /// Whether content with that digest is kept.
    pub fn contains(&self, identity: &str) -> (r: bool)
        ensures
            r == self@.dom().contains(identity@),
    {
        self.contents.contains(identity)
    }

    /// The bytes under a digest, up to a bound; they have that digest.
    pub fn open(&self, identity: &str, limit: usize) -> (r: Result<Vec<u8>, String>)
        ensures
            match readable(self@, identity@, limit) {
                Ok(bytes) => r matches Ok(found) && found@ == bytes && digest::digest_text(found@)
                    == identity@,
                Err(e) => r matches Err(error) && error@ == e,
            },
    {
        proof {
            use_type_invariant(self);
        }
        let bytes = match self.contents.get(identity) {
            Some(bytes) => bytes,
            None => {
                return Err(text::enclosed("Artifact ", identity, " is absent"));
            },
        };
        if bytes.len() > limit {
            let mut detail = text::enclosed("Artifact ", identity, " exceeds context bound ");
            text::push_decimal(&mut detail, limit as u64);
            return Err(detail);
        }
        Ok(text::copy_bytes(bytes.as_slice()))
    }
}

/// What was kept is read back, and keeping it again changes nothing.
pub proof fn kept_content_reads_back(artifacts: Map<Seq<char>, Seq<u8>>, bytes: Seq<u8>, limit: usize)
    requires
        !artifacts.dom().contains(digest::digest_text(bytes)),
        bytes.len() <= limit,
    ensures
        readable(kept(artifacts, bytes), digest::digest_text(bytes), limit) == Ok::<
            Seq<u8>,
            Seq<char>,
        >(bytes),
        kept(kept(artifacts, bytes), bytes) == kept(artifacts, bytes),
{
}

/// Keeping three contents again changes nothing.
pub proof fn keeping_is_idempotent(
    artifacts: Map<Seq<char>, Seq<u8>>,
    a: Seq<u8>,
    b: Seq<u8>,
    c: Seq<u8>,
)
    ensures
        ({
            let all = kept(kept(kept(artifacts, a), b), c);
            kept(kept(kept(all, a), b), c) == all
        }),
{
}

} // verus!
