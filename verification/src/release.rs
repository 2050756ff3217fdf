//! Release identities and ordered, checksum-deduplicated collections of
//! them, together with the fixed identity of the booted deployment.

use vstd::prelude::*;

verus! {

/// Externally visible identity of a deployment: version string,
/// content checksum, and an optional age index assigned by the remote
/// update graph. Two releases denote the same deployment exactly when
/// their checksums match.
#[derive(Debug)]
pub struct Release {
    pub version: String,
    pub checksum: String,
    pub age_index: Option<u64>,
}

/// Two releases denote the same deployment.
pub open spec fn same_release(a: Release, b: Release) -> bool {
    a.checksum@ == b.checksum@
}

impl Clone for Release {
    fn clone(&self) -> (r: Self)
        ensures
            r == *self,
    {
        Release {
            version: self.version.clone(),
            checksum: self.checksum.clone(),
            age_index: self.age_index,
        }
    }
}

/// Identity of the booted deployment plus a stable node identifier;
/// fixed for the agent's lifetime.
#[derive(Debug)]
pub struct Identity {
    pub current_os: Release,
    pub basearch: String,
    pub stream: String,
    pub node_uuid: String,
}

/// An insertion-ordered set of releases, deduplicated by checksum.
pub struct ReleaseSet {
    items: Vec<Release>,
}

impl View for ReleaseSet {
    type V = Seq<Release>;

    closed spec fn view(&self) -> Seq<Release> {
        self.items@
    }
}

/// Whether a sequence of releases holds one with the given checksum.
pub open spec fn seq_has_checksum(s: Seq<Release>, checksum: Seq<char>) -> bool {
    exists|i: int| 0 <= i < s.len() && #[trigger] s[i].checksum@ == checksum
}

impl ReleaseSet {
    /// No two members share a checksum.
    pub open spec fn wf(&self) -> bool {
        forall|i: int, j: int|
            0 <= i < j < self@.len() ==> #[trigger] self@[i].checksum@ != #[trigger] self@[j].checksum@
    }

    /// Whether some member has the given checksum.
    pub open spec fn spec_contains(&self, checksum: Seq<char>) -> bool {
        seq_has_checksum(self@, checksum)
    }

    pub fn new() -> (r: Self)
        ensures
            r@ == Seq::<Release>::empty(),
            r.wf(),
    {
        ReleaseSet { items: Vec::new() }
    }

    pub fn len(&self) -> (r: usize)
        ensures
            r == self@.len(),
    {
        self.items.len()
    }

    pub fn as_slice(&self) -> (r: &Vec<Release>)
        ensures
            r@ == self@,
    {
        &self.items
    }

    /// Whether some member has the checksum of `release`.
    pub fn contains(&self, release: &Release) -> (r: bool)
        ensures
            r == self.spec_contains(release.checksum@),
    {
        let n = self.items.len();
        for i in 0..n
            invariant
                n == self.items.len(),
                forall|j: int| 0 <= j < i ==> #[trigger] self.items@[j].checksum@ != release.checksum@,
        {
            if self.items[i].checksum == release.checksum {
                return true;
            }
        }
        false
    }

    /// Insert `release` unless a member already has its checksum.
    pub fn insert(&mut self, release: Release)
        requires
            old(self).wf(),
        ensures
            final(self).wf(),
            old(self).spec_contains(release.checksum@) ==> final(self)@ == old(self)@,
            !old(self).spec_contains(release.checksum@) ==> final(self)@ == old(self)@.push(release),
    {
        if !self.contains(&release) {
            self.items.push(release);
        }
    }
}

} // verus!
