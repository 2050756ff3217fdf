//! Status payloads of the image-based deployment tool: the deployment
//! entries it reports, parsing of the booted deployment and of the
//! local deployment set, and the mtime-keyed status cache.

use vstd::prelude::*;

use crate::metrics::Metrics;
use crate::release::Release;
use crate::release::ReleaseSet;
use crate::release::seq_has_checksum;

verus! {

/// Status payload of the deployment tool.
#[derive(Debug)]
pub struct StatusJSON {
    pub deployments: Vec<DeploymentJSON>,
}

/// One deployment entry of the status payload (only the fields the
/// agent reads).
#[derive(Debug)]
pub struct DeploymentJSON {
    pub booted: bool,
    pub base_checksum: Option<String>,
    pub base_metadata: BaseCommitMetaJSON,
    pub checksum: String,
    /// A missing field in the payload means "not staged".
    pub staged: bool,
    pub version: String,
}

/// Metadata of the base commit (only the fields the agent reads).
#[derive(Debug)]
pub struct BaseCommitMetaJSON {
    pub basearch: String,
    pub stream: String,
}

/// Why a status payload was rejected.
#[derive(Clone, Copy, Debug, PartialEq, Eq, Structural)]
pub enum StatusError {
    /// No deployment in the payload is marked booted.
    NoBootedDeployment,
    /// The booted deployment has an empty base revision.
    EmptyBaseRevision,
    /// The booted deployment has an empty version.
    EmptyVersion,
    /// The booted deployment has an empty base architecture.
    EmptyBasearch,
    /// The booted deployment has an empty updates stream.
    EmptyStream,
}

impl Clone for BaseCommitMetaJSON {
    fn clone(&self) -> (r: Self)
        ensures
            r == *self,
    {
        BaseCommitMetaJSON { basearch: self.basearch.clone(), stream: self.stream.clone() }
    }
}

impl Clone for DeploymentJSON {
    fn clone(&self) -> (r: Self)
        ensures
            r == *self,
    {
        DeploymentJSON {
            booted: self.booted,
            base_checksum: match &self.base_checksum {
                Some(c) => Some(c.clone()),
                None => None,
            },
            base_metadata: self.base_metadata.clone(),
            checksum: self.checksum.clone(),
            staged: self.staged,
            version: self.version.clone(),
        }
    }
}

impl Clone for StatusJSON {
    fn clone(&self) -> (r: Self)
        ensures
            r.deployments@ == self.deployments@,
    {
        let mut deployments: Vec<DeploymentJSON> = Vec::new();
        let n = self.deployments.len();
        for i in 0..n
            invariant
                n == self.deployments.len(),
                deployments@ =~= self.deployments@.take(i as int),
        {
            deployments.push(self.deployments[i].clone());
        }
        proof {
            assert(deployments@ =~= self.deployments@);
        }
        StatusJSON { deployments }
    }
}

/// Last-modification time of the deployments directory, used as the
/// key of the status cache. No file content is read; only this stamp.
#[derive(Clone, Copy, Debug, PartialEq, Eq, Structural)]
pub struct Mtime {
    pub secs: i64,
    pub nanos: u32,
}

/// Cached output of the deployment tool, keyed by the mtime of the
/// deployments directory.
pub struct StatusCache {
    pub status: StatusJSON,
    pub mtime: Mtime,
}

/// Client of the deployment tool, holding its status cache.
pub struct RpmOstreeClient {
    pub status_cache: Option<StatusCache>,
}

impl RpmOstreeClient {
    /// Whether the cached status is fresh for the given directory
    /// mtime.
    pub open spec fn cache_fresh(&self, mtime: Mtime) -> bool {
        self.status_cache matches Some(c) && c.mtime == mtime
    }

    pub fn new() -> (r: Self)
        ensures
            r.status_cache is None,
    {
        RpmOstreeClient { status_cache: None }
    }

    /// Consult the status cache: the cached status exactly when its
    /// key matches the given mtime. The attempt is counted, and so is
    /// a miss.
    pub fn query_cached_status(&self, metrics: &mut Metrics, mtime: Mtime) -> (r: Option<
        StatusJSON,
    >)
        ensures
            r is Some <==> self.cache_fresh(mtime),
            self.status_cache matches Some(c) ==> (c.mtime == mtime ==> (r matches Some(s)
                && s.deployments@ == c.status.deployments@)),
            *final(metrics) == (Metrics {
                status_cache_attempts: old(metrics).status_cache_attempts.saturating_add(1),
                status_cache_misses: if self.cache_fresh(mtime) {
                    old(metrics).status_cache_misses
                } else {
                    old(metrics).status_cache_misses.saturating_add(1)
                },
                ..*old(metrics)
            }),
    {
        metrics.status_cache_attempts = metrics.status_cache_attempts.saturating_add(1);
        match &self.status_cache {
            Some(cache) => {
                if cache.mtime == mtime {
                    return Some(cache.status.clone());
                }
            },
            None => {},
        }
        metrics.status_cache_misses = metrics.status_cache_misses.saturating_add(1);
        None
    }

    /// Remember a freshly retrieved status under its mtime key.
    pub fn store_status(&mut self, status: StatusJSON, mtime: Mtime)
        ensures
            final(self).status_cache == (Some(StatusCache { status, mtime })),
    {
        self.status_cache = Some(StatusCache { status, mtime });
    }
}

/// The base revision of a deployment: its base checksum when present,
/// else its own checksum.
pub open spec fn spec_base_revision(d: DeploymentJSON) -> String {
    match d.base_checksum {
        Some(c) => c,
        None => d.checksum,
    }
}

/// The release a deployment entry stands for.
pub open spec fn spec_into_release(d: DeploymentJSON) -> Release {
    Release { version: d.version, checksum: spec_base_revision(d), age_index: None }
}

impl DeploymentJSON {
    /// Convert into `Release`.
    pub fn into_release(self) -> (r: Release)
        ensures
            r == spec_into_release(self),
    {
        let checksum = self.base_revision();
        Release { checksum, version: self.version, age_index: None }
    }

    /// Return the deployment base revision.
    pub fn base_revision(&self) -> (r: String)
        ensures
            r == spec_base_revision(*self),
    {
        match &self.base_checksum {
            Some(c) => c.clone(),
            None => self.checksum.clone(),
        }
    }
}

/// Some deployment of the payload is marked booted.
pub open spec fn has_booted(depls: Seq<DeploymentJSON>) -> bool {
    exists|i: int| 0 <= i < depls.len() && (#[trigger] depls[i]).booted
}

/// `i` indexes the first deployment marked booted.
pub open spec fn is_first_booted(depls: Seq<DeploymentJSON>, i: int) -> bool {
    &&& 0 <= i < depls.len()
    &&& depls[i].booted
    &&& forall|j: int| 0 <= j < i ==> !(#[trigger] depls[j]).booted
}

/// What inspecting a booted deployment yields: the entry itself, or
/// the rejection of its first empty mandatory field.
pub open spec fn spec_booted_json(d: DeploymentJSON) -> Result<DeploymentJSON, StatusError> {
    if spec_base_revision(d)@.len() == 0 {
        Err(StatusError::EmptyBaseRevision)
    } else if d.version@.len() == 0 {
        Err(StatusError::EmptyVersion)
    } else if d.base_metadata.basearch@.len() == 0 {
        Err(StatusError::EmptyBasearch)
    } else {
        Ok(d)
    }
}

/// Return the payload entry for the booted deployment.
pub fn booted_json(status: &StatusJSON) -> (r: Result<DeploymentJSON, StatusError>)
    ensures
        !has_booted(status.deployments@) ==> r == Err::<DeploymentJSON, StatusError>(
            StatusError::NoBootedDeployment,
        ),
        forall|i: int|
            is_first_booted(status.deployments@, i) ==> r == spec_booted_json(
                status.deployments@[i],
            ),
{
    let n = status.deployments.len();
    for i in 0..n
        invariant
            n == status.deployments.len(),
            forall|j: int| 0 <= j < i ==> !(#[trigger] status.deployments@[j]).booted,
    {
        if status.deployments[i].booted {
            proof {
                assert(is_first_booted(status.deployments@, i as int));
                assert(forall|k: int|
                    is_first_booted(status.deployments@, k) ==> k == i as int);
            }
            let d = status.deployments[i].clone();
            let rev = d.base_revision();
            if rev.as_str().is_empty() {
                return Err(StatusError::EmptyBaseRevision);
            }
            if d.version.as_str().is_empty() {
                return Err(StatusError::EmptyVersion);
            }
            if d.base_metadata.basearch.as_str().is_empty() {
                return Err(StatusError::EmptyBasearch);
            }
            return Ok(d);
        }
    }
    Err(StatusError::NoBootedDeployment)
}

/// What parsing the booted base architecture yields.
pub open spec fn spec_parse_basearch(d: DeploymentJSON) -> Result<String, StatusError> {
    match spec_booted_json(d) {
        Ok(b) => Ok(b.base_metadata.basearch),
        Err(e) => Err(e),
    }
}

/// Parse base architecture for booted deployment from status object.
pub fn parse_basearch(status: &StatusJSON) -> (r: Result<String, StatusError>)
    ensures
        !has_booted(status.deployments@) ==> r == Err::<String, StatusError>(
            StatusError::NoBootedDeployment,
        ),
        forall|i: int|
            is_first_booted(status.deployments@, i) ==> r == spec_parse_basearch(
                status.deployments@[i],
            ),
{
    match booted_json(status) {
        Ok(json) => Ok(json.base_metadata.basearch),
        Err(e) => Err(e),
    }
}

/// What parsing the booted deployment as a release yields.
pub open spec fn spec_parse_booted(d: DeploymentJSON) -> Result<Release, StatusError> {
    match spec_booted_json(d) {
        Ok(b) => Ok(spec_into_release(b)),
        Err(e) => Err(e),
    }
}

/// Parse the booted deployment from status object.
pub fn parse_booted(status: &StatusJSON) -> (r: Result<Release, StatusError>)
    ensures
        !has_booted(status.deployments@) ==> r == Err::<Release, StatusError>(
            StatusError::NoBootedDeployment,
        ),
        forall|i: int|
            is_first_booted(status.deployments@, i) ==> r == spec_parse_booted(
                status.deployments@[i],
            ),
{
    match booted_json(status) {
        Ok(json) => Ok(json.into_release()),
        Err(e) => Err(e),
    }
}

/// What parsing the booted updates stream yields.
pub open spec fn spec_parse_updates_stream(d: DeploymentJSON) -> Result<String, StatusError> {
    match spec_booted_json(d) {
        Ok(b) => if b.base_metadata.stream@.len() == 0 {
            Err(StatusError::EmptyStream)
        } else {
            Ok(b.base_metadata.stream)
        },
        Err(e) => Err(e),
    }
}

/// Parse updates stream for booted deployment from status object.
pub fn parse_updates_stream(status: &StatusJSON) -> (r: Result<String, StatusError>)
    ensures
        !has_booted(status.deployments@) ==> r == Err::<String, StatusError>(
            StatusError::NoBootedDeployment,
        ),
        forall|i: int|
            is_first_booted(status.deployments@, i) ==> r == spec_parse_updates_stream(
                status.deployments@[i],
            ),
{
    match booted_json(status) {
        Ok(json) => {
            if json.base_metadata.stream.as_str().is_empty() {
                Err(StatusError::EmptyStream)
            } else {
                Ok(json.base_metadata.stream)
            }
        },
        Err(e) => Err(e),
    }
}

/// Whether a deployment entry counts as a local deployment under the
/// given staging filter.
pub open spec fn deployment_included(d: DeploymentJSON, omit_staged: bool) -> bool {
    !(omit_staged && d.staged)
}

/// The releases of the included deployment entries, in payload order,
/// keeping the first entry of each base revision.
pub open spec fn spec_local_releases(depls: Seq<DeploymentJSON>, omit_staged: bool) -> Seq<Release>
    decreases depls.len(),
{
    if depls.len() == 0 {
        Seq::empty()
    } else {
        let rest = spec_local_releases(depls.drop_last(), omit_staged);
        let d = depls.last();
        if deployment_included(d, omit_staged) && !seq_has_checksum(
            rest,
            spec_base_revision(d)@,
        ) {
            rest.push(spec_into_release(d))
        } else {
            rest
        }
    }
}

/// Parse local deployments from a status object.
pub fn parse_local_deployments(status: &StatusJSON, omit_staged: bool) -> (r: Result<
    ReleaseSet,
    StatusError,
>)
    ensures
        r matches Ok(set) && set.wf() && set@ == spec_local_releases(
            status.deployments@,
            omit_staged,
        ),
{
    let mut deployments = ReleaseSet::new();
    let n = status.deployments.len();
    for i in 0..n
        invariant
            n == status.deployments.len(),
            deployments.wf(),
            deployments@ == spec_local_releases(status.deployments@.take(i as int), omit_staged),
    {
        proof {
            assert(status.deployments@.take(i + 1).drop_last() =~= status.deployments@.take(
                i as int,
            ));
            assert(status.deployments@.take(i + 1).last() == status.deployments@[i as int]);
        }
        let entry = &status.deployments[i];
        if !(omit_staged && entry.staged) {
            let release = entry.clone().into_release();
            deployments.insert(release);
        }
    }
    proof {
        assert(status.deployments@.take(n as int) =~= status.deployments@);
    }
    Ok(deployments)
}

} // verus!
