//! The ledger as a mathematical value, and each operation on it as a function
//! from the ledger before to the ledger after and the result.

use vstd::prelude::*;
use crate::models::{
    new_build_view, ApiError, BuildRefView, BuildView, JobView, NewBuildRefView, Rejection,
};
use crate::state::{JobKind, PublishedStateView, RepoStateView};

verus! {

/// The three tables. A record's identifier is its position plus one.
pub struct LedgerView {
    pub builds: Seq<BuildView>,
    pub refs: Seq<BuildRefView>,
    pub jobs: Seq<JobView>,
}

/// The refs of `refs` that belong to build `build_id`, in table order.
pub open spec fn refs_of(refs: Seq<BuildRefView>, build_id: i32) -> Seq<BuildRefView>
    decreases refs.len(),
{
    if refs.len() == 0 {
        Seq::empty()
    } else {
        let rest = refs_of(refs.drop_last(), build_id);
        if refs.last().build_id == build_id {
            rest.push(refs.last())
        } else {
            rest
        }
    }
}

/// The builds of `builds` whose repo state is not of the same variant as
/// `excluded`, in table order.
pub open spec fn builds_not_in(builds: Seq<BuildView>, excluded: RepoStateView) -> Seq<BuildView>
    decreases builds.len(),
{
    if builds.len() == 0 {
        Seq::empty()
    } else {
        let rest = builds_not_in(builds.drop_last(), excluded);
        if crate::state::same_repo_variant(builds.last().repo_state, excluded) {
            rest
        } else {
            rest.push(builds.last())
        }
    }
}

/// The message of a purge that a worker reported as failed.
pub open spec fn purge_failure_reason(error: Seq<char>) -> Seq<char> {
    "Failed to Purge build: "@ + error
}

impl LedgerView {
    /// The ledger with no records.
    pub open spec fn empty() -> LedgerView {
        LedgerView { builds: Seq::empty(), refs: Seq::empty(), jobs: Seq::empty() }
    }

    /// Whether a build has identifier `id`.
    pub open spec fn has_build(self, id: i32) -> bool {
        1 <= id <= self.builds.len()
    }

    /// The build with identifier `id`.
    pub open spec fn build(self, id: i32) -> BuildView {
        self.builds[id - 1]
    }

    /// Whether a job has identifier `id`.
    pub open spec fn has_job(self, id: i32) -> bool {
        1 <= id <= self.jobs.len()
    }

    /// The job with identifier `id`.
    pub open spec fn job(self, id: i32) -> JobView {
        self.jobs[id - 1]
    }

    /// A job link of a build is absent, or names a job of the given kind that
    /// works on that build.
    pub open spec fn link_ok(self, link: Option<i32>, kind: JobKind, build_id: i32) -> bool {
        match link {
            Some(j) => self.has_job(j) && self.job(j).kind == kind && self.job(j).build == build_id,
            None => true,
        }
    }

    /// A build record that may stand at its place in this ledger.
    pub open spec fn build_ok(self, b: BuildView) -> bool {
        &&& self.has_build(b.id)
        &&& self.link_ok(b.commit_job_id, JobKind::Commit, b.id)
        &&& self.link_ok(b.publish_job_id, JobKind::Publish, b.id)
    }

    /// Well-formed: identifiers are positions plus one, every ref and job
    /// belongs to an existing build, every job link of a build is sound, and a
    /// publish job carries no end-of-life note.
    pub open spec fn wf(self) -> bool {
        &&& self.builds.len() <= i32::MAX
        &&& self.refs.len() <= i32::MAX
        &&& self.jobs.len() <= i32::MAX
        &&& forall|i: int|
            0 <= i < self.builds.len() ==> #[trigger] self.builds[i].id == i + 1 && self.build_ok(
                self.builds[i],
            )
        &&& forall|i: int|
            0 <= i < self.refs.len() ==> #[trigger] self.refs[i].id == i + 1 && self.has_build(
                self.refs[i].build_id,
            )
        &&& forall|i: int|
            0 <= i < self.jobs.len() ==> #[trigger] self.jobs[i].id == i + 1 && self.has_build(
                self.jobs[i].build,
            ) && (self.jobs[i].kind == JobKind::Publish ==> self.jobs[i].endoflife is None)
    }

    /// The ledger with build `b.id` replaced by `b`.
    pub open spec fn with_build(self, b: BuildView) -> LedgerView {
        LedgerView { builds: self.builds.update(b.id - 1, b), ..self }
    }

    /// The ledger with `j` appended to the jobs.
    pub open spec fn with_job(self, j: JobView) -> LedgerView {
        LedgerView { jobs: self.jobs.push(j), ..self }
    }

    /// The identifier that the next job will get.
    pub open spec fn next_job_id(self) -> i32 {
        (self.jobs.len() + 1) as i32
    }

    /// A fresh build appended, unless identifiers are exhausted.
    pub open spec fn create_build(self) -> (LedgerView, Result<BuildView, ApiError>) {
        if self.builds.len() >= i32::MAX {
            (self, Err(ApiError::StorageFailure))
        } else {
            let b = new_build_view((self.builds.len() + 1) as i32);
            (LedgerView { builds: self.builds.push(b), ..self }, Ok(b))
        }
    }

    /// A ref appended, unless its build does not exist or identifiers are
    /// exhausted.
    pub open spec fn create_build_ref(self, data: NewBuildRefView) -> (
        LedgerView,
        Result<BuildRefView, ApiError>,
    ) {
        if !self.has_build(data.build_id) || self.refs.len() >= i32::MAX {
            (self, Err(ApiError::StorageFailure))
        } else {
            let r = BuildRefView {
                id: (self.refs.len() + 1) as i32,
                build_id: data.build_id,
                ref_name: data.ref_name,
                commit: data.commit,
            };
            (LedgerView { refs: self.refs.push(r), ..self }, Ok(r))
        }
    }

    /// The build with identifier `id`, or `NotFound`.
    pub open spec fn lookup_build(self, id: i32) -> Result<BuildView, ApiError> {
        if self.has_build(id) {
            Ok(self.build(id))
        } else {
            Err(ApiError::NotFound)
        }
    }

    /// Ref `ref_id` where it belongs to build `build_id`, or `NotFound`.
    pub open spec fn lookup_build_ref(self, build_id: i32, ref_id: i32) -> Result<
        BuildRefView,
        ApiError,
    > {
        if 1 <= ref_id <= self.refs.len() && self.refs[ref_id - 1].build_id == build_id {
            Ok(self.refs[ref_id - 1])
        } else {
            Err(ApiError::NotFound)
        }
    }

    /// The job with identifier `id`, or `NotFound`.
    pub open spec fn lookup_job(self, id: i32) -> Result<JobView, ApiError> {
        if self.has_job(id) {
            Ok(self.job(id))
        } else {
            Err(ApiError::NotFound)
        }
    }

    /// The job that a link of build `build_id` names.
    pub open spec fn linked_job(self, build_id: i32, kind: JobKind) -> Result<JobView, ApiError> {
        if !self.has_build(build_id) {
            Err(ApiError::NotFound)
        } else {
            let link = match kind {
                JobKind::Commit => self.build(build_id).commit_job_id,
                JobKind::Publish => self.build(build_id).publish_job_id,
            };
            match link {
                Some(j) => Ok(self.job(j)),
                None => Err(ApiError::NotFound),
            }
        }
    }

    /// The builds that are not purged.
    pub open spec fn active_builds(self) -> Seq<BuildView> {
        builds_not_in(self.builds, RepoStateView::Purged)
    }

    /// Starting the commit of build `id`: a commit job appended and the build
    /// moved to verifying with its commit link set, or the ledger unchanged and
    /// the error.
    pub open spec fn start_commit(self, id: i32, endoflife: Option<Seq<char>>) -> (
        LedgerView,
        Result<JobView, ApiError>,
    ) {
        if !self.has_build(id) {
            (self, Err(ApiError::NotFound))
        } else if !(self.build(id).repo_state is Uploading) {
            (self, Err(ApiError::BadRequest(Rejection::AlreadyCommitted)))
        } else if self.jobs.len() >= i32::MAX {
            (self, Err(ApiError::StorageFailure))
        } else {
            let j = JobView { id: self.next_job_id(), kind: JobKind::Commit, build: id, endoflife };
            let b = BuildView {
                repo_state: RepoStateView::Verifying,
                commit_job_id: Some(j.id),
                ..self.build(id)
            };
            (self.with_job(j).with_build(b), Ok(j))
        }
    }

    /// Starting the publication of build `id`: a publish job appended and the
    /// build moved to publishing with its publish link set, or the ledger
    /// unchanged and the error.
    pub open spec fn start_publish(self, id: i32) -> (LedgerView, Result<JobView, ApiError>) {
        if !self.has_build(id) {
            (self, Err(ApiError::NotFound))
        } else if !(self.build(id).published_state is Unpublished) || !(self.build(
            id,
        ).repo_state is Ready) {
            (self, Err(ApiError::BadRequest(Rejection::InvalidPublishState)))
        } else if self.jobs.len() >= i32::MAX {
            (self, Err(ApiError::StorageFailure))
        } else {
            let j = JobView {
                id: self.next_job_id(),
                kind: JobKind::Publish,
                build: id,
                endoflife: None,
            };
            let b = BuildView {
                published_state: PublishedStateView::Publishing,
                publish_job_id: Some(j.id),
                ..self.build(id)
            };
            (self.with_job(j).with_build(b), Ok(j))
        }
    }

    /// Whether a build may be purged: no worker is committing, purging or
    /// publishing it.
    pub open spec fn purgeable(b: BuildView) -> bool {
        !(b.repo_state is Verifying) && !(b.repo_state is Purging) && !(
        b.published_state is Publishing)
    }

    /// Marking build `id` as purging, or the ledger unchanged and the error.
    pub open spec fn init_purge(self, id: i32) -> (LedgerView, Result<(), ApiError>) {
        if !self.has_build(id) {
            (self, Err(ApiError::NotFound))
        } else if !Self::purgeable(self.build(id)) {
            (self, Err(ApiError::BadRequest(Rejection::PurgeWhileInUse)))
        } else {
            let b = BuildView { repo_state: RepoStateView::Purging, ..self.build(id) };
            (self.with_build(b), Ok(()))
        }
    }

    /// Recording the end of the purge of build `id`, or the ledger unchanged
    /// and the error.
    pub open spec fn finish_purge(self, id: i32, error: Option<Seq<char>>) -> (
        LedgerView,
        Result<BuildView, ApiError>,
    ) {
        if !self.has_build(id) {
            (self, Err(ApiError::NotFound))
        } else if !(self.build(id).repo_state is Purging) {
            (self, Err(ApiError::BadRequest(Rejection::NotPurging)))
        } else {
            let s = match error {
                None => RepoStateView::Purged,
                Some(e) => RepoStateView::Failed(purge_failure_reason(e)),
            };
            let b = BuildView { repo_state: s, ..self.build(id) };
            (self.with_build(b), Ok(b))
        }
    }

    /// Recording the end of the commit of build `id`, or the ledger unchanged
    /// and the error.
    pub open spec fn finish_commit(self, id: i32, error: Option<Seq<char>>) -> (
        LedgerView,
        Result<BuildView, ApiError>,
    ) {
        if !self.has_build(id) {
            (self, Err(ApiError::NotFound))
        } else if !(self.build(id).repo_state is Verifying) {
            (self, Err(ApiError::BadRequest(Rejection::NotVerifying)))
        } else {
            let s = match error {
                None => RepoStateView::Ready,
                Some(e) => RepoStateView::Failed(e),
            };
            let b = BuildView { repo_state: s, ..self.build(id) };
            (self.with_build(b), Ok(b))
        }
    }

    /// Recording the end of the publication of build `id`, or the ledger
    /// unchanged and the error.
    pub open spec fn finish_publish(self, id: i32, error: Option<Seq<char>>) -> (
        LedgerView,
        Result<BuildView, ApiError>,
    ) {
        if !self.has_build(id) {
            (self, Err(ApiError::NotFound))
        } else if !(self.build(id).published_state is Publishing) {
            (self, Err(ApiError::BadRequest(Rejection::NotPublishing)))
        } else {
            let s = match error {
                None => PublishedStateView::Published,
                Some(e) => PublishedStateView::Failed(e),
            };
            let b = BuildView { published_state: s, ..self.build(id) };
            (self.with_build(b), Ok(b))
        }
    }
}

} // verus!
