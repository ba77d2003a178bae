//! The commands of the ledger. Each one reads the current state, checks its
//! guard and then writes, as one step on the store; a command that is
//! refused, or that the store cannot take, leaves the store as it was.

use vstd::prelude::*;
use crate::ledger::{build_result, build_views, job_result, ref_result, ref_views, Ledger};
use crate::model::{purge_failure_reason, refs_of};
use crate::models::{
    ApiError, Build, BuildRef, CommitJob, Job, JobContents, NewBuildRef, PublishJob, Rejection,
};
use crate::state::{reason_view, JobKind, PublishedState, RepoState};

verus! {

/// Create a build, uploading and unpublished.
#[derive(Debug)]
pub struct CreateBuild {}

/// Attach a named ref to an existing build.
#[derive(Debug)]
pub struct CreateBuildRef {
    pub data: NewBuildRef,
}

/// Look a job up by its identifier.
#[derive(Debug)]
pub struct LookupJob {
    pub id: i32,
}

/// Look up the commit job of a build.
#[derive(Debug)]
pub struct LookupCommitJob {
    pub build_id: i32,
}

/// Look up the publish job of a build.
#[derive(Debug)]
pub struct LookupPublishJob {
    pub build_id: i32,
}

/// Look a build up by its identifier.
#[derive(Debug)]
pub struct LookupBuild {
    pub id: i32,
}

/// Look up ref `ref_id` of build `id`.
#[derive(Debug)]
pub struct LookupBuildRef {
    pub id: i32,
    pub ref_id: i32,
}

/// List the refs of build `id`.
#[derive(Debug)]
pub struct LookupBuildRefs {
    pub id: i32,
}

/// List the builds that are not purged.
#[derive(Debug)]
pub struct ListBuilds {}

/// Start committing an uploaded build.
#[derive(Debug)]
pub struct StartCommitJob {
    pub id: i32,
    pub endoflife: Option<String>,
}

/// Start publishing a committed build.
#[derive(Debug)]
pub struct StartPublishJob {
    pub id: i32,
}

/// Mark a build as being purged.
#[derive(Debug)]
pub struct InitPurge {
    pub id: i32,
}

/// Record how the purge of a build ended.
#[derive(Debug)]
pub struct FinishPurge {
    pub id: i32,
    pub error: Option<String>,
}

/// Record how the commit of a build ended: ready, or failed with the
/// worker's error.
#[derive(Debug)]
pub struct FinishCommitJob {
    pub id: i32,
    pub error: Option<String>,
}

/// Record how the publication of a build ended: published, or failed with
/// the worker's error.
#[derive(Debug)]
pub struct FinishPublishJob {
    pub id: i32,
    pub error: Option<String>,
}

impl CreateBuild {
    /// Creates the build; fails only when build identifiers are exhausted.
    pub fn handle(self, db: &mut Ledger) -> (r: Result<Build, ApiError>)
        requires
            old(db)@.wf(),
        ensures
            final(db)@.wf(),
            (final(db)@, build_result(r)) == old(db)@.create_build(),
    {
        db.insert_build()
    }
}

impl CreateBuildRef {
    /// Attaches the ref; fails when its build does not exist.
    pub fn handle(self, db: &mut Ledger) -> (r: Result<BuildRef, ApiError>)
        requires
            old(db)@.wf(),
        ensures
            final(db)@.wf(),
            (final(db)@, ref_result(r)) == old(db)@.create_build_ref(self.data@),
    {
        db.insert_build_ref(self.data)
    }
}

impl LookupJob {
    /// The job, or `NotFound`.
    pub fn handle(self, db: &Ledger) -> (r: Result<Job, ApiError>)
        requires
            db@.wf(),
        ensures
            job_result(r) == db@.lookup_job(self.id),
    {
        db.get_job(self.id)
    }
}

impl LookupCommitJob {
    /// The job that the build links as its commit job, or `NotFound`.
    pub fn handle(self, db: &Ledger) -> (r: Result<Job, ApiError>)
        requires
            db@.wf(),
        ensures
            job_result(r) == db@.linked_job(self.build_id, JobKind::Commit),
    {
        db.get_linked_job(self.build_id, JobKind::Commit)
    }
}

impl LookupPublishJob {
    /// The job that the build links as its publish job, or `NotFound`.
    pub fn handle(self, db: &Ledger) -> (r: Result<Job, ApiError>)
        requires
            db@.wf(),
        ensures
            job_result(r) == db@.linked_job(self.build_id, JobKind::Publish),
    {
        db.get_linked_job(self.build_id, JobKind::Publish)
    }
}

impl LookupBuild {
    /// The build, or `NotFound`.
    pub fn handle(self, db: &Ledger) -> (r: Result<Build, ApiError>)
        requires
            db@.wf(),
        ensures
            build_result(r) == db@.lookup_build(self.id),
    {
        db.get_build(self.id)
    }
}

impl LookupBuildRef {
    /// The ref, or `NotFound` where it does not belong to the build.
    pub fn handle(self, db: &Ledger) -> (r: Result<BuildRef, ApiError>)
        requires
            db@.wf(),
        ensures
            ref_result(r) == db@.lookup_build_ref(self.id, self.ref_id),
    {
        db.get_build_ref(self.id, self.ref_id)
    }
}

impl LookupBuildRefs {
    /// The refs of the build, in the order they were created.
    pub fn handle(self, db: &Ledger) -> (r: Result<Vec<BuildRef>, ApiError>)
        requires
            db@.wf(),
        ensures
            r matches Ok(v) && ref_views(v@) == refs_of(db@.refs, self.id),
    {
        Ok(db.list_build_refs(self.id))
    }
}

impl ListBuilds {
    /// The builds that are not purged, in the order they were created.
    pub fn handle(self, db: &Ledger) -> (r: Result<Vec<Build>, ApiError>)
        requires
            db@.wf(),
        ensures
            r matches Ok(v) && build_views(v@) == db@.active_builds(),
    {
        Ok(db.list_builds_excluding(&RepoState::Purged))
    }
}

impl StartCommitJob {
    /// Queues a commit job for an uploading build and moves it to verifying,
    /// both or neither; refused once the build has left uploading.
    pub fn handle(self, db: &mut Ledger) -> (r: Result<Job, ApiError>)
        requires
            old(db)@.wf(),
        ensures
            final(db)@.wf(),
            (final(db)@, job_result(r)) == old(db)@.start_commit(
                self.id,
                reason_view(self.endoflife),
            ),
    {
        let ghost v = db@;
        let current = match db.get_build(self.id) {
            Ok(b) => b,
            Err(e) => return Err(e),
        };
        if !current.repo_state.same_state_as(&RepoState::Uploading) {
            return Err(ApiError::BadRequest(Rejection::AlreadyCommitted));
        }
        let contents = JobContents::Commit(CommitJob { build: self.id, endoflife: self.endoflife });
        let job = match db.insert_job(contents) {
            Ok(j) => j,
            Err(e) => return Err(e),
        };
        let updated = Build {
            repo_state: RepoState::Verifying,
            commit_job_id: Some(job.id),
            ..current
        };
        proof {
            assert(v.builds[self.id - 1].id == self.id);
            assert(db@.build_ok(updated@));
        }
        db.update_build(updated);
        Ok(job)
    }
}

impl StartPublishJob {
    /// Queues a publish job for a ready, unpublished build and moves it to
    /// publishing, both or neither; refused otherwise.
    pub fn handle(self, db: &mut Ledger) -> (r: Result<Job, ApiError>)
        requires
            old(db)@.wf(),
        ensures
            final(db)@.wf(),
            (final(db)@, job_result(r)) == old(db)@.start_publish(self.id),
    {
        let ghost v = db@;
        let current = match db.get_build(self.id) {
            Ok(b) => b,
            Err(e) => return Err(e),
        };
        if !current.published_state.same_state_as(&PublishedState::Unpublished) {
            return Err(ApiError::BadRequest(Rejection::InvalidPublishState));
        }
        if !current.repo_state.same_state_as(&RepoState::Ready) {
            return Err(ApiError::BadRequest(Rejection::InvalidPublishState));
        }
        let contents = JobContents::Publish(PublishJob { build: self.id });
        let job = match db.insert_job(contents) {
            Ok(j) => j,
            Err(e) => return Err(e),
        };
        let updated = Build {
            published_state: PublishedState::Publishing,
            publish_job_id: Some(job.id),
            ..current
        };
        proof {
            assert(v.builds[self.id - 1].id == self.id);
            assert(db@.build_ok(updated@));
        }
        db.update_build(updated);
        Ok(job)
    }
}

impl InitPurge {
    /// Moves the build to purging; refused while it is verifying, purging or
    /// publishing.
    pub fn handle(self, db: &mut Ledger) -> (r: Result<(), ApiError>)
        requires
            old(db)@.wf(),
        ensures
            final(db)@.wf(),
            (final(db)@, r) == old(db)@.init_purge(self.id),
    {
        let ghost v = db@;
        let current = match db.get_build(self.id) {
            Ok(b) => b,
            Err(e) => return Err(e),
        };
        if current.repo_state.same_state_as(&RepoState::Verifying)
            || current.repo_state.same_state_as(&RepoState::Purging)
            || current.published_state.same_state_as(&PublishedState::Publishing) {
            return Err(ApiError::BadRequest(Rejection::PurgeWhileInUse));
        }
        let updated = Build { repo_state: RepoState::Purging, ..current };
        proof {
            assert(v.builds[self.id - 1].id == self.id);
            assert(db@.build_ok(updated@));
        }
        db.update_build(updated);
        Ok(())
    }
}

impl FinishPurge {
    /// Ends the purge of a purging build: purged, or failed with the error
    /// behind a fixed prefix. Returns the updated build.
    pub fn handle(self, db: &mut Ledger) -> (r: Result<Build, ApiError>)
        requires
            old(db)@.wf(),
        ensures
            final(db)@.wf(),
            (final(db)@, build_result(r)) == old(db)@.finish_purge(
                self.id,
                reason_view(self.error),
            ),
    {
        let ghost v = db@;
        let current = match db.get_build(self.id) {
            Ok(b) => b,
            Err(e) => return Err(e),
        };
        if !current.repo_state.same_state_as(&RepoState::Purging) {
            return Err(ApiError::BadRequest(Rejection::NotPurging));
        }
        let new_state = match self.error {
            None => RepoState::Purged,
            Some(e) => {
                let mut reason = String::from_str("Failed to Purge build: ");
                reason.append(e.as_str());
                proof {
                    assert(reason@ == purge_failure_reason(e@));
                }
                RepoState::Failed(reason)
            },
        };
        let updated = Build { repo_state: new_state, ..current };
        proof {
            assert(v.builds[self.id - 1].id == self.id);
            assert(db@.build_ok(updated@));
        }
        let result = updated.duplicate();
        db.update_build(updated);
        Ok(result)
    }
}

impl FinishCommitJob {
    /// Ends the commit of a verifying build: ready, or failed with the error.
    /// Returns the updated build.
    pub fn handle(self, db: &mut Ledger) -> (r: Result<Build, ApiError>)
        requires
            old(db)@.wf(),
        ensures
            final(db)@.wf(),
            (final(db)@, build_result(r)) == old(db)@.finish_commit(
                self.id,
                reason_view(self.error),
            ),
    {
        let ghost v = db@;
        let current = match db.get_build(self.id) {
            Ok(b) => b,
            Err(e) => return Err(e),
        };
        if !current.repo_state.same_state_as(&RepoState::Verifying) {
            return Err(ApiError::BadRequest(Rejection::NotVerifying));
        }
        let new_state = match self.error {
            None => RepoState::Ready,
            Some(e) => RepoState::Failed(e),
        };
        let updated = Build { repo_state: new_state, ..current };
        proof {
            assert(v.builds[self.id - 1].id == self.id);
            assert(db@.build_ok(updated@));
        }
        let result = updated.duplicate();
        db.update_build(updated);
        Ok(result)
    }
}

impl FinishPublishJob {
    /// Ends the publication of a publishing build: published, or failed with
    /// the error. Returns the updated build.
    pub fn handle(self, db: &mut Ledger) -> (r: Result<Build, ApiError>)
        requires
            old(db)@.wf(),
        ensures
            final(db)@.wf(),
            (final(db)@, build_result(r)) == old(db)@.finish_publish(
                self.id,
                reason_view(self.error),
            ),
    {
        let ghost v = db@;
        let current = match db.get_build(self.id) {
            Ok(b) => b,
            Err(e) => return Err(e),
        };
        if !current.published_state.same_state_as(&PublishedState::Publishing) {
            return Err(ApiError::BadRequest(Rejection::NotPublishing));
        }
        let new_state = match self.error {
            None => PublishedState::Published,
            Some(e) => PublishedState::Failed(e),
        };
        let updated = Build { published_state: new_state, ..current };
        proof {
            assert(v.builds[self.id - 1].id == self.id);
            assert(db@.build_ok(updated@));
        }
        let result = updated.duplicate();
        db.update_build(updated);
        Ok(result)
    }
}

} // verus!
