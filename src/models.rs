//! The records that the ledger keeps, the job payloads, and the errors that
//! its operations report.

use vstd::prelude::*;
use crate::state::{
    copy_reason, copy_string, reason_view, JobKind, PublishedState, PublishedStateView,
    RepoState, RepoStateView,
};

verus! {

/// A build's lifecycle record.
#[derive(Debug, Clone, PartialEq, Eq)]
pub struct Build {
    pub id: i32,
    pub repo_state: RepoState,
    pub published_state: PublishedState,
    pub commit_job_id: Option<i32>,
    pub publish_job_id: Option<i32>,
}

/// What a caller supplies to attach a named reference to a build.
#[derive(Debug, Clone, PartialEq, Eq)]
pub struct NewBuildRef {
    pub build_id: i32,
    pub ref_name: String,
    pub commit: String,
}

/// A named reference belonging to a build.
#[derive(Debug, Clone, PartialEq, Eq)]
pub struct BuildRef {
    pub id: i32,
    pub build_id: i32,
    pub ref_name: String,
    pub commit: String,
}

/// The payload of a commit job.
#[derive(Debug, Clone, PartialEq, Eq)]
pub struct CommitJob {
    pub build: i32,
    pub endoflife: Option<String>,
}

/// The payload of a publish job.
#[derive(Debug, Clone, PartialEq, Eq)]
pub struct PublishJob {
    pub build: i32,
}

/// What a job asks a worker to do.
#[derive(Debug, Clone, PartialEq, Eq)]
pub enum JobContents {
    Commit(CommitJob),
    Publish(PublishJob),
}

/// A unit of asynchronous work, tied to one build.
#[derive(Debug, Clone, PartialEq, Eq)]
pub struct Job {
    pub id: i32,
    pub contents: JobContents,
}

/// Why a guarded transition refused to run.
#[derive(Debug, Clone, Copy, PartialEq, Eq, Structural)]
pub enum Rejection {
    AlreadyCommitted,
    InvalidPublishState,
    PurgeWhileInUse,
    NotPurging,
    NotVerifying,
    NotPublishing,
}

/// The errors of the ledger's operations.
#[derive(Debug, Clone, Copy, PartialEq, Eq, Structural)]
pub enum ApiError {
    /// A state guard failed; the caller must decide anew.
    BadRequest(Rejection),
    /// No record matches.
    NotFound,
    /// The store could not take the write: an identifier would overflow, or a
    /// reference names a build that does not exist.
    StorageFailure,
}

/// A build record with its states seen through their views.
pub struct BuildView {
    pub id: i32,
    pub repo_state: RepoStateView,
    pub published_state: PublishedStateView,
    pub commit_job_id: Option<i32>,
    pub publish_job_id: Option<i32>,
}

/// The fields of a new ref, with strings as character sequences.
pub struct NewBuildRefView {
    pub build_id: i32,
    pub ref_name: Seq<char>,
    pub commit: Seq<char>,
}

/// A ref record, with strings as character sequences.
pub struct BuildRefView {
    pub id: i32,
    pub build_id: i32,
    pub ref_name: Seq<char>,
    pub commit: Seq<char>,
}

/// A job as the ledger sees it: its kind, its build, and for a commit the
/// end-of-life note (always `None` for a publish).
pub struct JobView {
    pub id: i32,
    pub kind: JobKind,
    pub build: i32,
    pub endoflife: Option<Seq<char>>,
}

impl View for Build {
    type V = BuildView;

    open spec fn view(&self) -> BuildView {
        BuildView {
            id: self.id,
            repo_state: self.repo_state@,
            published_state: self.published_state@,
            commit_job_id: self.commit_job_id,
            publish_job_id: self.publish_job_id,
        }
    }
}

impl View for NewBuildRef {
    type V = NewBuildRefView;

    open spec fn view(&self) -> NewBuildRefView {
        NewBuildRefView { build_id: self.build_id, ref_name: self.ref_name@, commit: self.commit@ }
    }
}

impl View for BuildRef {
    type V = BuildRefView;

    open spec fn view(&self) -> BuildRefView {
        BuildRefView {
            id: self.id,
            build_id: self.build_id,
            ref_name: self.ref_name@,
            commit: self.commit@,
        }
    }
}

impl View for Job {
    type V = JobView;

    open spec fn view(&self) -> JobView {
        match self.contents {
            JobContents::Commit(c) => JobView {
                id: self.id,
                kind: JobKind::Commit,
                build: c.build,
                endoflife: reason_view(c.endoflife),
            },
            JobContents::Publish(p) => JobView {
                id: self.id,
                kind: JobKind::Publish,
                build: p.build,
                endoflife: None,
            },
        }
    }
}

/// The text that a rejection carries to the caller.
pub open spec fn rejection_text(r: Rejection) -> Seq<char> {
    match r {
        Rejection::AlreadyCommitted => "build already committed"@,
        Rejection::InvalidPublishState => "invalid build state for publish"@,
        Rejection::PurgeWhileInUse => "can't purge build while in use"@,
        Rejection::NotPurging => "unexpected repo state, was not purging"@,
        Rejection::NotVerifying => "unexpected repo state, was not verifying"@,
        Rejection::NotPublishing => "unexpected published state, was not publishing"@,
    }
}

impl Rejection {
    /// The human-readable reason for the rejection.
    pub fn message(&self) -> (r: String)
        ensures
            r@ == rejection_text(*self),
    {
        match self {
            Rejection::AlreadyCommitted => String::from_str("build already committed"),
            Rejection::InvalidPublishState => String::from_str("invalid build state for publish"),
            Rejection::PurgeWhileInUse => String::from_str("can't purge build while in use"),
            Rejection::NotPurging => String::from_str("unexpected repo state, was not purging"),
            Rejection::NotVerifying => String::from_str("unexpected repo state, was not verifying"),
            Rejection::NotPublishing => String::from_str(
                "unexpected published state, was not publishing",
            ),
        }
    }
}

impl Build {
    /// A fresh build: still uploading, not published, no jobs yet.
    pub fn new(id: i32) -> (b: Build)
        ensures
            b@ == new_build_view(id),
    {
        Build {
            id,
            repo_state: RepoState::Uploading,
            published_state: PublishedState::Unpublished,
            commit_job_id: None,
            publish_job_id: None,
        }
    }

    /// A copy of this record.
    pub fn duplicate(&self) -> (r: Build)
        ensures
            r@ == self@,
    {
        Build {
            id: self.id,
            repo_state: self.repo_state.duplicate(),
            published_state: self.published_state.duplicate(),
            commit_job_id: self.commit_job_id,
            publish_job_id: self.publish_job_id,
        }
    }
}

/// The record of a build just created under `id`.
pub open spec fn new_build_view(id: i32) -> BuildView {
    BuildView {
        id,
        repo_state: RepoStateView::Uploading,
        published_state: PublishedStateView::Unpublished,
        commit_job_id: None,
        publish_job_id: None,
    }
}

impl BuildRef {
    /// A copy of this record.
    pub fn duplicate(&self) -> (r: BuildRef)
        ensures
            r@ == self@,
    {
        BuildRef {
            id: self.id,
            build_id: self.build_id,
            ref_name: copy_string(&self.ref_name),
            commit: copy_string(&self.commit),
        }
    }
}

impl Job {
    /// The kind of work, read off the payload.
    pub fn kind(&self) -> (k: JobKind)
        ensures
            k == self@.kind,
    {
        match &self.contents {
            JobContents::Commit(_) => JobKind::Commit,
            JobContents::Publish(_) => JobKind::Publish,
        }
    }

    /// The build that the job works on.
    pub fn build_id(&self) -> (b: i32)
        ensures
            b == self@.build,
    {
        match &self.contents {
            JobContents::Commit(c) => c.build,
            JobContents::Publish(p) => p.build,
        }
    }

    /// A copy of this record.
    pub fn duplicate(&self) -> (r: Job)
        ensures
            r@ == self@,
    {
        let contents = match &self.contents {
            JobContents::Commit(c) => JobContents::Commit(
                CommitJob { build: c.build, endoflife: copy_reason(&c.endoflife) },
            ),
            JobContents::Publish(p) => JobContents::Publish(PublishJob { build: p.build }),
        };
        Job { id: self.id, contents }
    }
}

} // verus!
