//! Lifecycle states of a build and their persisted `(code, reason)` form.

use vstd::prelude::*;

verus! {

/// Progress of a build through the repository: upload, verification, commit
/// and purge.
#[derive(Debug, Clone, PartialEq, Eq)]
pub enum RepoState {
    Uploading,
    Verifying,
    Ready,
    Failed(String),
    Purging,
    Purged,
}

/// Progress of a build towards public availability.
#[derive(Debug, Clone, PartialEq, Eq)]
pub enum PublishedState {
    Unpublished,
    Publishing,
    Published,
    Failed(String),
}

/// The two kinds of asynchronous work that the ledger hands to workers.
#[derive(Debug, Clone, Copy, PartialEq, Eq)]
pub enum JobKind {
    Commit,
    Publish,
}

/// A repo state with its failure reason as a character sequence.
pub enum RepoStateView {
    Uploading,
    Verifying,
    Ready,
    Failed(Seq<char>),
    Purging,
    Purged,
}

/// A published state with its failure reason as a character sequence.
pub enum PublishedStateView {
    Unpublished,
    Publishing,
    Published,
    Failed(Seq<char>),
}

impl View for RepoState {
    type V = RepoStateView;

    open spec fn view(&self) -> RepoStateView {
        match self {
            RepoState::Uploading => RepoStateView::Uploading,
            RepoState::Verifying => RepoStateView::Verifying,
            RepoState::Ready => RepoStateView::Ready,
            RepoState::Failed(r) => RepoStateView::Failed(r@),
            RepoState::Purging => RepoStateView::Purging,
            RepoState::Purged => RepoStateView::Purged,
        }
    }
}

impl View for PublishedState {
    type V = PublishedStateView;

    open spec fn view(&self) -> PublishedStateView {
        match self {
            PublishedState::Unpublished => PublishedStateView::Unpublished,
            PublishedState::Publishing => PublishedStateView::Publishing,
            PublishedState::Published => PublishedStateView::Published,
            PublishedState::Failed(r) => PublishedStateView::Failed(r@),
        }
    }
}

/// The characters of an optional reason.
pub open spec fn reason_view(r: Option<String>) -> Option<Seq<char>> {
    match r {
        Some(s) => Some(s@),
        None => None,
    }
}

/// The persisted code of a repo state, with the reason stored beside it.
pub open spec fn encode_repo(s: RepoStateView) -> (i16, Option<Seq<char>>) {
    match s {
        RepoStateView::Uploading => (0, None),
        RepoStateView::Verifying => (1, None),
        RepoStateView::Ready => (2, None),
        RepoStateView::Failed(r) => (3, Some(r)),
        RepoStateView::Purging => (4, None),
        RepoStateView::Purged => (5, None),
    }
}

/// The repo state that a persisted pair stands for; `None` for a code outside
/// the known range. A failure stored without a reason reads as an empty reason.
pub open spec fn decode_repo(code: i16, reason: Option<Seq<char>>) -> Option<RepoStateView> {
    if code == 0 {
        Some(RepoStateView::Uploading)
    } else if code == 1 {
        Some(RepoStateView::Verifying)
    } else if code == 2 {
        Some(RepoStateView::Ready)
    } else if code == 3 {
        match reason {
            Some(r) => Some(RepoStateView::Failed(r)),
            None => Some(RepoStateView::Failed(Seq::empty())),
        }
    } else if code == 4 {
        Some(RepoStateView::Purging)
    } else if code == 5 {
        Some(RepoStateView::Purged)
    } else {
        None
    }
}

/// The persisted code of a published state, with the reason stored beside it.
pub open spec fn encode_published(s: PublishedStateView) -> (i16, Option<Seq<char>>) {
    match s {
        PublishedStateView::Unpublished => (0, None),
        PublishedStateView::Publishing => (1, None),
        PublishedStateView::Published => (2, None),
        PublishedStateView::Failed(r) => (3, Some(r)),
    }
}

/// The published state that a persisted pair stands for; `None` for a code
/// outside the known range. A failure stored without a reason reads as an
/// empty reason.
pub open spec fn decode_published(code: i16, reason: Option<Seq<char>>) -> Option<
    PublishedStateView,
> {
    if code == 0 {
        Some(PublishedStateView::Unpublished)
    } else if code == 1 {
        Some(PublishedStateView::Publishing)
    } else if code == 2 {
        Some(PublishedStateView::Published)
    } else if code == 3 {
        match reason {
            Some(r) => Some(PublishedStateView::Failed(r)),
            None => Some(PublishedStateView::Failed(Seq::empty())),
        }
    } else {
        None
    }
}

/// Two repo states are the same state when their variants agree, whatever
/// reason a failure carries.
pub open spec fn same_repo_variant(a: RepoStateView, b: RepoStateView) -> bool {
    encode_repo(a).0 == encode_repo(b).0
}

/// Two published states are the same state when their variants agree.
pub open spec fn same_published_variant(a: PublishedStateView, b: PublishedStateView) -> bool {
    encode_published(a).0 == encode_published(b).0
}

/// The persisted code of a job kind.
pub open spec fn encode_job_kind(k: JobKind) -> i16 {
    match k {
        JobKind::Commit => 0,
        JobKind::Publish => 1,
    }
}

/// The job kind that a persisted code stands for.
pub open spec fn decode_job_kind(code: i16) -> Option<JobKind> {
    if code == 0 {
        Some(JobKind::Commit)
    } else if code == 1 {
        Some(JobKind::Publish)
    } else {
        None
    }
}

pub(crate) fn copy_string(s: &String) -> (c: String)
    ensures
        c@ == s@,
{
    s.clone()
}

pub(crate) fn copy_reason(r: &Option<String>) -> (c: Option<String>)
    ensures
        reason_view(c) == reason_view(*r),
{
    match r {
        Some(s) => Some(copy_string(s)),
        None => None,
    }
}

impl RepoState {
    /// The persisted form of this state.
    pub fn to_db(&self) -> (r: (i16, Option<String>))
        ensures
            (r.0, reason_view(r.1)) == encode_repo(self@),
    {
        match self {
            RepoState::Uploading => (0, None),
            RepoState::Verifying => (1, None),
            RepoState::Ready => (2, None),
            RepoState::Failed(reason) => (3, Some(copy_string(reason))),
            RepoState::Purging => (4, None),
            RepoState::Purged => (5, None),
        }
    }

    /// Reads a persisted pair back; `None` where the code is corrupt.
    pub fn from_db(code: i16, reason: &Option<String>) -> (r: Option<RepoState>)
        ensures
            decode_repo(code, reason_view(*reason)) == match r {
                Some(s) => Some(s@),
                None => None,
            },
    {
        if code == 0 {
            Some(RepoState::Uploading)
        } else if code == 1 {
            Some(RepoState::Verifying)
        } else if code == 2 {
            Some(RepoState::Ready)
        } else if code == 3 {
            match reason {
                Some(r) => Some(RepoState::Failed(copy_string(r))),
                None => Some(RepoState::Failed(String::new())),
            }
        } else if code == 4 {
            Some(RepoState::Purging)
        } else if code == 5 {
            Some(RepoState::Purged)
        } else {
            None
        }
    }

    /// Whether the two states are the same variant, ignoring any reason.
    pub fn same_state_as(&self, other: &RepoState) -> (r: bool)
        ensures
            r == same_repo_variant(self@, other@),
    {
        self.code() == other.code()
    }

    fn code(&self) -> (c: i16)
        ensures
            c == encode_repo(self@).0,
    {
        match self {
            RepoState::Uploading => 0,
            RepoState::Verifying => 1,
            RepoState::Ready => 2,
            RepoState::Failed(_) => 3,
            RepoState::Purging => 4,
            RepoState::Purged => 5,
        }
    }

    /// A copy of this state, reason included.
    pub fn duplicate(&self) -> (r: RepoState)
        ensures
            r@ == self@,
    {
        match self {
            RepoState::Uploading => RepoState::Uploading,
            RepoState::Verifying => RepoState::Verifying,
            RepoState::Ready => RepoState::Ready,
            RepoState::Failed(reason) => RepoState::Failed(copy_string(reason)),
            RepoState::Purging => RepoState::Purging,
            RepoState::Purged => RepoState::Purged,
        }
    }
}

impl PublishedState {
    /// The persisted form of this state.
    pub fn to_db(&self) -> (r: (i16, Option<String>))
        ensures
            (r.0, reason_view(r.1)) == encode_published(self@),
    {
        match self {
            PublishedState::Unpublished => (0, None),
            PublishedState::Publishing => (1, None),
            PublishedState::Published => (2, None),
            PublishedState::Failed(reason) => (3, Some(copy_string(reason))),
        }
    }

    /// Reads a persisted pair back; `None` where the code is corrupt.
    pub fn from_db(code: i16, reason: &Option<String>) -> (r: Option<PublishedState>)
        ensures
            decode_published(code, reason_view(*reason)) == match r {
                Some(s) => Some(s@),
                None => None,
            },
    {
        if code == 0 {
            Some(PublishedState::Unpublished)
        } else if code == 1 {
            Some(PublishedState::Publishing)
        } else if code == 2 {
            Some(PublishedState::Published)
        } else if code == 3 {
            match reason {
                Some(r) => Some(PublishedState::Failed(copy_string(r))),
                None => Some(PublishedState::Failed(String::new())),
            }
        } else {
            None
        }
    }

    /// Whether the two states are the same variant, ignoring any reason.
    pub fn same_state_as(&self, other: &PublishedState) -> (r: bool)
        ensures
            r == same_published_variant(self@, other@),
    {
        self.code() == other.code()
    }

    fn code(&self) -> (c: i16)
        ensures
            c == encode_published(self@).0,
    {
        match self {
            PublishedState::Unpublished => 0,
            PublishedState::Publishing => 1,
            PublishedState::Published => 2,
            PublishedState::Failed(_) => 3,
        }
    }

    /// A copy of this state, reason included.
    pub fn duplicate(&self) -> (r: PublishedState)
        ensures
            r@ == self@,
    {
        match self {
            PublishedState::Unpublished => PublishedState::Unpublished,
            PublishedState::Publishing => PublishedState::Publishing,
            PublishedState::Published => PublishedState::Published,
            PublishedState::Failed(reason) => PublishedState::Failed(copy_string(reason)),
        }
    }
}

impl JobKind {
    /// The persisted code of this kind.
    pub fn to_db(&self) -> (r: i16)
        ensures
            r == encode_job_kind(*self),
    {
        match self {
            JobKind::Commit => 0,
            JobKind::Publish => 1,
        }
    }

    /// Reads a persisted kind back; `None` where the code is corrupt.
    pub fn from_db(code: i16) -> (r: Option<JobKind>)
        ensures
            r == decode_job_kind(code),
    {
        if code == 0 {
            Some(JobKind::Commit)
        } else if code == 1 {
            Some(JobKind::Publish)
        } else {
            None
        }
    }
}

/// Decoding what was encoded gives back the repo state, reason included.
pub proof fn lemma_repo_round_trip(s: RepoStateView)
    ensures
        decode_repo(encode_repo(s).0, encode_repo(s).1) == Some(s),
{
}

/// Decoding what was encoded gives back the published state, reason included.
pub proof fn lemma_published_round_trip(s: PublishedStateView)
    ensures
        decode_published(encode_published(s).0, encode_published(s).1) == Some(s),
{
}

/// Decoding what was encoded gives back the job kind.
pub proof fn lemma_job_kind_round_trip(k: JobKind)
    ensures
        decode_job_kind(encode_job_kind(k)) == Some(k),
{
}

} // verus!
