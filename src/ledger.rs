//! The ledger store: the build, ref and job tables, and the primitive reads and
//! writes over them. A record's identifier is its position plus one.

use vstd::prelude::*;
use crate::model::{builds_not_in, refs_of, LedgerView};
use crate::models::{
    ApiError, Build, BuildRef, BuildRefView, BuildView, Job, JobContents, JobView, NewBuildRef,
};
use crate::state::{same_repo_variant, JobKind, RepoState};

verus! {

/// The store of builds, refs and jobs. Every operation takes it by reference,
/// so each one reads and writes it as a single step.
pub struct Ledger {
    builds: Vec<Build>,
    refs: Vec<BuildRef>,
    jobs: Vec<Job>,
}

/// The views of a table of builds.
pub open spec fn build_views(s: Seq<Build>) -> Seq<BuildView> {
    s.map_values(|b: Build| b@)
}

/// The views of a table of refs.
pub open spec fn ref_views(s: Seq<BuildRef>) -> Seq<BuildRefView> {
    s.map_values(|r: BuildRef| r@)
}

/// The views of a table of jobs.
pub open spec fn job_views(s: Seq<Job>) -> Seq<JobView> {
    s.map_values(|j: Job| j@)
}

/// The view of a build result.
pub open spec fn build_result(r: Result<Build, ApiError>) -> Result<BuildView, ApiError> {
    match r {
        Ok(b) => Ok(b@),
        Err(e) => Err(e),
    }
}

/// The view of a ref result.
pub open spec fn ref_result(r: Result<BuildRef, ApiError>) -> Result<BuildRefView, ApiError> {
    match r {
        Ok(b) => Ok(b@),
        Err(e) => Err(e),
    }
}

/// The view of a job result.
pub open spec fn job_result(r: Result<Job, ApiError>) -> Result<JobView, ApiError> {
    match r {
        Ok(j) => Ok(j@),
        Err(e) => Err(e),
    }
}

impl View for Ledger {
    type V = LedgerView;

    closed spec fn view(&self) -> LedgerView {
        LedgerView {
            builds: build_views(self.builds@),
            refs: ref_views(self.refs@),
            jobs: job_views(self.jobs@),
        }
    }
}

/// Appending a job keeps every build's links sound.
proof fn lemma_with_job_wf(v: LedgerView, j: JobView)
    requires
        v.wf(),
        v.jobs.len() < i32::MAX,
        j.id == v.jobs.len() + 1,
        v.has_build(j.build),
        j.kind == JobKind::Publish ==> j.endoflife is None,
    ensures
        v.with_job(j).wf(),
        forall|b: BuildView| v.build_ok(b) ==> v.with_job(j).build_ok(b),
{
    let w = v.with_job(j);
    assert forall|b: BuildView| v.build_ok(b) implies w.build_ok(b) by {
        if let Some(c) = b.commit_job_id {
            assert(w.job(c) == v.job(c));
        }
        if let Some(p) = b.publish_job_id {
            assert(w.job(p) == v.job(p));
        }
    }
    assert forall|i: int| 0 <= i < w.builds.len() implies #[trigger] w.builds[i].id == i + 1
        && w.build_ok(w.builds[i]) by {
        assert(v.builds[i].id == i + 1 && v.build_ok(v.builds[i]));
    }
    assert forall|i: int| 0 <= i < w.jobs.len() implies #[trigger] w.jobs[i].id == i + 1
        && w.has_build(w.jobs[i].build) && (w.jobs[i].kind == JobKind::Publish
        ==> w.jobs[i].endoflife is None) by {
        if i < v.jobs.len() {
            assert(v.jobs[i] == w.jobs[i]);
            assert(v.jobs[i].id == i + 1);
        }
    }
}

impl Ledger {
    /// An empty store.
    pub fn new() -> (l: Ledger)
        ensures
            l@ == LedgerView::empty(),
            l@.wf(),
    {
        let l = Ledger { builds: Vec::new(), refs: Vec::new(), jobs: Vec::new() };
        assert(l@.builds =~= Seq::<BuildView>::empty());
        assert(l@.refs =~= Seq::<BuildRefView>::empty());
        assert(l@.jobs =~= Seq::<JobView>::empty());
        l
    }

    /// The build with identifier `id`.
    pub fn get_build(&self, id: i32) -> (r: Result<Build, ApiError>)
        requires
            self@.wf(),
        ensures
            build_result(r) == self@.lookup_build(id),
    {
        if id >= 1 && (id as usize) <= self.builds.len() {
            Ok(self.builds[(id - 1) as usize].duplicate())
        } else {
            Err(ApiError::NotFound)
        }
    }

    /// The ref `ref_id`, if it belongs to build `build_id`.
    pub fn get_build_ref(&self, build_id: i32, ref_id: i32) -> (r: Result<BuildRef, ApiError>)
        requires
            self@.wf(),
        ensures
            ref_result(r) == self@.lookup_build_ref(build_id, ref_id),
    {
        if ref_id >= 1 && (ref_id as usize) <= self.refs.len() && self.refs[(ref_id - 1) as usize].build_id
            == build_id {
            Ok(self.refs[(ref_id - 1) as usize].duplicate())
        } else {
            Err(ApiError::NotFound)
        }
    }

    /// All refs of build `build_id`, in the order they were created.
    pub fn list_build_refs(&self, build_id: i32) -> (r: Vec<BuildRef>)
        requires
            self@.wf(),
        ensures
            ref_views(r@) == refs_of(self@.refs, build_id),
    {
        let mut out: Vec<BuildRef> = Vec::new();
        let mut i: usize = 0;
        while i < self.refs.len()
            invariant
                i <= self.refs@.len(),
                ref_views(out@) == refs_of(ref_views(self.refs@.subrange(0, i as int)), build_id),
            decreases self.refs@.len() - i,
        {
            let ghost before = out@;
            let r = &self.refs[i];
            if r.build_id == build_id {
                out.push(r.duplicate());
            }
            proof {
                let p = ref_views(self.refs@.subrange(0, i + 1));
                assert(p.drop_last() =~= ref_views(self.refs@.subrange(0, i as int)));
                assert(p.last() == self.refs@[i as int]@);
                if r.build_id == build_id {
                    assert(ref_views(out@) =~= ref_views(before).push(self.refs@[i as int]@));
                }
            }
            i = i + 1;
        }
        assert(self.refs@.subrange(0, i as int) =~= self.refs@);
        out
    }

    /// All builds whose repo state is not of the same variant as `excluded`,
    /// in the order they were created.
    pub fn list_builds_excluding(&self, excluded: &RepoState) -> (r: Vec<Build>)
        requires
            self@.wf(),
        ensures
            build_views(r@) == builds_not_in(self@.builds, excluded@),
    {
        let mut out: Vec<Build> = Vec::new();
        let mut i: usize = 0;
        while i < self.builds.len()
            invariant
                i <= self.builds@.len(),
                build_views(out@) == builds_not_in(
                    build_views(self.builds@.subrange(0, i as int)),
                    excluded@,
                ),
            decreases self.builds@.len() - i,
        {
            let ghost before = out@;
            let b = &self.builds[i];
            let skip = b.repo_state.same_state_as(excluded);
            if !skip {
                out.push(b.duplicate());
            }
            proof {
                let p = build_views(self.builds@.subrange(0, i + 1));
                assert(p.drop_last() =~= build_views(self.builds@.subrange(0, i as int)));
                assert(p.last() == self.builds@[i as int]@);
                assert(skip == same_repo_variant(p.last().repo_state, excluded@));
                if !skip {
                    assert(build_views(out@) =~= build_views(before).push(self.builds@[i as int]@));
                }
            }
            i = i + 1;
        }
        assert(self.builds@.subrange(0, i as int) =~= self.builds@);
        out
    }

    /// The job with identifier `id`.
    pub fn get_job(&self, id: i32) -> (r: Result<Job, ApiError>)
        requires
            self@.wf(),
        ensures
            job_result(r) == self@.lookup_job(id),
    {
        if id >= 1 && (id as usize) <= self.jobs.len() {
            Ok(self.jobs[(id - 1) as usize].duplicate())
        } else {
            Err(ApiError::NotFound)
        }
    }

    /// The job of the given kind that build `build_id` links to.
    pub fn get_linked_job(&self, build_id: i32, kind: JobKind) -> (r: Result<Job, ApiError>)
        requires
            self@.wf(),
        ensures
            job_result(r) == self@.linked_job(build_id, kind),
    {
        if build_id < 1 || (build_id as usize) > self.builds.len() {
            return Err(ApiError::NotFound);
        }
        let b = &self.builds[(build_id - 1) as usize];
        proof {
            assert(self@.builds[build_id - 1] == b@);
            assert(self@.builds[build_id - 1].id == build_id);
        }
        let link = match kind {
            JobKind::Commit => b.commit_job_id,
            JobKind::Publish => b.publish_job_id,
        };
        match link {
            Some(j) => Ok(self.jobs[(j - 1) as usize].duplicate()),
            None => Err(ApiError::NotFound),
        }
    }

    /// Adds a fresh build; fails only when identifiers are exhausted.
    pub fn insert_build(&mut self) -> (r: Result<Build, ApiError>)
        requires
            old(self)@.wf(),
        ensures
            final(self)@.wf(),
            (final(self)@, build_result(r)) == old(self)@.create_build(),
    {
        if self.builds.len() >= i32::MAX as usize {
            return Err(ApiError::StorageFailure);
        }
        let ghost v = self@;
        let id = (self.builds.len() + 1) as i32;
        let b = Build::new(id);
        self.builds.push(b.duplicate());
        proof {
            assert(self@.builds =~= v.builds.push(b@));
            assert(self@.refs == v.refs);
            assert(self@.jobs == v.jobs);
            assert forall|i: int| 0 <= i < self@.builds.len() implies #[trigger] self@.builds[i].id
                == i + 1 && self@.build_ok(self@.builds[i]) by {
                if i < v.builds.len() {
                    assert(v.builds[i].id == i + 1);
                }
            }
            assert forall|i: int| 0 <= i < self@.refs.len() implies #[trigger] self@.refs[i].id
                == i + 1 && self@.has_build(self@.refs[i].build_id) by {
                assert(v.refs[i].id == i + 1);
            }
            assert forall|i: int| 0 <= i < self@.jobs.len() implies #[trigger] self@.jobs[i].id
                == i + 1 && self@.has_build(self@.jobs[i].build) && (self@.jobs[i].kind
                == JobKind::Publish ==> self@.jobs[i].endoflife is None) by {
                assert(v.jobs[i].id == i + 1);
            }
        }
        Ok(b)
    }

    /// Adds a ref to an existing build; fails when the build does not exist
    /// or identifiers are exhausted.
    pub fn insert_build_ref(&mut self, data: NewBuildRef) -> (r: Result<BuildRef, ApiError>)
        requires
            old(self)@.wf(),
        ensures
            final(self)@.wf(),
            (final(self)@, ref_result(r)) == old(self)@.create_build_ref(data@),
    {
        if data.build_id < 1 || (data.build_id as usize) > self.builds.len() || self.refs.len()
            >= i32::MAX as usize {
            return Err(ApiError::StorageFailure);
        }
        let ghost v = self@;
        let r = BuildRef {
            id: (self.refs.len() + 1) as i32,
            build_id: data.build_id,
            ref_name: data.ref_name,
            commit: data.commit,
        };
        self.refs.push(r.duplicate());
        proof {
            assert(self@.refs =~= v.refs.push(r@));
            assert(self@.builds == v.builds);
            assert(self@.jobs == v.jobs);
            assert forall|i: int| 0 <= i < self@.builds.len() implies #[trigger] self@.builds[i].id
                == i + 1 && self@.build_ok(self@.builds[i]) by {
                assert(v.builds[i].id == i + 1);
            }
            assert forall|i: int| 0 <= i < self@.refs.len() implies #[trigger] self@.refs[i].id
                == i + 1 && self@.has_build(self@.refs[i].build_id) by {
                if i < v.refs.len() {
                    assert(v.refs[i].id == i + 1);
                }
            }
            assert forall|i: int| 0 <= i < self@.jobs.len() implies #[trigger] self@.jobs[i].id
                == i + 1 && self@.has_build(self@.jobs[i].build) && (self@.jobs[i].kind
                == JobKind::Publish ==> self@.jobs[i].endoflife is None) by {
                assert(v.jobs[i].id == i + 1);
            }
        }
        Ok(r)
    }

    /// Adds a job for an existing build; fails only when identifiers are
    /// exhausted.
    pub fn insert_job(&mut self, contents: JobContents) -> (r: Result<Job, ApiError>)
        requires
            old(self)@.wf(),
            old(self)@.has_build((Job { id: 0, contents })@.build),
        ensures
            final(self)@.wf(),
            old(self)@.jobs.len() >= i32::MAX ==> r == Err::<Job, ApiError>(ApiError::StorageFailure)
                && final(self)@ == old(self)@,
            old(self)@.jobs.len() < i32::MAX ==> r is Ok,
            r matches Ok(j) ==> j@ == (Job { id: old(self)@.next_job_id(), contents })@
                && final(self)@ == old(self)@.with_job(j@),
            forall|b: BuildView| old(self)@.build_ok(b) ==> final(self)@.build_ok(b),
    {
        if self.jobs.len() >= i32::MAX as usize {
            return Err(ApiError::StorageFailure);
        }
        let ghost v = self@;
        let j = Job { id: (self.jobs.len() + 1) as i32, contents };
        self.jobs.push(j.duplicate());
        proof {
            assert(self@.jobs =~= v.jobs.push(j@));
            assert(self@ =~= v.with_job(j@));
            lemma_with_job_wf(v, j@);
        }
        Ok(j)
    }

    /// Replaces the record of build `b.id` with `b`.
    pub fn update_build(&mut self, b: Build)
        requires
            old(self)@.wf(),
            old(self)@.build_ok(b@),
        ensures
            final(self)@.wf(),
            final(self)@ == old(self)@.with_build(b@),
    {
        let ghost v = self@;
        let idx = (b.id - 1) as usize;
        self.builds[idx] = b;
        proof {
            assert(self@.builds =~= v.builds.update(idx as int, b@));
            assert(self@ =~= v.with_build(b@));
            assert forall|i: int| 0 <= i < self@.builds.len() implies #[trigger] self@.builds[i].id
                == i + 1 && self@.build_ok(self@.builds[i]) by {
                assert(v.builds[i].id == i + 1);
            }
            assert forall|i: int| 0 <= i < self@.refs.len() implies #[trigger] self@.refs[i].id
                == i + 1 && self@.has_build(self@.refs[i].build_id) by {
                assert(v.refs[i].id == i + 1);
            }
            assert forall|i: int| 0 <= i < self@.jobs.len() implies #[trigger] self@.jobs[i].id
                == i + 1 && self@.has_build(self@.jobs[i].build) && (self@.jobs[i].kind
                == JobKind::Publish ==> self@.jobs[i].endoflife is None) by {
                assert(v.jobs[i].id == i + 1);
            }
        }
    }
}

} // verus!
