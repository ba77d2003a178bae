//! Properties that hold across the ledger's operations, proved over the model
//! that the operations' contracts are stated in.

use vstd::prelude::*;
use crate::model::{builds_not_in, purge_failure_reason, refs_of, LedgerView};
use crate::models::{ApiError, BuildRefView, BuildView, JobView, NewBuildRefView, Rejection};
use crate::state::{same_repo_variant, RepoStateView};

verus! {

/// Runs one commit start on build `id` for each entry of `endoflives`, in
/// order, and gives the ledger after all of them with each call's result.
pub open spec fn run_commit_starts(
    v: LedgerView,
    id: i32,
    endoflives: Seq<Option<Seq<char>>>,
) -> (LedgerView, Seq<Result<JobView, ApiError>>)
    decreases endoflives.len(),
{
    if endoflives.len() == 0 {
        (v, Seq::empty())
    } else {
        let (w, r) = v.start_commit(id, endoflives[0]);
        let (x, rs) = run_commit_starts(w, id, endoflives.drop_first());
        (x, seq![r] + rs)
    }
}

proof fn lemma_commit_starts_refused(v: LedgerView, id: i32, endoflives: Seq<Option<Seq<char>>>)
    requires
        v.has_build(id),
        !(v.build(id).repo_state is Uploading),
    ensures
        run_commit_starts(v, id, endoflives).0 == v,
        run_commit_starts(v, id, endoflives).1.len() == endoflives.len(),
        forall|i: int|
            0 <= i < endoflives.len() ==> #[trigger] run_commit_starts(v, id, endoflives).1[i]
                == Err::<JobView, ApiError>(ApiError::BadRequest(Rejection::AlreadyCommitted)),
    decreases endoflives.len(),
{
    if endoflives.len() > 0 {
        lemma_commit_starts_refused(v, id, endoflives.drop_first());
        let rs = run_commit_starts(v, id, endoflives).1;
        let tail = run_commit_starts(v, id, endoflives.drop_first()).1;
        assert forall|i: int| 0 <= i < endoflives.len() implies #[trigger] rs[i] == Err::<
            JobView,
            ApiError,
        >(ApiError::BadRequest(Rejection::AlreadyCommitted)) by {
            if i > 0 {
                assert(rs[i] == tail[i - 1]);
            }
        }
    }
}

/// Starting the commit of an uploaded build any number of times, one call
/// after another, succeeds exactly once: the first call makes the one job and
/// moves the build to verifying with its commit job set; every later call is
/// refused as already committed and makes no job.
pub proof fn law_commit_exactly_once(v: LedgerView, id: i32, endoflives: Seq<Option<Seq<char>>>)
    requires
        v.wf(),
        v.has_build(id),
        v.build(id).repo_state is Uploading,
        v.jobs.len() < i32::MAX,
        endoflives.len() >= 1,
    ensures
        ({
            let (w, rs) = run_commit_starts(v, id, endoflives);
            &&& rs.len() == endoflives.len()
            &&& rs[0] matches Ok(j) && j.id == v.next_job_id() && w.build(id).commit_job_id == Some(
                j.id,
            ) && w.jobs == v.jobs.push(j)
            &&& w.build(id).repo_state is Verifying
            &&& forall|i: int|
                1 <= i < rs.len() ==> #[trigger] rs[i] == Err::<JobView, ApiError>(
                    ApiError::BadRequest(Rejection::AlreadyCommitted),
                )
        }),
{
    let (w1, r1) = v.start_commit(id, endoflives[0]);
    lemma_commit_starts_refused(w1, id, endoflives.drop_first());
    let rs = run_commit_starts(v, id, endoflives).1;
    let tail = run_commit_starts(w1, id, endoflives.drop_first()).1;
    assert forall|i: int| 1 <= i < rs.len() implies #[trigger] rs[i] == Err::<JobView, ApiError>(
        ApiError::BadRequest(Rejection::AlreadyCommitted),
    ) by {
        assert(rs[i] == tail[i - 1]);
    }
}

/// Publishing needs a committed build: while the build is still verifying the
/// start is refused, whatever its published state, and nothing changes; a
/// ready, unpublished build starts publishing and links its publish job.
pub proof fn law_publish_needs_ready(v: LedgerView, id: i32)
    requires
        v.wf(),
        v.has_build(id),
    ensures
        v.build(id).repo_state is Verifying ==> v.start_publish(id) == (
            v,
            Err::<JobView, ApiError>(ApiError::BadRequest(Rejection::InvalidPublishState)),
        ),
        v.build(id).repo_state is Ready && v.build(id).published_state is Unpublished
            && v.jobs.len() < i32::MAX ==> ({
            let (w, r) = v.start_publish(id);
            r matches Ok(j) && w.build(id).published_state is Publishing && w.build(
                id,
            ).publish_job_id == Some(j.id)
        }),
{
}

/// A purge may not start while a worker uses the build: it is refused, with
/// nothing changed, while the build is verifying or publishing; a ready,
/// published build moves to purging.
pub proof fn law_purge_guard(v: LedgerView, id: i32)
    requires
        v.wf(),
        v.has_build(id),
    ensures
        v.build(id).repo_state is Verifying ==> v.init_purge(id) == (
            v,
            Err::<(), ApiError>(ApiError::BadRequest(Rejection::PurgeWhileInUse)),
        ),
        v.build(id).published_state is Publishing ==> v.init_purge(id) == (
            v,
            Err::<(), ApiError>(ApiError::BadRequest(Rejection::PurgeWhileInUse)),
        ),
        v.build(id).repo_state is Ready && v.build(id).published_state is Published ==> ({
            let (w, r) = v.init_purge(id);
            r is Ok && w.build(id).repo_state is Purging
        }),
{
}

/// A purge that was started ends purged when no error is reported, and failed
/// with the reported error behind a fixed prefix otherwise; finishing a purge
/// of a build that is not purging is refused and changes nothing.
pub proof fn law_purge_completion(v: LedgerView, id: i32, error: Seq<char>)
    requires
        v.wf(),
        v.has_build(id),
    ensures
        v.init_purge(id).1 is Ok ==> ({
            let w = v.init_purge(id).0;
            &&& w.finish_purge(id, None).0.build(id).repo_state == RepoStateView::Purged
            &&& w.finish_purge(id, None).1 matches Ok(b) && b.repo_state == RepoStateView::Purged
            &&& w.finish_purge(id, Some(error)).0.build(id).repo_state == RepoStateView::Failed(
                purge_failure_reason(error),
            )
        }),
        !(v.build(id).repo_state is Purging) ==> v.finish_purge(id, Some(error)) == (
            v,
            Err::<BuildView, ApiError>(ApiError::BadRequest(Rejection::NotPurging)),
        ) && v.finish_purge(id, None) == (v, Err::<BuildView, ApiError>(
            ApiError::BadRequest(Rejection::NotPurging),
        )),
{
}

proof fn lemma_builds_not_in(s: Seq<BuildView>, excluded: RepoStateView)
    ensures
        forall|b: BuildView|
            #[trigger] builds_not_in(s, excluded).contains(b) <==> (s.contains(b)
                && !same_repo_variant(b.repo_state, excluded)),
    decreases s.len(),
{
    if s.len() > 0 {
        lemma_builds_not_in(s.drop_last(), excluded);
        assert forall|b: BuildView| #[trigger] s.contains(b) implies s.drop_last().contains(b)
            || b == s.last() by {
            let i = choose|i: int| 0 <= i < s.len() && s[i] == b;
            if i < s.len() - 1 {
                assert(s.drop_last()[i] == b);
            }
        }
        assert forall|b: BuildView| s.drop_last().contains(b) implies #[trigger] s.contains(b) by {
            let i = choose|i: int| 0 <= i < s.drop_last().len() && s.drop_last()[i] == b;
            assert(s[i] == b);
        }
        let rest = builds_not_in(s.drop_last(), excluded);
        assert forall|b: BuildView| rest.push(s.last()).contains(b) <==> (rest.contains(b) || b
            == s.last()) by {
            if rest.push(s.last()).contains(b) {
                let i = choose|i: int|
                    0 <= i < rest.push(s.last()).len() && rest.push(s.last())[i] == b;
                if i < rest.len() {
                    assert(rest[i] == b);
                }
            }
            if rest.contains(b) {
                let i = choose|i: int| 0 <= i < rest.len() && rest[i] == b;
                assert(rest.push(s.last())[i] == b);
            }
            if b == s.last() {
                assert(rest.push(s.last())[rest.len() as int] == b);
            }
        }
        assert(s.contains(s.last())) by {
            assert(s[s.len() - 1] == s.last());
        }
        assert forall|b: BuildView| #[trigger] builds_not_in(s, excluded).contains(b) <==> (
        s.contains(b) && !same_repo_variant(b.repo_state, excluded)) by {
            assert(s.contains(b) <==> (s.drop_last().contains(b) || b == s.last()));
            assert(rest.push(s.last()).contains(b) <==> (rest.contains(b) || b == s.last()));
            assert(rest.contains(b) <==> (s.drop_last().contains(b) && !same_repo_variant(
                b.repo_state,
                excluded,
            )));
            if same_repo_variant(s.last().repo_state, excluded) {
                assert(builds_not_in(s, excluded) == rest);
            } else {
                assert(builds_not_in(s, excluded) == rest.push(s.last()));
            }
        }
    }
}

proof fn lemma_refs_of(s: Seq<BuildRefView>, build_id: i32)
    ensures
        forall|r: BuildRefView|
            #[trigger] refs_of(s, build_id).contains(r) <==> (s.contains(r) && r.build_id
                == build_id),
    decreases s.len(),
{
    if s.len() > 0 {
        lemma_refs_of(s.drop_last(), build_id);
        assert forall|r: BuildRefView| #[trigger] s.contains(r) implies s.drop_last().contains(r)
            || r == s.last() by {
            let i = choose|i: int| 0 <= i < s.len() && s[i] == r;
            if i < s.len() - 1 {
                assert(s.drop_last()[i] == r);
            }
        }
        assert forall|r: BuildRefView| s.drop_last().contains(r) implies #[trigger] s.contains(r) by {
            let i = choose|i: int| 0 <= i < s.drop_last().len() && s.drop_last()[i] == r;
            assert(s[i] == r);
        }
        assert(s.contains(s.last())) by {
            assert(s[s.len() - 1] == s.last());
        }
        let rest = refs_of(s.drop_last(), build_id);
        assert forall|r: BuildRefView| rest.push(s.last()).contains(r) <==> (rest.contains(r) || r
            == s.last()) by {
            if rest.push(s.last()).contains(r) {
                let i = choose|i: int|
                    0 <= i < rest.push(s.last()).len() && rest.push(s.last())[i] == r;
                if i < rest.len() {
                    assert(rest[i] == r);
                }
            }
            if rest.contains(r) {
                let i = choose|i: int| 0 <= i < rest.len() && rest[i] == r;
                assert(rest.push(s.last())[i] == r);
            }
            if r == s.last() {
                assert(rest.push(s.last())[rest.len() as int] == r);
            }
        }
        assert forall|r: BuildRefView| #[trigger] refs_of(s, build_id).contains(r) <==> (
        s.contains(r) && r.build_id == build_id) by {
            assert(s.contains(r) <==> (s.drop_last().contains(r) || r == s.last()));
            assert(rest.push(s.last()).contains(r) <==> (rest.contains(r) || r == s.last()));
            assert(rest.contains(r) <==> (s.drop_last().contains(r) && r.build_id == build_id));
            if s.last().build_id == build_id {
                assert(refs_of(s, build_id) == rest.push(s.last()));
            } else {
                assert(refs_of(s, build_id) == rest);
            }
        }
    }
}

/// The list of active builds holds every build that is not purged and no
/// purged one.
pub proof fn law_list_excludes_purged(v: LedgerView)
    requires
        v.wf(),
    ensures
        forall|b: BuildView|
            #[trigger] v.active_builds().contains(b) <==> (v.builds.contains(b)
                && !(b.repo_state is Purged)),
{
    lemma_builds_not_in(v.builds, RepoStateView::Purged);
}

/// A ref can only be attached to a build that exists, and listing a build's
/// refs gives all and only the refs that name that build.
pub proof fn law_ref_integrity(v: LedgerView, data: NewBuildRefView, build_id: i32)
    requires
        v.wf(),
    ensures
        !v.has_build(data.build_id) ==> v.create_build_ref(data) == (
            v,
            Err::<BuildRefView, ApiError>(ApiError::StorageFailure),
        ),
        forall|r: BuildRefView|
            #[trigger] refs_of(v.refs, build_id).contains(r) <==> (v.refs.contains(r)
                && r.build_id == build_id),
{
    lemma_refs_of(v.refs, build_id);
}

} // verus!
