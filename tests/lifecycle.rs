use build_ledger::db::{
    CreateBuild, CreateBuildRef, FinishCommitJob, FinishPublishJob, FinishPurge, InitPurge,
    ListBuilds, LookupBuild, LookupBuildRef, LookupBuildRefs, LookupCommitJob, LookupJob,
    LookupPublishJob, StartCommitJob, StartPublishJob,
};
use build_ledger::ledger::Ledger;
use build_ledger::models::{
    ApiError, Build, CommitJob, JobContents, NewBuildRef, PublishJob, Rejection,
};
use build_ledger::state::{JobKind, PublishedState, RepoState};

fn new_build(db: &mut Ledger) -> i32 {
    CreateBuild {}.handle(db).unwrap().id
}

fn build(db: &Ledger, id: i32) -> Build {
    LookupBuild { id }.handle(db).unwrap()
}

fn ready_build(db: &mut Ledger) -> i32 {
    let id = new_build(db);
    StartCommitJob { id, endoflife: None }.handle(db).unwrap();
    FinishCommitJob { id, error: None }.handle(db).unwrap();
    id
}

fn new_ref(build_id: i32, name: &str) -> NewBuildRef {
    NewBuildRef { build_id, ref_name: name.to_string(), commit: "abc123".to_string() }
}

#[test]
fn repo_state_round_trip_every_variant() {
    let all = vec![
        RepoState::Uploading,
        RepoState::Verifying,
        RepoState::Ready,
        RepoState::Failed("broken".to_string()),
        RepoState::Purging,
        RepoState::Purged,
    ];
    for s in all {
        let (code, reason) = s.to_db();
        assert_eq!(RepoState::from_db(code, &reason), Some(s));
    }
}

#[test]
fn published_state_round_trip_every_variant() {
    let all = vec![
        PublishedState::Unpublished,
        PublishedState::Publishing,
        PublishedState::Published,
        PublishedState::Failed("no space".to_string()),
    ];
    for s in all {
        let (code, reason) = s.to_db();
        assert_eq!(PublishedState::from_db(code, &reason), Some(s));
    }
}

#[test]
fn state_codes_are_fixed() {
    assert_eq!(RepoState::Uploading.to_db(), (0, None));
    assert_eq!(RepoState::Purged.to_db(), (5, None));
    assert_eq!(RepoState::Failed("x".to_string()).to_db(), (3, Some("x".to_string())));
    assert_eq!(PublishedState::Publishing.to_db(), (1, None));
    assert_eq!(JobKind::Commit.to_db(), 0);
    assert_eq!(JobKind::Publish.to_db(), 1);
    assert_eq!(JobKind::from_db(1), Some(JobKind::Publish));
}

#[test]
fn corrupt_codes_do_not_decode() {
    assert_eq!(RepoState::from_db(6, &None), None);
    assert_eq!(RepoState::from_db(-1, &None), None);
    assert_eq!(PublishedState::from_db(4, &None), None);
    assert_eq!(JobKind::from_db(2), None);
}

#[test]
fn failure_without_reason_decodes_to_empty_reason() {
    assert_eq!(RepoState::from_db(3, &None), Some(RepoState::Failed(String::new())));
    assert_eq!(PublishedState::from_db(3, &None), Some(PublishedState::Failed(String::new())));
}

#[test]
fn same_state_ignores_reason() {
    let a = RepoState::Failed("a".to_string());
    let b = RepoState::Failed("b".to_string());
    assert!(a.same_state_as(&b));
    assert!(!a.same_state_as(&RepoState::Ready));
    assert!(PublishedState::Failed("a".to_string())
        .same_state_as(&PublishedState::Failed(String::new())));
    assert!(!PublishedState::Published.same_state_as(&PublishedState::Publishing));
}

#[test]
fn created_builds_start_uploading_and_unpublished() {
    let mut db = Ledger::new();
    let b = CreateBuild {}.handle(&mut db).unwrap();
    assert_eq!(b.id, 1);
    assert_eq!(b.repo_state, RepoState::Uploading);
    assert_eq!(b.published_state, PublishedState::Unpublished);
    assert_eq!(b.commit_job_id, None);
    assert_eq!(b.publish_job_id, None);
    assert_eq!(new_build(&mut db), 2);
    assert_eq!(build(&db, 1), b);
}

#[test]
fn missing_build_is_not_found() {
    let mut db = Ledger::new();
    assert_eq!(LookupBuild { id: 1 }.handle(&db), Err(ApiError::NotFound));
    assert_eq!(
        StartCommitJob { id: 3, endoflife: None }.handle(&mut db),
        Err(ApiError::NotFound)
    );
    assert_eq!(StartPublishJob { id: 0 }.handle(&mut db), Err(ApiError::NotFound));
    assert_eq!(InitPurge { id: -4 }.handle(&mut db), Err(ApiError::NotFound));
    assert_eq!(FinishPurge { id: 1, error: None }.handle(&mut db), Err(ApiError::NotFound));
    assert_eq!(LookupJob { id: 1 }.handle(&db), Err(ApiError::NotFound));
    assert_eq!(LookupCommitJob { build_id: 1 }.handle(&db), Err(ApiError::NotFound));
}

#[test]
fn start_commit_creates_job_and_moves_to_verifying() {
    let mut db = Ledger::new();
    let id = new_build(&mut db);
    let job = StartCommitJob { id, endoflife: Some("old".to_string()) }.handle(&mut db).unwrap();
    assert_eq!(job.id, 1);
    assert_eq!(job.kind(), JobKind::Commit);
    assert_eq!(job.build_id(), id);
    assert_eq!(
        job.contents,
        JobContents::Commit(CommitJob { build: id, endoflife: Some("old".to_string()) })
    );
    let b = build(&db, id);
    assert_eq!(b.repo_state, RepoState::Verifying);
    assert_eq!(b.commit_job_id, Some(job.id));
    assert_eq!(LookupCommitJob { build_id: id }.handle(&db), Ok(job.clone()));
    assert_eq!(LookupJob { id: job.id }.handle(&db), Ok(job));
    assert_eq!(LookupPublishJob { build_id: id }.handle(&db), Err(ApiError::NotFound));
}

#[test]
fn repeated_commit_starts_succeed_exactly_once() {
    let mut db = Ledger::new();
    let id = new_build(&mut db);
    let mut successes = 0;
    let mut refusals = 0;
    for _ in 0..5 {
        match (StartCommitJob { id, endoflife: None }.handle(&mut db)) {
            Ok(_) => successes += 1,
            Err(e) => {
                assert_eq!(e, ApiError::BadRequest(Rejection::AlreadyCommitted));
                refusals += 1;
            }
        }
    }
    assert_eq!(successes, 1);
    assert_eq!(refusals, 4);
    assert!(LookupJob { id: 1 }.handle(&db).is_ok());
    assert_eq!(LookupJob { id: 2 }.handle(&db), Err(ApiError::NotFound));
    assert_eq!(build(&db, id).commit_job_id, Some(1));
}

#[test]
fn publish_refused_while_verifying() {
    let mut db = Ledger::new();
    let id = new_build(&mut db);
    StartCommitJob { id, endoflife: None }.handle(&mut db).unwrap();
    let before = build(&db, id);
    assert_eq!(
        StartPublishJob { id }.handle(&mut db),
        Err(ApiError::BadRequest(Rejection::InvalidPublishState))
    );
    assert_eq!(build(&db, id), before);
    assert_eq!(LookupJob { id: 2 }.handle(&db), Err(ApiError::NotFound));
}

#[test]
fn publish_of_ready_unpublished_build_succeeds() {
    let mut db = Ledger::new();
    let id = ready_build(&mut db);
    let job = StartPublishJob { id }.handle(&mut db).unwrap();
    assert_eq!(job.id, 2);
    assert_eq!(job.kind(), JobKind::Publish);
    assert_eq!(job.contents, JobContents::Publish(PublishJob { build: id }));
    let b = build(&db, id);
    assert_eq!(b.published_state, PublishedState::Publishing);
    assert_eq!(b.publish_job_id, Some(2));
    assert_eq!(b.repo_state, RepoState::Ready);
    assert_eq!(LookupPublishJob { build_id: id }.handle(&db), Ok(job));
}

#[test]
fn publish_refused_when_already_published() {
    let mut db = Ledger::new();
    let id = ready_build(&mut db);
    StartPublishJob { id }.handle(&mut db).unwrap();
    assert_eq!(
        StartPublishJob { id }.handle(&mut db),
        Err(ApiError::BadRequest(Rejection::InvalidPublishState))
    );
    FinishPublishJob { id, error: None }.handle(&mut db).unwrap();
    assert_eq!(build(&db, id).published_state, PublishedState::Published);
    assert_eq!(
        StartPublishJob { id }.handle(&mut db),
        Err(ApiError::BadRequest(Rejection::InvalidPublishState))
    );
}

#[test]
fn purge_refused_while_verifying() {
    let mut db = Ledger::new();
    let id = new_build(&mut db);
    StartCommitJob { id, endoflife: None }.handle(&mut db).unwrap();
    assert_eq!(
        InitPurge { id }.handle(&mut db),
        Err(ApiError::BadRequest(Rejection::PurgeWhileInUse))
    );
    assert_eq!(build(&db, id).repo_state, RepoState::Verifying);
}

#[test]
fn purge_refused_while_publishing() {
    let mut db = Ledger::new();
    let id = ready_build(&mut db);
    StartPublishJob { id }.handle(&mut db).unwrap();
    assert_eq!(
        InitPurge { id }.handle(&mut db),
        Err(ApiError::BadRequest(Rejection::PurgeWhileInUse))
    );
    assert_eq!(build(&db, id).repo_state, RepoState::Ready);
}

#[test]
fn purge_of_ready_published_build_starts() {
    let mut db = Ledger::new();
    let id = ready_build(&mut db);
    StartPublishJob { id }.handle(&mut db).unwrap();
    FinishPublishJob { id, error: None }.handle(&mut db).unwrap();
    assert_eq!(InitPurge { id }.handle(&mut db), Ok(()));
    assert_eq!(build(&db, id).repo_state, RepoState::Purging);
    assert_eq!(
        InitPurge { id }.handle(&mut db),
        Err(ApiError::BadRequest(Rejection::PurgeWhileInUse))
    );
}

#[test]
fn finish_purge_without_error_purges() {
    let mut db = Ledger::new();
    let id = new_build(&mut db);
    InitPurge { id }.handle(&mut db).unwrap();
    let b = FinishPurge { id, error: None }.handle(&mut db).unwrap();
    assert_eq!(b.repo_state, RepoState::Purged);
    assert_eq!(build(&db, id), b);
}

#[test]
fn finish_purge_with_error_fails_the_build() {
    let mut db = Ledger::new();
    let id = ready_build(&mut db);
    InitPurge { id }.handle(&mut db).unwrap();
    let b = FinishPurge { id, error: Some("disk full".to_string()) }.handle(&mut db).unwrap();
    assert_eq!(b.repo_state, RepoState::Failed("Failed to Purge build: disk full".to_string()));
    assert_eq!(build(&db, id).repo_state, b.repo_state);
}

#[test]
fn finish_purge_refused_when_not_purging() {
    let mut db = Ledger::new();
    let id = new_build(&mut db);
    assert_eq!(
        FinishPurge { id, error: None }.handle(&mut db),
        Err(ApiError::BadRequest(Rejection::NotPurging))
    );
    assert_eq!(build(&db, id).repo_state, RepoState::Uploading);
}

#[test]
fn finish_commit_records_outcome() {
    let mut db = Ledger::new();
    let a = new_build(&mut db);
    let b = new_build(&mut db);
    assert_eq!(
        FinishCommitJob { id: a, error: None }.handle(&mut db),
        Err(ApiError::BadRequest(Rejection::NotVerifying))
    );
    StartCommitJob { id: a, endoflife: None }.handle(&mut db).unwrap();
    StartCommitJob { id: b, endoflife: None }.handle(&mut db).unwrap();
    assert_eq!(FinishCommitJob { id: a, error: None }.handle(&mut db).unwrap().repo_state, RepoState::Ready);
    let failed = FinishCommitJob { id: b, error: Some("bad summary".to_string()) }
        .handle(&mut db)
        .unwrap();
    assert_eq!(failed.repo_state, RepoState::Failed("bad summary".to_string()));
}

#[test]
fn finish_publish_records_failure() {
    let mut db = Ledger::new();
    let id = ready_build(&mut db);
    assert_eq!(
        FinishPublishJob { id, error: None }.handle(&mut db),
        Err(ApiError::BadRequest(Rejection::NotPublishing))
    );
    StartPublishJob { id }.handle(&mut db).unwrap();
    let b = FinishPublishJob { id, error: Some("signing".to_string()) }.handle(&mut db).unwrap();
    assert_eq!(b.published_state, PublishedState::Failed("signing".to_string()));
}

#[test]
fn list_builds_excludes_only_purged() {
    let mut db = Ledger::new();
    let uploading = new_build(&mut db);
    let verifying = new_build(&mut db);
    StartCommitJob { id: verifying, endoflife: None }.handle(&mut db).unwrap();
    let ready = ready_build(&mut db);
    let failed = new_build(&mut db);
    StartCommitJob { id: failed, endoflife: None }.handle(&mut db).unwrap();
    FinishCommitJob { id: failed, error: Some("x".to_string()) }.handle(&mut db).unwrap();
    let purging = new_build(&mut db);
    InitPurge { id: purging }.handle(&mut db).unwrap();
    let purged = new_build(&mut db);
    InitPurge { id: purged }.handle(&mut db).unwrap();
    FinishPurge { id: purged, error: None }.handle(&mut db).unwrap();

    let listed: Vec<i32> = ListBuilds {}.handle(&db).unwrap().iter().map(|b| b.id).collect();
    assert_eq!(listed, vec![uploading, verifying, ready, failed, purging]);
    assert!(!listed.contains(&purged));
}

#[test]
fn build_ref_needs_existing_build() {
    let mut db = Ledger::new();
    assert_eq!(
        CreateBuildRef { data: new_ref(1, "main") }.handle(&mut db),
        Err(ApiError::StorageFailure)
    );
    let id = new_build(&mut db);
    let r = CreateBuildRef { data: new_ref(id, "main") }.handle(&mut db).unwrap();
    assert_eq!(r.id, 1);
    assert_eq!(r.build_id, id);
    assert_eq!(r.ref_name, "main");
    assert_eq!(r.commit, "abc123");
    assert_eq!(
        CreateBuildRef { data: new_ref(id + 1, "main") }.handle(&mut db),
        Err(ApiError::StorageFailure)
    );
}

#[test]
fn lookup_build_refs_returns_all_and_only_its_refs() {
    let mut db = Ledger::new();
    let a = new_build(&mut db);
    let b = new_build(&mut db);
    CreateBuildRef { data: new_ref(a, "one") }.handle(&mut db).unwrap();
    CreateBuildRef { data: new_ref(b, "two") }.handle(&mut db).unwrap();
    CreateBuildRef { data: new_ref(a, "three") }.handle(&mut db).unwrap();
    let names: Vec<String> =
        LookupBuildRefs { id: a }.handle(&db).unwrap().into_iter().map(|r| r.ref_name).collect();
    assert_eq!(names, vec!["one".to_string(), "three".to_string()]);
    assert_eq!(LookupBuildRefs { id: b }.handle(&db).unwrap().len(), 1);
    assert!(LookupBuildRefs { id: 9 }.handle(&db).unwrap().is_empty());
}

#[test]
fn lookup_build_ref_checks_owner() {
    let mut db = Ledger::new();
    let a = new_build(&mut db);
    let b = new_build(&mut db);
    let r = CreateBuildRef { data: new_ref(a, "main") }.handle(&mut db).unwrap();
    assert_eq!(LookupBuildRef { id: a, ref_id: r.id }.handle(&db), Ok(r.clone()));
    assert_eq!(LookupBuildRef { id: b, ref_id: r.id }.handle(&db), Err(ApiError::NotFound));
    assert_eq!(LookupBuildRef { id: a, ref_id: 2 }.handle(&db), Err(ApiError::NotFound));
}

#[test]
fn rejection_messages() {
    assert_eq!(Rejection::AlreadyCommitted.message(), "build already committed");
    assert_eq!(Rejection::InvalidPublishState.message(), "invalid build state for publish");
    assert_eq!(Rejection::PurgeWhileInUse.message(), "can't purge build while in use");
    assert_eq!(Rejection::NotPurging.message(), "unexpected repo state, was not purging");
    assert_eq!(Rejection::NotVerifying.message(), "unexpected repo state, was not verifying");
    assert_eq!(
        Rejection::NotPublishing.message(),
        "unexpected published state, was not publishing"
    );
}

#[test]
fn duplicates_are_equal() {
    let b = Build {
        id: 3,
        repo_state: RepoState::Failed("r".to_string()),
        published_state: PublishedState::Failed("p".to_string()),
        commit_job_id: Some(1),
        publish_job_id: None,
    };
    assert_eq!(b.duplicate(), b);
    assert_eq!(b.repo_state.duplicate(), b.repo_state);
}
