use dump_actor::actor::{DumpActor, DumpEvent, DumpMsg, DumpTask, CONCURRENT_DUMP_MSG};
use dump_actor::error::{DumpError, TaskOutcome};
use dump_actor::status::{DumpInfo, DumpStatus};

fn actor() -> DumpActor {
    DumpActor::new("dumps".to_string(), 100, 200)
}

fn running(uid: &str, started_at: i64) -> DumpInfo {
    DumpInfo {
        uid: uid.to_string(),
        status: DumpStatus::InProgress,
        error: None,
        started_at,
        finished_at: None,
    }
}

#[test]
fn new_actor_is_idle_and_keeps_its_settings() {
    let a = actor();
    assert!(!a.is_dump_running());
    assert_eq!(a.dump_count(), 0);
    assert_eq!(a.dump_path(), "dumps");
    assert_eq!(a.index_db_size(), 100);
    assert_eq!(a.update_db_size(), 200);
}

#[test]
fn concurrency_ceiling_is_ten() {
    assert_eq!(CONCURRENT_DUMP_MSG, 10);
}

#[test]
fn single_dump_succeeds() {
    let mut a = actor();
    let info = a.handle_create_dump().expect("the lock is free");
    assert_eq!(info.status, DumpStatus::InProgress);
    assert_eq!(info.error, None);
    assert_eq!(info.finished_at, None);
    assert_eq!(a.handle_dump_info(info.uid.clone()), Ok(info.clone()));

    a.finish_dump(&info.uid, &TaskOutcome::Succeeded, info.started_at + 50);
    let polled = a.handle_dump_info(info.uid.clone()).expect("the record is kept");
    assert_eq!(polled.status, DumpStatus::Done);
    assert_eq!(polled.finished_at, Some(info.started_at + 50));
    assert_eq!(polled.error, None);
    assert_eq!(polled.uid, info.uid);
    assert_eq!(polled.started_at, info.started_at);
}

#[test]
fn second_dump_is_refused_while_first_runs() {
    let mut a = actor();
    let first = a.handle_create_dump();
    let second = a.handle_create_dump();
    assert_eq!(first.expect("the lock is free").status, DumpStatus::InProgress);
    assert_eq!(second, Err(DumpError::AlreadyRunning));
    assert_eq!(a.dump_count(), 1);
}

#[test]
fn refused_request_stores_no_record() {
    let mut a = actor();
    assert_eq!(a.accept_dump("a".to_string(), 1), Ok(running("a", 1)));
    assert_eq!(a.accept_dump("b".to_string(), 2), Err(DumpError::AlreadyRunning));
    assert_eq!(
        a.handle_dump_info("b".to_string()),
        Err(DumpError::NotFound("b".to_string()))
    );
    assert_eq!(a.dump_count(), 1);
    assert!(a.is_dump_running());
}

#[test]
fn failed_task_is_recorded_with_its_description() {
    let mut a = actor();
    let info = a.handle_create_dump().expect("the lock is free");
    a.handle_task_result(&info.uid, &TaskOutcome::Failed("disk full".to_string()));
    let polled = a.handle_dump_info(info.uid.clone()).expect("the record is kept");
    assert_eq!(polled.status, DumpStatus::Failed);
    assert_eq!(polled.error, Some("disk full".to_string()));
    assert!(polled.finished_at.is_some());
}

#[test]
fn crashed_task_is_recorded_and_next_dump_is_accepted() {
    let mut a = actor();
    assert!(a.accept_dump("one".to_string(), 10).is_ok());
    a.finish_dump(&"one".to_string(), &TaskOutcome::Crashed, 20);
    let polled = a.handle_dump_info("one".to_string()).expect("the record is kept");
    assert_eq!(
        polled,
        DumpInfo {
            uid: "one".to_string(),
            status: DumpStatus::Failed,
            error: Some("Unexpected error while performing dump.".to_string()),
            started_at: 10,
            finished_at: Some(20),
        }
    );
    assert!(!a.is_dump_running());
    assert_eq!(a.accept_dump("two".to_string(), 30), Ok(running("two", 30)));
    assert_eq!(a.dump_count(), 2);
}

#[test]
fn unknown_identifier_is_not_found() {
    let a = actor();
    assert_eq!(
        a.handle_dump_info("nonexistent".to_string()),
        Err(DumpError::NotFound("nonexistent".to_string()))
    );
    let mut b = actor();
    assert!(b.accept_dump("known".to_string(), 1).is_ok());
    assert_eq!(
        b.handle_dump_info("nonexistent".to_string()),
        Err(DumpError::NotFound("nonexistent".to_string()))
    );
}

#[test]
fn reply_is_followed_by_a_successful_query() {
    let mut a = actor();
    let info = a.accept_dump("20240102-030405678".to_string(), 7).expect("the lock is free");
    assert_eq!(a.handle_dump_info(info.uid.clone()), Ok(info));
}

#[test]
fn finished_record_never_changes_again() {
    let mut a = actor();
    let uid = "x".to_string();
    assert!(a.accept_dump(uid.clone(), 1).is_ok());
    a.finish_dump(&uid, &TaskOutcome::Succeeded, 2);
    let done = a.handle_dump_info(uid.clone());
    a.finish_dump(&uid, &TaskOutcome::Failed("late".to_string()), 3);
    assert_eq!(a.handle_dump_info(uid.clone()), done);
    a.finish_dump(&uid, &TaskOutcome::Crashed, 4);
    assert_eq!(a.handle_dump_info(uid.clone()), done);
    assert_eq!(done.expect("the record is kept").status, DumpStatus::Done);
}

#[test]
fn late_task_end_does_not_free_the_gate_of_another_dump() {
    let mut a = actor();
    let one = "one".to_string();
    assert!(a.accept_dump(one.clone(), 1).is_ok());
    a.finish_dump(&one, &TaskOutcome::Succeeded, 2);
    assert!(a.accept_dump("two".to_string(), 3).is_ok());
    a.finish_dump(&one, &TaskOutcome::Succeeded, 4);
    assert!(a.is_dump_running());
    assert_eq!(a.accept_dump("three".to_string(), 5), Err(DumpError::AlreadyRunning));
}

#[test]
fn at_most_one_record_is_in_progress() {
    let mut a = actor();
    let uids = ["a", "b", "c", "d"];
    let mut now = 0;
    for round in 0..uids.len() {
        for uid in uids.iter() {
            now += 1;
            let _ = a.accept_dump(uid.to_string(), now);
            let in_progress = uids
                .iter()
                .filter(|u| {
                    matches!(
                        a.handle_dump_info(u.to_string()),
                        Ok(DumpInfo { status: DumpStatus::InProgress, .. })
                    )
                })
                .count();
            assert!(in_progress <= 1);
            assert_eq!(in_progress == 1, a.is_dump_running());
        }
        now += 1;
        a.finish_dump(&uids[round].to_string(), &TaskOutcome::Succeeded, now);
    }
}

#[test]
fn colliding_identifier_replaces_the_finished_record() {
    let mut a = actor();
    let uid = "same".to_string();
    assert!(a.accept_dump(uid.clone(), 1).is_ok());
    a.finish_dump(&uid, &TaskOutcome::Succeeded, 2);
    assert_eq!(a.accept_dump(uid.clone(), 3), Ok(running("same", 3)));
    assert_eq!(a.handle_dump_info(uid.clone()), Ok(running("same", 3)));
    assert_eq!(a.dump_count(), 1);
}

#[test]
fn generated_identifier_is_a_timestamp() {
    let mut a = actor();
    let info = a.handle_create_dump().expect("the lock is free");
    let bytes = info.uid.as_bytes();
    assert_eq!(bytes.len(), 18);
    for (i, b) in bytes.iter().enumerate() {
        if i == 8 {
            assert_eq!(*b, b'-');
        } else {
            assert!(b.is_ascii_digit());
        }
    }
    let expected = chrono::DateTime::from_timestamp_millis(info.started_at)
        .expect("a time in range")
        .format("%Y%m%d")
        .to_string();
    assert!(info.started_at > 1_600_000_000_000);
    assert!(info.uid.starts_with(&expected) || info.started_at % 86_400_000 < 1_000);
}

#[test]
fn generated_identifiers_grow_with_time() {
    let mut a = actor();
    let first = a.handle_create_dump().expect("the lock is free");
    a.handle_task_result(&first.uid, &TaskOutcome::Succeeded);
    let done = a.handle_dump_info(first.uid.clone()).expect("the record is kept");
    assert!(done.finished_at.expect("the dump ended") >= first.started_at);
    let waited = std::time::Instant::now();
    while waited.elapsed() < std::time::Duration::from_millis(5) {
        std::hint::spin_loop();
    }
    let second = a.handle_create_dump().expect("the lock is free again");
    assert!(second.uid > first.uid);
    assert!(second.started_at > first.started_at);
}

#[test]
fn handle_message_dispatches() {
    let mut a = actor();
    let created = a.handle_message(DumpMsg::CreateDump).expect("the lock is free");
    assert_eq!(created.status, DumpStatus::InProgress);
    assert_eq!(
        a.handle_message(DumpMsg::DumpInfo { uid: created.uid.clone() }),
        Ok(created.clone())
    );
    assert_eq!(a.handle_message(DumpMsg::CreateDump), Err(DumpError::AlreadyRunning));
    assert_eq!(
        a.handle_message(DumpMsg::DumpInfo { uid: "missing".to_string() }),
        Err(DumpError::NotFound("missing".to_string()))
    );
}

#[test]
fn dump_task_carries_the_settings() {
    let a = actor();
    assert_eq!(
        a.dump_task(&"u1".to_string()),
        DumpTask {
            path: "dumps".to_string(),
            uid: "u1".to_string(),
            update_db_size: 200,
            index_db_size: 100,
        }
    );
}

#[test]
fn step_answers_requests_only() {
    let mut a = actor();
    assert_eq!(
        a.step(&DumpEvent::CreateDump { uid: "a".to_string(), now: 1 }),
        Some(Ok(running("a", 1)))
    );
    assert_eq!(
        a.step(&DumpEvent::TaskFinished {
            uid: "a".to_string(),
            outcome: TaskOutcome::Succeeded,
            now: 2
        }),
        None
    );
    assert_eq!(
        a.step(&DumpEvent::DumpInfo { uid: "zz".to_string() }),
        Some(Err(DumpError::NotFound("zz".to_string())))
    );
}

#[test]
fn run_handles_events_in_order() {
    let mut a = actor();
    let inbox = vec![
        DumpEvent::DumpInfo { uid: "a".to_string() },
        DumpEvent::CreateDump { uid: "a".to_string(), now: 1 },
        DumpEvent::CreateDump { uid: "b".to_string(), now: 2 },
        DumpEvent::DumpInfo { uid: "a".to_string() },
        DumpEvent::TaskFinished {
            uid: "a".to_string(),
            outcome: TaskOutcome::Failed("disk full".to_string()),
            now: 3,
        },
        DumpEvent::DumpInfo { uid: "a".to_string() },
        DumpEvent::CreateDump { uid: "c".to_string(), now: 4 },
        DumpEvent::TaskFinished { uid: "c".to_string(), outcome: TaskOutcome::Succeeded, now: 5 },
        DumpEvent::DumpInfo { uid: "c".to_string() },
        DumpEvent::DumpInfo { uid: "b".to_string() },
    ];
    let failed = DumpInfo {
        uid: "a".to_string(),
        status: DumpStatus::Failed,
        error: Some("disk full".to_string()),
        started_at: 1,
        finished_at: Some(3),
    };
    let done = DumpInfo {
        uid: "c".to_string(),
        status: DumpStatus::Done,
        error: None,
        started_at: 4,
        finished_at: Some(5),
    };
    let expected = vec![
        Some(Err(DumpError::NotFound("a".to_string()))),
        Some(Ok(running("a", 1))),
        Some(Err(DumpError::AlreadyRunning)),
        Some(Ok(running("a", 1))),
        None,
        Some(Ok(failed)),
        Some(Ok(running("c", 4))),
        None,
        Some(Ok(done)),
        Some(Err(DumpError::NotFound("b".to_string()))),
    ];
    assert_eq!(a.run(&inbox), expected);
    assert!(!a.is_dump_running());
    assert_eq!(a.dump_count(), 2);
}

#[test]
fn run_on_an_empty_inbox_changes_nothing() {
    let mut a = actor();
    assert!(a.accept_dump("a".to_string(), 1).is_ok());
    assert_eq!(a.run(&Vec::new()), Vec::new());
    assert!(a.is_dump_running());
    assert_eq!(a.handle_dump_info("a".to_string()), Ok(running("a", 1)));
}
