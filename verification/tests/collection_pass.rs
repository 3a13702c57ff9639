use maccms_jobs::collection_pass::{
    CollectionPass, PassKind, PassProgress, PassSummary,
};
use maccms_jobs::models::Collection;
use maccms_jobs::scheduled_task::{LOOKBACK_HOURS, POLL_SECONDS, SOURCE_PAUSE_SECONDS};

fn pass_source(name: &str, id: Option<&str>) -> Collection {
    Collection {
        id: id.map(|s| s.to_string()),
        collect_name: name.to_string(),
        collect_url: String::new(),
        collect_type: 1,
        collect_mid: 1,
        collect_appid: String::new(),
        collect_appkey: String::new(),
        collect_param: String::new(),
        collect_filter: String::new(),
        collect_filter_from: String::new(),
        collect_opt: 0,
        collect_sync_pic_opt: 0,
        collect_remove_ad: 0,
        collect_convert_webp: 0,
        collect_download_retry: 3,
        collect_status: 1,
        created_at: 0,
        updated_at: 0,
    }
}

#[test]
fn pass_constants() {
    assert_eq!(LOOKBACK_HOURS, 24);
    assert_eq!(SOURCE_PAUSE_SECONDS, 5);
    assert_eq!(POLL_SECONDS, 60);
}

#[test]
fn pass_starts_each_source_with_a_running_row_and_a_mark() {
    let pass = CollectionPass::new(
        PassKind::Immediate,
        12,
        vec![pass_source("alpha", Some("0123456789abcdef01234567"))],
    );
    assert_eq!(pass.position(), 0);
    assert!(pass.has_next());
    assert!(pass.wants_running_check());
    let (run, start) = match pass.advance_with(None, "task-1", "spare-1", 1_000) {
        PassProgress::Source(run, start) => (run, start),
        PassProgress::Finished(_) => panic!("expected a source"),
    };
    assert_eq!(run.task_id(), "task-1");
    assert_eq!(start.log.task_id, "task-1");
    assert_eq!(start.log.collection_id, "0123456789abcdef01234567");
    assert_eq!(start.log.collection_name, "alpha");
    assert_eq!(start.log.status, "running");
    assert_eq!(start.log.started_at, 1_000);
    assert_eq!(start.log.completed_at, None);
    assert_eq!(start.log.message.as_deref(), Some("开始采集 alpha"));
    assert_eq!(start.log.videos_collected, None);
    assert_eq!(start.log.errors, None);
    assert_eq!(start.mark.current_task_id, Some(Some("task-1".to_string())));
    assert_eq!(start.mark.updated_at, 1_000);
    assert_eq!(start.mark.enabled, None);
    assert_eq!(start.mark.is_running, None);
    assert_eq!(start.source.collect_name, "alpha");
    assert_eq!(start.lookback_hours, 24);
}

#[test]
fn source_without_id_is_logged_under_the_spare_id() {
    let pass = CollectionPass::new(PassKind::Immediate, 12, vec![pass_source("alpha", None)]);
    match pass.advance_with(None, "task-1", "spare-1", 1) {
        PassProgress::Source(_, start) => assert_eq!(start.log.collection_id, "spare-1"),
        PassProgress::Finished(_) => panic!("expected a source"),
    }
}

#[test]
fn failure_of_a_source_does_not_end_the_pass() {
    let pass = CollectionPass::new(
        PassKind::Scheduled,
        2,
        vec![pass_source("a", None), pass_source("b", None)],
    );
    assert!(pass.wants_running_check());
    let run = match pass.advance_with(Some(true), "t1", "s1", 10) {
        PassProgress::Source(run, _) => run,
        PassProgress::Finished(_) => panic!("expected a source"),
    };
    let (pass, end) = run.settle(&Err("timeout".to_string()), 20);
    assert_eq!(end.task_id, "t1");
    assert_eq!(end.open_status, "running");
    assert_eq!(end.log_update.status, "failed");
    assert_eq!(end.log_update.completed_at, 20);
    assert_eq!(end.log_update.errors.as_deref(), Some("timeout"));
    assert_eq!(end.log_update.videos_collected, None);
    assert_eq!(end.log_update.message, "采集失败: timeout");
    assert_eq!(end.clear.current_task_id, Some(None));
    assert_eq!(end.clear.updated_at, 20);
    assert_eq!(end.pause_seconds, 5);
    assert_eq!(pass.position(), 1);
    assert!(pass.has_next());
    let run = match pass.advance_with(Some(true), "t2", "s2", 30) {
        PassProgress::Source(run, start) => {
            assert_eq!(start.log.collection_name, "b");
            run
        }
        PassProgress::Finished(_) => panic!("the pass ended after a failure"),
    };
    let (pass, end) = run.settle(&Ok(7), 40);
    assert_eq!(end.log_update.status, "completed");
    assert_eq!(end.log_update.videos_collected, Some(7));
    assert_eq!(end.log_update.errors, None);
    assert_eq!(end.log_update.message, "采集完成，获取 7 个视频");
    assert!(!pass.has_next());
    assert!(!pass.wants_running_check());
    match pass.advance_with(Some(true), "unused", "unused", 50) {
        PassProgress::Finished(end) => {
            assert_eq!(
                end.summary,
                PassSummary {
                    total_sources: 2,
                    attempted: 2,
                    succeeded: 1,
                    failed: 1,
                    videos_collected: 7
                }
            );
            assert!(!end.stopped_early);
            let closing = end.closing;
            assert_eq!(closing.last_run, Some(50));
            assert_eq!(closing.next_run, Some(50 + 2 * 3_600_000));
            assert_eq!(closing.updated_at, 50);
            assert_eq!(closing.current_task_id, Some(None));
            assert_eq!(closing.is_running, None);
            assert_eq!(closing.enabled, None);
        }
        PassProgress::Source(..) => panic!("expected the end"),
    }
}

#[test]
fn scheduled_pass_stops_between_sources_when_not_running() {
    let pass = CollectionPass::new(
        PassKind::Scheduled,
        1,
        vec![pass_source("a", None), pass_source("b", None)],
    );
    let run = match pass.advance_with(None, "t1", "s1", 10) {
        PassProgress::Source(run, _) => run,
        PassProgress::Finished(_) => panic!("an unreadable record must not stop the pass"),
    };
    let (pass, _) = run.settle(&Ok(1), 20);
    match pass.advance_with(Some(false), "t2", "s2", 30) {
        PassProgress::Finished(end) => {
            assert!(end.stopped_early);
            assert_eq!(end.summary.attempted, 1);
            assert_eq!(end.summary.total_sources, 2);
            assert_eq!(end.closing.last_run, Some(30));
            assert_eq!(end.closing.current_task_id, Some(None));
        }
        PassProgress::Source(..) => panic!("expected the pass to stop"),
    }
}

#[test]
fn immediate_pass_stops_too_and_records_no_run() {
    let pass = CollectionPass::new(
        PassKind::Immediate,
        1,
        vec![pass_source("a", None), pass_source("b", None)],
    );
    let run = match pass.advance_with(Some(true), "t1", "s1", 10) {
        PassProgress::Source(run, _) => run,
        PassProgress::Finished(_) => panic!("expected a source"),
    };
    let (pass, _) = run.settle(&Ok(1), 20);
    match pass.advance_with(Some(false), "t2", "s2", 30) {
        PassProgress::Finished(end) => {
            assert!(end.stopped_early);
            assert_eq!(end.closing.last_run, None);
            assert_eq!(end.closing.next_run, None);
            assert_eq!(end.closing.current_task_id, Some(None));
            assert_eq!(end.closing.updated_at, 30);
            assert_eq!(end.summary.succeeded, 1);
            assert_eq!(end.summary.attempted, 1);
        }
        PassProgress::Source(..) => panic!("expected the pass to stop"),
    }
    let done = CollectionPass::new(PassKind::Immediate, 1, vec![]);
    match done.advance_with(Some(true), "t", "s", 1) {
        PassProgress::Finished(end) => {
            assert!(!end.stopped_early);
            assert_eq!(end.closing.last_run, None);
            assert_eq!(end.closing.current_task_id, Some(None));
        }
        PassProgress::Source(..) => panic!("expected the end"),
    }
}

#[test]
fn empty_pass_ends_at_once() {
    let pass = CollectionPass::new(PassKind::Scheduled, 3, vec![]);
    assert!(!pass.has_next());
    assert_eq!(pass.summary().total_sources, 0);
    match pass.advance(Some(true), 100) {
        PassProgress::Finished(end) => {
            assert!(!end.stopped_early);
            assert_eq!(end.closing.next_run, Some(100 + 3 * 3_600_000));
            assert_eq!(end.closing.current_task_id, Some(None));
        }
        PassProgress::Source(..) => panic!("expected the end"),
    }
}

#[test]
fn advance_draws_task_identifiers_of_24_characters() {
    let pass = CollectionPass::new(
        PassKind::Immediate,
        1,
        vec![pass_source("a", None), pass_source("b", None)],
    );
    let (run, start) = match pass.advance(None, 1) {
        PassProgress::Source(run, start) => (run, start),
        PassProgress::Finished(_) => panic!("expected a source"),
    };
    let first = run.task_id().clone();
    assert_eq!(first.len(), 24);
    assert!(first.chars().all(|c| c.is_ascii_hexdigit()));
    assert_eq!(start.log.task_id, first);
    assert_eq!(start.log.collection_id.len(), 24);
    assert_ne!(start.log.collection_id, first);
    assert_eq!(start.mark.current_task_id, Some(Some(first.clone())));
    let (pass, _) = run.settle(&Ok(0), 2);
    match pass.advance(None, 3) {
        PassProgress::Source(run, _) => assert_ne!(run.task_id(), &first),
        PassProgress::Finished(_) => panic!("expected a source"),
    }
}

#[test]
fn collected_total_is_held_at_the_top_of_the_range() {
    let sources: Vec<Collection> = (0..3).map(|i| pass_source(&format!("s{}", i), None)).collect();
    let mut pass = CollectionPass::new(PassKind::Immediate, 1, sources);
    for (i, n) in [i32::MAX, i32::MAX, -5].iter().enumerate() {
        let run = match pass.advance_with(None, &format!("t{}", i), "s", 1) {
            PassProgress::Source(run, _) => run,
            PassProgress::Finished(_) => panic!("expected a source"),
        };
        pass = run.settle(&Ok(*n), 2).0;
    }
    assert_eq!(pass.summary().videos_collected, 2 * (i32::MAX as i64) - 5);
    assert_eq!(pass.summary().succeeded, 3);
}
