use maccms_jobs::recent::latest_positions;
use maccms_jobs::scheduled_task::{
    ConfigUpdate, LogUpdate, ScheduledTaskConfig, TaskExecutionLog, DEFAULT_LOG_LIMIT,
    STATUS_LOG_LIMIT,
};
use maccms_jobs::task_manager::ScheduledTaskManager;
use maccms_jobs::task_status::{build_task_status, log_query_limit, reported_task_id, LogSummary};

fn manager_with_rows(starts: &[i64]) -> ScheduledTaskManager {
    let mut m = ScheduledTaskManager::new(vec![]);
    for (i, t) in starts.iter().enumerate() {
        m.insert_log(TaskExecutionLog::running(&format!("t{}", i), "c", &format!("n{}", i), *t));
    }
    m
}

fn ids(rows: &[TaskExecutionLog]) -> Vec<String> {
    rows.iter().map(|r| r.task_id.clone()).collect()
}

#[test]
fn latest_positions_lists_latest_first() {
    assert_eq!(latest_positions(&vec![10, 30, 20], 3), vec![1, 2, 0]);
    assert_eq!(latest_positions(&vec![10, 30, 20], 2), vec![1, 2]);
    assert_eq!(latest_positions(&vec![10, 30, 20], 0), Vec::<usize>::new());
    assert_eq!(latest_positions(&vec![10, 30, 20], 9), vec![1, 2, 0]);
    assert_eq!(latest_positions(&vec![], 5), Vec::<usize>::new());
    assert_eq!(latest_positions(&vec![i64::MIN, i64::MAX, 0], 3), vec![1, 2, 0]);
}

#[test]
fn latest_positions_keeps_insertion_order_among_equal_starts() {
    assert_eq!(latest_positions(&vec![5, 5, 5], 3), vec![0, 1, 2]);
    assert_eq!(latest_positions(&vec![5, 9, 5, 9], 3), vec![1, 3, 0]);
}

#[test]
fn task_logs_default_to_fifty_rows() {
    assert_eq!(DEFAULT_LOG_LIMIT, 50);
    assert_eq!(log_query_limit(None), 50);
    assert_eq!(log_query_limit(Some(7)), 7);
    assert_eq!(log_query_limit(Some(-3)), -3);
    let starts: Vec<i64> = (0..60).collect();
    let m = manager_with_rows(&starts);
    let rows = m.get_task_logs(None);
    assert_eq!(rows.len(), 50);
    assert_eq!(rows[0].started_at, 59);
    assert_eq!(rows[49].started_at, 10);
}

#[test]
fn task_logs_follow_the_limit() {
    let m = manager_with_rows(&[3, 1, 2]);
    assert_eq!(ids(&m.get_task_logs(Some(2))), vec!["t0", "t2"]);
    assert_eq!(ids(&m.get_task_logs(Some(5))), vec!["t0", "t2", "t1"]);
    // Zero means no limit, and a minus sign is dropped.
    assert_eq!(ids(&m.get_task_logs(Some(0))), vec!["t0", "t2", "t1"]);
    assert_eq!(ids(&m.get_task_logs(Some(-1))), vec!["t0"]);
    assert_eq!(ids(&m.get_task_logs(Some(i32::MIN))), vec!["t0", "t2", "t1"]);
    assert_eq!(ids(&m.latest_logs(0)), Vec::<String>::new());
}

#[test]
fn status_without_record_reports_not_running() {
    let m = manager_with_rows(&[1]);
    let status = m.get_task_status();
    assert_eq!(status.enabled, None);
    assert_eq!(status.interval_hours, None);
    assert_eq!(status.last_run, None);
    assert_eq!(status.next_run, None);
    assert!(!status.is_running);
    assert_eq!(status.current_task_id, None);
    assert_eq!(status.current_collection, None);
    assert_eq!(status.recent_logs.len(), 1);
}

#[test]
fn status_reports_settings_and_times() {
    let mut m = ScheduledTaskManager::new(vec![]);
    m.initialize_config_at(0);
    m.update_config_at(true, Some(6), 1_000);
    let status = m.get_task_status();
    assert_eq!(status.enabled, Some(true));
    assert_eq!(status.interval_hours, Some(6));
    assert_eq!(status.last_run.as_deref(), Some("从未运行"));
    assert_eq!(status.next_run.as_deref(), Some("21601000"));
    assert!(!status.is_running);
    assert_eq!(status.current_task_id, None);
    m.write_config(&ConfigUpdate::pass_done(-5, 1));
    let status = m.get_task_status();
    assert_eq!(status.last_run.as_deref(), Some("-5"));
    assert_eq!(status.next_run.as_deref(), Some("3599995"));
    let mut c = m.get_config().unwrap();
    c.next_run = None;
    m.config = Some(c);
    assert_eq!(m.get_task_status().next_run.as_deref(), Some("未设置"));
}

#[test]
fn status_reports_the_task_in_flight_with_its_row() {
    let mut m = manager_with_rows(&[10, 20]);
    m.initialize_config_at(0);
    m.write_config(&ConfigUpdate::launch("t1", 30));
    let status = m.get_task_status();
    assert!(status.is_running);
    assert_eq!(status.current_task_id.as_deref(), Some("t1"));
    assert_eq!(status.current_collection.as_deref(), Some("n1"));
    assert_eq!(status.current_status.as_deref(), Some("running"));
    assert_eq!(status.task_started_at.as_deref(), Some("20"));
    m.write_config(&ConfigUpdate::mark_task("unknown", 31));
    let status = m.get_task_status();
    assert_eq!(status.current_task_id.as_deref(), Some("unknown"));
    assert_eq!(status.current_collection, None);
    assert_eq!(status.current_status, None);
    assert_eq!(status.task_started_at, None);
}

#[test]
fn status_lists_the_ten_latest_rows() {
    assert_eq!(STATUS_LOG_LIMIT, 10);
    let starts: Vec<i64> = (0..15).map(|i| i * 100).collect();
    let mut m = manager_with_rows(&starts);
    m.close_log("t14", &LogUpdate::from_outcome(&Ok(3), 2_000));
    let status = m.get_task_status();
    assert_eq!(status.recent_logs.len(), 10);
    let first: &LogSummary = &status.recent_logs[0];
    assert_eq!(first.task_id, "t14");
    assert_eq!(first.collection_name, "n14");
    assert_eq!(first.status, "completed");
    assert_eq!(first.started_at, "1400");
    assert_eq!(first.completed_at.as_deref(), Some("2000"));
    assert_eq!(first.videos_collected, Some(3));
    assert_eq!(first.message.as_deref(), Some("采集完成，获取 3 个视频"));
    assert_eq!(status.recent_logs[9].task_id, "t5");
    assert_eq!(status.recent_logs[9].completed_at, None);
}

#[test]
fn status_is_built_from_what_was_read() {
    let mut c = ScheduledTaskConfig::initial(0);
    assert_eq!(reported_task_id(&Some(c.clone())), None);
    assert_eq!(reported_task_id(&None), None);
    let row = TaskExecutionLog::running("t", "c", "n", 5);
    // Without a task in flight the row is not reported.
    let status = build_task_status(&Some(c.clone()), &Some(row.clone()), &vec![]);
    assert_eq!(status.current_collection, None);
    c.current_task_id = Some("t".to_string());
    assert_eq!(reported_task_id(&Some(c.clone())).as_deref(), Some("t"));
    let status = build_task_status(&Some(c), &Some(row), &vec![]);
    assert_eq!(status.current_collection.as_deref(), Some("n"));
    assert!(status.recent_logs.is_empty());
}

#[test]
fn find_log_returns_the_first_row_with_the_id() {
    let mut m = manager_with_rows(&[1, 2]);
    m.insert_log(TaskExecutionLog::running("t0", "c", "again", 3));
    assert_eq!(m.find_log("t0").unwrap().collection_name, "n0");
    assert_eq!(m.find_log("t1").unwrap().started_at, 2);
    assert!(m.find_log("t9").is_none());
}
