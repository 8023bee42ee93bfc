use sonus::scan::{escape_sql_string, get_extension_from_filename, is_supported_extension, is_supported_name_of};
use sonus::tasks::{
    BaseTask, DirectoryScanTask, ExtensionCheckTask, MetadataExtractionTask, SqlExecutionTask, TaskStats,
    TaskStatus, TaskTracker, TaskType,
};

#[test]
fn supported_extensions_ignore_case() {
    assert!(is_supported_extension("/music/Song.FLAC"));
    assert!(is_supported_extension("C:\\Music\\a.Mp3"));
    assert!(is_supported_extension("x.ogg"));
    assert!(!is_supported_extension("notes.txt"));
    assert!(!is_supported_extension("/music/flac"));
    assert!(!is_supported_extension("/music/.ogg"));
    assert!(!is_supported_extension("/mu.sic/track"));
    assert!(is_supported_name_of("m4a"));
    assert!(!is_supported_name_of("M4A"));
}

#[test]
fn quotes_are_doubled() {
    assert_eq!(escape_sql_string("it's"), "it''s");
    assert_eq!(escape_sql_string("''"), "''''");
    assert_eq!(escape_sql_string(""), "");
    assert_eq!(escape_sql_string("plain"), "plain");
}

#[test]
fn format_suffix_of_names() {
    assert_eq!(get_extension_from_filename("/home/u/music/a.flac"), "flac");
    assert_eq!(get_extension_from_filename("/home/u.v/archive.tar.gz"), "tar.gz");
    assert_eq!(get_extension_from_filename("/home/u.v/noext"), "");
}

#[test]
fn task_records_start_pending() {
    let d = DirectoryScanTask::new("/music".to_string());
    assert_eq!(d.base.task_type(), TaskType::DirectoryScan);
    assert_eq!(d.base.path().map(|p| p.as_str()), Some("/music"));
    assert_eq!(d.base.status(), TaskStatus::Pending);
    assert_eq!(d.base.id().len(), 36);
    let e = ExtensionCheckTask::new("/music/a.mp3".to_string());
    assert_eq!(e.base.task_type(), TaskType::ExtensionCheck);
    let m = MetadataExtractionTask::new("/music/a.mp3".to_string());
    assert_eq!(m.base.task_type(), TaskType::MetadataExtraction);
    let s = SqlExecutionTask::new("/music/a.mp3".to_string(), "SELECT 1".to_string());
    assert_eq!(s.base.task_type(), TaskType::SqlExecution);
    assert_eq!(s.sql, "SELECT 1");
    assert_ne!(d.base.id(), e.base.id());
}

#[test]
fn task_status_changes() {
    let mut b = BaseTask::new(TaskType::SqlGeneration, None);
    assert!(b.path().is_none());
    b.set_status(TaskStatus::Failed("boom".to_string()));
    assert_eq!(b.status(), TaskStatus::Failed("boom".to_string()));
    assert_eq!(TaskType::SqlGeneration.name(), "SqlGeneration");
}

#[test]
fn stats_move_between_counters() {
    let mut s = TaskStats::new();
    s.record_added(&TaskStatus::Pending);
    s.record_added(&TaskStatus::Pending);
    assert_eq!(s.total_tasks, 2);
    assert_eq!(s.pending_tasks, 2);
    s.update_stats(&TaskStatus::Pending, &TaskStatus::InProgress);
    s.update_stats(&TaskStatus::InProgress, &TaskStatus::Failed("x".to_string()));
    assert_eq!(s.pending_tasks, 1);
    assert_eq!(s.in_progress_tasks, 0);
    assert_eq!(s.failed_tasks, 1);
    assert_eq!(s.total_tasks, 2);
    s.update_stats(&TaskStatus::Pending, &TaskStatus::Completed);
    assert_eq!(s.completed_tasks, 1);
    assert_eq!(s.pending_tasks, 0);
}

#[test]
fn tracker_counts_follow_statuses() {
    let mut t = TaskTracker::new();
    let a = BaseTask::new(TaskType::DirectoryScan, Some("/music".to_string()));
    let b = BaseTask::new(TaskType::ExtensionCheck, Some("/music/a.mp3".to_string()));
    let a_id = a.id().clone();
    let b_id = b.id().clone();
    t.add_task(a);
    t.add_task(b);
    let s = t.get_stats();
    assert_eq!((s.total_tasks, s.pending_tasks), (2, 2));
    assert_eq!(t.update_status(&b_id, TaskStatus::InProgress), Some(1));
    assert_eq!(t.task(1).status(), TaskStatus::InProgress);
    assert_eq!(t.update_status(&b_id, TaskStatus::Failed("bad tag".to_string())), Some(1));
    assert_eq!(t.update_status(&a_id, TaskStatus::Completed), Some(0));
    let s = t.get_stats();
    assert_eq!(
        (s.total_tasks, s.pending_tasks, s.in_progress_tasks, s.completed_tasks, s.failed_tasks),
        (2, 0, 0, 1, 1)
    );
    assert_eq!(t.update_status(&"missing".to_string(), TaskStatus::Completed), None);
    assert_eq!(t.get_stats(), s);
}

#[test]
fn status_labels() {
    assert_eq!(TaskStatus::Pending.label(), "等待中");
    assert_eq!(TaskStatus::Completed.label(), "已完成");
    assert_eq!(TaskStatus::Failed("x".to_string()).label(), "失败: x");
}

#[test]
fn tracker_counts_a_task_under_its_status() {
    let mut t = TaskTracker::new();
    let mut b = BaseTask::new(TaskType::SqlExecution, None);
    b.set_status(TaskStatus::Completed);
    t.add_task(b);
    let s = t.get_stats();
    assert_eq!((s.total_tasks, s.pending_tasks, s.completed_tasks), (1, 0, 1));
    let m = MetadataExtractionTask::new("/m/a.ogg".to_string());
    assert_eq!(m.base.id().len(), 36);
}
