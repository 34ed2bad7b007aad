use webp_to_gif::history::{record_entry, trim_history, HistoryEntry, HistoryStore, HISTORY_LIMIT};
use webp_to_gif::path::FilePath;
use webp_to_gif::settings::{Settings, SettingsStore};
use webp_to_gif::{history_entry, now_stamp, stamp_of_seconds, ConversionJob, JobAction, JobEvent};

fn entry(n: usize) -> HistoryEntry {
    HistoryEntry {
        file_path: format!("/input/{n}.webp"),
        output_path: Some(format!("/output/{n}.gif")),
        status: "completed".into(),
        message: "转换完成".into(),
        completed_at: "2026-06-17T12:00:00Z".into(),
    }
}

#[test]
fn new_job_is_converting() {
    let job = ConversionJob::start("/input/a.webp".into());
    assert_eq!(job.file_path, "/input/a.webp");
    assert_eq!(job.status, "converting");
    assert_eq!(job.progress, 5);
    assert_eq!(job.output_path, None);
    assert_eq!(job.error, None);
}

#[test]
fn non_webp_job_fails_with_reason() {
    let mut job = ConversionJob::start("/input/a.png".into());
    let message = job.reject_not_webp();
    assert_eq!(message, "请选择 WebP 文件");
    assert_eq!(job.status, "failed");
    assert_eq!(job.progress, 100);
    assert_eq!(job.error.as_deref(), Some("请选择 WebP 文件"));
}

#[test]
fn job_completes_through_output() {
    let mut job = ConversionJob::start("/input/a.webp".into());
    job.begin_output("/out/a.gif".into());
    assert_eq!(job.progress, 35);
    assert_eq!(job.status, "converting");
    assert_eq!(job.output_path.as_deref(), Some("/out/a.gif"));
    let message = job.settle(Ok("/out/a.gif".into()));
    assert_eq!(message, "转换完成");
    assert_eq!(job.status, "completed");
    assert_eq!(job.progress, 100);
    assert_eq!(job.error, None);
}

#[test]
fn failed_conversion_keeps_output_path() {
    let mut job = ConversionJob::start("/input/a.webp".into());
    job.begin_output("/out/a.gif".into());
    let message = job.settle(Err("broken".into()));
    assert_eq!(message, "broken");
    assert_eq!(job.status, "failed");
    assert_eq!(job.progress, 100);
    assert_eq!(job.output_path.as_deref(), Some("/out/a.gif"));
    assert_eq!(job.error.as_deref(), Some("broken"));
}

#[test]
fn history_entry_copies_job() {
    let mut job = ConversionJob::start("/input/a.webp".into());
    job.settle(Err("no name".into()));
    let e = history_entry(&job, "no name");
    assert_eq!(e.file_path, "/input/a.webp");
    assert_eq!(e.output_path, None);
    assert_eq!(e.status, "failed");
    assert_eq!(e.message, "no name");
    assert!(!e.completed_at.is_empty());
    assert!(e.completed_at.chars().all(|c| c.is_ascii_digit()));
}

#[test]
fn now_stamp_is_seconds() {
    let stamp = now_stamp();
    let seconds: u64 = stamp.parse().unwrap();
    assert!(seconds > 1_600_000_000);
    assert_eq!(seconds.to_string(), stamp);
}

#[test]
fn newest_history_entry_comes_first() {
    let mut history = vec![entry(1), entry(2)];
    record_entry(&mut history, entry(3));
    assert_eq!(history, vec![entry(3), entry(1), entry(2)]);
}

#[test]
fn history_keeps_fifty_newest() {
    let mut history = Vec::new();
    for n in 0..60 {
        record_entry(&mut history, entry(n));
        trim_history(&mut history);
    }
    assert_eq!(history.len(), HISTORY_LIMIT);
    assert_eq!(history[0], entry(59));
    assert_eq!(history[49], entry(10));
    let mut short = vec![entry(1)];
    trim_history(&mut short);
    assert_eq!(short, vec![entry(1)]);
}

#[test]
fn stores_remember_their_files() {
    let file = FilePath { root: "/".into(), names: vec!["data".into(), "history.json".into()] };
    let store = HistoryStore::new(file.copy());
    assert_eq!(store.path().names, file.names);
    let settings_file = FilePath { root: "/".into(), names: vec!["settings.json".into()] };
    let settings = SettingsStore::new(settings_file.copy());
    assert_eq!(settings.path().names, settings_file.names);
    let chosen = Settings { output_dir: FilePath { root: "/".into(), names: vec!["GIF".into()] } };
    assert_eq!(chosen.output_dir.names, vec!["GIF".to_string()]);
}

#[test]
fn advance_refuses_a_file_that_is_not_webp() {
    let mut job = ConversionJob::start("/input/a.png".into());
    match job.advance(JobEvent::Checked(false)) {
        JobAction::Record(message) => assert_eq!(message, "请选择 WebP 文件"),
        _ => panic!("a refused job is recorded"),
    }
    assert_eq!(job.status, "failed");
    assert_eq!(job.progress, 100);
}

#[test]
fn advance_walks_a_webp_file_through_conversion() {
    let mut job = ConversionJob::start("/input/a.webp".into());
    assert!(matches!(job.advance(JobEvent::Checked(true)), JobAction::ChooseOutput));
    assert_eq!(job.progress, 5);
    match job.advance(JobEvent::OutputChosen(Ok("/out/a.gif".into()))) {
        JobAction::Convert(path) => assert_eq!(path, "/out/a.gif"),
        _ => panic!("a job with an output path is converted"),
    }
    assert_eq!(job.progress, 35);
    assert_eq!(job.output_path.as_deref(), Some("/out/a.gif"));
    match job.advance(JobEvent::Converted(Ok("/out/a.gif".into()))) {
        JobAction::Record(message) => assert_eq!(message, "转换完成"),
        _ => panic!("a finished job is recorded"),
    }
    assert_eq!(job.status, "completed");
    assert_eq!(job.progress, 100);
}

#[test]
fn advance_settles_a_job_without_output_path() {
    let mut job = ConversionJob::start("/input/a.webp".into());
    match job.advance(JobEvent::OutputChosen(Err("源文件没有有效文件名".into()))) {
        JobAction::Record(message) => assert_eq!(message, "源文件没有有效文件名"),
        _ => panic!("a job without output path is recorded"),
    }
    assert_eq!(job.status, "failed");
    assert_eq!(job.output_path, None);
    assert_eq!(job.error.as_deref(), Some("源文件没有有效文件名"));
}

#[test]
fn advance_records_a_failed_conversion() {
    let mut job = ConversionJob::start("/input/a.webp".into());
    job.advance(JobEvent::OutputChosen(Ok("/out/a.gif".into())));
    match job.advance(JobEvent::Converted(Err("无法写入 GIF：disk full".into()))) {
        JobAction::Record(message) => assert_eq!(message, "无法写入 GIF：disk full"),
        _ => panic!("a failed job is recorded"),
    }
    assert_eq!(job.status, "failed");
    assert_eq!(job.output_path.as_deref(), Some("/out/a.gif"));
}

#[test]
fn stamps_are_seconds_or_zero_before_1970() {
    assert_eq!(stamp_of_seconds(Some(1_700_000_000)), "1700000000");
    assert_eq!(stamp_of_seconds(Some(0)), "0");
    assert_eq!(stamp_of_seconds(None), "0");
}
