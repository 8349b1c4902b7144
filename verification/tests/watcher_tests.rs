use transcriber::config::RuntimeSelection;
use transcriber::watcher::{
    dedup_key, is_m4a_file_name, m4a_watch_config, plan_created_file, record_written_transcript,
    transcript_file_name, watch_step, AfterWrite, FilePlan, ProcessedFiles, WatchAction,
    WatchInput, PROCESSED_FILES_NAME,
};

#[test]
fn only_m4a_recordings_are_picked() {
    assert!(is_m4a_file_name("memo.m4a"));
    assert!(is_m4a_file_name("..m4a"));
    assert!(!is_m4a_file_name(".m4a"));
    assert!(!is_m4a_file_name("memo.M4A"));
    assert!(!is_m4a_file_name("memo.m4a.txt"));
    assert!(!is_m4a_file_name("m4a"));
}

#[test]
fn dedup_key_is_name_and_size() {
    assert_eq!(dedup_key("memo.m4a", 12345), "memo.m4a_12345");
    assert_eq!(dedup_key("memo.m4a", 0), "memo.m4a_0");
}

#[test]
fn transcript_names() {
    assert_eq!(transcript_file_name("Recording 1.m4a"), "Recording 1.txt");
    assert_eq!(transcript_file_name("a.m4a.m4a"), "a.txt.txt");
}

#[test]
fn recorded_file_is_skipped_next_time() {
    let mut processed = ProcessedFiles::new();
    let plan = plan_created_file("memo.m4a", 42, &processed);
    let key = match plan {
        FilePlan::Transcribe { dedup_key, output_file_name } => {
            assert_eq!(output_file_name, "memo.txt");
            dedup_key
        }
        FilePlan::AlreadyProcessed => panic!("a new file is transcribed"),
    };
    processed.insert(key);
    assert_eq!(plan_created_file("memo.m4a", 42, &processed), FilePlan::AlreadyProcessed);
    // same name, other size: a different recording
    assert!(matches!(plan_created_file("memo.m4a", 43, &processed), FilePlan::Transcribe { .. }));
}

#[test]
fn processed_files_keep_each_key_once() {
    let mut processed = ProcessedFiles::new();
    processed.insert("a_1".to_string());
    processed.insert("b_2".to_string());
    processed.insert("a_1".to_string());
    assert_eq!(processed.len(), 2);
    assert!(processed.contains("a_1"));
    assert!(processed.contains("b_2"));
    assert!(!processed.contains("c_3"));
    assert_eq!(processed.keys(), vec!["a_1".to_string(), "b_2".to_string()]);
}

#[test]
fn processed_files_json_round_trip() {
    let mut processed = ProcessedFiles::new();
    processed.insert("a.m4a_1".to_string());
    processed.insert("b.m4a_2".to_string());
    let json = processed.to_json().expect("a list of strings serializes");
    assert_eq!(json, "[\"a.m4a_1\",\"b.m4a_2\"]");
    let loaded = ProcessedFiles::from_json(Some(json));
    assert!(loaded.contains("a.m4a_1"));
    assert!(loaded.contains("b.m4a_2"));
    assert_eq!(loaded.len(), 2);
}

#[test]
fn processed_files_load_tolerates_missing_or_bad_data() {
    assert_eq!(ProcessedFiles::from_json(None).len(), 0);
    assert_eq!(ProcessedFiles::from_json(Some("not json".to_string())).len(), 0);
    assert_eq!(ProcessedFiles::from_json(Some("{\"a\":1}".to_string())).len(), 0);
    let dup = ProcessedFiles::from_json(Some("[\"x\",\"x\",\"y\"]".to_string()));
    assert_eq!(dup.len(), 2);
}

#[test]
fn watch_loop_steps() {
    assert_eq!(watch_step(WatchInput::NotRunning), WatchAction::Exit);
    assert_eq!(watch_step(WatchInput::StopSignal), WatchAction::ExitOnStopSignal);
    assert_eq!(watch_step(WatchInput::Disconnected), WatchAction::ExitOnDisconnect);
    assert_eq!(watch_step(WatchInput::FileCreated), WatchAction::HandleCreatedFiles);
    assert_eq!(watch_step(WatchInput::WatchError), WatchAction::ReportWatchError);
    assert_eq!(watch_step(WatchInput::Timeout), WatchAction::KeepWaiting);
    assert_eq!(watch_step(WatchInput::OtherEvent), WatchAction::KeepWaiting);
}

#[test]
fn watch_config_carries_its_inputs() {
    let config = m4a_watch_config("in", "out", RuntimeSelection::Whisper, Some("m".to_string()));
    assert_eq!(config.watch_dir, "in");
    assert_eq!(config.output_dir, "out");
    assert_eq!(config.runtime, RuntimeSelection::Whisper);
    assert_eq!(config.model_id.as_deref(), Some("m"));
    assert_eq!(PROCESSED_FILES_NAME, ".processed_files.json");
}

#[test]
fn only_a_written_transcript_records_its_file() {
    let mut processed = ProcessedFiles::new();
    assert_eq!(
        record_written_transcript(false, "memo.m4a_10".to_string(), &mut processed),
        AfterWrite::ReportWriteError
    );
    assert!(!processed.contains("memo.m4a_10"));
    assert_eq!(
        record_written_transcript(true, "memo.m4a_10".to_string(), &mut processed),
        AfterWrite::SaveAndAnnounce
    );
    assert!(processed.contains("memo.m4a_10"));
    assert_eq!(processed.len(), 1);
}

#[test]
fn stored_processed_files_read_back_the_same() {
    let mut processed = ProcessedFiles::new();
    processed.insert("a \"quoted\" name.m4a_7".to_string());
    processed.insert("back\\slash\ttab\u{1}.m4a_0".to_string());
    processed.insert("日本語.m4a_42".to_string());
    let stored = processed.to_json().expect("a list of strings is always written");
    let loaded = ProcessedFiles::from_json(Some(stored));
    assert_eq!(loaded.keys(), processed.keys());
}

#[test]
fn watch_loop_ends_at_the_first_stop() {
    let turns = [
        WatchInput::Timeout,
        WatchInput::WatchError,
        WatchInput::FileCreated,
        WatchInput::StopSignal,
        WatchInput::FileCreated,
    ];
    let ended = turns.iter().position(|t| {
        matches!(
            watch_step(*t),
            WatchAction::Exit | WatchAction::ExitOnStopSignal | WatchAction::ExitOnDisconnect
        )
    });
    assert_eq!(ended, Some(3));
}

#[test]
fn recorded_file_gets_the_skip_plan() {
    let mut processed = ProcessedFiles::new();
    let key = dedup_key("memo.m4a", 2048);
    record_written_transcript(true, key, &mut processed);
    assert_eq!(plan_created_file("memo.m4a", 2048, &processed), FilePlan::AlreadyProcessed);
    assert!(matches!(plan_created_file("memo.m4a", 4096, &processed), FilePlan::Transcribe { .. }));
}
