use daqlab::process_recorder::{
    action_origin_name, database_action_id, log_level_name, store_disconnected_error,
    store_first_error, store_panicked_error, ProcessActionContext, ProcessActionId,
    ProcessActionOrigin, ProcessLogLevel, ProcessRecorderError, RecorderInput, RecorderStep,
    RecorderWorker,
};
use daqlab::sample_sink::{
    csv_field, CsvSampleSink, FormattedSample, NullSampleSink, SampleSink, SeriesName,
};

fn series(id: u64, name: &str) -> SeriesName {
    SeriesName { id, name: name.to_owned() }
}

fn sample(series_id: u64, timestamp: f64, value: f64) -> FormattedSample {
    FormattedSample { series_id, timestamp: timestamp.to_string(), value: value.to_string() }
}

#[test]
fn writes_header_names_and_samples() {
    let mut sink = CsvSampleSink::new(Vec::new()).0.unwrap();

    let series = [series(7, "temperature"), series(8, "light,sensor")];

    sink.write_batch(&[sample(7, 12.5, -3.25), sample(8, 13.0, 4.5)], &series).unwrap();

    let output = String::from_utf8(sink.into_inner()).unwrap();

    assert_eq!(
        output,
        "timestamp,series_id,series_name,value\n12.5,7,temperature,-3.25\n13,8,\"light,sensor\",4.5\n",
    );
}

#[test]
fn rejects_sample_without_metadata() {
    let mut sink = CsvSampleSink::new(Vec::new()).0.unwrap();

    let result = sink.write_batch(&[sample(7, 12.5, -3.25)], &[]);

    assert_eq!(result.unwrap_err().to_string(), "Cannot write sample for unknown series 7");
}

#[test]
fn quotes_csv_fields() {
    assert_eq!(csv_field("plain"), "plain");
    assert_eq!(csv_field("say \"hi\""), "\"say \"\"hi\"\"\"");
    assert_eq!(csv_field("two\nlines"), "\"two\nlines\"");
    assert_eq!(csv_field(""), "");
}

#[test]
fn names_recorded_actions() {
    assert_eq!(log_level_name(ProcessLogLevel::Info), "info");
    assert_eq!(log_level_name(ProcessLogLevel::Error), "error");
    assert_eq!(action_origin_name(ProcessActionOrigin::UserInterface), "user_interface");
    assert_eq!(action_origin_name(ProcessActionOrigin::Lua), "lua");

    let id = ProcessActionId::new(41);
    assert_eq!(id.value(), 41);
    assert_eq!(ProcessActionContext::new(id).action_id(), id);
    assert_eq!(database_action_id(id), Ok(41));
    assert_eq!(
        database_action_id(ProcessActionId::new(u64::MAX)).unwrap_err().to_string(),
        "Process action id 18446744073709551615 exceeds SQLite INTEGER range"
    );
    assert_eq!(ProcessRecorderError::new("disk full").to_string(), "disk full");
}

#[test]
fn null_sink_accepts_every_batch() {
    let mut sink = NullSampleSink::new();
    assert!(sink.write_batch(&[sample(99, 1.0, 2.0)], &[]).is_ok());
    assert!(sink.flush().is_ok());
}

#[test]
fn keeps_only_the_first_recorder_error() {
    let mut stored = None;
    store_first_error(&mut stored, "disk full");
    store_first_error(&mut stored, "second failure");
    store_disconnected_error(&mut stored);
    store_panicked_error(&mut stored);
    assert_eq!(stored.as_deref(), Some("disk full"));

    let mut stored = None;
    store_disconnected_error(&mut stored);
    assert_eq!(stored.as_deref(), Some("Process recorder thread is disconnected"));

    let mut stored = None;
    store_panicked_error(&mut stored);
    assert_eq!(stored.as_deref(), Some("Process recorder thread panicked"));
}

#[test]
fn recorder_worker_writes_until_first_failure() {
    let mut worker = RecorderWorker::new();
    let mut stored = None;

    assert_eq!(worker.step(RecorderInput::Record), RecorderStep::Write);
    worker.write_finished(&Ok(()), &mut stored);
    assert!(worker.writer_available());
    assert_eq!(stored, None);

    worker.write_finished(&Err(ProcessRecorderError::new("database is locked")), &mut stored);
    assert!(!worker.writer_available());
    assert_eq!(stored.as_deref(), Some("database is locked"));

    assert_eq!(worker.step(RecorderInput::Record), RecorderStep::Discard);
    worker.write_finished(&Err(ProcessRecorderError::new("later failure")), &mut stored);
    assert_eq!(stored.as_deref(), Some("database is locked"));

    assert_eq!(worker.step(RecorderInput::Shutdown), RecorderStep::Finish);
    assert!(!worker.flush_on_finish());
}

#[test]
fn recorder_worker_flushes_healthy_writer_on_finish() {
    let worker = RecorderWorker::new();
    let mut stored = None;

    assert_eq!(worker.step(RecorderInput::Disconnected), RecorderStep::Finish);
    assert!(worker.flush_on_finish());
    worker.flush_finished(&Err(ProcessRecorderError::new("flush failed")), &mut stored);
    assert_eq!(stored.as_deref(), Some("flush failed"));

    let mut stored = Some("earlier".to_owned());
    worker.flush_finished(&Ok(()), &mut stored);
    assert_eq!(stored.as_deref(), Some("earlier"));
}
