//! Identifiers, origins and outcomes of recorded process actions, the names the record store
//! uses for them, and the decisions of the recorder thread: a failed writer is never used again,
//! and only the first failure is kept for the application to see.
use vstd::prelude::*;

use crate::instrument::InstrumentValue;
use crate::text::{decimal, push_decimal, push_str};

verus! {

/// Severity attached to a process log record.
#[derive(Clone, Copy, Debug, PartialEq, Eq, Structural)]
pub enum ProcessLogLevel {
    Info,
    Error,
}

/// The stored name of a log level.
pub open spec fn log_level_text(level: ProcessLogLevel) -> Seq<char> {
    match level {
        ProcessLogLevel::Info => "info"@,
        ProcessLogLevel::Error => "error"@,
    }
}

/// The stored name of a log level.
pub fn log_level_name(level: ProcessLogLevel) -> (name: &'static str)
    ensures
        name@ == log_level_text(level),
{
    match level {
        ProcessLogLevel::Info => "info",
        ProcessLogLevel::Error => "error",
    }
}

#[derive(Clone, Copy, Debug, PartialEq, Eq, Structural)]
pub enum ProcessActionOrigin {
    UserInterface,
    Lua,
}

/// The stored name of an action origin.
pub open spec fn action_origin_text(origin: ProcessActionOrigin) -> Seq<char> {
    match origin {
        ProcessActionOrigin::UserInterface => "user_interface"@,
        ProcessActionOrigin::Lua => "lua"@,
    }
}

/// The stored name of an action origin.
pub fn action_origin_name(origin: ProcessActionOrigin) -> (name: &'static str)
    ensures
        name@ == action_origin_text(origin),
{
    match origin {
        ProcessActionOrigin::UserInterface => "user_interface",
        ProcessActionOrigin::Lua => "lua",
    }
}

#[derive(Clone, Copy, Debug, PartialEq, Eq, Hash, Structural)]
pub struct ProcessActionId(u64);

impl ProcessActionId {
    pub fn new(value: u64) -> (id: Self)
        ensures
            id.value_spec() == value,
    {
        ProcessActionId(value)
    }

    pub closed spec fn value_spec(self) -> u64 {
        self.0
    }

    pub fn value(self) -> (value: u64)
        ensures
            value == self.value_spec(),
    {
        self.0
    }
}

#[derive(Clone, Copy, Debug, PartialEq, Eq, Structural)]
pub struct ProcessActionContext {
    action_id: ProcessActionId,
}

impl ProcessActionContext {
    pub fn new(action_id: ProcessActionId) -> (context: Self)
        ensures
            context.action_id_spec() == action_id,
    {
        ProcessActionContext { action_id }
    }

    pub closed spec fn action_id_spec(self) -> ProcessActionId {
        self.action_id
    }

    pub fn action_id(self) -> (action_id: ProcessActionId)
        ensures
            action_id == self.action_id_spec(),
    {
        self.action_id
    }
}

/// What an applied action produced.
#[derive(Clone, Debug, PartialEq)]
pub enum ProcessActionResult {
    SerialResponse(String),
    InstrumentValue(InstrumentValue),
    VirtualInstrumentCount(usize),
}

/// A record writer that discards every record.
#[derive(Clone, Copy, Debug, PartialEq, Eq)]
pub struct NullProcessRecordWriter;

impl Default for NullProcessRecordWriter {
    fn default() -> (writer: Self) {
        NullProcessRecordWriter
    }
}

/// A failure of the process recorder, with its description.
#[derive(Clone, Debug, PartialEq, Eq)]
pub struct ProcessRecorderError {
    message: String,
}

impl View for ProcessRecorderError {
    type V = Seq<char>;

    closed spec fn view(&self) -> Seq<char> {
        self.message@
    }
}

impl ProcessRecorderError {
    /// An error with the given description.
    pub fn new(message: &str) -> (error: Self)
        ensures
            error@ == message@,
    {
        ProcessRecorderError { message: message.to_owned() }
    }

    pub fn to_string(&self) -> (text: String)
        ensures
            text@ == self@,
    {
        self.message.clone()
    }
}

/// The largest value of a signed 64-bit database integer.
pub const DATABASE_INTEGER_MAX: u64 = 0x7FFF_FFFF_FFFF_FFFF;

/// The database integer of an action identifier; refused when it exceeds the signed range.
pub fn database_action_id(action_id: ProcessActionId) -> (result: Result<i64, ProcessRecorderError>)
    ensures
        action_id.value_spec() <= DATABASE_INTEGER_MAX <==> result is Ok,
        result matches Ok(value) ==> value == action_id.value_spec(),
        result matches Err(error) ==> error@ == "Process action id "@ + decimal(
            action_id.value_spec() as nat,
        ) + " exceeds SQLite INTEGER range"@,
{
    let value = action_id.value();
    if value > DATABASE_INTEGER_MAX {
        let mut message = String::new();
        push_str(&mut message, "Process action id ");
        push_decimal(&mut message, value);
        push_str(&mut message, " exceeds SQLite INTEGER range");
        assert(message@ =~= "Process action id "@ + decimal(value as nat)
            + " exceeds SQLite INTEGER range"@);
        return Err(ProcessRecorderError { message });
    }
    Ok(value as i64)
}

/// The text of a kept failure, if there is one.
pub open spec fn kept_text(stored: Option<String>) -> Option<Seq<char>> {
    match stored {
        Some(text) => Some(text@),
        None => None,
    }
}

/// The failure kept after reporting `error`: the one already kept, if any, else `error`.
pub open spec fn first_failure(kept: Option<Seq<char>>, error: Seq<char>) -> Option<Seq<char>> {
    match kept {
        Some(first) => Some(first),
        None => Some(error),
    }
}

/// Keeps `error` unless a failure is already kept.
pub fn store_first_error(stored: &mut Option<String>, error: &str)
    ensures
        kept_text(*final(stored)) == first_failure(kept_text(*old(stored)), error@),
{
    if stored.is_none() {
        *stored = Some(error.to_owned());
    }
}

/// Keeps the failure of a record that could not be handed to the recorder thread.
pub fn store_disconnected_error(stored: &mut Option<String>)
    ensures
        kept_text(*final(stored)) == first_failure(
            kept_text(*old(stored)),
            "Process recorder thread is disconnected"@,
        ),
{
    store_first_error(stored, "Process recorder thread is disconnected");
}

/// Keeps the failure of a recorder thread that panicked.
pub fn store_panicked_error(stored: &mut Option<String>)
    ensures
        kept_text(*final(stored)) == first_failure(
            kept_text(*old(stored)),
            "Process recorder thread panicked"@,
        ),
{
    store_first_error(stored, "Process recorder thread panicked");
}

/// What reaches the recorder thread: a record, the request to stop, or the end of its channel.
#[derive(Clone, Copy, Debug, PartialEq, Eq, Structural)]
pub enum RecorderInput {
    Record,
    Shutdown,
    Disconnected,
}

/// What the recorder thread does next.
#[derive(Clone, Copy, Debug, PartialEq, Eq, Structural)]
pub enum RecorderStep {
    /// Hand the record to the writer.
    Write,
    /// Drop the record: the writer has failed before.
    Discard,
    /// Leave the loop; flush the writer if it has not failed.
    Finish,
}

/// The step for an input, given whether the writer is still usable.
pub open spec fn recorder_step(writer_available: bool, input: RecorderInput) -> RecorderStep {
    match input {
        RecorderInput::Record => if writer_available {
            RecorderStep::Write
        } else {
            RecorderStep::Discard
        },
        RecorderInput::Shutdown | RecorderInput::Disconnected => RecorderStep::Finish,
    }
}

/// The state of the recorder thread: whether its writer may still be used.
pub struct RecorderWorker {
    writer_available: bool,
}

impl RecorderWorker {
    pub closed spec fn writer_available_spec(&self) -> bool {
        self.writer_available
    }

    /// A worker whose writer has not failed.
    pub fn new() -> (worker: Self)
        ensures
            worker.writer_available_spec(),
    {
        RecorderWorker { writer_available: true }
    }

    pub fn writer_available(&self) -> (available: bool)
        ensures
            available == self.writer_available_spec(),
    {
        self.writer_available
    }

    /// What to do with an input.
    pub fn step(&self, input: RecorderInput) -> (step: RecorderStep)
        ensures
            step == recorder_step(self.writer_available_spec(), input),
    {
        match input {
            RecorderInput::Record => if self.writer_available {
                RecorderStep::Write
            } else {
                RecorderStep::Discard
            },
            RecorderInput::Shutdown | RecorderInput::Disconnected => RecorderStep::Finish,
        }
    }

    /// Takes the outcome of a write: a failure is kept (if it is the first) and retires the
    /// writer for good.
    pub fn write_finished(&mut self, result: &Result<(), ProcessRecorderError>, stored: &mut Option<String>)
        ensures
            final(self).writer_available_spec() == (old(self).writer_available_spec() && result is Ok),
            result is Ok ==> *final(stored) == *old(stored),
            result matches Err(error) ==> kept_text(*final(stored)) == first_failure(
                kept_text(*old(stored)),
                error@,
            ),
    {
        match result {
            Ok(()) => {},
            Err(error) => {
                let text = error.to_string();
                store_first_error(stored, text.as_str());
                self.writer_available = false;
            },
        }
    }

    /// Whether the writer is flushed when the loop ends: only if it never failed.
    pub fn flush_on_finish(&self) -> (flush: bool)
        ensures
            flush == self.writer_available_spec(),
    {
        self.writer_available
    }

    /// Takes the outcome of the final flush: a failure is kept if it is the first.
    pub fn flush_finished(&self, result: &Result<(), ProcessRecorderError>, stored: &mut Option<String>)
        ensures
            result is Ok ==> *final(stored) == *old(stored),
            result matches Err(error) ==> kept_text(*final(stored)) == first_failure(
                kept_text(*old(stored)),
                error@,
            ),
    {
        match result {
            Ok(()) => {},
            Err(error) => {
                let text = error.to_string();
                store_first_error(stored, text.as_str());
            },
        }
    }
}

/// Whether the writer is still usable after writes with these outcomes (`true` for success),
/// one `write_finished` each.
pub open spec fn available_after(available: bool, outcomes: Seq<bool>) -> bool
    decreases outcomes.len(),
{
    if outcomes.len() == 0 {
        available
    } else {
        available_after(available && outcomes[0], outcomes.drop_first())
    }
}

/// The failure kept after these failures are reported in turn, one `store_first_error` each.
pub open spec fn kept_after(kept: Option<Seq<char>>, errors: Seq<Seq<char>>) -> Option<Seq<char>>
    decreases errors.len(),
{
    if errors.len() == 0 {
        kept
    } else {
        kept_after(first_failure(kept, errors[0]), errors.drop_first())
    }
}

/// A writer stays usable exactly as long as every write succeeds: once one fails, no outcome
/// makes it usable again, and every later record is discarded.
pub proof fn lemma_writer_retired_for_good(available: bool, outcomes: Seq<bool>)
    ensures
        available_after(available, outcomes) == (available && forall|k: int|
            0 <= k < outcomes.len() ==> #[trigger] outcomes[k]),
        !available_after(available, outcomes) ==> recorder_step(
            available_after(available, outcomes),
            RecorderInput::Record,
        ) == RecorderStep::Discard,
    decreases outcomes.len(),
{
    if outcomes.len() > 0 {
        lemma_writer_retired_for_good(available && outcomes[0], outcomes.drop_first());
        if available && forall|k: int| 0 <= k < outcomes.len() ==> #[trigger] outcomes[k] {
            assert forall|k: int| 0 <= k < outcomes.drop_first().len() implies #[trigger] outcomes.drop_first()[k] by {
                assert(outcomes.drop_first()[k] == outcomes[k + 1]);
            }
        } else if available && outcomes[0] {
            let k = choose|k: int| 0 <= k < outcomes.len() && !#[trigger] outcomes[k];
            assert(outcomes.drop_first()[k - 1] == outcomes[k]);
        }
    }
}

/// The request to stop and the end of the channel always end the recorder's loop, whether or not
/// its writer has failed; a record is written exactly while the writer is usable and dropped
/// otherwise, never ending the loop.
pub proof fn lemma_recorder_stops_on_shutdown(writer_available: bool)
    ensures
        recorder_step(writer_available, RecorderInput::Shutdown) == RecorderStep::Finish,
        recorder_step(writer_available, RecorderInput::Disconnected) == RecorderStep::Finish,
        recorder_step(writer_available, RecorderInput::Record) == (if writer_available {
            RecorderStep::Write
        } else {
            RecorderStep::Discard
        }),
{
}

/// Of failures reported in turn, the first one is kept and later ones never replace it.
pub proof fn lemma_first_failure_kept(kept: Option<Seq<char>>, errors: Seq<Seq<char>>)
    ensures
        kept is Some ==> kept_after(kept, errors) == kept,
        kept is None && errors.len() > 0 ==> kept_after(kept, errors) == Some(errors[0]),
        kept is None && errors.len() == 0 ==> kept_after(kept, errors) is None,
    decreases errors.len(),
{
    if errors.len() > 0 {
        lemma_first_failure_kept(first_failure(kept, errors[0]), errors.drop_first());
    }
}

} // verus!
