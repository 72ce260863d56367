//! Destinations for acquired samples: the CSV layout and its field quoting, and the sink that
//! discards samples.
use vstd::prelude::*;

use std::io::Write;

use crate::text::{decimal, push_decimal, push_str};

verus! {

/// A failure of a sample sink, with its description.
#[derive(Clone, Debug, PartialEq, Eq)]
pub struct SampleSinkError {
    message: String,
}

impl View for SampleSinkError {
    type V = Seq<char>;

    closed spec fn view(&self) -> Seq<char> {
        self.message@
    }
}

impl SampleSinkError {
    /// An error with the given description.
    pub fn new(message: &str) -> (error: Self)
        ensures
            error@ == message@,
    {
        SampleSinkError { message: message.to_owned() }
    }

    pub fn to_string(&self) -> (text: String)
        ensures
            text@ == self@,
    {
        self.message.clone()
    }

    /// The error for a sample of a series that has no metadata.
    pub fn unknown_series(series_id: u64) -> (error: Self)
        ensures
            error@ == "Cannot write sample for unknown series "@ + decimal(series_id as nat),
    {
        let mut message = String::new();
        push_str(&mut message, "Cannot write sample for unknown series ");
        push_decimal(&mut message, series_id);
        assert(message@ =~= "Cannot write sample for unknown series "@ + decimal(series_id as nat));
        SampleSinkError { message }
    }
}

/// A sink that discards every sample.
#[derive(Clone, Copy, Debug, PartialEq, Eq)]
pub struct NullSampleSink;

impl NullSampleSink {
    pub fn new() -> (sink: Self) {
        NullSampleSink
    }
}

/// A destination for batches of acquired samples, each row under the name of its series.
pub trait SampleSink: Send {
    fn write_batch(&mut self, samples: &[FormattedSample], series: &[SeriesName]) -> (result: Result<(), SampleSinkError>);

    fn flush(&mut self) -> (result: Result<(), SampleSinkError>)
        default_ensures
            result is Ok,
    {
        Ok(())
    }
}

impl SampleSink for NullSampleSink {
    fn write_batch(&mut self, samples: &[FormattedSample], series: &[SeriesName]) -> (result: Result<(), SampleSinkError>)
        ensures
            result is Ok,
    {
        Ok(())
    }
}

/// The first line of a sample file.
pub open spec fn csv_header_line() -> Seq<char> {
    "timestamp,series_id,series_name,value\n"@
}

/// Whether a character forces a CSV field into quotes.
pub open spec fn needs_quotes(c: char) -> bool {
    c == ',' || c == '"' || c == '\r' || c == '\n'
}

/// The characters of a field with every double quote doubled.
pub open spec fn doubled_quotes(text: Seq<char>) -> Seq<char>
    decreases text.len(),
{
    if text.len() == 0 {
        Seq::empty()
    } else {
        doubled_quotes(text.drop_last()) + if text.last() == '"' {
            seq!['"', '"']
        } else {
            seq![text.last()]
        }
    }
}

/// A CSV field: as it is, or quoted with doubled inner quotes when it holds a comma, a quote or a
/// line break.
pub open spec fn csv_field_text(text: Seq<char>) -> Seq<char> {
    if exists|i: int| 0 <= i < text.len() && needs_quotes(#[trigger] text[i]) {
        seq!['"'] + doubled_quotes(text) + seq!['"']
    } else {
        text
    }
}

proof fn lemma_plain_field(text: Seq<char>)
    requires
        forall|i: int| 0 <= i < text.len() ==> !needs_quotes(#[trigger] text[i]),
    ensures
        doubled_quotes(text) == text,
    decreases text.len(),
{
    if text.len() > 0 {
        let shorter = text.drop_last();
        assert forall|i: int| 0 <= i < shorter.len() implies !needs_quotes(#[trigger] shorter[i]) by {
            assert(shorter[i] == text[i]);
        }
        lemma_plain_field(shorter);
        assert(!needs_quotes(text[text.len() - 1]));
        assert(text =~= shorter + seq![text.last()]);
    }
}

/// The CSV form of a field (see `csv_field_text`).
pub fn csv_field(value: &str) -> (field: String)
    ensures
        field@ == csv_field_text(value@),
{
    let length = value.unicode_len();
    let mut quoted = false;
    let mut escaped = String::new();
    let mut index: usize = 0;
    while index < length
        invariant
            length == value@.len(),
            index <= length,
            escaped@ == doubled_quotes(value@.take(index as int)),
            quoted == exists|i: int| 0 <= i < index && needs_quotes(#[trigger] value@[i]),
        decreases length - index,
    {
        let c = value.get_char(index);
        if c == ',' || c == '"' || c == '\r' || c == '\n' {
            quoted = true;
        }
        if c == '"' {
            push_str(&mut escaped, "\"\"");
            proof {
                reveal_strlit("\"\"");
            }
        } else {
            escaped.append(value.substring_char(index, index + 1));
        }
        proof {
            assert(value@.take(index + 1).drop_last() =~= value@.take(index as int));
        }
        index += 1;
    }
    assert(value@.take(length as int) =~= value@);
    if !quoted {
        proof {
            lemma_plain_field(value@);
        }
    }
    if quoted {
        let mut field = String::new();
        push_str(&mut field, "\"");
        push_str(&mut field, escaped.as_str());
        push_str(&mut field, "\"");
        proof {
            reveal_strlit("\"");
        }
        assert(field@ =~= csv_field_text(value@));
        field
    } else {
        escaped
    }
}

/// The series identifier and name that a sample row shows.
#[derive(Clone, Debug, PartialEq, Eq)]
pub struct SeriesName {
    pub id: u64,
    pub name: String,
}

/// A sample whose timestamp and value are already written as text.
#[derive(Clone, Debug, PartialEq, Eq)]
pub struct FormattedSample {
    pub series_id: u64,
    pub timestamp: String,
    pub value: String,
}

/// Whether some series has the identifier.
pub open spec fn series_known(series: Seq<SeriesName>, id: u64) -> bool {
    exists|index: int| 0 <= index < series.len() && series[index].id == id
}

/// Whether `index` is the first series with the identifier.
pub open spec fn is_first_series_with(series: Seq<SeriesName>, id: u64, index: int) -> bool {
    &&& 0 <= index < series.len()
    &&& series[index].id == id
    &&& forall|earlier: int| 0 <= earlier < index ==> series[earlier].id != id
}

/// The row of a sample under the first series with its identifier.
pub open spec fn csv_row_text(sample: FormattedSample, name: Seq<char>) -> Seq<char> {
    sample.timestamp@ + ","@ + decimal(sample.series_id as nat) + ","@ + csv_field_text(name) + ","@
        + sample.value@ + "\n"@
}

/// The position of the first series with the identifier (meaningful when some series has it).
pub open spec fn first_series_index(series: Seq<SeriesName>, id: u64) -> int {
    choose|index: int| is_first_series_with(series, id, index)
}

/// The row of a sample under the first series with its identifier.
pub open spec fn sample_row(series: Seq<SeriesName>, sample: FormattedSample) -> Seq<char> {
    csv_row_text(sample, series[first_series_index(series, sample.series_id)].name@)
}

/// Only one position is the first with an identifier.
proof fn lemma_first_series_index(series: Seq<SeriesName>, id: u64, index: int)
    requires
        is_first_series_with(series, id, index),
    ensures
        first_series_index(series, id) == index,
{
    let chosen = first_series_index(series, id);
    assert(is_first_series_with(series, id, chosen));
    if chosen < index {
        assert(series[chosen].id != id);
    } else if index < chosen {
        assert(series[index].id != id);
    }
}

/// The row of a sample: refused when no series has the sample's identifier.
pub fn csv_row(sample: &FormattedSample, series: &[SeriesName]) -> (result: Result<String, SampleSinkError>)
    ensures
        result matches Ok(row) ==> row@ == sample_row(series@, *sample),
        (exists|index: int| 0 <= index < series@.len() && series@[index].id == sample.series_id)
            <==> result is Ok,
        result matches Ok(row) ==> exists|index: int|
            is_first_series_with(series@, sample.series_id, index) && row@ == csv_row_text(
                *sample,
                series@[index].name@,
            ),
        result matches Err(error) ==> error@ == "Cannot write sample for unknown series "@
            + decimal(sample.series_id as nat),
{
    let mut index: usize = 0;
    while index < series.len()
        invariant
            index <= series@.len(),
            forall|earlier: int| 0 <= earlier < index ==> series@[earlier].id != sample.series_id,
        decreases series.len() - index,
    {
        if series[index].id == sample.series_id {
            let mut row = String::new();
            push_str(&mut row, sample.timestamp.as_str());
            push_str(&mut row, ",");
            push_decimal(&mut row, sample.series_id);
            push_str(&mut row, ",");
            let field = csv_field(series[index].name.as_str());
            push_str(&mut row, field.as_str());
            push_str(&mut row, ",");
            push_str(&mut row, sample.value.as_str());
            push_str(&mut row, "\n");
            assert(is_first_series_with(series@, sample.series_id, index as int));
            assert(row@ =~= csv_row_text(*sample, series@[index as int].name@));
            proof {
                lemma_first_series_index(series@, sample.series_id, index as int);
            }
            return Ok(row);
        }
        index += 1;
    }
    Err(SampleSinkError::unknown_series(sample.series_id))
}

/// `Write::write_all` of a string's bytes. Gives the record of the call: the text handed over and
/// whether the write succeeded.
#[verifier::external_body]
fn write_text<W: Write>(writer: &mut W, text: &str) -> (outcome: (Result<(), std::io::Error>, Ghost<WriterCall>))
    ensures
        outcome.1@ == (WriterCall::Write { text: text@, succeeded: outcome.0 is Ok }),
{
    (writer.write_all(text.as_bytes()), Ghost(vstd::pervasive::arbitrary()))
}

/// `Write::flush`. Gives the record of the call: whether the flush succeeded.
#[verifier::external_body]
fn flush_text<W: Write>(writer: &mut W) -> (outcome: (Result<(), std::io::Error>, Ghost<WriterCall>))
    ensures
        outcome.1@ == (WriterCall::Flush { succeeded: outcome.0 is Ok }),
{
    (writer.flush(), Ghost(vstd::pervasive::arbitrary()))
}

/// The error for a failed write: the I/O error's own description.
fn io_failure(error: &std::io::Error) -> (sink_error: SampleSinkError) {
    SampleSinkError { message: crate::protocol::virtual_instrument::frame_io::io_error_text(error) }
}

/// One operation a CSV sink made on its writer, and whether the writer reported success.
pub enum WriterCall {
    /// `write_all` of a text.
    Write { text: Seq<char>, succeeded: bool },
    /// `flush`.
    Flush { succeeded: bool },
}

/// The three texts a sample's row is written in, in order: the timestamp and series identifier
/// with their commas, the first series' name with that identifier as a CSV field, and the value
/// with a comma before it and the line end after it.
pub open spec fn row_parts(series: Seq<SeriesName>, sample: FormattedSample) -> Seq<Seq<char>> {
    let name = series[first_series_index(series, sample.series_id)].name@;
    seq![
        sample.timestamp@ + ","@ + decimal(sample.series_id as nat) + ","@,
        csv_field_text(name),
        ","@ + sample.value@ + "\n"@,
    ]
}

/// Successful writes of the texts, in order.
pub open spec fn parts_written(parts: Seq<Seq<char>>) -> Seq<WriterCall> {
    Seq::new(parts.len(), |j: int| WriterCall::Write { text: parts[j], succeeded: true })
}

/// The successful writes of the rows of the first `count` samples, each row in its three parts.
pub open spec fn successful_rows(samples: Seq<FormattedSample>, series: Seq<SeriesName>, count: int) -> Seq<WriterCall>
    decreases count,
{
    if count <= 0 {
        Seq::empty()
    } else {
        successful_rows(samples, series, count - 1) + parts_written(row_parts(series, samples[count - 1]))
    }
}

/// The description of a refused sample of an unknown series.
pub open spec fn unknown_series_text(series_id: u64) -> Seq<char> {
    "Cannot write sample for unknown series "@ + decimal(series_id as nat)
}

/// Whether a batch that failed stopped at part `part` of sample `k`, given the writer calls before
/// and after it: the rows before `k` were written; then part `part` of the row of sample `k`
/// failed to be written after the parts before it; or sample `k` has no series (nothing more was
/// written and `error` says so); or, with every row written, the flush failed.
pub open spec fn batch_stopped_at(
    before: Seq<WriterCall>,
    after: Seq<WriterCall>,
    samples: Seq<FormattedSample>,
    series: Seq<SeriesName>,
    k: int,
    part: int,
    error: Seq<char>,
) -> bool {
    &&& 0 <= k <= samples.len()
    &&& forall|j: int| 0 <= j < k ==> #[trigger] series_known(series, samples[j].series_id)
    &&& if k < samples.len() {
        if series_known(series, samples[k].series_id) {
            &&& 0 <= part < 3
            &&& after == before + successful_rows(samples, series, k) + parts_written(
                row_parts(series, samples[k]).take(part),
            ) + seq![WriterCall::Write { text: row_parts(series, samples[k])[part], succeeded: false }]
        } else {
            after == before + successful_rows(samples, series, k) && error
                == unknown_series_text(samples[k].series_id)
        }
    } else {
        after == before + successful_rows(samples, series, k) + seq![
            WriterCall::Flush { succeeded: false },
        ]
    }
}

/// Whether a batch failed: it stopped somewhere (see `batch_stopped_at`).
pub open spec fn batch_failed(
    before: Seq<WriterCall>,
    after: Seq<WriterCall>,
    samples: Seq<FormattedSample>,
    series: Seq<SeriesName>,
    error: Seq<char>,
) -> bool {
    exists|k: int, part: int| #[trigger] batch_stopped_at(before, after, samples, series, k, part, error)
}

/// The position of the first series with the identifier, if any.
fn series_position(series: &[SeriesName], id: u64) -> (found: Option<usize>)
    ensures
        match found {
            Some(position) => is_first_series_with(series@, id, position as int),
            None => !series_known(series@, id),
        },
{
    let mut index: usize = 0;
    while index < series.len()
        invariant
            index <= series@.len(),
            forall|earlier: int| 0 <= earlier < index ==> series@[earlier].id != id,
        decreases series.len() - index,
    {
        if series[index].id == id {
            return Some(index);
        }
        index += 1;
    }
    None
}

/// Whether these calls write the header line with one `write_all` and then, if that succeeded,
/// flush; `succeeded` tells whether both succeeded.
pub open spec fn header_written(calls: Seq<WriterCall>, succeeded: bool) -> bool {
    ||| calls == seq![WriterCall::Write { text: csv_header_line(), succeeded: false }] && !succeeded
    ||| calls == seq![
        WriterCall::Write { text: csv_header_line(), succeeded: true },
        WriterCall::Flush { succeeded },
    ]
}

/// A sink that writes samples as CSV rows under a header.
pub struct CsvSampleSink<W> {
    writer: W,
    calls: Ghost<Seq<WriterCall>>,
}

impl<W> CsvSampleSink<W> {
    /// The writer the sink writes to.
    pub closed spec fn writer_spec(&self) -> W {
        self.writer
    }

    /// Every operation the sink made on its writer, in order.
    pub closed spec fn calls(&self) -> Seq<WriterCall> {
        self.calls@
    }
}

impl<W: Write> CsvSampleSink<W> {
    /// A sink over the writer, after writing the header line and flushing. Gives the calls it made
    /// on the writer (see `header_written`); the sink starts with that record.
    pub fn new(writer: W) -> (outcome: (Result<Self, SampleSinkError>, Ghost<Seq<WriterCall>>))
        ensures
            header_written(outcome.1@, outcome.0 is Ok),
            outcome.0 matches Ok(sink) ==> sink.calls() == outcome.1@,
    {
        let mut writer = writer;
        let header = "timestamp,series_id,series_name,value\n";
        proof {
            reveal_strlit("timestamp,series_id,series_name,value\n");
        }
        let (written, write_call) = write_text(&mut writer, header);
        match written {
            Ok(()) => {},
            Err(error) => {
                let ghost calls = seq![write_call@];
                return (Err(io_failure(&error)), Ghost(calls));
            },
        }
        let (flushed, flush_call) = flush_text(&mut writer);
        let ghost calls = seq![write_call@, flush_call@];
        match flushed {
            Ok(()) => {},
            Err(error) => return (Err(io_failure(&error)), Ghost(calls)),
        }
        (Ok(CsvSampleSink { writer, calls: Ghost(calls) }), Ghost(calls))
    }

    pub fn into_inner(self) -> (writer: W)
        ensures
            writer == self.writer_spec(),
    {
        self.writer
    }

    /// Writes one text with `write_all`, noting the call.
    fn write_part(&mut self, text: &str) -> (result: Result<(), SampleSinkError>)
        ensures
            final(self).calls() == old(self).calls().push(WriterCall::Write { text: text@, succeeded: result is Ok }),
    {
        let (written, call) = write_text(&mut self.writer, text);
        self.calls = Ghost(self.calls@.push(call@));
        match written {
            Ok(()) => Ok(()),
            Err(error) => Err(io_failure(&error)),
        }
    }

    /// Writes one row per sample, in order, each in its three parts (see `row_parts`), then
    /// flushes. A sample of an unknown series stops the batch with that error after the rows
    /// before it, as does a failed write or flush.
    pub fn write_batch(&mut self, samples: &[FormattedSample], series: &[SeriesName]) -> (result: Result<(), SampleSinkError>)
        ensures
            result is Ok ==> forall|k: int|
                0 <= k < samples@.len() ==> #[trigger] series_known(series@, samples@[k].series_id),
            result is Ok ==> final(self).calls() == old(self).calls() + successful_rows(
                samples@,
                series@,
                samples@.len() as int,
            ) + seq![WriterCall::Flush { succeeded: true }],
            result matches Err(error) ==> batch_failed(
                old(self).calls(),
                final(self).calls(),
                samples@,
                series@,
                error@,
            ),
    {
        let ghost before = self.calls@;
        let mut index: usize = 0;
        while index < samples.len()
            invariant
                index <= samples@.len(),
                forall|k: int| 0 <= k < index ==> #[trigger] series_known(series@, samples@[k].series_id),
                self.calls@ == before + successful_rows(samples@, series@, index as int),
                before == old(self).calls(),
            decreases samples.len() - index,
        {
            let sample = &samples[index];
            let position = match series_position(series, sample.series_id) {
                Some(position) => position,
                None => {
                    let error = SampleSinkError::unknown_series(sample.series_id);
                    assert(batch_stopped_at(before, self.calls@, samples@, series@, index as int, 0, error@));
                    assert(batch_failed(before, self.calls@, samples@, series@, error@));
                    return Err(error);
                },
            };
            proof {
                lemma_first_series_index(series@, sample.series_id, position as int);
            }
            let ghost parts = row_parts(series@, samples@[index as int]);
            let ghost start = self.calls@;
            let mut prefix = String::new();
            push_str(&mut prefix, sample.timestamp.as_str());
            push_str(&mut prefix, ",");
            push_decimal(&mut prefix, sample.series_id);
            push_str(&mut prefix, ",");
            let field = csv_field(series[position].name.as_str());
            let mut suffix = String::new();
            push_str(&mut suffix, ",");
            push_str(&mut suffix, sample.value.as_str());
            push_str(&mut suffix, "\n");
            assert(prefix@ =~= parts[0]);
            assert(field@ == parts[1]);
            assert(suffix@ =~= parts[2]);
            assert(series_known(series@, samples@[index as int].series_id));
            match self.write_part(prefix.as_str()) {
                Ok(()) => {},
                Err(failure) => {
                    assert(parts_written(parts.take(0)) =~= Seq::<WriterCall>::empty());
                    assert(self.calls@ =~= start + parts_written(parts.take(0)) + seq![
                        WriterCall::Write { text: parts[0], succeeded: false },
                    ]);
                    assert(batch_stopped_at(before, self.calls@, samples@, series@, index as int, 0, failure@));
                    assert(batch_failed(before, self.calls@, samples@, series@, failure@));
                    return Err(failure);
                },
            }
            match self.write_part(field.as_str()) {
                Ok(()) => {},
                Err(failure) => {
                    assert(parts_written(parts.take(1)) =~= seq![
                        WriterCall::Write { text: parts[0], succeeded: true },
                    ]);
                    assert(self.calls@ =~= start + parts_written(parts.take(1)) + seq![
                        WriterCall::Write { text: parts[1], succeeded: false },
                    ]);
                    assert(batch_stopped_at(before, self.calls@, samples@, series@, index as int, 1, failure@));
                    assert(batch_failed(before, self.calls@, samples@, series@, failure@));
                    return Err(failure);
                },
            }
            match self.write_part(suffix.as_str()) {
                Ok(()) => {},
                Err(failure) => {
                    assert(parts_written(parts.take(2)) =~= seq![
                        WriterCall::Write { text: parts[0], succeeded: true },
                        WriterCall::Write { text: parts[1], succeeded: true },
                    ]);
                    assert(self.calls@ =~= start + parts_written(parts.take(2)) + seq![
                        WriterCall::Write { text: parts[2], succeeded: false },
                    ]);
                    assert(batch_stopped_at(before, self.calls@, samples@, series@, index as int, 2, failure@));
                    assert(batch_failed(before, self.calls@, samples@, series@, failure@));
                    return Err(failure);
                },
            }
            assert(parts_written(parts) =~= seq![
                WriterCall::Write { text: parts[0], succeeded: true },
                WriterCall::Write { text: parts[1], succeeded: true },
                WriterCall::Write { text: parts[2], succeeded: true },
            ]);
            assert(successful_rows(samples@, series@, index + 1) == successful_rows(
                samples@,
                series@,
                index as int,
            ) + parts_written(parts));
            assert(self.calls@ =~= before + successful_rows(samples@, series@, index + 1));
            index += 1;
        }
        let (flushed, call) = flush_text(&mut self.writer);
        self.calls = Ghost(self.calls@.push(call@));
        match flushed {
            Ok(()) => Ok(()),
            Err(error) => {
                let failure = io_failure(&error);
                assert(self.calls@ =~= before + successful_rows(samples@, series@, index as int)
                    + seq![WriterCall::Flush { succeeded: false }]);
                assert(batch_stopped_at(before, self.calls@, samples@, series@, index as int, 0, failure@));
                assert(batch_failed(before, self.calls@, samples@, series@, failure@));
                Err(failure)
            },
        }
    }

    /// Flushes the writer.
    pub fn flush(&mut self) -> (result: Result<(), SampleSinkError>)
        ensures
            final(self).calls() == old(self).calls().push(WriterCall::Flush { succeeded: result is Ok }),
    {
        let (flushed, call) = flush_text(&mut self.writer);
        self.calls = Ghost(self.calls@.push(call@));
        match flushed {
            Ok(()) => Ok(()),
            Err(error) => Err(io_failure(&error)),
        }
    }
}

} // verus!
