//! Batched submission of readings to a time-series store.
//!
//! The exporter decides; the caller talks to the store. `export` names the
//! first batch to submit, and after each write the caller reports how it went
//! to `advance`, which names the next batch or ends the export. One batch is
//! in flight at a time, batches go out in the order of the readings, and the
//! first rejected write ends the export with the earlier batches left
//! committed.

use crate::models::telemetry::{line_protocol, ReadingView, TelemetryDataset};
use vstd::arithmetic::div_mod::{lemma_div_plus_one, lemma_fundamental_div_mod, lemma_mod_pos_bound};
use vstd::prelude::*;
use vstd::string::StringExecFns;

verus! {

/// Where and how to write.
#[derive(Debug)]
pub struct InfluxDBConfig {
    /// Address of the store.
    pub url: String,
    /// Credential presented with every write.
    pub token: String,
    /// Organization that owns the bucket.
    pub org: String,
    /// Bucket that receives the readings.
    pub bucket: String,
    /// Largest number of readings in one batch.
    pub batch_size: usize,
}

impl Clone for InfluxDBConfig {
    fn clone(&self) -> (copy: InfluxDBConfig)
        ensures
            copy == *self,
    {
        InfluxDBConfig {
            url: self.url.clone(),
            token: self.token.clone(),
            org: self.org.clone(),
            bucket: self.bucket.clone(),
            batch_size: self.batch_size,
        }
    }
}

impl Default for InfluxDBConfig {
    /// A store on this machine, and batches of 5000 readings.
    fn default() -> (config: InfluxDBConfig)
        ensures
            config.url@ == "http://localhost:8086"@,
            config.token@ == "my_token"@,
            config.org@ == "my_org"@,
            config.bucket@ == "my_bucket"@,
            config.batch_size == 5000,
    {
        InfluxDBConfig {
            url: "http://localhost:8086".to_owned(),
            token: "my_token".to_owned(),
            org: "my_org".to_owned(),
            bucket: "my_bucket".to_owned(),
            batch_size: 5000,
        }
    }
}

/// The readings `start..end` of a dataset, submitted as batch number `index`
/// (from 0).
#[derive(Debug, Clone, Copy, PartialEq, Eq, Structural)]
pub struct Batch {
    pub index: usize,
    pub start: usize,
    pub end: usize,
}

/// A write that the store rejected, and what had been committed before it.
#[derive(Debug, Clone, Copy, PartialEq, Eq, Structural)]
pub struct BatchFailure {
    /// Index of the batch whose write failed.
    pub batch_index: usize,
    /// Number of batches committed before it: the batches `0..batch_index`.
    pub committed_batches: usize,
    /// Number of readings in those batches.
    pub committed_readings: usize,
}

impl BatchFailure {
    /// Index of the last batch that was committed before the failure; `None`
    /// when the very first write failed.
    pub fn last_committed_batch(&self) -> (index: Option<usize>)
        ensures
            self.committed_batches == 0 ==> index is None,
            self.committed_batches > 0 ==> index == Some((self.committed_batches - 1) as usize),
    {
        if self.committed_batches == 0 {
            None
        } else {
            Some(self.committed_batches - 1)
        }
    }
}

/// What the caller does next.
#[derive(Debug, Clone, Copy, PartialEq, Eq, Structural)]
pub enum ExportStep {
    /// Write this batch and report how it went.
    Submit(Batch),
    /// Every reading is committed; `batches` writes were made.
    Complete { batches: usize },
    /// A write failed. Nothing more is sent and nothing is rolled back.
    Aborted(BatchFailure),
}

/// Number of batches that `total` readings make: `total / batch_size`,
/// rounded up.
pub open spec fn batch_count(total: int, batch_size: int) -> int {
    (total + batch_size - 1) / batch_size
}

/// Batch number `index` of `total` readings: `batch_size` readings from
/// `index * batch_size` on, or as many as are left.
pub open spec fn batch_at(total: int, batch_size: int, index: int) -> Batch {
    let start = index * batch_size;
    let end = if start + batch_size <= total {
        start + batch_size
    } else {
        total
    };
    Batch { index: index as usize, start: start as usize, end: end as usize }
}

/// `batch` is one of the batches of `total` readings.
pub open spec fn is_batch(total: int, batch_size: int, batch: Batch) -> bool {
    &&& batch.index < batch_count(total, batch_size)
    &&& batch == batch_at(total, batch_size, batch.index as int)
}

/// How an export starts: with the first batch, or at its end if there is
/// nothing to send.
pub open spec fn first_step(total: int, batch_size: int) -> ExportStep {
    if total == 0 {
        ExportStep::Complete { batches: 0 }
    } else {
        ExportStep::Submit(batch_at(total, batch_size, 0))
    }
}

/// How an export goes on once the write of `sent` has ended.
pub open spec fn next_step(total: int, batch_size: int, sent: Batch, accepted: bool) -> ExportStep {
    if !accepted {
        ExportStep::Aborted(
            BatchFailure {
                batch_index: sent.index,
                committed_batches: sent.index,
                committed_readings: sent.start,
            },
        )
    } else if sent.index + 1 == batch_count(total, batch_size) {
        ExportStep::Complete { batches: (sent.index + 1) as usize }
    } else {
        ExportStep::Submit(batch_at(total, batch_size, sent.index + 1))
    }
}

/// The text of a batch: the lines of its first `count` readings, each ended
/// by a line break. `numbers[i]` is the decimal text of reading `i` where that
/// reading is numeric.
pub open spec fn lines(
    measurement: Seq<char>,
    readings: Seq<ReadingView>,
    numbers: Seq<Seq<char>>,
    count: int,
) -> Seq<char>
    decreases count,
{
    if count <= 0 {
        Seq::empty()
    } else {
        lines(measurement, readings, numbers, count - 1) + line_protocol(
            measurement,
            readings[count - 1],
            numbers[count - 1],
        ) + "\n"@
    }
}

/// The views of a sequence of strings.
pub open spec fn text_views(texts: Seq<String>) -> Seq<Seq<char>> {
    Seq::new(texts.len(), |i: int| texts[i]@)
}

/// The measurement that every line is written under.
pub open spec fn spec_measurement() -> Seq<char> {
    "rocket_telemetry"@
}

/// Plans the submission of a dataset to a time-series store.
#[derive(Debug)]
pub struct InfluxDBExporter {
    config: InfluxDBConfig,
}

impl InfluxDBExporter {
    /// The configuration of the exporter.
    pub closed spec fn spec_config(&self) -> InfluxDBConfig {
        self.config
    }

    /// An exporter that writes as `config` says.
    pub fn new(config: InfluxDBConfig) -> (exporter: InfluxDBExporter)
        ensures
            exporter.spec_config() == config,
    {
        InfluxDBExporter { config }
    }

    /// The configuration of the exporter.
    pub fn config(&self) -> (config: &InfluxDBConfig)
        ensures
            *config == self.spec_config(),
    {
        &self.config
    }

    /// The measurement that every line is written under.
    pub fn measurement() -> (name: &'static str)
        ensures
            name@ == spec_measurement(),
    {
        "rocket_telemetry"
    }

    /// Number of batches that `total_readings` readings make.
    pub fn batch_count(&self, total_readings: usize) -> (count: usize)
        requires
            self.spec_config().batch_size > 0,
        ensures
            count == batch_count(total_readings as int, self.spec_config().batch_size as int),
    {
        if total_readings == 0 {
            proof {
                lemma_batch_count_bounds(0, self.config.batch_size as int);
            }
            0
        } else {
            proof {
                lemma_div_plus_one(total_readings - 1, self.config.batch_size as int);
            }
            (total_readings - 1) / self.config.batch_size + 1
        }
    }

    /// Starts an export: the first batch to submit, or `Complete` at once for
    /// a dataset without readings.
    pub fn export(&self, dataset: &TelemetryDataset) -> (step: ExportStep)
        requires
            dataset.readings@.len() > 0 ==> self.spec_config().batch_size > 0,
        ensures
            step == first_step(dataset.readings@.len() as int, self.spec_config().batch_size as int),
    {
        let total: usize = dataset.readings.len();
        if total == 0 {
            ExportStep::Complete { batches: 0 }
        } else {
            let size: usize = self.config.batch_size;
            let end: usize = if size <= total {
                size
            } else {
                total
            };
            assert(0 * size == 0);
            ExportStep::Submit(Batch { index: 0, start: 0, end })
        }
    }

    /// Goes on with an export after the write of `sent` has ended, accepted or
    /// not by the store.
    pub fn advance(&self, dataset: &TelemetryDataset, sent: Batch, accepted: bool) -> (step:
        ExportStep)
        requires
            self.spec_config().batch_size > 0,
            is_batch(dataset.readings@.len() as int, self.spec_config().batch_size as int, sent),
        ensures
            step == next_step(
                dataset.readings@.len() as int,
                self.spec_config().batch_size as int,
                sent,
                accepted,
            ),
    {
        let total: usize = dataset.readings.len();
        let size: usize = self.config.batch_size;
        proof {
            lemma_batch_count_bounds(total as int, size as int);
            lemma_batches_tile(total as int, size as int, sent.index as int);
            if sent.index + 1 < batch_count(total as int, size as int) {
                lemma_batches_tile(total as int, size as int, sent.index + 1);
            }
        }
        if !accepted {
            ExportStep::Aborted(
                BatchFailure {
                    batch_index: sent.index,
                    committed_batches: sent.index,
                    committed_readings: sent.start,
                },
            )
        } else if sent.end >= total {
            ExportStep::Complete { batches: sent.index + 1 }
        } else {
            let start: usize = sent.end;
            let end: usize = if size <= total - start {
                start + size
            } else {
                total
            };
            ExportStep::Submit(Batch { index: sent.index + 1, start, end })
        }
    }

    /// The text to write for `batch`: one line per reading, in order, each
    /// ended by a line break. `numbers` holds, for each reading of the batch,
    /// the decimal text of its sample. `None` unless `batch` lies within the
    /// dataset and `numbers` has one entry per reading of the batch.
    pub fn payload(dataset: &TelemetryDataset, batch: Batch, numbers: &Vec<String>) -> (text:
        Option<String>)
        ensures
            text is Some <==> batch.start <= batch.end <= dataset.readings@.len() && numbers@.len()
                == batch.end - batch.start,
            text is Some ==> text->0@ == lines(
                spec_measurement(),
                dataset@.readings.subrange(batch.start as int, batch.end as int),
                text_views(numbers@),
                batch.end - batch.start,
            ),
    {
        if batch.start > batch.end || batch.end > dataset.readings.len() {
            return None;
        }
        if numbers.len() != batch.end - batch.start {
            return None;
        }
        let ghost readings = dataset@.readings.subrange(batch.start as int, batch.end as int);
        let ghost texts = text_views(numbers@);
        let mut text: String = String::new();
        let mut i: usize = batch.start;
        assert(text@ =~= lines(spec_measurement(), readings, texts, 0));
        while i < batch.end
            invariant
                batch.start <= i <= batch.end <= dataset.readings@.len(),
                numbers@.len() == batch.end - batch.start,
                readings == dataset@.readings.subrange(batch.start as int, batch.end as int),
                texts == text_views(numbers@),
                text@ == lines(spec_measurement(), readings, texts, i - batch.start),
            decreases batch.end - i,
        {
            let line: String = dataset.readings[i].to_line_protocol(
                Self::measurement(),
                numbers[i - batch.start].as_str(),
            );
            text.append(line.as_str());
            text.push('\n');
            proof {
                reveal_strlit("\n");
                assert("\n"@ =~= seq!['\n']);
                assert(text@ =~= lines(spec_measurement(), readings, texts, i + 1 - batch.start));
            }
            i = i + 1;
        }
        Some(text)
    }
}

/// The batch count is the number of steps of `batch_size` that it takes to
/// cover `total`: one step fewer falls short, and nothing needs no step.
pub proof fn lemma_batch_count_bounds(total: int, batch_size: int)
    requires
        0 <= total,
        0 < batch_size,
    ensures
        0 <= batch_count(total, batch_size),
        batch_count(total, batch_size) == 0 <==> total == 0,
        (batch_count(total, batch_size) - 1) * batch_size < total || total == 0,
        total <= batch_count(total, batch_size) * batch_size,
        batch_count(total, batch_size) <= total,
{
    let x = total + batch_size - 1;
    let count = batch_count(total, batch_size);
    lemma_fundamental_div_mod(x, batch_size);
    lemma_mod_pos_bound(x, batch_size);
    assert((count - 1) * batch_size == batch_size * count - batch_size) by (nonlinear_arith);
    assert(count * batch_size == batch_size * count) by (nonlinear_arith);
    if count <= 0 {
        assert(batch_size * count <= 0) by (nonlinear_arith)
            requires
                count <= 0,
                batch_size > 0,
        ;
    } else {
        assert(count - 1 <= (count - 1) * batch_size) by (nonlinear_arith)
            requires
                count >= 1,
                batch_size >= 1,
        ;
    }
}

/// The batches tile the readings: each starts where the one before it ended,
/// none is empty or larger than `batch_size`, all but the last are full, and
/// the last ends with the last reading.
pub proof fn lemma_batches_tile(total: int, batch_size: int, index: int)
    requires
        0 <= total <= usize::MAX,
        0 < batch_size,
        0 <= index < batch_count(total, batch_size),
    ensures
        batch_at(total, batch_size, index).start == index * batch_size,
        batch_at(total, batch_size, index).start < batch_at(total, batch_size, index).end <= total,
        batch_at(total, batch_size, index).end - batch_at(total, batch_size, index).start
            <= batch_size,
        index + 1 < batch_count(total, batch_size) ==> {
            &&& batch_at(total, batch_size, index).end - batch_at(total, batch_size, index).start
                == batch_size
            &&& batch_at(total, batch_size, index + 1).start == batch_at(
                total,
                batch_size,
                index,
            ).end
        },
        index + 1 == batch_count(total, batch_size) <==> batch_at(total, batch_size, index).end
            == total,
        index == 0 ==> batch_at(total, batch_size, index).start == 0,
{
    let count = batch_count(total, batch_size);
    lemma_batch_count_bounds(total, batch_size);
    let start = index * batch_size;
    assert(start <= (count - 1) * batch_size) by (nonlinear_arith)
        requires
            start == index * batch_size,
            index <= count - 1,
            batch_size > 0,
    ;
    assert(0 <= start) by (nonlinear_arith)
        requires
            start == index * batch_size,
            0 <= index,
            batch_size > 0,
    ;
    assert((index + 1) * batch_size == start + batch_size) by (nonlinear_arith)
        requires
            start == index * batch_size,
    ;
    if index + 1 < count {
        assert((index + 1) * batch_size <= (count - 1) * batch_size) by (nonlinear_arith)
            requires
                index + 1 <= count - 1,
                batch_size > 0,
        ;
    } else {
        assert(total <= (index + 1) * batch_size);
    }
}

/// Batches go out strictly in order and one at a time: an accepted batch is
/// followed by the batch with the next index, which starts at the reading
/// where the accepted one ended; the last batch is followed by the end of the
/// export, with every batch counted; and a rejected batch ends the export at
/// once, reporting its own index and, as committed, the batches and readings
/// before it.
pub proof fn lemma_batches_go_out_in_order(total: int, batch_size: int, sent: Batch)
    requires
        0 <= total <= usize::MAX,
        0 < batch_size,
        is_batch(total, batch_size, sent),
    ensures
        sent.index + 1 < batch_count(total, batch_size) ==> (next_step(
            total,
            batch_size,
            sent,
            true,
        ) matches ExportStep::Submit(next) && is_batch(total, batch_size, next) && next.index
            == sent.index + 1 && next.start == sent.end),
        sent.index + 1 == batch_count(total, batch_size) ==> sent.end == total && next_step(
            total,
            batch_size,
            sent,
            true,
        ) == (ExportStep::Complete { batches: batch_count(total, batch_size) as usize }),
        next_step(total, batch_size, sent, false) == ExportStep::Aborted(
            BatchFailure {
                batch_index: sent.index,
                committed_batches: sent.index,
                committed_readings: (sent.index * batch_size) as usize,
            },
        ),
{
    lemma_batch_count_bounds(total, batch_size);
    lemma_batches_tile(total, batch_size, sent.index as int);
    if sent.index + 1 < batch_count(total, batch_size) {
        lemma_batches_tile(total, batch_size, sent.index + 1);
    }
}

/// An export starts with batch 0, unless there is nothing to send.
pub proof fn lemma_export_starts_at_the_first_batch(total: int, batch_size: int)
    requires
        0 <= total <= usize::MAX,
        0 < batch_size,
    ensures
        total == 0 ==> first_step(total, batch_size) == (ExportStep::Complete { batches: 0 }),
        total > 0 ==> (first_step(total, batch_size) matches ExportStep::Submit(first) && is_batch(
            total,
            batch_size,
            first,
        ) && first.index == 0 && first.start == 0),
{
    lemma_batch_count_bounds(total, batch_size);
    if total > 0 {
        lemma_batches_tile(total, batch_size, 0);
    }
}

} // verus!
