//! One telemetry publish cycle.
//!
//! A cycle forwards one record per celestial body, all stamped with the
//! time at which the snapshot was taken. Records go out one by one, in the
//! order of the snapshot; the first that the sink refuses ends the cycle,
//! and what is left of the batch is dropped. The caller sends; this module
//! decides what is sent next and when the cycle is over.

use vstd::prelude::*;

verus! {

/// What this crate fixes of a record: everything but the coordinates,
/// which the caller adds from the snapshot entry at `index`.
#[derive(Clone, Debug, PartialEq, Eq)]
pub struct TelemetryRecord {
    /// Position of the body in the snapshot.
    pub index: usize,
    /// The kind of object: always `"planet"`.
    pub type_object: String,
    /// The body's name, which is also the key of the record.
    pub name: String,
    /// Seconds since the epoch at which the snapshot was taken.
    pub timestamp: u64,
}

/// The state of a publish cycle as contracts see it.
pub struct BatchView {
    /// The names of the bodies, in snapshot order.
    pub names: Seq<Seq<char>>,
    /// The capture time of the snapshot.
    pub timestamp: u64,
    /// How many records the sink has accepted.
    pub delivered: nat,
    /// Whether the sink has refused a record.
    pub aborted: bool,
}

/// A record as contracts see it.
pub struct RecordView {
    pub index: nat,
    pub type_object: Seq<char>,
    pub name: Seq<char>,
    pub timestamp: u64,
}

impl View for TelemetryRecord {
    type V = RecordView;

    open spec fn view(&self) -> RecordView {
        RecordView {
            index: self.index as nat,
            type_object: self.type_object@,
            name: self.name@,
            timestamp: self.timestamp,
        }
    }
}

impl BatchView {
    /// A record is waiting to be sent.
    pub open spec fn pending(self) -> bool {
        !self.aborted && self.delivered < self.names.len()
    }

    /// The record to send next, if one is waiting.
    pub open spec fn next(self) -> Option<RecordView> {
        if self.pending() {
            Some(
                RecordView {
                    index: self.delivered,
                    type_object: "planet"@,
                    name: self.names[self.delivered as int],
                    timestamp: self.timestamp,
                },
            )
        } else {
            None
        }
    }

    /// The cycle after the sink answered for the waiting record: one more
    /// delivered, or the cycle aborted. Without a waiting record an answer
    /// changes nothing.
    pub open spec fn step(self, accepted: bool) -> BatchView {
        if !self.pending() {
            self
        } else if accepted {
            BatchView { delivered: self.delivered + 1, ..self }
        } else {
            BatchView { aborted: true, ..self }
        }
    }

    /// The cycle after a sequence of answers, first to last.
    pub open spec fn run(self, answers: Seq<bool>) -> BatchView
        decreases answers.len(),
    {
        if answers.len() == 0 {
            self
        } else {
            self.run(answers.drop_last()).step(answers.last())
        }
    }
}

/// A publish cycle in progress.
#[derive(Debug)]
pub struct TelemetryBatch {
    names: Vec<String>,
    timestamp: u64,
    delivered: usize,
    aborted: bool,
}

impl View for TelemetryBatch {
    type V = BatchView;

    closed spec fn view(&self) -> BatchView {
        BatchView {
            names: Seq::new(self.names@.len(), |i: int| self.names@[i]@),
            timestamp: self.timestamp,
            delivered: self.delivered as nat,
            aborted: self.aborted,
        }
    }
}

impl TelemetryBatch {
    #[verifier::type_invariant]
    spec fn inv(self) -> bool {
        self.delivered <= self.names@.len()
    }

    /// Starts a cycle for the bodies named `names`, captured at
    /// `timestamp`.
    pub fn new(names: Vec<String>, timestamp: u64) -> (batch: TelemetryBatch)
        ensures
            batch@.names == Seq::new(names@.len(), |i: int| names@[i]@),
            batch@.timestamp == timestamp,
            batch@.delivered == 0,
            !batch@.aborted,
    {
        TelemetryBatch { names, timestamp, delivered: 0, aborted: false }
    }

    /// The record to send next: `None` once every record was delivered or
    /// one was refused.
    pub fn next_record(&self) -> (r: Option<TelemetryRecord>)
        ensures
            r is Some <==> self@.pending(),
            r matches Some(record) ==> Some(record@) == self@.next(),
    {
        proof {
            use_type_invariant(self);
        }
        if self.aborted || self.delivered >= self.names.len() {
            None
        } else {
            Some(
                TelemetryRecord {
                    index: self.delivered,
                    type_object: "planet".to_owned(),
                    name: self.names[self.delivered].clone(),
                    timestamp: self.timestamp,
                },
            )
        }
    }

    /// Takes the sink's answer for the record that `next_record` handed
    /// out: `true` if it was accepted.
    pub fn record_result(&mut self, accepted: bool)
        ensures
            final(self)@ == old(self)@.step(accepted),
    {
        proof {
            use_type_invariant(&*self);
        }
        if !self.aborted && self.delivered < self.names.len() {
            if accepted {
                self.delivered = self.delivered + 1;
            } else {
                self.aborted = true;
            }
        }
    }

    /// How many records the sink has accepted.
    pub fn delivered(&self) -> (n: usize)
        ensures
            n == self@.delivered,
    {
        self.delivered
    }

    /// Whether the sink refused a record, which ended the cycle.
    pub fn is_aborted(&self) -> (aborted: bool)
        ensures
            aborted == self@.aborted,
    {
        self.aborted
    }

    /// Whether every record of the cycle was delivered.
    pub fn is_complete(&self) -> (complete: bool)
        ensures
            complete == (self@.delivered == self@.names.len()),
    {
        proof {
            use_type_invariant(self);
        }
        self.delivered == self.names.len()
    }
}

/// Whatever the sink answers, the cycle keeps its bodies and its capture
/// time, never counts more deliveries than it has bodies, and a cycle that
/// was aborted stays aborted.
pub proof fn lemma_run_keeps_snapshot(batch: BatchView, answers: Seq<bool>)
    requires
        batch.delivered <= batch.names.len(),
    ensures
        batch.run(answers).names == batch.names,
        batch.run(answers).timestamp == batch.timestamp,
        batch.delivered <= batch.run(answers).delivered <= batch.names.len(),
        batch.aborted ==> batch.run(answers) == batch,
    decreases answers.len(),
{
    if answers.len() > 0 {
        lemma_run_keeps_snapshot(batch, answers.drop_last());
    }
}

/// Every record that a cycle hands out, at whatever point of the cycle,
/// carries the capture time that the cycle was started with, is keyed by
/// the name of the body at its index, and is of kind `"planet"`.
pub proof fn lemma_records_share_timestamp(batch: BatchView, answers: Seq<bool>)
    requires
        batch.delivered <= batch.names.len(),
    ensures
        batch.run(answers).next() matches Some(record) ==> {
            &&& record.timestamp == batch.timestamp
            &&& record.index < batch.names.len()
            &&& record.name == batch.names[record.index as int]
            &&& record.type_object == "planet"@
        },
{
    lemma_run_keeps_snapshot(batch, answers);
}

/// The sink's first refusal ends the cycle: after it no record is waiting,
/// and the count of deliveries is the number of records accepted before.
pub proof fn lemma_refusal_ends_cycle(batch: BatchView, answers: Seq<bool>)
    requires
        batch.pending(),
    ensures
        batch.step(false).run(answers) == batch.step(false),
        batch.step(false).next() is None,
        batch.step(false).delivered == batch.delivered,
    decreases answers.len(),
{
    if answers.len() > 0 {
        lemma_refusal_ends_cycle(batch, answers.drop_last());
    }
}

} // verus!
