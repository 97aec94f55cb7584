//! The benchmark report: one record per variant, in the order the variants
//! were produced, each compared with the reference value computed once for the
//! whole run, and the lines that show them.
use vstd::prelude::*;
use vstd::string::*;
use crate::engine::{EngineError, TimingResult};
use crate::orchestrator::{CompilationFailure, program_of};
use crate::words::BinaryError;
use crate::text::{decimal, ms_text, push_decimal, push_ms, push_signed_decimal, signed_decimal};

verus! {

/// What became of one variant.
#[derive(Clone, Copy, Debug, PartialEq, Eq, Structural)]
pub enum VariantResult {
    /// The engine ran the variant.
    Ran(TimingResult),
    /// The engine failed on the variant.
    EngineFailed(EngineError),
    /// Its pipeline failed, so there was nothing to run.
    NotCompiled(CompilationFailure),
}

impl VariantResult {
    /// The result of one run of the engine.
    pub fn from_engine(r: Result<TimingResult, EngineError>) -> (v: VariantResult)
        ensures
            v == (match r {
                Ok(t) => VariantResult::Ran(t),
                Err(e) => VariantResult::EngineFailed(e),
            }),
    {
        match r {
            Ok(t) => VariantResult::Ran(t),
            Err(e) => VariantResult::EngineFailed(e),
        }
    }
}

/// What a record says of its variant.
#[derive(Clone, Copy, Debug, PartialEq, Eq, Structural)]
pub enum Outcome {
    /// The variant ran; `matched` tells whether its value equals the reference.
    Measured { timing: TimingResult, matched: bool },
    /// Its pipeline failed.
    NotCompiled(CompilationFailure),
    /// The engine failed on it.
    Failed(EngineError),
}

/// The outcome recorded for a variant's result against the reference value:
/// equality is exact.
pub open spec fn outcome_of(expected: u32, v: VariantResult) -> Outcome {
    match v {
        VariantResult::Ran(t) => Outcome::Measured { timing: t, matched: t.value == expected },
        VariantResult::EngineFailed(e) => Outcome::Failed(e),
        VariantResult::NotCompiled(f) => Outcome::NotCompiled(f),
    }
}

/// A result that ends the whole benchmark.
pub open spec fn is_fatal(v: VariantResult) -> bool {
    v == VariantResult::EngineFailed(EngineError::NoSuitableDevice)
}

/// What a record is: the variant's label, the reference value and the outcome.
pub struct RecordModel {
    pub label: Seq<char>,
    pub expected: u32,
    pub outcome: Outcome,
}

/// The record of one variant.
#[derive(Clone, Debug)]
pub struct BenchmarkRecord {
    pub label: String,
    pub expected: u32,
    pub outcome: Outcome,
}

impl View for BenchmarkRecord {
    type V = RecordModel;

    open spec fn view(&self) -> RecordModel {
        RecordModel { label: self.label@, expected: self.expected, outcome: self.outcome }
    }
}

/// What a report is: the reference value, the records so far, and whether a
/// failure has ended the run.
pub struct ReportModel {
    pub expected: u32,
    pub records: Seq<RecordModel>,
    pub halted: bool,
}

/// The records of a benchmark run.
pub struct Report {
    expected: u32,
    records: Vec<BenchmarkRecord>,
    halted: bool,
}

impl View for Report {
    type V = ReportModel;

    closed spec fn view(&self) -> ReportModel {
        ReportModel {
            expected: self.expected,
            records: self.records@.map_values(|r: BenchmarkRecord| r@),
            halted: self.halted,
        }
    }
}

/// A report with no records yet, against the reference value `expected`.
pub open spec fn empty_report(expected: u32) -> ReportModel {
    ReportModel { expected, records: Seq::empty(), halted: false }
}

/// Recording one variant: a halted report stays as it is; otherwise the
/// record is appended, and a fatal result halts the report.
pub open spec fn step(m: ReportModel, label: Seq<char>, v: VariantResult) -> ReportModel {
    if m.halted {
        m
    } else {
        ReportModel {
            expected: m.expected,
            records: m.records.push(
                RecordModel { label, expected: m.expected, outcome: outcome_of(m.expected, v) },
            ),
            halted: is_fatal(v),
        }
    }
}

/// Recording every variant in turn.
pub open spec fn record_all(
    m: ReportModel,
    labels: Seq<Seq<char>>,
    vs: Seq<VariantResult>,
) -> ReportModel
    decreases vs.len(),
{
    if vs.len() == 0 {
        m
    } else {
        step(
            record_all(m, labels.drop_last(), vs.drop_last()),
            labels[vs.len() - 1],
            vs.last(),
        )
    }
}

impl Report {
    /// A report with no records, against the reference value computed once
    /// for the run.
    pub fn new(expected: u32) -> (r: Report)
        ensures
            r@ == empty_report(expected),
    {
        let r = Report { expected, records: Vec::new(), halted: false };
        assert(r@.records =~= Seq::<RecordModel>::empty());
        r
    }

    /// The reference value every variant is compared with.
    pub fn expected(&self) -> (r: u32)
        ensures
            r == self@.expected,
    {
        self.expected
    }

    /// Whether a fatal failure has ended the run.
    pub fn is_halted(&self) -> (r: bool)
        ensures
            r == self@.halted,
    {
        self.halted
    }

    /// The records so far, in the order the variants were recorded.
    pub fn records(&self) -> (r: &Vec<BenchmarkRecord>)
        ensures
            r@.map_values(|x: BenchmarkRecord| x@) == self@.records,
    {
        &self.records
    }

    /// Records what became of the variant labelled `label`, and tells whether
    /// the run goes on.
    pub fn record(&mut self, label: &String, v: VariantResult) -> (go_on: bool)
        ensures
            final(self)@ == step(old(self)@, label@, v),
            go_on == !final(self)@.halted,
    {
        if self.halted {
            return false;
        }
        let outcome = match v {
            VariantResult::Ran(t) => Outcome::Measured {
                timing: t,
                matched: t.value == self.expected,
            },
            VariantResult::EngineFailed(e) => Outcome::Failed(e),
            VariantResult::NotCompiled(f) => Outcome::NotCompiled(f),
        };
        let fatal = match v {
            VariantResult::EngineFailed(e) => e.is_fatal_to_run(),
            _ => false,
        };
        let ghost before = self@.records;
        self.records.push(BenchmarkRecord { label: label.clone(), expected: self.expected, outcome });
        self.halted = fatal;
        assert(self@.records =~= before.push(
            RecordModel { label: label@, expected: self.expected, outcome: outcome_of(self.expected, v) },
        ));
        !fatal
    }
}

/// How a failed stage ended.
pub open spec fn exit_text(code: Option<i32>) -> Seq<char> {
    match code {
        None => "did not run to completion"@,
        Some(c) => if c == 0 {
            "left no output"@
        } else {
            "exited with "@ + signed_decimal(c as int)
        },
    }
}

/// What went wrong in the engine.
pub open spec fn failure_text(e: EngineError) -> Seq<char> {
    match e {
        EngineError::NoSuitableDevice => "no suitable device"@,
        EngineError::PipelineCreation { malformed } => match malformed {
            None => "pipeline creation failed"@,
            Some(BinaryError::Empty) => "empty binary"@,
            Some(BinaryError::NotWordAligned) => "binary is not a whole number of words"@,
            Some(BinaryError::BadMagic) => "binary lacks the SPIR-V magic number"@,
        },
        EngineError::MapFailure => "readback map failed"@,
    }
}

/// The line that flags a value differing from the reference.
pub open spec fn mismatch_text(cpu: u32, gpu: u32) -> Seq<char> {
    "cpu != gpu: "@ + decimal(cpu as nat) + " != "@ + decimal(gpu as nat)
}

/// The line of a measured variant: its duration, a tab, its label.
pub open spec fn duration_text(ns: u64, label: Seq<char>) -> Seq<char> {
    ms_text(ns) + "\t"@ + label
}

/// The lines that show one record: the duration line, followed by the
/// mismatch line when the value differs; or one diagnostic line naming the
/// missing variant and why it is missing.
pub open spec fn record_lines(r: RecordModel) -> Seq<Seq<char>> {
    match r.outcome {
        Outcome::Measured { timing, matched } => seq![duration_text(timing.elapsed_ns, r.label)]
            + if matched {
            Seq::empty()
        } else {
            seq![mismatch_text(r.expected, timing.value)]
        },
        Outcome::NotCompiled(f) => seq![
            "missing\t"@ + r.label + ": stage "@ + decimal(f.stage as nat) + " ("@ + program_of(
                f.tool,
            ) + ") "@ + exit_text(f.exit_code),
        ],
        Outcome::Failed(e) => seq!["missing\t"@ + r.label + ": "@ + failure_text(e)],
    }
}

/// The lines of all records, in record order.
pub open spec fn report_lines(rs: Seq<RecordModel>) -> Seq<Seq<char>>
    decreases rs.len(),
{
    if rs.len() == 0 {
        Seq::empty()
    } else {
        report_lines(rs.drop_last()) + record_lines(rs.last())
    }
}

/// The mismatch line for a reference value `cpu` and a GPU value `gpu`; none
/// when they are equal.
pub fn mismatch_line(cpu: u32, gpu: u32) -> (r: Option<String>)
    ensures
        cpu == gpu ==> r is None,
        cpu != gpu ==> (r matches Some(line) && line@ == mismatch_text(cpu, gpu)),
{
    if cpu == gpu {
        None
    } else {
        Some(mismatch_string(cpu, gpu))
    }
}

fn mismatch_string(cpu: u32, gpu: u32) -> (r: String)
    ensures
        r@ == mismatch_text(cpu, gpu),
{
    let mut line = String::from_str("cpu != gpu: ");
    push_decimal(&mut line, cpu as u64);
    line.append(" != ");
    push_decimal(&mut line, gpu as u64);
    assert(line@ =~= mismatch_text(cpu, gpu));
    line
}

/// The line of a measured variant.
pub fn duration_line(ns: u64, label: &String) -> (r: String)
    ensures
        r@ == duration_text(ns, label@),
{
    let mut line = String::new();
    push_ms(&mut line, ns);
    line.append("\t");
    line.append(label.as_str());
    assert(line@ =~= duration_text(ns, label@));
    line
}

fn push_exit(s: &mut String, code: Option<i32>)
    ensures
        final(s)@ == old(s)@ + exit_text(code),
{
    match code {
        None => s.append("did not run to completion"),
        Some(c) => {
            if c == 0 {
                s.append("left no output");
            } else {
                s.append("exited with ");
                push_signed_decimal(s, c);
                assert(final(s)@ =~= old(s)@ + exit_text(code));
            }
        },
    }
}

fn failure_str(e: EngineError) -> (r: &'static str)
    ensures
        r@ == failure_text(e),
{
    match e {
        EngineError::NoSuitableDevice => "no suitable device",
        EngineError::PipelineCreation { malformed } => match malformed {
            None => "pipeline creation failed",
            Some(BinaryError::Empty) => "empty binary",
            Some(BinaryError::NotWordAligned) => "binary is not a whole number of words",
            Some(BinaryError::BadMagic) => "binary lacks the SPIR-V magic number",
        },
        EngineError::MapFailure => "readback map failed",
    }
}

impl BenchmarkRecord {
    /// The lines that show this record.
    pub fn lines(&self) -> (r: Vec<String>)
        ensures
            r.deep_view() == record_lines(self@),
    {
        let mut r: Vec<String> = Vec::new();
        match self.outcome {
            Outcome::Measured { timing, matched } => {
                r.push(duration_line(timing.elapsed_ns, &self.label));
                if !matched {
                    r.push(mismatch_string(self.expected, timing.value));
                }
            },
            Outcome::NotCompiled(f) => {
                let mut line = String::from_str("missing\t");
                line.append(self.label.as_str());
                line.append(": stage ");
                push_decimal(&mut line, f.stage as u64);
                line.append(" (");
                line.append(f.tool.program().as_str());
                line.append(") ");
                push_exit(&mut line, f.exit_code);
                assert(line@ =~= record_lines(self@)[0]);
                r.push(line);
            },
            Outcome::Failed(e) => {
                let mut line = String::from_str("missing\t");
                line.append(self.label.as_str());
                line.append(": ");
                line.append(failure_str(e));
                r.push(line);
            },
        }
        assert(r.deep_view() =~= record_lines(self@));
        r
    }
}

impl Report {
    /// The lines of the whole report, record by record in record order.
    pub fn lines(&self) -> (r: Vec<String>)
        ensures
            r.deep_view() == report_lines(self@.records),
    {
        let mut r: Vec<String> = Vec::new();
        let mut i: usize = 0;
        while i < self.records.len()
            invariant
                i <= self.records@.len(),
                r.deep_view() == report_lines(self@.records.subrange(0, i as int)),
            decreases self.records@.len() - i,
        {
            let more = self.records[i].lines();
            let ghost before = r.deep_view();
            let mut j: usize = 0;
            while j < more.len()
                invariant
                    j <= more@.len(),
                    r.deep_view() == before + more.deep_view().subrange(0, j as int),
                decreases more@.len() - j,
            {
                let ghost prev = r.deep_view();
                let line = more[j].clone();
                r.push(line);
                assert(r.deep_view() =~= prev.push(line@));
                assert(more.deep_view()[j as int] == more@[j as int]@);
                j = j + 1;
                assert(r.deep_view() =~= before + more.deep_view().subrange(0, j as int));
            }
            let ghost done = self@.records.subrange(0, i + 1);
            assert(done.drop_last() =~= self@.records.subrange(0, i as int));
            assert(done.last() == self.records@[i as int]@);
            i = i + 1;
            assert(more.deep_view().subrange(0, more@.len() as int) =~= more.deep_view());
        }
        assert(self@.records.subrange(0, i as int) =~= self@.records);
        r
    }
}

/// Every variant recorded before a fatal failure yields exactly one record,
/// and the records come in the order the variants were recorded: the `k`-th
/// record is the `k`-th variant's, compared with the one reference value.
pub proof fn lemma_records_follow_order(
    expected: u32,
    labels: Seq<Seq<char>>,
    vs: Seq<VariantResult>,
)
    requires
        labels.len() == vs.len(),
        forall|i: int| 0 <= i < vs.len() ==> !is_fatal(#[trigger] vs[i]),
    ensures
        ({
            let m = record_all(empty_report(expected), labels, vs);
            &&& !m.halted
            &&& m.expected == expected
            &&& m.records.len() == vs.len()
            &&& forall|k: int|
                0 <= k < vs.len() ==> #[trigger] m.records[k] == (RecordModel {
                    label: labels[k],
                    expected,
                    outcome: outcome_of(expected, vs[k]),
                })
        }),
    decreases vs.len(),
{
    if vs.len() > 0 {
        let ls = labels.drop_last();
        let ws = vs.drop_last();
        assert forall|i: int| 0 <= i < ws.len() implies !is_fatal(#[trigger] ws[i]) by {
            assert(ws[i] == vs[i]);
        }
        lemma_records_follow_order(expected, ls, ws);
        let m = record_all(empty_report(expected), labels, vs);
        assert forall|k: int| 0 <= k < vs.len() implies #[trigger] m.records[k] == (RecordModel {
            label: labels[k],
            expected,
            outcome: outcome_of(expected, vs[k]),
        }) by {
            if k < vs.len() - 1 {
                assert(ls[k] == labels[k]);
                assert(ws[k] == vs[k]);
            }
        }
    }
}

/// One variant's failure, in compilation or in the engine, short of a fatal
/// one, changes no other variant's record: the records of every other variant
/// are those of the run where it did not fail.
pub proof fn lemma_failure_isolation(
    expected: u32,
    labels: Seq<Seq<char>>,
    vs: Seq<VariantResult>,
    k: int,
    failure: VariantResult,
)
    requires
        labels.len() == vs.len(),
        0 <= k < vs.len(),
        forall|i: int| 0 <= i < vs.len() ==> !is_fatal(#[trigger] vs[i]),
        !is_fatal(failure),
        !(failure is Ran),
    ensures
        ({
            let ok = record_all(empty_report(expected), labels, vs);
            let failed = record_all(empty_report(expected), labels, vs.update(k, failure));
            &&& failed.records.len() == ok.records.len()
            &&& forall|j: int| 0 <= j < vs.len() && j != k ==> #[trigger] failed.records[j] == ok.records[j]
            &&& failed.records[k].outcome == outcome_of(expected, failure)
        }),
{
    let ws = vs.update(k, failure);
    assert forall|i: int| 0 <= i < ws.len() implies !is_fatal(#[trigger] ws[i]) by {
        if i != k {
            assert(ws[i] == vs[i]);
        }
    }
    lemma_records_follow_order(expected, labels, vs);
    lemma_records_follow_order(expected, labels, ws);
    let ok = record_all(empty_report(expected), labels, vs);
    let failed = record_all(empty_report(expected), labels, ws);
    assert forall|j: int| 0 <= j < vs.len() && j != k implies #[trigger] failed.records[j]
        == ok.records[j] by {
        assert(ws[j] == vs[j]);
    }
}

/// The emitted lines keep the record order: the lines of the first `k`
/// records come first, followed by the lines of the rest.
pub proof fn lemma_lines_in_record_order(rs: Seq<RecordModel>, k: int)
    requires
        0 <= k <= rs.len(),
    ensures
        report_lines(rs) == report_lines(rs.subrange(0, k)) + report_lines(rs.subrange(k, rs.len() as int)),
    decreases rs.len(),
{
    if k == rs.len() {
        assert(rs.subrange(0, k) =~= rs);
        assert(rs.subrange(k, rs.len() as int) =~= Seq::<RecordModel>::empty());
        assert(report_lines(rs) + Seq::<Seq<char>>::empty() =~= report_lines(rs));
    } else {
        let init = rs.drop_last();
        lemma_lines_in_record_order(init, k);
        assert(init.subrange(0, k) =~= rs.subrange(0, k));
        let tail = rs.subrange(k, rs.len() as int);
        assert(tail.drop_last() =~= init.subrange(k, init.len() as int));
        assert(tail.last() == rs.last());
        assert(report_lines(rs) =~= report_lines(rs.subrange(0, k)) + report_lines(tail));
    }
}

} // verus!
