//! The GPU execution engine's decisions: the resource layout every variant is
//! bound with, the buffers it gets, the commands it is recorded with, and how
//! what comes back is turned into a timing result.
use vstd::prelude::*;
use crate::lanes::U32ScalarSwizzle;
use crate::words::{
    BinaryError,
    le_u64,
    flip8,
    read_u32,
    read_u64_at,
    spirv_spec,
    spirv_words,
    word_at,
    word_bytes,
    words_bytes,
    words_to_bytes,
    lemma_word_round_trip,
};

verus! {

/// The parameters of one benchmark run.
#[derive(Clone, Copy, Debug, PartialEq, Eq, Structural)]
pub struct WorkloadParameters {
    /// The side of the square grid of cells the workload evaluates.
    pub size: u32,
}

/// How a binding of the resource layout is accessed.
#[derive(Clone, Copy, Debug, PartialEq, Eq, Structural)]
pub enum BindingKind {
    /// A storage buffer the kernel reads and writes.
    StorageReadWrite,
    /// A uniform buffer the kernel only reads.
    Uniform,
}

/// One binding of the resource layout.
#[derive(Clone, Copy, Debug, PartialEq, Eq, Structural)]
pub struct Binding {
    pub index: u32,
    pub kind: BindingKind,
}

/// The fixed two-binding layout: the workload's output at binding zero and
/// its parameters at binding one.
pub open spec fn layout_spec() -> Seq<Binding> {
    seq![
        Binding { index: 0, kind: BindingKind::StorageReadWrite },
        Binding { index: 1, kind: BindingKind::Uniform },
    ]
}

/// The resource layout every compiled variant is bound with.
pub fn binding_layout() -> (r: Vec<Binding>)
    ensures
        r@ == layout_spec(),
{
    let r = vec![
        Binding { index: 0, kind: BindingKind::StorageReadWrite },
        Binding { index: 1, kind: BindingKind::Uniform },
    ];
    assert(r@ =~= layout_spec());
    r
}

/// The bytes of one output scalar.
pub const SCALAR_BYTES: u64 = 4;

/// The number of kernel invocations of one timed dispatch: the workload is
/// reduced to a single result by a single invocation.
pub const INVOCATIONS: u32 = 1;

/// The size in bytes of the storage buffer, and of the readback buffer that
/// mirrors it: one scalar per invocation.
pub fn storage_size(invocations: u32) -> (r: u64)
    ensures
        r == SCALAR_BYTES * invocations,
{
    SCALAR_BYTES * invocations as u64
}

/// The initial contents of the storage buffer: one zero scalar per invocation.
pub fn zeroed_storage(invocations: u32) -> (r: Vec<u8>)
    ensures
        r@.len() == SCALAR_BYTES * invocations,
        forall|i: int| 0 <= i < r@.len() ==> r@[i] == 0u8,
{
    let n: u64 = storage_size(invocations);
    let mut r: Vec<u8> = Vec::new();
    let mut i: u64 = 0;
    while i < n
        invariant
            i <= n,
            r@.len() == i,
            forall|j: int| 0 <= j < r@.len() ==> r@[j] == 0u8,
        decreases n - i,
    {
        r.push(0u8);
        i = i + 1;
    }
    r
}

/// The parameter block: the size replicated into all four lanes, of which
/// the kernel reads the first; the other three keep the block aligned.
pub fn uniform_block(params: WorkloadParameters) -> (r: [u32; 4])
    ensures
        r@ == seq![params.size, params.size, params.size, params.size],
{
    params.size.xxxx()
}

/// The bytes the uniform buffer is filled with: the parameter block as it
/// lies in memory.
pub fn uniform_bytes(params: WorkloadParameters) -> (r: Vec<u8>)
    ensures
        r@.len() == 16,
        exists|big: bool|
            r@ == words_bytes(seq![params.size, params.size, params.size, params.size], big),
{
    let block = uniform_block(params);
    let r = words_to_bytes(&block);
    assert(r@ == words_bytes(block@, r@ != words_bytes(block@, false)));
    r
}

/// Every lane of the uniform buffer's bytes holds the size: each four-byte
/// lane is the same bytes, and they read back as the size, whichever lane a
/// kernel reads.
pub proof fn lemma_uniform_lanes(size: u32, bytes: Seq<u8>, big: bool, lane: int)
    requires
        bytes == words_bytes(seq![size, size, size, size], big),
        0 <= lane < 4,
    ensures
        bytes.subrange(4 * lane, 4 * lane + 4) == word_bytes(size, big),
        word_at(bytes, lane, big) == size,
{
    lemma_word_round_trip(size, big);
    let s = seq![size, size, size, size];
    assert forall|k: int| 0 <= k < 4 implies bytes[4 * lane + k] == word_bytes(size, big)[k] by {
        assert((4 * lane + k) / 4 == lane);
        assert((4 * lane + k) % 4 == k);
    }
    assert(bytes.subrange(4 * lane, 4 * lane + 4) =~= word_bytes(size, big));
}

/// How many dispatches prime the GPU's clocks and caches before the timed one.
pub const WARM_UP_DISPATCHES: usize = 4;

/// The timestamp query written just before the timed dispatch.
pub const START_QUERY: u32 = 0;

/// The timestamp query written just after the timed dispatch.
pub const END_QUERY: u32 = 1;

/// A command recorded inside the compute pass.
#[derive(Clone, Copy, Debug, PartialEq, Eq, Structural)]
pub enum PassCommand {
    SetBindGroup { group: u32 },
    SetPipeline,
    Dispatch { x: u32, y: u32, z: u32 },
    WriteTimestamp { query: u32 },
}

/// A command recorded on the encoder once the compute pass has ended.
#[derive(Clone, Copy, Debug, PartialEq, Eq, Structural)]
pub enum EncoderCommand {
    /// Copy this many bytes from the storage buffer into the readback buffer.
    CopyStorageToReadback { size: u64 },
    /// Resolve `count` timestamp queries from `first` on into their buffer.
    ResolveTimestamps { first: u32, count: u32 },
}

/// Everything recorded for one variant, in order: the compute pass, then what
/// follows it on the same encoder.
#[derive(Clone, Debug)]
pub struct DispatchPlan {
    pub pass: Vec<PassCommand>,
    pub after_pass: Vec<EncoderCommand>,
}

/// One dispatch of a single workgroup: the workload's single unit of work.
pub open spec fn unit_dispatch() -> PassCommand {
    PassCommand::Dispatch { x: 1, y: 1, z: 1 }
}

/// The compute pass: bind the resources and the pipeline, prime the GPU with
/// `warm_ups` dispatches, then time exactly one dispatch between the two
/// timestamp writes.
pub open spec fn pass_spec(warm_ups: nat) -> Seq<PassCommand> {
    seq![PassCommand::SetBindGroup { group: 0 }, PassCommand::SetPipeline] + Seq::new(
        warm_ups,
        |i: int| unit_dispatch(),
    ) + seq![
        PassCommand::WriteTimestamp { query: START_QUERY },
        unit_dispatch(),
        PassCommand::WriteTimestamp { query: END_QUERY },
    ]
}

/// After the pass: copy the result out and resolve both timestamps.
pub open spec fn after_pass_spec(size: u64) -> Seq<EncoderCommand> {
    seq![
        EncoderCommand::CopyStorageToReadback { size },
        EncoderCommand::ResolveTimestamps { first: START_QUERY, count: 2 },
    ]
}

/// The commands that run one variant, with `warm_ups` untimed dispatches and
/// a storage buffer of `size` bytes.
pub fn dispatch_plan(warm_ups: usize, size: u64) -> (r: DispatchPlan)
    ensures
        r.pass@ == pass_spec(warm_ups as nat),
        r.after_pass@ == after_pass_spec(size),
{
    let mut pass: Vec<PassCommand> = Vec::new();
    pass.push(PassCommand::SetBindGroup { group: 0 });
    pass.push(PassCommand::SetPipeline);
    let mut i: usize = 0;
    while i < warm_ups
        invariant
            i <= warm_ups,
            pass@ == seq![PassCommand::SetBindGroup { group: 0 }, PassCommand::SetPipeline]
                + Seq::new(i as nat, |j: int| unit_dispatch()),
        decreases warm_ups - i,
    {
        pass.push(PassCommand::Dispatch { x: 1, y: 1, z: 1 });
        i = i + 1;
        assert(pass@ =~= seq![PassCommand::SetBindGroup { group: 0 }, PassCommand::SetPipeline]
            + Seq::new(i as nat, |j: int| unit_dispatch()));
    }
    pass.push(PassCommand::WriteTimestamp { query: START_QUERY });
    pass.push(PassCommand::Dispatch { x: 1, y: 1, z: 1 });
    pass.push(PassCommand::WriteTimestamp { query: END_QUERY });
    assert(pass@ =~= pass_spec(warm_ups as nat));
    let after_pass = vec![
        EncoderCommand::CopyStorageToReadback { size },
        EncoderCommand::ResolveTimestamps { first: START_QUERY, count: 2 },
    ];
    assert(after_pass@ =~= after_pass_spec(size));
    DispatchPlan { pass, after_pass }
}

/// The warm-up dispatches stay outside the timed interval: the only timestamp
/// writes are the start and the end query, exactly one dispatch lies between
/// them, and every other dispatch comes before the start.
pub proof fn lemma_timed_window(warm_ups: nat)
    ensures
        ({
            let p = pass_spec(warm_ups);
            let s: int = warm_ups as int + 2;
            &&& p.len() == warm_ups + 5
            &&& p[s] == PassCommand::WriteTimestamp { query: START_QUERY }
            &&& p[s + 1] == unit_dispatch()
            &&& p[s + 2] == PassCommand::WriteTimestamp { query: END_QUERY }
            &&& forall|i: int|
                0 <= i < p.len() && #[trigger] p[i] is WriteTimestamp ==> i == s || i == s + 2
            &&& forall|i: int|
                0 <= i < p.len() && #[trigger] p[i] is Dispatch ==> 2 <= i < s || i == s + 1
        }),
{
    let p = pass_spec(warm_ups);
    let s: int = warm_ups as int + 2;
    assert forall|i: int| 0 <= i < p.len() implies (#[trigger] p[i] is WriteTimestamp ==> i == s
        || i == s + 2) && (p[i] is Dispatch ==> 2 <= i < s || i == s + 1) by {
        if i >= 2 && i < s {
            assert(p[i] == unit_dispatch());
        }
    }
}

/// The device ticks between the two timestamps; a clock that went backwards
/// measured nothing.
pub open spec fn elapsed_spec(start: u64, end: u64) -> u64 {
    if end >= start {
        (end - start) as u64
    } else {
        0
    }
}

/// The device ticks between a start and an end timestamp.
pub fn elapsed_ticks(start: u64, end: u64) -> (r: u64)
    ensures
        r == elapsed_spec(start, end),
{
    if end >= start {
        end - start
    } else {
        0
    }
}

/// The nanoseconds that `ticks` device ticks last, at `period_ps` picoseconds
/// per tick, rounded down; a span too long for 64 bits saturates.
pub open spec fn ticks_ns_spec(ticks: u64, period_ps: u64) -> u64 {
    let ns = ticks as int * period_ps as int / 1000;
    if ns > u64::MAX as int {
        u64::MAX
    } else {
        ns as u64
    }
}

/// Scales a tick count by the device's timestamp period into nanoseconds.
pub fn ticks_to_ns(ticks: u64, period_ps: u64) -> (r: u64)
    ensures
        r == ticks_ns_spec(ticks, period_ps),
{
    assert(ticks as int * period_ps as int <= u64::MAX as int * u64::MAX as int) by (nonlinear_arith)
        requires
            0 <= ticks <= u64::MAX,
            0 <= period_ps <= u64::MAX,
    ;
    let product: u128 = ticks as u128 * period_ps as u128;
    let ns: u128 = product / 1000;
    if ns > u64::MAX as u128 {
        u64::MAX
    } else {
        ns as u64
    }
}

/// `v` is the `i`-th eight-byte word of `b` in one of the two byte orders.
pub open spec fn reads_u64_at(b: Seq<u8>, i: int, v: u64) -> bool {
    let w = b.subrange(8 * i, 8 * i + 8);
    v == le_u64(w) || v == le_u64(flip8(w))
}

/// The device ticks of the timed dispatch from the resolved timestamp bytes:
/// the start query's word, then the end query's; none when fewer than two
/// words came back.
pub fn timed_ticks(stamps: &Vec<u8>) -> (r: Option<u64>)
    ensures
        stamps@.len() < 16 ==> r is None,
        stamps@.len() >= 16 ==> (r matches Some(t) && exists|start: u64, end: u64|
            reads_u64_at(stamps@, 0, start) && reads_u64_at(stamps@, 1, end) && t
                == elapsed_spec(start, end)),
{
    if stamps.len() < 16 {
        None
    } else {
        let start = read_u64_at(stamps, 0);
        let end = read_u64_at(stamps, 1);
        assert(reads_u64_at(stamps@, 0, start) && reads_u64_at(stamps@, 1, end));
        Some(elapsed_ticks(start, end))
    }
}

/// What one run of the engine yields: how long the timed dispatch took on the
/// device, and the raw bits of the scalar it left.
#[derive(Clone, Copy, Debug, PartialEq, Eq, Structural)]
pub struct TimingResult {
    pub elapsed_ns: u64,
    pub value: u32,
}

/// The ways one run of the engine fails.
#[derive(Clone, Copy, Debug, PartialEq, Eq, Structural)]
pub enum EngineError {
    /// No adapter or device offers the features the benchmark needs.
    NoSuitableDevice,
    /// The variant could not become a compute pipeline; when its binary is
    /// malformed, why.
    PipelineCreation { malformed: Option<BinaryError> },
    /// The driver failed to map the readback buffer.
    MapFailure,
}

impl EngineError {
    /// Whether the failure ends the whole benchmark rather than one variant.
    pub fn is_fatal_to_run(&self) -> (r: bool)
        ensures
            r == (*self == EngineError::NoSuitableDevice),
    {
        match self {
            EngineError::NoSuitableDevice => true,
            _ => false,
        }
    }
}

/// The words of a variant's binary, ready to be loaded as a shader module; a
/// malformed binary fails pipeline creation.
pub fn shader_words(binary: &Vec<u8>) -> (r: Result<Vec<u32>, EngineError>)
    ensures
        match (r, spirv_spec(binary@)) {
            (Ok(w), Ok(ws)) => w@ == ws,
            (Err(e), Err(f)) => e == EngineError::PipelineCreation { malformed: Some(f) },
            _ => false,
        },
{
    match spirv_words(binary) {
        Ok(w) => Ok(w),
        Err(f) => Err(EngineError::PipelineCreation { malformed: Some(f) }),
    }
}

/// The timing result of one run from the readback bytes of the storage buffer
/// and the elapsed time; the value is the first scalar in the machine's byte
/// order, and a readback shorter than one scalar is a failed map.
pub fn timing_result(readback: &Vec<u8>, elapsed_ns: u64) -> (r: Result<TimingResult, EngineError>)
    ensures
        readback@.len() < 4 ==> r == Err::<TimingResult, EngineError>(EngineError::MapFailure),
        readback@.len() >= 4 ==> (r matches Ok(t) && t.elapsed_ns == elapsed_ns && (t.value
            == word_at(readback@, 0, false) || t.value == word_at(readback@, 0, true))),
{
    match read_u32(readback) {
        Some(value) => Ok(TimingResult { elapsed_ns, value }),
        None => Err(EngineError::MapFailure),
    }
}

} // verus!
