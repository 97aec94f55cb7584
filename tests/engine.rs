use gpu_bench::engine::{
    binding_layout, dispatch_plan, elapsed_ticks, shader_words, storage_size, ticks_to_ns, timed_ticks,
    timing_result, uniform_block, uniform_bytes, zeroed_storage, Binding, BindingKind,
    EncoderCommand, EngineError, PassCommand, TimingResult, WorkloadParameters, INVOCATIONS,
    WARM_UP_DISPATCHES,
};
use gpu_bench::options::Options;
use gpu_bench::words::{read_u32, spirv_words, words_to_bytes, BinaryError, SPIRV_MAGIC};

fn le_module(words: &[u32]) -> Vec<u8> {
    words.iter().flat_map(|w| w.to_le_bytes()).collect()
}

fn be_module(words: &[u32]) -> Vec<u8> {
    words.iter().flat_map(|w| w.to_be_bytes()).collect()
}

fn ne_bytes(words: &[u32]) -> Vec<u8> {
    words.iter().flat_map(|w| w.to_ne_bytes()).collect()
}

#[test]
fn layout_has_storage_then_uniform() {
    assert_eq!(
        binding_layout(),
        vec![
            Binding { index: 0, kind: BindingKind::StorageReadWrite },
            Binding { index: 1, kind: BindingKind::Uniform },
        ]
    );
}

#[test]
fn storage_holds_one_scalar_per_invocation() {
    assert_eq!(storage_size(INVOCATIONS), 4);
    assert_eq!(storage_size(3), 12);
    assert_eq!(zeroed_storage(INVOCATIONS), vec![0u8; 4]);
    assert!(zeroed_storage(0).is_empty());
}

#[test]
fn uniform_block_replicates_size() {
    assert_eq!(uniform_block(WorkloadParameters { size: 512 }), [512, 512, 512, 512]);
    let options = Options { size: 77, compile_slang: false };
    assert_eq!(uniform_block(options.workload()), [77; 4]);
}

#[test]
fn uniform_bytes_carry_size_in_every_lane() {
    let bytes = uniform_bytes(WorkloadParameters { size: 512 });
    assert_eq!(bytes.len(), 16);
    for lane in 0..4 {
        let word = u32::from_ne_bytes(bytes[4 * lane..4 * lane + 4].try_into().unwrap());
        assert_eq!(word, 512);
        assert_eq!(&bytes[4 * lane..4 * lane + 4], &bytes[0..4]);
    }
    assert_eq!(bytes, ne_bytes(&[512; 4]));
}

#[test]
fn uniform_bytes_are_not_the_bare_size() {
    let bytes = uniform_bytes(WorkloadParameters { size: 0x0102_0304 });
    assert_eq!(bytes, ne_bytes(&[0x0102_0304; 4]));
    assert_ne!(bytes[0], bytes[1]);
}

#[test]
fn words_to_bytes_lays_words_out_in_order() {
    let bytes = words_to_bytes(&[1, 2, 3, 4]);
    assert_eq!(bytes, ne_bytes(&[1, 2, 3, 4]));
}

#[test]
fn plan_times_exactly_one_dispatch_after_warm_ups() {
    let plan = dispatch_plan(WARM_UP_DISPATCHES, 4);
    let unit = PassCommand::Dispatch { x: 1, y: 1, z: 1 };
    assert_eq!(
        plan.pass,
        vec![
            PassCommand::SetBindGroup { group: 0 },
            PassCommand::SetPipeline,
            unit,
            unit,
            unit,
            unit,
            PassCommand::WriteTimestamp { query: 0 },
            unit,
            PassCommand::WriteTimestamp { query: 1 },
        ]
    );
    assert_eq!(
        plan.after_pass,
        vec![
            EncoderCommand::CopyStorageToReadback { size: 4 },
            EncoderCommand::ResolveTimestamps { first: 0, count: 2 },
        ]
    );
    let start = plan.pass.iter().position(|c| *c == PassCommand::WriteTimestamp { query: 0 });
    let end = plan.pass.iter().position(|c| *c == PassCommand::WriteTimestamp { query: 1 });
    let (start, end) = (start.unwrap(), end.unwrap());
    let timed = plan.pass[start..end].iter().filter(|c| matches!(c, PassCommand::Dispatch { .. }));
    assert_eq!(timed.count(), 1);
}

#[test]
fn plan_without_warm_ups() {
    let plan = dispatch_plan(0, 8);
    assert_eq!(plan.pass.len(), 5);
    assert_eq!(plan.pass[2], PassCommand::WriteTimestamp { query: 0 });
    assert_eq!(plan.after_pass[0], EncoderCommand::CopyStorageToReadback { size: 8 });
}

#[test]
fn elapsed_ticks_never_negative() {
    assert_eq!(elapsed_ticks(100, 350), 250);
    assert_eq!(elapsed_ticks(350, 100), 0);
    assert_eq!(elapsed_ticks(7, 7), 0);
}

#[test]
fn timed_ticks_reads_start_then_end() {
    let mut stamps: Vec<u8> = Vec::new();
    stamps.extend_from_slice(&1000u64.to_ne_bytes());
    stamps.extend_from_slice(&1750u64.to_ne_bytes());
    assert_eq!(timed_ticks(&stamps), Some(750));
    assert_eq!(timed_ticks(&stamps[..15].to_vec()), None);
}

#[test]
fn read_u32_takes_the_first_scalar() {
    let bytes = ne_bytes(&[0xDEAD_BEEF, 5]);
    assert_eq!(read_u32(&bytes), Some(0xDEAD_BEEF));
    assert_eq!(read_u32(&vec![1, 2, 3]), None);
}

#[test]
fn timing_result_decodes_value() {
    let bytes = ne_bytes(&[42]);
    assert_eq!(timing_result(&bytes, 1234), Ok(TimingResult { elapsed_ns: 1234, value: 42 }));
    assert_eq!(timing_result(&vec![], 1234), Err(EngineError::MapFailure));
}

#[test]
fn spirv_words_little_endian() {
    let words = [SPIRV_MAGIC, 0x0001_0000, 7];
    assert_eq!(spirv_words(&le_module(&words)), Ok(words.to_vec()));
}

#[test]
fn spirv_words_big_endian() {
    let words = [SPIRV_MAGIC, 0x0001_0300, 0xAABB_CCDD];
    assert_eq!(spirv_words(&be_module(&words)), Ok(words.to_vec()));
}

#[test]
fn spirv_words_rejects_malformed() {
    assert_eq!(spirv_words(&vec![]), Err(BinaryError::Empty));
    assert_eq!(spirv_words(&vec![3, 2, 0x23, 7, 1]), Err(BinaryError::NotWordAligned));
    assert_eq!(spirv_words(&le_module(&[0x1234_5678, 1])), Err(BinaryError::BadMagic));
}

#[test]
fn shader_words_maps_malformed_to_pipeline_failure() {
    assert_eq!(
        shader_words(&vec![1, 2]),
        Err(EngineError::PipelineCreation { malformed: Some(BinaryError::NotWordAligned) })
    );
    assert_eq!(shader_words(&le_module(&[SPIRV_MAGIC])), Ok(vec![SPIRV_MAGIC]));
}

#[test]
fn only_device_failure_is_fatal() {
    assert!(EngineError::NoSuitableDevice.is_fatal_to_run());
    assert!(!EngineError::MapFailure.is_fatal_to_run());
    assert!(!EngineError::PipelineCreation { malformed: None }.is_fatal_to_run());
}

#[test]
fn ticks_scale_by_period_in_picoseconds() {
    assert_eq!(ticks_to_ns(750, 1000), 750);
    assert_eq!(ticks_to_ns(3, 83_333), 249);
    assert_eq!(ticks_to_ns(0, 52_083), 0);
    assert_eq!(ticks_to_ns(u64::MAX, 2000), u64::MAX);
    assert_eq!(ticks_to_ns(u64::MAX, 1000), u64::MAX);
}
