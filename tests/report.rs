use gpu_bench::engine::{EngineError, TimingResult};
use gpu_bench::orchestrator::{progress, CompilationFailure, Pipeline, Progress, Stage, StageStatus, Tool};
use gpu_bench::report::{duration_line, mismatch_line, Outcome, Report, VariantResult};
use gpu_bench::text::decimal_string;
use gpu_bench::words::BinaryError;

const R: u32 = 0x4120_0000;

fn ran(ns: u64, value: u32) -> VariantResult {
    VariantResult::Ran(TimingResult { elapsed_ns: ns, value })
}

#[test]
fn decimal_text() {
    assert_eq!(decimal_string(0), "0");
    assert_eq!(decimal_string(7), "7");
    assert_eq!(decimal_string(1090), "1090");
    assert_eq!(decimal_string(u64::MAX), "18446744073709551615");
}

#[test]
fn duration_in_tenths_of_ms() {
    let label = "wgsl".to_string();
    assert_eq!(duration_line(1_234_567, &label), "1.2ms\twgsl");
    assert_eq!(duration_line(1_250_000, &label), "1.3ms\twgsl");
    assert_eq!(duration_line(0, &label), "0.0ms\twgsl");
    assert_eq!(duration_line(99_950_000, &label), "100.0ms\twgsl");
}

#[test]
fn mismatch_only_when_values_differ() {
    assert_eq!(mismatch_line(5, 5), None);
    assert_eq!(mismatch_line(5, 6), Some("cpu != gpu: 5 != 6".to_string()));
}

#[test]
fn four_matching_backends_give_four_ordered_lines() {
    let labels = ["rust gpu", "slang", "wgsl > spirv-opt", "wgsl > spirv-opt > spirt"];
    let mut report = Report::new(R);
    for (i, label) in labels.iter().enumerate() {
        assert!(report.record(&label.to_string(), ran(1_000_000 * (i as u64 + 1), R)));
    }
    assert_eq!(report.expected(), R);
    assert_eq!(report.records().len(), 4);
    for (i, record) in report.records().iter().enumerate() {
        assert_eq!(record.label, labels[i]);
        assert_eq!(record.expected, R);
        match record.outcome {
            Outcome::Measured { timing, matched } => {
                assert!(matched);
                assert_eq!(timing.value, R);
            },
            other => panic!("unexpected {:?}", other),
        }
    }
    assert_eq!(
        report.lines(),
        vec![
            "1.0ms\trust gpu",
            "2.0ms\tslang",
            "3.0ms\twgsl > spirv-opt",
            "4.0ms\twgsl > spirv-opt > spirt"
        ]
    );
}

#[test]
fn mismatch_is_recorded_and_run_goes_on() {
    let mut report = Report::new(10);
    assert!(report.record(&"a".to_string(), ran(500_000, 11)));
    assert!(report.record(&"b".to_string(), ran(500_000, 10)));
    assert_eq!(
        report.lines(),
        vec!["0.5ms\ta", "cpu != gpu: 10 != 11", "0.5ms\tb"]
    );
    assert!(matches!(report.records()[0].outcome, Outcome::Measured { matched: false, .. }));
}

#[test]
fn failed_shading_compiler_leaves_other_backends() {
    let slang = Pipeline {
        label: "slang".to_string(),
        entry_point: "main".to_string(),
        source: "s.slang".to_string(),
        stages: vec![Stage {
            tool: Tool::Slangc,
            input: "s.slang".to_string(),
            output: "s.spv".to_string(),
        }],
        inspect: None,
    };
    let failure = match progress(&slang, &vec![StageStatus::Failed { exit_code: Some(1) }]) {
        Progress::Failed(f) => f,
        other => panic!("unexpected {:?}", other),
    };
    let mut report = Report::new(R);
    assert!(report.record(&"rust gpu".to_string(), ran(2_000_000, R)));
    assert!(report.record(&"slang".to_string(), VariantResult::NotCompiled(failure)));
    assert!(report.record(&"wgsl > spirv-opt".to_string(), ran(2_000_000, R)));
    assert!(report.record(&"wgsl > spirv-opt > spirt".to_string(), ran(2_000_000, R)));
    let measured = report
        .records()
        .iter()
        .filter(|r| matches!(r.outcome, Outcome::Measured { matched: true, .. }))
        .count();
    assert_eq!(measured, 3);
    assert_eq!(
        report.lines(),
        vec![
            "2.0ms\trust gpu",
            "missing\tslang: stage 0 (slangc) exited with 1",
            "2.0ms\twgsl > spirv-opt",
            "2.0ms\twgsl > spirv-opt > spirt"
        ]
    );
}

#[test]
fn pipeline_failure_diagnostics() {
    let mut report = Report::new(1);
    let f = |stage, tool, exit_code| {
        VariantResult::NotCompiled(CompilationFailure { stage, tool, exit_code })
    };
    report.record(&"a".to_string(), f(1, Tool::SpirvOpt, Some(0)));
    report.record(&"b".to_string(), f(2, Tool::LowerLinkLift, None));
    report.record(&"c".to_string(), f(0, Tool::Naga, Some(-3)));
    assert_eq!(
        report.lines(),
        vec![
            "missing\ta: stage 1 (spirv-opt) left no output",
            "missing\tb: stage 2 (spv-lower-link-lift) did not run to completion",
            "missing\tc: stage 0 (naga) exited with -3"
        ]
    );
}

#[test]
fn engine_failures_skip_only_their_variant() {
    let mut report = Report::new(1);
    let malformed = EngineError::PipelineCreation { malformed: Some(BinaryError::BadMagic) };
    assert!(report.record(&"a".to_string(), VariantResult::EngineFailed(malformed)));
    assert!(report.record(&"b".to_string(), VariantResult::EngineFailed(EngineError::MapFailure)));
    assert!(report.record(
        &"c".to_string(),
        VariantResult::EngineFailed(EngineError::PipelineCreation { malformed: None })
    ));
    assert!(report.record(&"d".to_string(), ran(100_000, 1)));
    assert!(!report.is_halted());
    assert_eq!(
        report.lines(),
        vec![
            "missing\ta: binary lacks the SPIR-V magic number",
            "missing\tb: readback map failed",
            "missing\tc: pipeline creation failed",
            "0.1ms\td"
        ]
    );
}

#[test]
fn device_failure_halts_the_run() {
    let mut report = Report::new(1);
    assert!(!report.record(&"a".to_string(), VariantResult::EngineFailed(EngineError::NoSuitableDevice)));
    assert!(report.is_halted());
    assert!(!report.record(&"b".to_string(), ran(1, 1)));
    assert_eq!(report.records().len(), 1);
    assert_eq!(report.lines(), vec!["missing\ta: no suitable device"]);
}

#[test]
fn variant_result_from_engine() {
    let t = TimingResult { elapsed_ns: 3, value: 4 };
    assert_eq!(VariantResult::from_engine(Ok(t)), VariantResult::Ran(t));
    assert_eq!(
        VariantResult::from_engine(Err(EngineError::MapFailure)),
        VariantResult::EngineFailed(EngineError::MapFailure)
    );
}
