use integer_exponent_opencl::exp_device::{
    compute_plan, dispatch_steps, first_gpu, first_platform, read_back, Coherence, Step,
};
use integer_exponent_opencl::{ErrorKind, ExpModError};

#[test]
fn wrong_length_is_rejected_before_any_step() {
    let r = compute_plan(10, 9, Coherence::CoarseGrained, Coherence::CoarseGrained);
    match r {
        Err(e) => {
            assert_eq!(e.kind(), ErrorKind::LengthMismatch { expected: 10, actual: 9 });
            assert_eq!(e.message(), "Invalid array length: expected 10, got 9");
        }
        Ok(_) => panic!("a wrong length must fail"),
    }
    assert!(compute_plan(3, 0, Coherence::FineGrained, Coherence::FineGrained).is_err());
}

#[test]
fn fine_grained_plan_has_no_mapping() {
    let steps = compute_plan(4, 4, Coherence::FineGrained, Coherence::FineGrained).unwrap();
    assert_eq!(steps, vec![Step::WriteInput, Step::RunKernel, Step::ReadOutput]);
}

#[test]
fn coarse_grained_plan_maps_both_buffers() {
    let steps = dispatch_steps(Coherence::CoarseGrained, Coherence::CoarseGrained);
    assert_eq!(
        steps,
        vec![
            Step::MapInputForWrite,
            Step::WriteInput,
            Step::UnmapInput,
            Step::RunKernel,
            Step::MapOutputForRead,
            Step::ReadOutput,
            Step::UnmapOutput,
        ]
    );
}

#[test]
fn mixed_plans() {
    assert_eq!(
        dispatch_steps(Coherence::CoarseGrained, Coherence::FineGrained),
        vec![Step::MapInputForWrite, Step::WriteInput, Step::UnmapInput, Step::RunKernel, Step::ReadOutput]
    );
    assert_eq!(
        dispatch_steps(Coherence::FineGrained, Coherence::CoarseGrained),
        vec![Step::WriteInput, Step::RunKernel, Step::MapOutputForRead, Step::ReadOutput, Step::UnmapOutput]
    );
}

#[test]
fn read_back_copies_in_order() {
    let buf: Vec<u32> = vec![0, 1, 4, 9, 6, 5, 6, 9, 4, 1];
    assert_eq!(read_back(&buf), buf);
    let empty: Vec<i16> = Vec::new();
    assert_eq!(read_back(&empty), empty);
}

#[test]
fn first_device_is_taken() {
    assert_eq!(first_platform(3).unwrap(), 0);
    assert_eq!(first_gpu(1).unwrap(), 0);
}

#[test]
fn missing_platform_or_gpu() {
    let p = first_platform(0).unwrap_err();
    assert_eq!(p.kind(), ErrorKind::NoPlatformFound);
    assert_eq!(p.message(), "No platform found");
    let g = first_gpu(0).unwrap_err();
    assert_eq!(g.kind(), ErrorKind::NoDeviceFound);
    assert_eq!(g.message(), "No GPU found");
}

#[test]
fn error_keeps_message() {
    let e = ExpModError::new(ErrorKind::Compile, String::from("line 3: syntax error"));
    assert_eq!(e.kind(), ErrorKind::Compile);
    assert_eq!(e.message(), "line 3: syntax error");
}
