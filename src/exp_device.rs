use crate::error::{ErrorKind, ExpModError};
use crate::number::Number;
use vstd::prelude::*;

verus! {

/// How host and device see each other's writes to a shared buffer.
#[derive(Clone, Copy, Debug, PartialEq, Eq, Structural)]
pub enum Coherence {
    /// Writes are observed without explicit mapping.
    FineGrained,
    /// The host must map the buffer before touching it and unmap it before
    /// the device may use it.
    CoarseGrained,
}

/// One host-side operation of a compute call, on the engine's input and
/// output buffers.
#[derive(Clone, Copy, Debug, PartialEq, Eq, Structural)]
pub enum Step {
    /// Map the input buffer for writing, blocking until mapped.
    MapInputForWrite,
    /// Copy the caller's elements into the input buffer.
    WriteInput,
    /// Unmap the input buffer and wait until the unmap has completed.
    UnmapInput,
    /// Run the kernel over every element and wait for its completion.
    RunKernel,
    /// Map the output buffer for reading, blocking until mapped.
    MapOutputForRead,
    /// Copy the output buffer into a fresh result.
    ReadOutput,
    /// Unmap the output buffer.
    UnmapOutput,
}

/// `[s]` for a coarse-grained buffer, nothing for a fine-grained one.
pub open spec fn if_coarse(c: Coherence, s: Step) -> Seq<Step> {
    if c is CoarseGrained {
        seq![s]
    } else {
        seq![]
    }
}

/// The steps of one compute call, in order: the map/unmap of a buffer is
/// present exactly when that buffer is coarse-grained.
pub open spec fn dispatch_plan(input: Coherence, output: Coherence) -> Seq<Step> {
    if_coarse(input, Step::MapInputForWrite)
        + seq![Step::WriteInput]
        + if_coarse(input, Step::UnmapInput)
        + seq![Step::RunKernel]
        + if_coarse(output, Step::MapOutputForRead)
        + seq![Step::ReadOutput]
        + if_coarse(output, Step::UnmapOutput)
}

/// Whether the input and the output buffer are mapped by the host after the
/// first `k` steps of `plan`.
pub open spec fn mapped_after(plan: Seq<Step>, k: int) -> (bool, bool)
    decreases k,
{
    if k <= 0 {
        (false, false)
    } else {
        let (i, o) = mapped_after(plan, k - 1);
        match plan[k - 1] {
            Step::MapInputForWrite => (true, o),
            Step::UnmapInput => (false, o),
            Step::MapOutputForRead => (i, true),
            Step::UnmapOutput => (i, false),
            _ => (i, o),
        }
    }
}

/// Whether step `s` may run in mapping state `m`: the host touches a
/// coarse-grained buffer only while it holds it mapped, maps only what is
/// unmapped and coarse-grained, and the device runs only when the host holds
/// no buffer.
pub open spec fn step_allowed(
    s: Step,
    input: Coherence,
    output: Coherence,
    m: (bool, bool),
) -> bool {
    match s {
        Step::MapInputForWrite => input is CoarseGrained && !m.0,
        Step::WriteInput => input is FineGrained || m.0,
        Step::UnmapInput => input is CoarseGrained && m.0,
        Step::RunKernel => !m.0 && !m.1,
        Step::MapOutputForRead => output is CoarseGrained && !m.1,
        Step::ReadOutput => output is FineGrained || m.1,
        Step::UnmapOutput => output is CoarseGrained && m.1,
    }
}

/// Every step of `plan` is allowed where it stands, and no buffer is left
/// mapped at the end.
pub open spec fn respects_coherence(plan: Seq<Step>, input: Coherence, output: Coherence) -> bool {
    &&& forall|k: int|
        0 <= k < plan.len() ==> step_allowed(
            #[trigger] plan[k],
            input,
            output,
            mapped_after(plan, k),
        )
    &&& mapped_after(plan, plan.len() as int) == (false, false)
}

/// The input is written before the kernel runs, and the output is read after.
pub open spec fn data_ordered(plan: Seq<Step>) -> bool {
    exists|w: int, k: int, r: int|
        #![trigger plan[w], plan[k], plan[r]]
        0 <= w < k < r < plan.len() && plan[w] == Step::WriteInput && plan[k] == Step::RunKernel
            && plan[r] == Step::ReadOutput
}

/// The dispatch protocol keeps the coherence rules of both buffers in every
/// state, whatever their modes, and moves the data input, kernel, output in
/// that order.
pub proof fn lemma_dispatch_plan_coherent(input: Coherence, output: Coherence)
    ensures
        respects_coherence(dispatch_plan(input, output), input, output),
        data_ordered(dispatch_plan(input, output)),
{
    reveal_with_fuel(mapped_after, 8);
    let p = dispatch_plan(input, output);
    let w = Step::WriteInput;
    let k = Step::RunKernel;
    let r = Step::ReadOutput;
    let mi = Step::MapInputForWrite;
    let ui = Step::UnmapInput;
    let mo = Step::MapOutputForRead;
    let uo = Step::UnmapOutput;
    match (input, output) {
        (Coherence::FineGrained, Coherence::FineGrained) => {
            assert(p =~= seq![w, k, r]);
            assert(p[0] == w && p[1] == k && p[2] == r);
        },
        (Coherence::FineGrained, Coherence::CoarseGrained) => {
            assert(p =~= seq![w, k, mo, r, uo]);
            assert(p[0] == w && p[1] == k && p[3] == r);
        },
        (Coherence::CoarseGrained, Coherence::FineGrained) => {
            assert(p =~= seq![mi, w, ui, k, r]);
            assert(p[1] == w && p[3] == k && p[4] == r);
        },
        (Coherence::CoarseGrained, Coherence::CoarseGrained) => {
            assert(p =~= seq![mi, w, ui, k, mo, r, uo]);
            assert(p[1] == w && p[3] == k && p[5] == r);
        },
    }
}

/// The steps of one compute call for buffers of the given coherence modes.
pub fn dispatch_steps(input: Coherence, output: Coherence) -> (r: Vec<Step>)
    ensures
        r@ == dispatch_plan(input, output),
{
    let mut r: Vec<Step> = Vec::new();
    if input == Coherence::CoarseGrained {
        r.push(Step::MapInputForWrite);
    }
    r.push(Step::WriteInput);
    if input == Coherence::CoarseGrained {
        r.push(Step::UnmapInput);
    }
    r.push(Step::RunKernel);
    if output == Coherence::CoarseGrained {
        r.push(Step::MapOutputForRead);
    }
    r.push(Step::ReadOutput);
    if output == Coherence::CoarseGrained {
        r.push(Step::UnmapOutput);
    }
    assert(r@ =~= dispatch_plan(input, output));
    r
}

/// Validates the length of a compute call's input before anything touches
/// the device. On a length other than `n_elements` it fails with
/// `LengthMismatch` and yields no step at all; otherwise it yields the
/// dispatch protocol for the two buffers.
pub fn compute_plan(
    n_elements: usize,
    len: usize,
    input: Coherence,
    output: Coherence,
) -> (r: Result<Vec<Step>, ExpModError>)
    ensures
        r is Ok <==> len == n_elements,
        r is Ok ==> r->Ok_0@ == dispatch_plan(input, output),
        r is Err ==> r->Err_0.kind == (ErrorKind::LengthMismatch {
            expected: n_elements,
            actual: len,
        }),
{
    if len != n_elements {
        Err(ExpModError::length_mismatch(n_elements, len))
    } else {
        Ok(dispatch_steps(input, output))
    }
}

/// Copies the elements that the device left in an output buffer into a
/// freshly allocated result, in order.
pub fn read_back<N: Number>(buf: &[N]) -> (r: Vec<N>)
    ensures
        r@ == buf@,
{
    let mut r: Vec<N> = Vec::new();
    let mut i: usize = 0;
    while i < buf.len()
        invariant
            i <= buf@.len(),
            r@ == buf@.subrange(0, i as int),
        decreases buf@.len() - i,
    {
        r.push(buf[i]);
        i = i + 1;
    }
    assert(r@ =~= buf@);
    r
}

/// Selects the first of `count` candidates, failing with `missing` when there
/// is none: the first available is taken, not the best.
fn first_of(count: usize, missing: ExpModError) -> (r: Result<usize, ExpModError>)
    ensures
        r is Ok <==> count > 0,
        r is Ok ==> r->Ok_0 == 0,
        r is Err ==> r->Err_0.kind == missing.kind,
{
    if count == 0 {
        Err(missing)
    } else {
        Ok(0)
    }
}

/// The index of the platform to use among the `count` that were found.
pub fn first_platform(count: usize) -> (r: Result<usize, ExpModError>)
    ensures
        r is Ok <==> count > 0,
        r is Ok ==> r->Ok_0 == 0,
        r is Err ==> r->Err_0.kind == ErrorKind::NoPlatformFound,
{
    first_of(count, ExpModError::no_platform())
}

/// The index of the device to use among the `count` GPUs of the platform.
pub fn first_gpu(count: usize) -> (r: Result<usize, ExpModError>)
    ensures
        r is Ok <==> count > 0,
        r is Ok ==> r->Ok_0 == 0,
        r is Err ==> r->Err_0.kind == ErrorKind::NoDeviceFound,
{
    first_of(count, ExpModError::no_gpu())
}

} // verus!
