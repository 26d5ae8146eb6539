//! Stepping a procedure between process-data exchanges, and a model of running one against a
//! drive.
use crate::image::ImageView;
use vstd::prelude::*;

verus! {

/// What a procedure asks for after one step.
#[derive(Clone, Copy, Debug, PartialEq, Eq)]
pub enum Step<R> {
    /// Exchange the process data once, then step again.
    Cycle,
    /// The procedure is finished, with this result.
    Done(R),
}

/// The image seen by the host when the drive has sent `inputs` and the outputs hold `outputs`.
pub open spec fn seen(inputs: Seq<u8>, outputs: Seq<u8>) -> ImageView {
    ImageView { inputs, outputs, missing: None }
}

/// Runs a procedure, given by its step function, against a drive that sends `feed(n)` as its
/// inputs once `n` exchanges have taken place. The outputs persist from one step to the next.
/// `cycles` exchanges have taken place before the first step, and at most `fuel` steps are
/// taken. The result is the procedure's result with the number of exchanges at its end, or
/// `None` when it did not finish within `fuel` steps.
pub open spec fn run<M, R>(
    step: spec_fn(M, ImageView) -> (M, ImageView, Step<R>),
    m: M,
    outputs: Seq<u8>,
    feed: spec_fn(nat) -> Seq<u8>,
    cycles: nat,
    fuel: nat,
) -> Option<(R, nat)>
    decreases fuel,
{
    if fuel == 0 {
        None
    } else {
        let (m2, v2, s) = step(m, seen(feed(cycles), outputs));
        match s {
            Step::Done(r) => Some((r, cycles)),
            Step::Cycle => run(step, m2, v2.outputs, feed, cycles + 1, (fuel - 1) as nat),
        }
    }
}

} // verus!
