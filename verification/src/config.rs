//! The backpressure policy: per-round batch caps, watermarks and flush
//! thresholds consumed by every decision the scheduling loop makes.

use vstd::prelude::*;

verus! {

/// Immutable per-run configuration of the scheduling loop.
///
/// Every tick is parameterized by these knobs: how many requests to dispatch,
/// where the ready buffer's refill band sits, how many tasks to promote, how
/// many responses to extract, where the profile pool's watermark band sits,
/// and when the result/error sinks are flushed.
pub struct AppArg {
    /// max requests dispatched to the fetch client per tick
    pub round_req: usize,
    /// low watermark of the ready buffer: refill when at or below it
    pub round_req_min: usize,
    /// high watermark of the ready buffer: stop refilling once reached
    pub round_req_max: usize,
    /// max tasks converted to requests per tick
    pub round_task: usize,
    /// minimum profile count required before request minting proceeds
    pub round_task_min: usize,
    /// max responses handed to extraction per tick
    pub round_res: usize,
    /// low watermark of the profile pool: replenish unconditionally below it
    pub profile_min: usize,
    /// high watermark of the profile pool: never replenish above it
    pub profile_max: usize,
    /// error-sink size beyond which the sink is flushed
    pub round_yield_err: usize,
    /// entity-sink size beyond which the sink is flushed
    pub round_result: usize,
    /// when true, the initial profile/task seeding is skipped
    pub skip_history: bool,
}

impl Default for AppArg {
    /// Standalone default values for every knob.
    fn default() -> (a: AppArg)
        ensures
            a.round_req == 100,
            a.round_req_min == 300,
            a.round_req_max == 700,
            a.round_task == 100,
            a.round_task_min == 7,
            a.round_res == 100,
            a.profile_min == 3000,
            a.profile_max == 10000,
            a.round_yield_err == 100,
            a.round_result == 100,
            !a.skip_history,
    {
        AppArg {
            round_req: 100,
            round_req_min: 300,
            round_req_max: 700,
            round_task: 100,
            round_task_min: 7,
            round_res: 100,
            profile_min: 3000,
            profile_max: 10000,
            round_yield_err: 100,
            round_result: 100,
            skip_history: false,
        }
    }
}

} // verus!
