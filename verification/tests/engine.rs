use crawl_engine::config::AppArg;
use crawl_engine::item::{Profile, Request, Response, Task};
use crawl_engine::store::App;

fn small_args() -> AppArg {
    AppArg {
        round_req: 2,
        round_req_min: 1,
        round_req_max: 4,
        round_task: 3,
        round_task_min: 2,
        round_res: 2,
        profile_min: 2,
        profile_max: 5,
        round_yield_err: 2,
        round_result: 2,
        skip_history: true,
    }
}

fn task(n: u64) -> Task {
    Task { target: n, payload: 10 * n }
}

fn profile(n: u64) -> Profile {
    Profile { identity: n, acquired: 0, session: 100 + n }
}

fn request(target: u64, able: u64) -> Request {
    Request { target, payload: 0, able, profile: profile(target), retries: 0 }
}

fn response(target: u64) -> Response {
    Response { status: 200, body: format!("page {}", target), request: request(target, 0) }
}

#[test]
fn default_args_are_the_documented_values() {
    let a = AppArg::default();
    assert_eq!(a.round_req, 100);
    assert_eq!(a.round_req_min, 300);
    assert_eq!(a.round_req_max, 700);
    assert_eq!(a.round_task, 100);
    assert_eq!(a.round_task_min, 7);
    assert_eq!(a.round_res, 100);
    assert_eq!(a.profile_min, 3000);
    assert_eq!(a.profile_max, 10000);
    assert_eq!(a.round_yield_err, 100);
    assert_eq!(a.round_result, 100);
    assert!(!a.skip_history);
}

#[test]
fn new_store_is_empty_and_done() {
    let app: App<u64> = App::new();
    assert!(app.is_done());
    assert_eq!(app.task.len(), 0);
    assert_eq!(app.profile.len(), 0);
    assert_eq!(app.req.len(), 0);
    assert_eq!(app.req_tmp.len(), 0);
    assert_eq!(app.res.len(), 0);
    assert_eq!(app.result.len(), 0);
    assert_eq!(app.yield_err.len(), 0);
}

// With seeding disabled and every buffer empty, the first tick terminates
// before anything is dispatched: the done check fires and every batch the
// tick could form is empty.
#[test]
fn empty_start_terminates_without_dispatch() {
    let mut app: App<u64> = App::new();
    let args = small_args();
    app.observe_now(1000);
    assert!(app.is_done());
    app.promote(&args);
    let batch = app.dispatch_batch(&args);
    assert!(batch.is_empty());
    let responses = app.take_responses(args.round_res);
    assert!(responses.is_empty());
    let minted = app.mint_requests(&args);
    assert_eq!(minted, 0);
    assert!(app.is_done());
}

#[test]
fn observe_now_never_moves_backwards() {
    let mut app: App<u64> = App::new();
    app.observe_now(10);
    assert_eq!(app.clock, 10);
    app.observe_now(5);
    assert_eq!(app.clock, 10);
    app.observe_now(11);
    assert_eq!(app.clock, 11);
}

// Promotion moves exactly the requests whose not-before time has elapsed and
// keeps the rest scheduled; the two buffers together keep every request.
#[test]
fn promote_moves_eligible_and_keeps_future_requests() {
    let mut app: App<u64> = App::new();
    let args = small_args();
    app.observe_now(100);
    app.req.push(request(1, 50));
    app.req.push(request(2, 150));
    app.req.push(request(3, 100));
    app.promote(&args);
    assert_eq!(app.req_tmp.len(), 2);
    assert!(app.req_tmp.iter().all(|r| r.able <= 100));
    assert_eq!(app.req.len(), 1);
    assert_eq!(app.req[0].able, 150);
    assert_eq!(app.req.len() + app.req_tmp.len(), 3);
}

// The ready buffer never ends above its high watermark.
#[test]
fn promote_respects_high_watermark() {
    let mut app: App<u64> = App::new();
    let args = small_args();
    app.observe_now(100);
    for n in 0..10 {
        app.req.push(request(n, 10));
    }
    app.promote(&args);
    assert_eq!(app.req_tmp.len(), args.round_req_max);
    assert_eq!(app.req.len(), 10 - args.round_req_max);
    assert_eq!(app.req.len() + app.req_tmp.len(), 10);
}

#[test]
fn promote_skips_when_ready_buffer_above_low_watermark() {
    let mut app: App<u64> = App::new();
    let args = small_args();
    app.observe_now(100);
    app.req_tmp.push(request(1, 10));
    app.req_tmp.push(request(2, 10));
    app.req.push(request(3, 10));
    app.promote(&args);
    assert_eq!(app.req_tmp.len(), 2);
    assert_eq!(app.req.len(), 1);
}

// No request leaves the ready buffer before its not-before time: the
// dispatch batch is bounded by the per-round cap and every member is
// dispatchable at the observed time.
#[test]
fn dispatch_batch_is_bounded_and_respects_not_before() {
    let mut app: App<u64> = App::new();
    let args = small_args();
    app.observe_now(100);
    for n in 0..6 {
        app.req.push(request(n, n));
    }
    app.promote(&args);
    assert_eq!(app.req_tmp.len(), 4);
    let batch = app.dispatch_batch(&args);
    assert_eq!(batch.len(), 2);
    assert!(batch.iter().all(|r| r.able <= app.clock));
    assert_eq!(app.req_tmp.len(), 2);
}

#[test]
fn need_profiles_follows_the_watermark_band() {
    let mut app: App<u64> = App::new();
    let args = small_args();
    // at or below the low watermark: always replenish
    app.observe_now(3); // clock % 3 == 0
    app.add_profiles(vec![profile(1), profile(2)]);
    assert!(app.need_profiles(&args));
    // inside the band, cadence tick: replenish
    app.add_profiles(vec![profile(3)]);
    assert!(!app.need_profiles(&args));
    app.observe_now(4); // clock % 3 == 1
    assert!(app.need_profiles(&args));
    // above the high watermark: never replenish
    app.add_profiles(vec![profile(4), profile(5), profile(6)]);
    assert!(!app.need_profiles(&args));
}

// Minting consumes one task and one profile per request, bounded by the
// per-round cap; a task that cannot obtain a profile stays buffered.
#[test]
fn mint_binds_one_profile_per_task() {
    let mut app: App<u64> = App::new();
    let args = small_args();
    app.observe_now(77);
    app.add_tasks(vec![task(1), task(2), task(3)]);
    app.add_profiles(vec![profile(8), profile(9)]);
    let minted = app.mint_requests(&args);
    assert_eq!(minted, 2);
    assert_eq!(app.task.len(), 1);
    assert_eq!(app.profile.len(), 0);
    assert_eq!(app.req.len(), 2);
    for r in &app.req {
        assert_eq!(r.able, 77);
        assert_eq!(r.retries, 0);
    }
    // newest task first, bound to the newest profile
    assert_eq!(app.req[0].target, 3);
    assert_eq!(app.req[0].profile, profile(9));
    assert_eq!(app.req[1].target, 2);
    assert_eq!(app.req[1].profile, profile(8));
}

// Profile-sufficiency scenario: with a round minimum of five and only two
// profiles in the pool, minting must wait for the in-flight acquisition to
// be joined; after its ten profiles arrive, minting proceeds up to the task
// batch size.
#[test]
fn profile_shortage_blocks_minting_until_join() {
    let mut app: App<u64> = App::new();
    let args = AppArg { round_task_min: 5, ..small_args() };
    app.observe_now(9);
    app.add_tasks(vec![task(1), task(2), task(3), task(4)]);
    app.add_profiles(vec![profile(1), profile(2)]);
    app.register_profile(9);
    // minting is blocked: the driver must join before step nine runs
    assert!(app.gate_needed(&args));
    assert_eq!(app.req.len(), 0); // nothing minted before the join
    let joined = app.pop_profile_op();
    assert_eq!(joined, Some(9));
    app.add_profiles((10..20).map(profile).collect());
    assert!(!app.gate_needed(&args));
    let minted = app.mint_requests(&args);
    assert_eq!(minted, args.round_task.min(4));
    assert_eq!(minted, 3);
    assert_eq!(app.req.len(), 3);
}

// Too few profiles with no acquisition ever registered is a fault the
// driver must report: the registry hands back nothing.
#[test]
fn gate_without_registered_operation_reports_nothing() {
    let mut app: App<u64> = App::new();
    let args = AppArg { round_task_min: 5, ..small_args() };
    assert!(app.gate_needed(&args));
    assert_eq!(app.pop_profile_op(), None);
}

#[test]
fn merge_extraction_appends_to_the_right_buffers() {
    let mut app: App<String> = App::new();
    app.add_responses(vec![response(1)]);
    app.merge_extraction(
        vec![task(5)],
        vec![request(6, 30)],
        vec![String::from("entity a")],
        vec![String::from("bad page")],
    );
    assert_eq!(app.task.len(), 1);
    assert_eq!(app.req.len(), 1);
    assert_eq!(app.result, vec![String::from("entity a")]);
    assert_eq!(app.yield_err, vec![String::from("bad page")]);
    assert_eq!(app.res.len(), 1);
}

#[test]
fn take_responses_is_bounded_by_the_cap() {
    let mut app: App<u64> = App::new();
    app.add_responses(vec![response(1), response(2), response(3)]);
    let batch = app.take_responses(2);
    assert_eq!(batch.len(), 2);
    assert_eq!(app.res.len(), 1);
    let rest = app.take_responses(usize::MAX);
    assert_eq!(rest.len(), 1);
    assert!(app.res.is_empty());
}

// Sinks are flushed only past their threshold, and a flush hands out the
// whole sink exactly once.
#[test]
fn sink_flush_honours_thresholds() {
    let mut app: App<u64> = App::new();
    app.merge_extraction(vec![], vec![], vec![], vec![String::from("e1"), String::from("e2")]);
    assert_eq!(app.take_errors(2), None); // at the threshold: no flush
    app.merge_extraction(vec![], vec![], vec![], vec![String::from("e3")]);
    let flushed = app.take_errors(2);
    assert_eq!(
        flushed,
        Some(vec![String::from("e1"), String::from("e2"), String::from("e3")])
    );
    assert!(app.yield_err.is_empty());
    app.merge_extraction(vec![], vec![], vec![7, 8], vec![]);
    assert_eq!(app.take_results(2), None);
    app.merge_extraction(vec![], vec![], vec![9], vec![]);
    assert_eq!(app.take_results(2), Some(vec![7, 8, 9]));
    assert!(app.result.is_empty());
}

// Flushing an empty sink is a no-op: the output pipeline would see zero
// calls, because the store hands out nothing to flush.
#[test]
fn empty_flush_makes_no_pipeline_call() {
    let mut app: App<u64> = App::new();
    let mut pipeline_calls: usize = 0;
    if app.take_errors(0).is_some() {
        pipeline_calls += 1;
    }
    if app.take_results(0).is_some() {
        pipeline_calls += 1;
    }
    assert_eq!(pipeline_calls, 0);
}

#[test]
fn reclaimed_operations_leave_the_registry_in_order() {
    let mut app: App<u64> = App::new();
    app.register_fetch(1);
    app.register_fetch(2);
    app.register_fetch(3);
    app.remove_fetch_op(1);
    assert_eq!(app.fut_res, vec![1, 3]);
    app.register_profile(7);
    app.register_profile(8);
    app.remove_profile_op(0);
    assert_eq!(app.fut_profile, vec![8]);
}

// Drain scenario: three in-flight fetch operations each yield one
// response; after the interrupt the driver joins all of them, harvests every
// response, and force-flushes the sinks. The output pipeline receives exactly
// the extracted entities once, and every buffer and sink is empty afterwards.
#[test]
fn drain_joins_all_operations_and_flushes_everything() {
    let mut app: App<u64> = App::new();
    app.observe_now(50);
    app.register_fetch(41);
    app.register_fetch(42);
    app.register_fetch(43);

    // each joined operation writes its one response back
    let mut joined: usize = 0;
    while let Some(stamp) = app.pop_fetch_op() {
        app.add_responses(vec![response(stamp)]);
        joined += 1;
    }
    assert_eq!(joined, 3);
    assert!(app.fut_res.is_empty());

    // harvest everything: no batch cap during drain
    let all = app.take_responses(app.res.len());
    assert_eq!(all.len(), 3);
    assert!(app.res.is_empty());

    // extraction turns each response into one entity
    let entities: Vec<u64> = all.iter().map(|r| r.request.target).collect();
    app.merge_extraction(vec![], vec![], entities, vec![]);

    // force-flush both sinks: entities arrive exactly once, errors not at all
    let mut flushed_entities: Vec<u64> = Vec::new();
    let mut error_flushes: usize = 0;
    if let Some(items) = app.take_results(0) {
        flushed_entities.extend(items);
    }
    if app.take_errors(0).is_some() {
        error_flushes += 1;
    }
    flushed_entities.sort();
    assert_eq!(flushed_entities, vec![41, 42, 43]);
    assert_eq!(error_flushes, 0);
    assert!(app.result.is_empty());
    assert!(app.yield_err.is_empty());
    // a second force-flush hands out nothing: the entities were received once
    assert_eq!(app.take_results(0), None);
    assert!(app.is_done());
}
