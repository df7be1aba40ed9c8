//! The work store and the verified steps of the scheduling tick.
//!
//! The store owns five work buffers (tasks, profiles, scheduled requests,
//! ready requests, responses), two result sinks (entities, extraction
//! errors), two registries of in-flight operations, the identity pool, and
//! the last observed time. Each method below is one step of the per-tick
//! algorithm; a driver calls them in order and performs the I/O (fetching,
//! profile acquisition, flushing) that the steps decide on.

use vstd::multiset::Multiset;
use vstd::prelude::*;

use crate::config::AppArg;
use crate::item::{minted_req, Profile, Request, Response, Task, UserAgent};

verus! {

broadcast use
    vstd::seq_lib::group_to_multiset_ensures,
    vstd::seq_lib::lemma_multiset_commutative,
    vstd::multiset::group_multiset_axioms;

/// The shared state of one crawl run.
///
/// An item lives in exactly one buffer or sink at a time: every step moves
/// items between the fields, never copies them, and says so in its contract.
pub struct App<Entity> {
    /// identity pool, read-only after initialization
    pub uas: Vec<UserAgent>,
    /// crawl intents awaiting conversion into requests
    pub task: Vec<Task>,
    /// acquired execution profiles available for binding
    pub profile: Vec<Profile>,
    /// scheduled requests, waiting for their not-before time
    pub req: Vec<Request>,
    /// ready requests, eligible for dispatch right now
    pub req_tmp: Vec<Request>,
    /// completed responses awaiting extraction
    pub res: Vec<Response>,
    /// extracted entities awaiting a flush
    pub result: Vec<Entity>,
    /// extraction failures awaiting a flush
    pub yield_err: Vec<String>,
    /// enqueue stamps of in-flight fetch batches
    pub fut_res: Vec<u64>,
    /// enqueue stamps of in-flight profile-acquisition batches
    pub fut_profile: Vec<u64>,
    /// latest time observed at a tick boundary; never decreases
    pub clock: u64,
}

impl<Entity> App<Entity> {
    /// Well-formedness: every request in the ready buffer is already
    /// dispatchable — its not-before time is at or before the last observed
    /// time. Constructors establish it and every step preserves it.
    pub open spec fn wf(self) -> bool {
        forall|i: int| 0 <= i < self.req_tmp@.len() ==> self.req_tmp@[i].able <= self.clock
    }

    /// All five work buffers and both sinks are empty: the normal-path
    /// termination condition, checked at the top of every tick.
    pub open spec fn all_empty(self) -> bool {
        &&& self.task@.len() == 0
        &&& self.profile@.len() == 0
        &&& self.req@.len() == 0
        &&& self.req_tmp@.len() == 0
        &&& self.res@.len() == 0
        &&& self.result@.len() == 0
        &&& self.yield_err@.len() == 0
    }

    /// The identity pool and the observed clock agree between two stores.
    pub open spec fn same_identity(self, other: App<Entity>) -> bool {
        self.uas@ == other.uas@ && self.clock == other.clock
    }

    /// Both result sinks agree between two stores.
    pub open spec fn same_sinks(self, other: App<Entity>) -> bool {
        self.result@ == other.result@ && self.yield_err@ == other.yield_err@
    }

    /// Both in-flight registries agree between two stores.
    pub open spec fn same_ops(self, other: App<Entity>) -> bool {
        self.fut_res@ == other.fut_res@ && self.fut_profile@ == other.fut_profile@
    }

    /// A store with every buffer, sink, registry and the identity pool empty.
    pub fn new() -> (app: App<Entity>)
        ensures
            app.all_empty(),
            app.wf(),
            app.clock == 0,
            app.uas@.len() == 0,
            app.fut_res@.len() == 0,
            app.fut_profile@.len() == 0,
    {
        App {
            uas: Vec::new(),
            task: Vec::new(),
            profile: Vec::new(),
            req: Vec::new(),
            req_tmp: Vec::new(),
            res: Vec::new(),
            result: Vec::new(),
            yield_err: Vec::new(),
            fut_res: Vec::new(),
            fut_profile: Vec::new(),
            clock: 0,
        }
    }

    /// Record the time observed at the top of a tick. The stored clock only
    /// moves forward, so every request already in the ready buffer stays
    /// dispatchable.
    pub fn observe_now(&mut self, now: u64)
        ensures
            final(self).clock == vstd::math::max(old(self).clock as int, now as int),
            old(self).wf() ==> final(self).wf(),
            final(self).uas@ == old(self).uas@,
            final(self).task@ == old(self).task@,
            final(self).profile@ == old(self).profile@,
            final(self).req@ == old(self).req@,
            final(self).req_tmp@ == old(self).req_tmp@,
            final(self).res@ == old(self).res@,
            old(self).same_sinks(*final(self)),
            old(self).same_ops(*final(self)),
    {
        if now > self.clock {
            self.clock = now;
        }
    }

    /// Termination check (tick step one): reports whether every buffer and
    /// sink is empty, in which case the run is done.
    pub fn is_done(&self) -> (done: bool)
        ensures
            done == self.all_empty(),
    {
        self.task.len() == 0 && self.profile.len() == 0 && self.req.len() == 0
            && self.req_tmp.len() == 0 && self.res.len() == 0 && self.result.len() == 0
            && self.yield_err.len() == 0
    }

    /// Promotion (tick step two): when the ready buffer is at or below its
    /// low watermark, move scheduled requests whose not-before time has
    /// elapsed into it, until the high watermark is reached or the scheduled
    /// buffer is exhausted; requests not yet eligible are kept scheduled.
    ///
    /// The contract carries the partition law for this step: the two request
    /// buffers hold, as a multiset, exactly what they held before — nothing
    /// is lost or invented — and the ready buffer never ends above its high
    /// watermark unless it already started above it.
    pub fn promote(&mut self, args: &AppArg)
        requires
            old(self).wf(),
        ensures
            final(self).wf(),
            old(self).same_identity(*final(self)),
            old(self).same_sinks(*final(self)),
            old(self).same_ops(*final(self)),
            final(self).task@ == old(self).task@,
            final(self).profile@ == old(self).profile@,
            final(self).res@ == old(self).res@,
            old(self).req_tmp@.len() > args.round_req_min ==> final(self).req@ == old(self).req@
                && final(self).req_tmp@ == old(self).req_tmp@,
            final(self).req@.to_multiset().add(final(self).req_tmp@.to_multiset())
                == old(self).req@.to_multiset().add(old(self).req_tmp@.to_multiset()),
            final(self).req_tmp@.subrange(0, old(self).req_tmp@.len() as int)
                == old(self).req_tmp@,
            final(self).req_tmp@.len() <= vstd::math::max(
                old(self).req_tmp@.len() as int,
                args.round_req_max as int,
            ),
            old(self).req_tmp@.len() <= args.round_req_min && final(self).req_tmp@.len()
                < args.round_req_max ==> (forall|i: int|
                0 <= i < final(self).req@.len() ==> final(self).req@[i].able > old(self).clock),
    {
        if self.req_tmp.len() <= args.round_req_min {
            let ghost orig = *self;
            let ghost total = orig.req@.to_multiset().add(orig.req_tmp@.to_multiset());
            let mut keep: Vec<Request> = Vec::new();
            proof {
                assert(keep@.to_multiset() =~= Multiset::<Request>::empty());
                assert(self.req@.to_multiset().add(self.req_tmp@.to_multiset()).add(
                    keep@.to_multiset(),
                ) =~= total);
                assert(self.req_tmp@.subrange(0, orig.req_tmp@.len() as int) =~= orig.req_tmp@);
            }
            while self.req.len() > 0 && self.req_tmp.len() < args.round_req_max
                invariant
                    self.uas@ == orig.uas@,
                    self.clock == orig.clock,
                    self.task@ == orig.task@,
                    self.profile@ == orig.profile@,
                    self.res@ == orig.res@,
                    self.result@ == orig.result@,
                    self.yield_err@ == orig.yield_err@,
                    self.fut_res@ == orig.fut_res@,
                    self.fut_profile@ == orig.fut_profile@,
                    forall|i: int|
                        0 <= i < self.req_tmp@.len() ==> self.req_tmp@[i].able <= self.clock,
                    self.req@.to_multiset().add(self.req_tmp@.to_multiset()).add(
                        keep@.to_multiset(),
                    ) == total,
                    self.req_tmp@.subrange(0, orig.req_tmp@.len() as int) == orig.req_tmp@,
                    orig.req_tmp@.len() <= self.req_tmp@.len(),
                    self.req_tmp@.len() <= vstd::math::max(
                        orig.req_tmp@.len() as int,
                        args.round_req_max as int,
                    ),
                    forall|i: int| 0 <= i < keep@.len() ==> keep@[i].able > self.clock,
                decreases self.req@.len(),
            {
                let ghost pre_req = self.req@;
                let r = self.req.pop().unwrap();
                proof {
                    assert(pre_req =~= self.req@.push(r));
                }
                if r.able <= self.clock {
                    self.req_tmp.push(r);
                    proof {
                        assert(self.req@.to_multiset().add(self.req_tmp@.to_multiset()).add(
                            keep@.to_multiset(),
                        ) =~= total);
                        assert(self.req_tmp@.subrange(0, orig.req_tmp@.len() as int)
                            =~= orig.req_tmp@);
                    }
                } else {
                    keep.push(r);
                    proof {
                        assert(self.req@.to_multiset().add(self.req_tmp@.to_multiset()).add(
                            keep@.to_multiset(),
                        ) =~= total);
                    }
                }
            }
            let ghost before_return = self.req@;
            let ghost kept = keep@;
            self.req.append(&mut keep);
            proof {
                assert(self.req@.to_multiset() =~= before_return.to_multiset().add(
                    kept.to_multiset(),
                ));
                assert(self.req@.to_multiset().add(self.req_tmp@.to_multiset()) =~= total);
            }
        }
    }

    /// Dispatch selection (tick step three): pop up to `round_req` requests
    /// off the ready buffer, newest first. Every request handed out is
    /// dispatchable at the observed time — its not-before bound has elapsed.
    pub fn dispatch_batch(&mut self, args: &AppArg) -> (batch: Vec<Request>)
        requires
            old(self).wf(),
        ensures
            final(self).wf(),
            old(self).same_identity(*final(self)),
            old(self).same_sinks(*final(self)),
            old(self).same_ops(*final(self)),
            final(self).task@ == old(self).task@,
            final(self).profile@ == old(self).profile@,
            final(self).req@ == old(self).req@,
            final(self).res@ == old(self).res@,
            batch@.len() == vstd::math::min(
                args.round_req as int,
                old(self).req_tmp@.len() as int,
            ),
            final(self).req_tmp@ == old(self).req_tmp@.subrange(
                0,
                old(self).req_tmp@.len() - batch@.len(),
            ),
            forall|i: int|
                0 <= i < batch@.len() ==> batch@[i] == old(self).req_tmp@[old(self).req_tmp@.len() - 1 - i],
            forall|i: int| 0 <= i < batch@.len() ==> batch@[i].able <= old(self).clock,
    {
        let ghost orig = *self;
        let mut batch: Vec<Request> = Vec::new();
        proof {
            assert(self.req_tmp@ =~= orig.req_tmp@.subrange(
                0,
                orig.req_tmp@.len() - batch@.len(),
            ));
        }
        while batch.len() < args.round_req && self.req_tmp.len() > 0
            invariant
                self.uas@ == orig.uas@,
                self.clock == orig.clock,
                self.task@ == orig.task@,
                self.profile@ == orig.profile@,
                self.req@ == orig.req@,
                self.res@ == orig.res@,
                self.result@ == orig.result@,
                self.yield_err@ == orig.yield_err@,
                self.fut_res@ == orig.fut_res@,
                self.fut_profile@ == orig.fut_profile@,
                batch@.len() <= args.round_req,
                batch@.len() <= orig.req_tmp@.len(),
                self.req_tmp@ == orig.req_tmp@.subrange(
                    0,
                    orig.req_tmp@.len() - batch@.len(),
                ),
                forall|i: int|
                    0 <= i < batch@.len() ==> batch@[i] == orig.req_tmp@[orig.req_tmp@.len() - 1
                        - i],
                forall|i: int| 0 <= i < orig.req_tmp@.len() ==> orig.req_tmp@[i].able <= orig.clock,
            decreases self.req_tmp@.len(),
        {
            let r = self.req_tmp.pop().unwrap();
            batch.push(r);
            proof {
                assert(self.req_tmp@ =~= orig.req_tmp@.subrange(
                    0,
                    orig.req_tmp@.len() - batch@.len(),
                ));
            }
        }
        batch
    }

    /// Record the enqueue stamp of a fetch batch just handed to the fetch
    /// client (tick step three registers the operation it dispatched).
    pub fn register_fetch(&mut self, stamp: u64)
        ensures
            old(self).wf() ==> final(self).wf(),
            old(self).same_identity(*final(self)),
            old(self).same_sinks(*final(self)),
            final(self).task@ == old(self).task@,
            final(self).profile@ == old(self).profile@,
            final(self).req@ == old(self).req@,
            final(self).req_tmp@ == old(self).req_tmp@,
            final(self).res@ == old(self).res@,
            final(self).fut_res@ == old(self).fut_res@.push(stamp),
            final(self).fut_profile@ == old(self).fut_profile@,
    {
        self.fut_res.push(stamp);
    }

    /// Record the enqueue stamp of a profile-acquisition batch just handed to
    /// the profile acquirer (tick step four registers what it dispatched).
    pub fn register_profile(&mut self, stamp: u64)
        ensures
            old(self).wf() ==> final(self).wf(),
            old(self).same_identity(*final(self)),
            old(self).same_sinks(*final(self)),
            final(self).task@ == old(self).task@,
            final(self).profile@ == old(self).profile@,
            final(self).req@ == old(self).req@,
            final(self).req_tmp@ == old(self).req_tmp@,
            final(self).res@ == old(self).res@,
            final(self).fut_res@ == old(self).fut_res@,
            final(self).fut_profile@ == old(self).fut_profile@.push(stamp),
    {
        self.fut_profile.push(stamp);
    }

    /// Replenishment condition (tick step four): profiles are acquired when
    /// the pool is at or below its low watermark, or when it sits inside the
    /// watermark band and the throttled cadence — one tick in three by the
    /// observed clock — permits it.
    pub fn need_profiles(&self, args: &AppArg) -> (trigger: bool)
        ensures
            trigger == (self.profile@.len() <= args.profile_min || (self.profile@.len()
                <= args.profile_max && self.clock % 3 == 1)),
    {
        let less = self.profile.len() <= args.profile_min;
        let exceed = !less && self.profile.len() <= args.profile_max && self.clock % 3 == 1;
        less || exceed
    }

    /// Harvest selection (tick step five): pop up to `cap` responses off the
    /// response buffer, newest first, for the extraction step. During drain
    /// the cap is the buffer's whole length, so nothing stays behind.
    pub fn take_responses(&mut self, cap: usize) -> (batch: Vec<Response>)
        ensures
            old(self).wf() ==> final(self).wf(),
            old(self).same_identity(*final(self)),
            old(self).same_sinks(*final(self)),
            old(self).same_ops(*final(self)),
            final(self).task@ == old(self).task@,
            final(self).profile@ == old(self).profile@,
            final(self).req@ == old(self).req@,
            final(self).req_tmp@ == old(self).req_tmp@,
            batch@.len() == vstd::math::min(cap as int, old(self).res@.len() as int),
            final(self).res@ == old(self).res@.subrange(
                0,
                old(self).res@.len() - batch@.len(),
            ),
            forall|i: int|
                0 <= i < batch@.len() ==> batch@[i] == old(self).res@[old(self).res@.len() - 1
                    - i],
    {
        let ghost orig = *self;
        let mut batch: Vec<Response> = Vec::new();
        proof {
            assert(self.res@ =~= orig.res@.subrange(0, orig.res@.len() - batch@.len()));
        }
        while batch.len() < cap && self.res.len() > 0
            invariant
                self.uas@ == orig.uas@,
                self.clock == orig.clock,
                self.task@ == orig.task@,
                self.profile@ == orig.profile@,
                self.req@ == orig.req@,
                self.req_tmp@ == orig.req_tmp@,
                self.result@ == orig.result@,
                self.yield_err@ == orig.yield_err@,
                self.fut_res@ == orig.fut_res@,
                self.fut_profile@ == orig.fut_profile@,
                batch@.len() <= cap,
                batch@.len() <= orig.res@.len(),
                self.res@ == orig.res@.subrange(0, orig.res@.len() - batch@.len()),
                forall|i: int|
                    0 <= i < batch@.len() ==> batch@[i] == orig.res@[orig.res@.len() - 1 - i],
            decreases self.res@.len(),
        {
            let r = self.res.pop().unwrap();
            batch.push(r);
            proof {
                assert(self.res@ =~= orig.res@.subrange(0, orig.res@.len() - batch@.len()));
            }
        }
        batch
    }

    /// Merge what extraction produced from a harvested batch (tick step
    /// five): new tasks and scheduled requests become pending work, entities
    /// and error texts land in their sinks. Nothing else moves.
    pub fn merge_extraction(
        &mut self,
        tasks: Vec<Task>,
        reqs: Vec<Request>,
        entities: Vec<Entity>,
        errs: Vec<String>,
    )
        ensures
            old(self).wf() ==> final(self).wf(),
            old(self).same_identity(*final(self)),
            old(self).same_ops(*final(self)),
            final(self).task@ == old(self).task@ + tasks@,
            final(self).profile@ == old(self).profile@,
            final(self).req@ == old(self).req@ + reqs@,
            final(self).req_tmp@ == old(self).req_tmp@,
            final(self).res@ == old(self).res@,
            final(self).result@ == old(self).result@ + entities@,
            final(self).yield_err@ == old(self).yield_err@ + errs@,
    {
        let mut tasks = tasks;
        let mut reqs = reqs;
        let mut entities = entities;
        let mut errs = errs;
        self.task.append(&mut tasks);
        self.req.append(&mut reqs);
        self.result.append(&mut entities);
        self.yield_err.append(&mut errs);
    }

    /// Conditional error flush (tick step six): when the error sink holds
    /// more than `threshold` entries, hand the whole sink out for the output
    /// pipeline and leave it empty; otherwise hand out nothing and leave the
    /// sink untouched. With a threshold of zero this is the drain-time force
    /// flush, and an empty sink still produces no flush at all.
    pub fn take_errors(&mut self, threshold: usize) -> (out: Option<Vec<String>>)
        ensures
            old(self).wf() ==> final(self).wf(),
            old(self).same_identity(*final(self)),
            old(self).same_ops(*final(self)),
            final(self).task@ == old(self).task@,
            final(self).profile@ == old(self).profile@,
            final(self).req@ == old(self).req@,
            final(self).req_tmp@ == old(self).req_tmp@,
            final(self).res@ == old(self).res@,
            final(self).result@ == old(self).result@,
            old(self).yield_err@.len() <= threshold ==> out is None && final(self).yield_err@
                == old(self).yield_err@,
            old(self).yield_err@.len() > threshold ==> (out matches Some(v) && v@ == old(self).yield_err@) && final(self).yield_err@.len() == 0,
    {
        if self.yield_err.len() > threshold {
            let out = self.yield_err.split_off(0);
            proof {
                assert(out@ =~= old(self).yield_err@);
            }
            Some(out)
        } else {
            None
        }
    }

    /// Conditional result flush (tick step seven): the same discipline as
    /// `take_errors`, for the entity sink.
    pub fn take_results(&mut self, threshold: usize) -> (out: Option<Vec<Entity>>)
        ensures
            old(self).wf() ==> final(self).wf(),
            old(self).same_identity(*final(self)),
            old(self).same_ops(*final(self)),
            final(self).task@ == old(self).task@,
            final(self).profile@ == old(self).profile@,
            final(self).req@ == old(self).req@,
            final(self).req_tmp@ == old(self).req_tmp@,
            final(self).res@ == old(self).res@,
            final(self).yield_err@ == old(self).yield_err@,
            old(self).result@.len() <= threshold ==> out is None && final(self).result@ == old(self).result@,
            old(self).result@.len() > threshold ==> (out matches Some(v) && v@ == old(self).result@) && final(self).result@.len() == 0,
    {
        if self.result.len() > threshold {
            let out = self.result.split_off(0);
            proof {
                assert(out@ =~= old(self).result@);
            }
            Some(out)
        } else {
            None
        }
    }

    /// Profile-sufficiency gate (tick step eight): minting may proceed only
    /// when the pool holds at least `round_task_min` profiles; below that the
    /// driver must first join an in-flight profile-acquisition operation.
    pub fn gate_needed(&self, args: &AppArg) -> (blocked: bool)
        ensures
            blocked == (self.profile@.len() < args.round_task_min),
    {
        self.profile.len() < args.round_task_min
    }

    /// Take the most recently registered profile-acquisition operation off
    /// its registry, so the driver can join it while minting is blocked. An
    /// empty registry hands back nothing: too few profiles with no
    /// acquisition in flight is a configuration fault that the driver must
    /// report, not skip.
    pub fn pop_profile_op(&mut self) -> (op: Option<u64>)
        ensures
            old(self).wf() ==> final(self).wf(),
            old(self).same_identity(*final(self)),
            old(self).same_sinks(*final(self)),
            final(self).task@ == old(self).task@,
            final(self).profile@ == old(self).profile@,
            final(self).req@ == old(self).req@,
            final(self).req_tmp@ == old(self).req_tmp@,
            final(self).res@ == old(self).res@,
            final(self).fut_res@ == old(self).fut_res@,
            old(self).fut_profile@.len() == 0 ==> op is None && final(self).fut_profile@ == old(self).fut_profile@,
            old(self).fut_profile@.len() > 0 ==> op == Some(old(self).fut_profile@.last())
                && final(self).fut_profile@ == old(self).fut_profile@.drop_last(),
    {
        let op = self.fut_profile.pop();
        proof {
            if old(self).fut_profile@.len() > 0 {
                assert(self.fut_profile@ =~= old(self).fut_profile@.drop_last());
            }
        }
        op
    }

    /// Take the most recently registered fetch operation off its registry;
    /// the drain joins them one by one until none is left.
    pub fn pop_fetch_op(&mut self) -> (op: Option<u64>)
        ensures
            old(self).wf() ==> final(self).wf(),
            old(self).same_identity(*final(self)),
            old(self).same_sinks(*final(self)),
            final(self).task@ == old(self).task@,
            final(self).profile@ == old(self).profile@,
            final(self).req@ == old(self).req@,
            final(self).req_tmp@ == old(self).req_tmp@,
            final(self).res@ == old(self).res@,
            final(self).fut_profile@ == old(self).fut_profile@,
            old(self).fut_res@.len() == 0 ==> op is None && final(self).fut_res@ == old(self).fut_res@,
            old(self).fut_res@.len() > 0 ==> op == Some(old(self).fut_res@.last()) && final(self).fut_res@ == old(self).fut_res@.drop_last(),
    {
        let op = self.fut_res.pop();
        proof {
            if old(self).fut_res@.len() > 0 {
                assert(self.fut_res@ =~= old(self).fut_res@.drop_last());
            }
        }
        op
    }

    /// Remove one fetch operation the driver found already completed
    /// (tick step ten, opportunistic reclamation).
    pub fn remove_fetch_op(&mut self, i: usize)
        requires
            i < old(self).fut_res@.len(),
        ensures
            old(self).wf() ==> final(self).wf(),
            old(self).same_identity(*final(self)),
            old(self).same_sinks(*final(self)),
            final(self).task@ == old(self).task@,
            final(self).profile@ == old(self).profile@,
            final(self).req@ == old(self).req@,
            final(self).req_tmp@ == old(self).req_tmp@,
            final(self).res@ == old(self).res@,
            final(self).fut_res@ == old(self).fut_res@.remove(i as int),
            final(self).fut_profile@ == old(self).fut_profile@,
    {
        self.fut_res.remove(i);
    }

    /// Remove one profile-acquisition operation the driver found already
    /// completed (tick step ten, opportunistic reclamation).
    pub fn remove_profile_op(&mut self, i: usize)
        requires
            i < old(self).fut_profile@.len(),
        ensures
            old(self).wf() ==> final(self).wf(),
            old(self).same_identity(*final(self)),
            old(self).same_sinks(*final(self)),
            final(self).task@ == old(self).task@,
            final(self).profile@ == old(self).profile@,
            final(self).req@ == old(self).req@,
            final(self).req_tmp@ == old(self).req_tmp@,
            final(self).res@ == old(self).res@,
            final(self).fut_res@ == old(self).fut_res@,
            final(self).fut_profile@ == old(self).fut_profile@.remove(i as int),
    {
        self.fut_profile.remove(i);
    }

    /// Append tasks produced by the crawl policy's seeding.
    pub fn add_tasks(&mut self, more: Vec<Task>)
        ensures
            old(self).wf() ==> final(self).wf(),
            old(self).same_identity(*final(self)),
            old(self).same_sinks(*final(self)),
            old(self).same_ops(*final(self)),
            final(self).task@ == old(self).task@ + more@,
            final(self).profile@ == old(self).profile@,
            final(self).req@ == old(self).req@,
            final(self).req_tmp@ == old(self).req_tmp@,
            final(self).res@ == old(self).res@,
    {
        let mut more = more;
        self.task.append(&mut more);
    }

    /// Append profiles a completed acquisition batch produced.
    pub fn add_profiles(&mut self, more: Vec<Profile>)
        ensures
            old(self).wf() ==> final(self).wf(),
            old(self).same_identity(*final(self)),
            old(self).same_sinks(*final(self)),
            old(self).same_ops(*final(self)),
            final(self).task@ == old(self).task@,
            final(self).profile@ == old(self).profile@ + more@,
            final(self).req@ == old(self).req@,
            final(self).req_tmp@ == old(self).req_tmp@,
            final(self).res@ == old(self).res@,
    {
        let mut more = more;
        self.profile.append(&mut more);
    }

    /// Append responses a completed fetch batch produced.
    pub fn add_responses(&mut self, more: Vec<Response>)
        ensures
            old(self).wf() ==> final(self).wf(),
            old(self).same_identity(*final(self)),
            old(self).same_sinks(*final(self)),
            old(self).same_ops(*final(self)),
            final(self).task@ == old(self).task@,
            final(self).profile@ == old(self).profile@,
            final(self).req@ == old(self).req@,
            final(self).req_tmp@ == old(self).req_tmp@,
            final(self).res@ == old(self).res@ + more@,
    {
        let mut more = more;
        self.res.append(&mut more);
    }

    /// Minting (tick step nine): convert up to `round_task` tasks into
    /// scheduled requests, each consuming exactly one profile from the pool
    /// and carrying the observed time as its not-before bound. A task that
    /// cannot obtain a profile stays buffered for a later tick, so the count
    /// minted is exactly the least of the cap, the task count and the profile
    /// count.
    pub fn mint_requests(&mut self, args: &AppArg) -> (n: usize)
        requires
            old(self).wf(),
        ensures
            final(self).wf(),
            old(self).same_identity(*final(self)),
            old(self).same_sinks(*final(self)),
            old(self).same_ops(*final(self)),
            final(self).req_tmp@ == old(self).req_tmp@,
            final(self).res@ == old(self).res@,
            n == vstd::math::min(
                args.round_task as int,
                vstd::math::min(old(self).task@.len() as int, old(self).profile@.len() as int),
            ),
            final(self).task@ == old(self).task@.subrange(0, old(self).task@.len() - n),
            final(self).profile@ == old(self).profile@.subrange(
                0,
                old(self).profile@.len() - n,
            ),
            final(self).req@.len() == old(self).req@.len() + n,
            final(self).req@.subrange(0, old(self).req@.len() as int) == old(self).req@,
            forall|j: int|
                old(self).req@.len() <= j < final(self).req@.len()
                    ==> #[trigger] final(self).req@[j] == minted_req(
                    old(self).task@[old(self).task@.len() - 1 - (j - old(self).req@.len())],
                    old(self).profile@[old(self).profile@.len() - 1 - (j - old(self).req@.len())],
                    old(self).clock,
                ),
    {
        let ghost orig = *self;
        let mut n: usize = 0;
        proof {
            assert(self.task@ =~= orig.task@.subrange(0, orig.task@.len() - n));
            assert(self.profile@ =~= orig.profile@.subrange(0, orig.profile@.len() - n));
            assert(self.req@.subrange(0, orig.req@.len() as int) =~= orig.req@);
        }
        while n < args.round_task && self.task.len() > 0 && self.profile.len() > 0
            invariant
                self.uas@ == orig.uas@,
                self.clock == orig.clock,
                self.req_tmp@ == orig.req_tmp@,
                self.res@ == orig.res@,
                self.result@ == orig.result@,
                self.yield_err@ == orig.yield_err@,
                self.fut_res@ == orig.fut_res@,
                self.fut_profile@ == orig.fut_profile@,
                n <= args.round_task,
                n <= orig.task@.len(),
                n <= orig.profile@.len(),
                self.task@ == orig.task@.subrange(0, orig.task@.len() - n),
                self.profile@ == orig.profile@.subrange(0, orig.profile@.len() - n),
                self.req@.len() == orig.req@.len() + n,
                self.req@.subrange(0, orig.req@.len() as int) == orig.req@,
                forall|j: int|
                    orig.req@.len() <= j < self.req@.len() ==> #[trigger] self.req@[j]
                        == minted_req(
                        orig.task@[orig.task@.len() - 1 - (j - orig.req@.len())],
                        orig.profile@[orig.profile@.len() - 1 - (j - orig.req@.len())],
                        orig.clock,
                    ),
            decreases self.task@.len(),
        {
            let t = self.task.pop().unwrap();
            let p = self.profile.pop().unwrap();
            let r = Request {
                target: t.target,
                payload: t.payload,
                able: self.clock,
                profile: p,
                retries: 0,
            };
            self.req.push(r);
            n = n + 1;
            proof {
                assert(self.task@ =~= orig.task@.subrange(0, orig.task@.len() - n));
                assert(self.profile@ =~= orig.profile@.subrange(0, orig.profile@.len() - n));
                assert(self.req@.subrange(0, orig.req@.len() as int) =~= orig.req@);
            }
        }
        n
    }
}

} // verus!
