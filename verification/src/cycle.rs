//! Cycle coordination: one pass over all registered feeds.
//!
//! A coordinator admits one cycle at a time. A cycle hands out the feeds one
//! by one, never more at once than the concurrency limit allows, and tallies
//! how the checks ended. The caller runs the checks and reports back.

use vstd::prelude::*;

verus! {

/// How many feeds are checked at once unless the caller says otherwise.
pub const DEFAULT_LIMIT: usize = 8;

/// How the check of one feed ended.
#[derive(Clone, Copy, Debug, PartialEq, Eq, Structural)]
pub enum FeedResult {
    /// The feed was checked; so many entries were published.
    Success(u32),
    /// The feed could not be checked.
    Failure,
    /// The check ended without a result.
    Lost,
}

/// The tally of a cycle.
#[derive(Clone, Copy, Debug, PartialEq, Eq, Structural)]
pub struct CycleReport {
    /// How many feeds the cycle was to check.
    pub checked: usize,
    /// How many checks succeeded.
    pub succeeded: usize,
    /// How many checks failed.
    pub failed: usize,
}

/// The state of a cycle as mathematical values.
pub struct CycleView {
    /// How many feeds there are.
    pub total: nat,
    /// How many checks may run at once.
    pub limit: nat,
    /// How many checks have been started.
    pub started: nat,
    /// How many checks are running.
    pub in_flight: nat,
    /// How many checks succeeded.
    pub succeeded: nat,
    /// How many checks failed.
    pub failed: nat,
    /// How many checks ended without a result.
    pub lost: nat,
}

/// What happens in a cycle.
pub enum CycleEvent {
    /// The caller asks for the next feed to check.
    Start,
    /// A check has ended.
    Finish(FeedResult),
}

impl CycleView {
    /// The cycle over `total` feeds before anything has been started.
    pub open spec fn initial(total: nat, limit: nat) -> CycleView {
        CycleView { total, limit, started: 0, in_flight: 0, succeeded: 0, failed: 0, lost: 0 }
    }

    /// What holds of every cycle: no more checks run than the limit allows,
    /// no more were started than there are feeds, and every started check is
    /// running or has ended in one of the three ways.
    pub open spec fn wf(self) -> bool {
        &&& self.in_flight <= self.limit
        &&& self.started <= self.total
        &&& self.in_flight + self.succeeded + self.failed + self.lost == self.started
    }

    /// Whether another check can be started now.
    pub open spec fn can_start(self) -> bool {
        self.started < self.total && self.in_flight < self.limit
    }

    /// The cycle once the next feed has been handed out, if one can be.
    pub open spec fn started_next(self) -> CycleView {
        if self.can_start() {
            CycleView { started: self.started + 1, in_flight: self.in_flight + 1, ..self }
        } else {
            self
        }
    }

    /// The cycle once a running check has ended with `result`. Where none is
    /// running nothing changes.
    pub open spec fn finished(self, result: FeedResult) -> CycleView {
        if self.in_flight == 0 {
            self
        } else {
            match result {
                FeedResult::Success(_) => CycleView {
                    in_flight: (self.in_flight - 1) as nat,
                    succeeded: self.succeeded + 1,
                    ..self
                },
                FeedResult::Failure => CycleView {
                    in_flight: (self.in_flight - 1) as nat,
                    failed: self.failed + 1,
                    ..self
                },
                FeedResult::Lost => CycleView {
                    in_flight: (self.in_flight - 1) as nat,
                    lost: self.lost + 1,
                    ..self
                },
            }
        }
    }

    /// The cycle after one event.
    pub open spec fn after(self, event: CycleEvent) -> CycleView {
        match event {
            CycleEvent::Start => self.started_next(),
            CycleEvent::Finish(result) => self.finished(result),
        }
    }

    /// The cycle after a sequence of events.
    pub open spec fn after_all(self, events: Seq<CycleEvent>) -> CycleView
        decreases events.len(),
    {
        if events.len() == 0 {
            self
        } else {
            self.after_all(events.drop_last()).after(events.last())
        }
    }

    /// Whether every feed has been checked.
    pub open spec fn complete(self) -> bool {
        self.started == self.total && self.in_flight == 0
    }

    /// Whether `report` is the tally of the cycle: it counts the feeds of
    /// the cycle, the checks that succeeded and the checks that failed.
    pub open spec fn tallies(self, report: CycleReport) -> bool {
        &&& report.checked == self.total
        &&& report.succeeded == self.succeeded
        &&& report.failed == self.failed
    }
}

/// The concurrency bound: whatever happens in a cycle, and in whatever
/// order, no more checks are in flight than the limit allows, and the tally
/// never counts more than the feeds that were started.
pub proof fn concurrency_is_bounded(total: nat, limit: nat, events: Seq<CycleEvent>)
    ensures
        CycleView::initial(total, limit).after_all(events).wf(),
        CycleView::initial(total, limit).after_all(events).in_flight <= limit,
        CycleView::initial(total, limit).after_all(events).total == total,
        CycleView::initial(total, limit).after_all(events).limit == limit,
    decreases events.len(),
{
    if events.len() > 0 {
        concurrency_is_bounded(total, limit, events.drop_last());
    }
}

/// One failing feed does not end a cycle: after a check has ended, in
/// whatever way, the next feed can be started as long as feeds are left.
pub proof fn failure_does_not_stop_cycle(cycle: CycleView, result: FeedResult)
    requires
        cycle.wf(),
        cycle.in_flight > 0,
        cycle.started < cycle.total,
    ensures
        cycle.finished(result).can_start(),
{
}

/// One pass over all registered feeds.
pub struct Cycle {
    total: usize,
    limit: usize,
    started: usize,
    in_flight: usize,
    succeeded: usize,
    failed: usize,
    lost: usize,
}

impl View for Cycle {
    type V = CycleView;

    closed spec fn view(&self) -> CycleView {
        CycleView {
            total: self.total as nat,
            limit: self.limit as nat,
            started: self.started as nat,
            in_flight: self.in_flight as nat,
            succeeded: self.succeeded as nat,
            failed: self.failed as nat,
            lost: self.lost as nat,
        }
    }
}

impl Cycle {
    /// Whether the cycle is in a state that a cycle can reach.
    pub open spec fn wf(&self) -> bool {
        self@.wf()
    }

    /// A cycle over `total` feeds, of which at most `limit` are checked at
    /// once.
    pub fn new(total: usize, limit: usize) -> (cycle: Cycle)
        ensures
            cycle.wf(),
            cycle@ == CycleView::initial(total as nat, limit as nat),
    {
        Cycle { total, limit, started: 0, in_flight: 0, succeeded: 0, failed: 0, lost: 0 }
    }

    /// Hands out the next feed to check: its position among the feeds. There
    /// is none while as many checks run as the limit allows, and none once
    /// every feed has been handed out.
    pub fn start_next(&mut self) -> (feed: Option<usize>)
        requires
            old(self).wf(),
        ensures
            final(self).wf(),
            final(self)@ == old(self)@.started_next(),
            feed is Some <==> old(self)@.can_start(),
            feed matches Some(i) ==> i == old(self)@.started && i < old(self)@.total,
    {
        if self.started < self.total && self.in_flight < self.limit {
            let feed = self.started;
            self.started += 1;
            self.in_flight += 1;
            Some(feed)
        } else {
            None
        }
    }

    /// Takes note that a running check has ended with `result`.
    pub fn finish(&mut self, result: FeedResult)
        requires
            old(self).wf(),
        ensures
            final(self).wf(),
            final(self)@ == old(self)@.finished(result),
    {
        if self.in_flight == 0 {
            return ;
        }
        self.in_flight -= 1;
        match result {
            FeedResult::Success(_) => {
                self.succeeded += 1;
            },
            FeedResult::Failure => {
                self.failed += 1;
            },
            FeedResult::Lost => {
                self.lost += 1;
            },
        }
    }

    /// How many checks are running.
    pub fn in_flight(&self) -> (n: usize)
        ensures
            n == self@.in_flight,
    {
        self.in_flight
    }

    /// Whether every feed has been checked.
    pub fn is_complete(&self) -> (done: bool)
        ensures
            done == self@.complete(),
    {
        self.started == self.total && self.in_flight == 0
    }

    /// The tally of the cycle so far.
    pub fn report(&self) -> (report: CycleReport)
        ensures
            self@.tallies(report),
    {
        CycleReport { checked: self.total, succeeded: self.succeeded, failed: self.failed }
    }
}

/// Whether a cycle may begin.
#[derive(Clone, Copy, Debug, PartialEq, Eq, Structural)]
pub enum Admission {
    /// No cycle was running: this one runs now.
    Admitted,
    /// A cycle is running: this one is skipped, not queued.
    SkippedOverlap,
}

/// The single-flight guard with the concurrency limit of its cycles.
pub struct Coordinator {
    limit: usize,
    running: bool,
}

impl Coordinator {
    /// Whether a cycle is running.
    pub closed spec fn is_running(&self) -> bool {
        self.running
    }

    /// How many checks a cycle of this coordinator runs at once.
    pub closed spec fn limit(&self) -> nat {
        self.limit as nat
    }

    /// An idle coordinator whose cycles check at most `limit` feeds at once.
    /// With a limit of zero its cycles start no check at all.
    pub fn new(limit: usize) -> (out: Coordinator)
        ensures
            !out.is_running(),
            out.limit() == limit,
    {
        Coordinator { limit, running: false }
    }

    /// Asks to begin a cycle. While one is running the answer is
    /// `SkippedOverlap` and nothing changes.
    pub fn enter(&mut self) -> (admission: Admission)
        ensures
            final(self).limit() == old(self).limit(),
            admission == admission_in(old(self).is_running()).0,
            final(self).is_running() == admission_in(old(self).is_running()).1,
    {
        if self.running {
            Admission::SkippedOverlap
        } else {
            self.running = true;
            Admission::Admitted
        }
    }

    /// The cycle over `feeds` feeds that an admitted caller runs.
    pub fn plan(&self, feeds: usize) -> (cycle: Cycle)
        ensures
            cycle.wf(),
            cycle@ == CycleView::initial(feeds as nat, self.limit()),
    {
        Cycle::new(feeds, self.limit)
    }

    /// Ends the cycle that was admitted: the next one may begin.
    pub fn leave(&mut self)
        ensures
            final(self).limit() == old(self).limit(),
            !final(self).is_running(),
    {
        self.running = false;
    }

    /// Tests whether a cycle is running.
    pub fn running(&self) -> (r: bool)
        ensures
            r == self.is_running(),
    {
        self.running
    }
}

/// The admission that a coordinator gives in the state `running`, and the
/// state it is in afterwards.
pub open spec fn admission_in(running: bool) -> (Admission, bool) {
    if running {
        (Admission::SkippedOverlap, true)
    } else {
        (Admission::Admitted, true)
    }
}

/// Single flight: of two requests with no end of a cycle between them the
/// second is skipped, whatever the state before the first.
pub proof fn second_request_is_skipped(running: bool)
    ensures
        admission_in(admission_in(running).1).0 == Admission::SkippedOverlap,
{
}

} // verus!
