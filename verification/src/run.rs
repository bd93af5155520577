//! One check of one feed, as a state machine.
//!
//! The caller fetches and parses the feed, reads the clock, and hands the
//! entries and the reading over. The run selects the candidates and then
//! says, step by step, what is to be done: publish a candidate, or finish.
//! The caller publishes, reports how it went, and at the end stores the
//! watermark the run has reached.

use crate::detector::{
    candidate_views, picked_from, picks_are_new, published_is_not_selected_again, scan_of,
    select_new, Candidate, CandidateView, Scan, SCAN_WINDOW,
};
use crate::memory::{remembered, NoveltyMemory};
use crate::model::{entry_views, ParsedEntry};
use crate::text::{bytes_less_irreflexive, bytes_less_transitive, is_less, text_less, text_view};
use vstd::prelude::*;
use vstd::utf8::encode_utf8;

verus! {

/// How the publication of one candidate went.
#[derive(Clone, Copy, Debug, PartialEq, Eq, Structural)]
pub enum Delivery {
    /// The destination took the entry.
    Delivered,
    /// The destination did not take the entry, after the retry.
    Failed,
    /// The destination is gone; nothing more can be delivered to it.
    DestinationLost,
}

/// What the caller is to do next.
#[derive(Clone, Copy, Debug, PartialEq, Eq, Structural)]
pub enum Step {
    /// Publish the candidate at this place of the run's candidates.
    Publish(usize),
    /// Nothing is left to publish.
    Finish,
}

/// What is to become of the feed's watermark.
#[derive(Debug)]
pub enum Advance {
    /// Nothing was published: the registration stays as it is.
    Keep,
    /// Something was published: this is the new watermark.
    To(Option<String>),
}

/// The later of a watermark and a marker, where a missing marker changes
/// nothing.
pub open spec fn later_of(reached: Option<Seq<char>>, marker: Option<Seq<char>>) -> Option<
    Seq<char>,
> {
    match marker {
        None => reached,
        Some(m) => match reached {
            None => Some(m),
            Some(r) => if text_less(r, m) {
                Some(m)
            } else {
                reached
            },
        },
    }
}

/// The greatest marker among the candidates at the places `delivered`.
pub open spec fn greatest_marker(candidates: Seq<CandidateView>, delivered: Seq<int>) -> Option<
    Seq<char>,
>
    decreases delivered.len(),
{
    if delivered.len() == 0 {
        None
    } else {
        later_of(
            greatest_marker(candidates, delivered.drop_last()),
            candidates[delivered.last()].marker,
        )
    }
}

/// The state of a run as mathematical values.
pub struct RunView {
    /// The candidates, in the order in which they are published.
    pub candidates: Seq<CandidateView>,
    /// The watermark the feed had when the run began.
    pub previous: Option<Seq<char>>,
    /// The candidates before this place have been dealt with.
    pub cursor: nat,
    /// The places of the candidates that were delivered.
    pub delivered: Seq<int>,
    /// The greatest marker among the delivered candidates.
    pub newest: Option<Seq<char>>,
    /// Whether the destination was lost.
    pub halted: bool,
}

impl RunView {
    /// What holds of every run: the cursor is within the candidates, the
    /// delivered candidates lie before it, `newest` is their greatest
    /// marker, and where the feed had a watermark the marker of every
    /// candidate that has one lies beyond it.
    pub open spec fn wf(self) -> bool {
        &&& self.cursor <= self.candidates.len() <= SCAN_WINDOW
        &&& self.delivered.len() <= self.cursor
        &&& forall|k: int|
            0 <= k < self.delivered.len() ==> 0 <= #[trigger] self.delivered[k] < self.cursor
        &&& self.newest == greatest_marker(self.candidates, self.delivered)
        &&& self.previous matches Some(w) ==> forall|c: int|
            0 <= c < self.candidates.len() ==> lies_beyond(w, #[trigger] self.candidates[c])
    }

    /// Whether a candidate waits to be published.
    pub open spec fn pending(self) -> bool {
        !self.halted && self.cursor < self.candidates.len()
    }

    /// The run once the candidates whose fingerprints are in `known` have
    /// been passed over.
    pub open spec fn skipped(self, known: Seq<Seq<char>>) -> RunView
        decreases self.candidates.len() - self.cursor,
    {
        if self.pending() && known.contains(self.candidates[self.cursor as int].fingerprint) {
            (RunView { cursor: self.cursor + 1, ..self }).skipped(known)
        } else {
            self
        }
    }

    /// The run once `outcome` has been reported for the pending candidate.
    /// Without a pending candidate nothing changes.
    pub open spec fn recorded(self, outcome: Delivery) -> RunView {
        if !self.pending() {
            self
        } else {
            match outcome {
                Delivery::Delivered => RunView {
                    cursor: self.cursor + 1,
                    delivered: self.delivered.push(self.cursor as int),
                    newest: later_of(self.newest, self.candidates[self.cursor as int].marker),
                    ..self
                },
                Delivery::Failed => RunView { cursor: self.cursor + 1, ..self },
                Delivery::DestinationLost => RunView { halted: true, ..self },
            }
        }
    }

    /// The watermark of the feed once the run is over: the greatest marker
    /// among the delivered candidates, and the watermark the feed had where
    /// none of them has a marker.
    pub open spec fn reached(self) -> Option<Seq<char>> {
        if self.newest is Some {
            self.newest
        } else {
            self.previous
        }
    }

    /// The step that the run asks for.
    pub open spec fn step(self) -> Step {
        if self.pending() {
            Step::Publish(self.cursor as usize)
        } else {
            Step::Finish
        }
    }
}

/// Whether the marker of the candidate, if it has one, lies beyond
/// `watermark`.
pub open spec fn lies_beyond(watermark: Seq<char>, candidate: CandidateView) -> bool {
    candidate.marker matches Some(m) ==> text_less(watermark, m)
}

/// Where a feed has a watermark, the marker of every selected candidate that
/// has one lies beyond it.
pub proof fn selected_lie_beyond(scan: Scan)
    requires
        scan.watermark is Some,
    ensures
        forall|c: int|
            0 <= c < scan.selection().len() ==> lies_beyond(
                scan.watermark->0,
                #[trigger] scan.selection()[c],
            ),
{
    picks_are_new(scan, scan.window());
}

/// The watermark a run reaches is not less than the marker of any candidate
/// it delivered.
pub proof fn newest_covers_delivered(candidates: Seq<CandidateView>, delivered: Seq<int>, k: int)
    requires
        0 <= k < delivered.len(),
        candidates[delivered[k]].marker is Some,
    ensures
        greatest_marker(candidates, delivered) matches Some(n) && !text_less(
            n,
            candidates[delivered[k]].marker->0,
        ),
    decreases delivered.len(),
{
    let m = candidates[delivered[k]].marker->0;
    let earlier = greatest_marker(candidates, delivered.drop_last());
    let last = candidates[delivered.last()].marker;
    bytes_less_irreflexive(encode_utf8(m));
    if k < delivered.len() - 1 {
        newest_covers_delivered(candidates, delivered.drop_last(), k);
        if last is Some && text_less(earlier->0, last->0) && text_less(last->0, m) {
            bytes_less_transitive(
                encode_utf8(earlier->0),
                encode_utf8(last->0),
                encode_utf8(m),
            );
        }
    }
}

/// Where a feed had a watermark and a run delivered a candidate with a
/// marker, the greatest marker of the run lies beyond the old watermark.
pub proof fn newest_lies_beyond_previous(run: RunView)
    requires
        run.wf(),
        run.previous is Some,
        run.newest is Some,
    ensures
        text_less(run.previous->0, run.newest->0),
{
    greatest_is_delivered(run.candidates, run.delivered);
    let k = choose|k: int|
        0 <= k < run.delivered.len() && run.newest
            == #[trigger] run.candidates[run.delivered[k]].marker;
    assert(lies_beyond(run.previous->0, run.candidates[run.delivered[k]]));
}

/// The watermark never falls back: what a run reaches is not less than what
/// the feed had.
pub proof fn watermark_never_falls_back(run: RunView)
    requires
        run.wf(),
        run.previous is Some,
    ensures
        run.reached() matches Some(r) && !text_less(r, run.previous->0),
{
    let w = run.previous->0;
    bytes_less_irreflexive(encode_utf8(w));
    if run.newest is Some {
        newest_lies_beyond_previous(run);
        if text_less(run.newest->0, w) {
            bytes_less_transitive(encode_utf8(w), encode_utf8(run.newest->0), encode_utf8(w));
        }
    }
}

/// The greatest marker among delivered candidates is the marker of one of
/// them; there is none only where none of them has a marker.
pub proof fn greatest_is_delivered(candidates: Seq<CandidateView>, delivered: Seq<int>)
    ensures
        greatest_marker(candidates, delivered) is Some ==> exists|k: int|
            0 <= k < delivered.len() && greatest_marker(candidates, delivered)
                == #[trigger] candidates[delivered[k]].marker,
        greatest_marker(candidates, delivered) is None ==> forall|k: int|
            0 <= k < delivered.len() ==> (#[trigger] candidates[delivered[k]]).marker is None,
    decreases delivered.len(),
{
    if delivered.len() > 0 {
        let front = delivered.drop_last();
        greatest_is_delivered(candidates, front);
        let out = greatest_marker(candidates, delivered);
        if out is Some {
            if out == candidates[delivered.last()].marker {
                assert(out == candidates[delivered[delivered.len() - 1]].marker);
            } else {
                let k = choose|k: int|
                    0 <= k < front.len() && out == #[trigger] candidates[front[k]].marker;
                assert(out == candidates[delivered[k]].marker);
            }
        } else {
            assert forall|k: int| 0 <= k < delivered.len() implies (
            #[trigger] candidates[delivered[k]]).marker is None by {
                if k < front.len() {
                    assert(candidates[front[k]].marker is None);
                }
            }
        }
    }
}

/// A delivery that fails leaves no trace: what was delivered, the greatest
/// marker and the watermark that the run reaches are as before, whether the
/// failure concerns the entry or the destination.
pub proof fn failed_delivery_leaves_no_trace(run: RunView, outcome: Delivery)
    requires
        outcome != Delivery::Delivered,
    ensures
        run.recorded(outcome).candidates == run.candidates,
        run.recorded(outcome).delivered == run.delivered,
        run.recorded(outcome).newest == run.newest,
        run.recorded(outcome).reached() == run.reached(),
{
}

/// No repeat: an entry that a run delivered is not selected again over the
/// same feed content, neither while its fingerprint is remembered nor, if
/// it has a marker, once the watermark that the run reached has been
/// stored.
pub proof fn delivered_is_not_selected_again(run: RunView, scan: Scan, k: int)
    requires
        run.wf(),
        0 <= k < run.delivered.len(),
        scan.fingerprints.len() == scan.entries.len(),
        run.candidates[run.delivered[k]].index < scan.entries.len(),
        scan.fingerprints[run.candidates[run.delivered[k]].index as int]
            == run.candidates[run.delivered[k]].fingerprint,
        scan.entries[run.candidates[run.delivered[k]].index as int].marker()
            == run.candidates[run.delivered[k]].marker,
        scan.known.contains(run.candidates[run.delivered[k]].fingerprint) || (scan.watermark
            == run.reached() && run.candidates[run.delivered[k]].marker is Some),
    ensures
        forall|j: int|
            0 <= j < scan.selection().len() ==> scan.selection()[j].index
                != run.candidates[run.delivered[k]].index,
{
    let delivered = run.candidates[run.delivered[k]];
    if !scan.known.contains(delivered.fingerprint) && delivered.marker is Some {
        newest_covers_delivered(run.candidates, run.delivered, k);
    }
    published_is_not_selected_again(scan, delivered.index);
}

/// One check of one feed.
pub struct FeedRun {
    candidates: Vec<Candidate>,
    previous: Option<String>,
    cursor: usize,
    delivered: Vec<usize>,
    newest: Option<String>,
    halted: bool,
}

impl View for FeedRun {
    type V = RunView;

    closed spec fn view(&self) -> RunView {
        RunView {
            candidates: candidate_views(self.candidates@),
            previous: text_view(self.previous),
            cursor: self.cursor as nat,
            delivered: self.delivered@.map_values(|d: usize| d as int),
            newest: text_view(self.newest),
            halted: self.halted,
        }
    }
}

impl FeedRun {
    /// Whether the run is in a state that a run can reach.
    pub open spec fn wf(&self) -> bool {
        self@.wf()
    }

    /// Begins the check of a feed whose entries are `entries` and whose
    /// watermark is `watermark`: selects the candidates. `now` is a reading
    /// of the clock, in nanoseconds since the Unix epoch; it marks the
    /// entries that hold nothing to derive a fingerprint from. Every
    /// candidate names a position of the feed.
    pub fn begin(
        entries: &Vec<ParsedEntry>,
        watermark: &Option<String>,
        memory: &NoveltyMemory,
        now: i64,
    ) -> (run: FeedRun)
        ensures
            run.wf(),
            run@.previous == text_view(*watermark),
            run@.cursor == 0,
            run@.delivered.len() == 0,
            run@.newest is None,
            !run@.halted,
            run@.candidates == scan_of(
                entry_views(entries@),
                now as int,
                text_view(*watermark),
                memory@,
            ).selection(),
            forall|c: int|
                0 <= c < run@.candidates.len() ==> (#[trigger] run@.candidates[c]).index
                    < entries.len(),
    {
        let candidates = select_new(entries, watermark, memory, now);
        let previous = match watermark {
            Some(w) => Some(w.clone()),
            None => None,
        };
        let run = FeedRun {
            candidates,
            previous,
            cursor: 0,
            delivered: Vec::new(),
            newest: None,
            halted: false,
        };
        proof {
            let scan = scan_of(
                entry_views(entries@),
                now as int,
                text_view(*watermark),
                memory@,
            );
            picks_are_new(scan, scan.window());
            if watermark is Some {
                selected_lie_beyond(scan);
            }
            assert forall|c: int| 0 <= c < run@.candidates.len() implies (
            #[trigger] run@.candidates[c]).index < entries.len() by {
                assert(run@.candidates[c].index == run.candidates@[c].index);
            }
        }
        run
    }

    /// The candidates of the run, in the order in which they are published.
    pub fn candidates(&self) -> (out: &Vec<Candidate>)
        ensures
            candidate_views(out@) == self@.candidates,
    {
        &self.candidates
    }

    /// How many candidates have been delivered.
    pub fn published(&self) -> (n: u32)
        requires
            self.wf(),
        ensures
            n == self@.delivered.len(),
    {
        self.delivered.len() as u32
    }

    /// Says what is to be done next. Candidates whose fingerprints have come
    /// into the memory since the run began are passed over first.
    pub fn next(&mut self, memory: &NoveltyMemory) -> (step: Step)
        requires
            old(self).wf(),
        ensures
            final(self).wf(),
            final(self)@ == old(self)@.skipped(memory@),
            step == final(self)@.step(),
            step matches Step::Publish(place) ==> place < final(self)@.candidates.len()
                && !memory@.contains(final(self)@.candidates[place as int].fingerprint),
    {
        while !self.halted && self.cursor < self.candidates.len() && memory.contains(
            &self.candidates[self.cursor].fingerprint,
        )
            invariant
                self.wf(),
                self@.skipped(memory@) == old(self)@.skipped(memory@),
            decreases self.candidates.len() - self.cursor,
        {
            self.cursor += 1;
        }
        if !self.halted && self.cursor < self.candidates.len() {
            Step::Publish(self.cursor)
        } else {
            Step::Finish
        }
    }

    /// Takes note of how the publication of the pending candidate went. A
    /// delivered candidate is counted, its fingerprint is remembered and the
    /// watermark is raised to its marker; a failed one is passed over; a lost
    /// destination ends the run.
    pub fn record(&mut self, outcome: Delivery, memory: &mut NoveltyMemory)
        requires
            old(self).wf(),
            old(memory).wf(),
        ensures
            final(self).wf(),
            final(memory).wf(),
            final(memory).limit() == old(memory).limit(),
            final(self)@ == old(self)@.recorded(outcome),
            final(memory)@ == if old(self)@.pending() && outcome == Delivery::Delivered {
                remembered(
                    old(memory)@,
                    old(memory).limit(),
                    old(self)@.candidates[old(self)@.cursor as int].fingerprint,
                )
            } else {
                old(memory)@
            },
    {
        if self.halted || self.cursor >= self.candidates.len() {
            return ;
        }
        match outcome {
            Delivery::Delivered => {
                let ghost before = self@;
                let candidate = &self.candidates[self.cursor];
                memory.remember(candidate.fingerprint.clone());
                let raise = match &candidate.marker {
                    Some(m) => match &self.newest {
                        Some(n) => is_less(n.as_str(), m.as_str()),
                        None => true,
                    },
                    None => false,
                };
                if raise {
                    self.newest = match &candidate.marker {
                        Some(m) => Some(m.clone()),
                        None => None,
                    };
                }
                self.delivered.push(self.cursor);
                self.cursor += 1;
                proof {
                    assert(self@.delivered =~= before.delivered.push(before.cursor as int));
                    assert(self@.delivered.drop_last() =~= before.delivered);
                }
            },
            Delivery::Failed => {
                self.cursor += 1;
            },
            Delivery::DestinationLost => {
                self.halted = true;
            },
        }
    }

    /// What is to become of the feed's watermark: it stays where nothing was
    /// delivered, and else becomes what the run has reached.
    pub fn advance(&self) -> (out: Advance)
        ensures
            match out {
                Advance::Keep => self@.delivered.len() == 0,
                Advance::To(w) => self@.delivered.len() > 0 && text_view(w) == self@.reached(),
            },
    {
        if self.delivered.len() == 0 {
            return Advance::Keep;
        }
        let reached = match &self.newest {
            Some(n) => Some(n.clone()),
            None => match &self.previous {
                Some(w) => Some(w.clone()),
                None => None,
            },
        };
        Advance::To(reached)
    }
}

} // verus!
