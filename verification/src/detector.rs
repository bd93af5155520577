//! Novelty detection: which entries of a fetched feed are new.
//!
//! The entries are considered newest first. On the first check of a feed
//! only the newest entry is considered; later a window of the most recent
//! entries is scanned for those whose marker lies beyond the watermark. An
//! entry whose fingerprint is remembered, or was chosen earlier in the same
//! scan, is passed over. An entry without a marker cannot be held against
//! the watermark: of such entries a scan takes the first that is unseen.

use crate::fingerprint::{fingerprint, identifier, is_determined};
use crate::instant::Timestamp;
use crate::memory::NoveltyMemory;
use crate::model::{entry_views, EntryView, ParsedEntry};
use crate::recency::{
    is_recency_order, ranks_before, recency, recency_order, recency_order_exists,
    recency_order_starts_with_latest,
};
use crate::text::{bytes_less_total, bytes_less_transitive, is_less, text_less, text_view, texts};
use vstd::prelude::*;
use vstd::utf8::encode_utf8;

verus! {

/// How many of the most recent entries are scanned once a feed has a
/// watermark.
pub const SCAN_WINDOW: usize = 3;

/// An entry selected for publication.
#[derive(Debug)]
pub struct Candidate {
    /// The position of the entry in the feed.
    pub index: usize,
    pub fingerprint: String,
    /// The marker of the entry's effective date.
    pub marker: Option<String>,
}

/// A candidate as mathematical values.
pub struct CandidateView {
    pub index: usize,
    pub fingerprint: Seq<char>,
    pub marker: Option<Seq<char>>,
}

impl View for Candidate {
    type V = CandidateView;

    open spec fn view(&self) -> CandidateView {
        CandidateView {
            index: self.index,
            fingerprint: self.fingerprint@,
            marker: text_view(self.marker),
        }
    }
}

/// The views of a list of candidates.
pub open spec fn candidate_views(list: Seq<Candidate>) -> Seq<CandidateView> {
    list.map_values(|c: Candidate| c@)
}

/// What one detection looks at.
pub struct Scan {
    /// The entries in feed order.
    pub entries: Seq<EntryView>,
    /// The fingerprint of each entry.
    pub fingerprints: Seq<Seq<char>>,
    /// The marker of the newest entry published so far.
    pub watermark: Option<Seq<char>>,
    /// The fingerprints that are remembered.
    pub known: Seq<Seq<char>>,
}

impl Scan {
    /// The effective dates of the entries.
    pub open spec fn dates(self) -> Seq<Option<Timestamp>> {
        self.entries.map_values(|e: EntryView| e.effective_date())
    }

    /// How many entries are scanned: one on the first check, later the scan
    /// window, and never more than there are.
    pub open spec fn window(self) -> nat {
        let most: nat = if self.watermark is Some {
            SCAN_WINDOW as nat
        } else {
            1
        };
        if self.entries.len() < most {
            self.entries.len()
        } else {
            most
        }
    }

    /// The feed position of the entry scanned at place `p`.
    pub open spec fn slot(self, p: int) -> int {
        recency(self.dates())[p] as int
    }

    /// The fingerprint of the entry scanned at place `p`.
    pub open spec fn print_at(self, p: int) -> Seq<char> {
        self.fingerprints[self.slot(p)]
    }

    /// The marker of the entry scanned at place `p`.
    pub open spec fn marker_at(self, p: int) -> Option<Seq<char>> {
        self.entries[self.slot(p)].marker()
    }

    /// Whether dates are of no use in this scan: none of the scanned entries
    /// has a marker.
    pub open spec fn undated(self) -> bool {
        forall|p: int| 0 <= p < self.window() ==> #[trigger] self.marker_at(p) is None
    }

    /// Whether the entry scanned at place `p` is new: its fingerprint is not
    /// remembered, and where the feed has a watermark the marker of the
    /// entry lies beyond it. An entry without a marker is new under a
    /// watermark only in a scan in which dates are of no use; there it is new
    /// by its fingerprint alone.
    pub open spec fn new_at(self, p: int) -> bool {
        &&& !self.known.contains(self.print_at(p))
        &&& match self.watermark {
            Some(w) => match self.marker_at(p) {
                Some(m) => text_less(w, m),
                None => self.undated(),
            },
            None => true,
        }
    }

    /// Whether the entry scanned at place `p` is taken after `taken` have
    /// been: it is new, none of `taken` has its fingerprint, and, where the
    /// feed has a watermark and the entry no marker, none of `taken` is
    /// without a marker either. So a scan under a watermark in which dates
    /// are of no use yields at most one entry: the first that is unseen.
    pub open spec fn takes(self, taken: Seq<CandidateView>, p: int) -> bool {
        &&& self.new_at(p)
        &&& forall|c: int|
            0 <= c < taken.len() ==> (#[trigger] taken[c]).fingerprint != self.print_at(p)
        &&& self.watermark is Some && self.marker_at(p) is None ==> forall|c: int|
            0 <= c < taken.len() ==> (#[trigger] taken[c]).marker is Some
    }

    /// The candidate made of the entry scanned at place `p`.
    pub open spec fn candidate(self, p: int) -> CandidateView {
        CandidateView {
            index: recency(self.dates())[p],
            fingerprint: self.print_at(p),
            marker: self.marker_at(p),
        }
    }

    /// The candidates among the first `upto` places, in scan order.
    pub open spec fn picks(self, upto: nat) -> Seq<CandidateView>
        decreases upto,
    {
        if upto == 0 {
            Seq::empty()
        } else if self.takes(self.picks((upto - 1) as nat), upto - 1) {
            self.picks((upto - 1) as nat).push(self.candidate(upto - 1))
        } else {
            self.picks((upto - 1) as nat)
        }
    }

    /// The entries selected for publication, in the order in which they are
    /// to be published.
    pub open spec fn selection(self) -> Seq<CandidateView> {
        self.picks(self.window())
    }
}

/// Whether every entry holds something a fingerprint can be derived from.
pub open spec fn all_determined(entries: Seq<EntryView>) -> bool {
    forall|i: int| 0 <= i < entries.len() ==> is_determined(#[trigger] entries[i])
}

/// The fingerprints of entries that are seen at the instant `now`.
pub open spec fn fingerprints_at(entries: Seq<EntryView>, now: int) -> Seq<Seq<char>> {
    entries.map_values(|e: EntryView| fingerprint(e, now))
}

/// The scan of entries that are seen at the instant `now`, under a
/// watermark and with a memory.
pub open spec fn scan_of(
    entries: Seq<EntryView>,
    now: int,
    watermark: Option<Seq<char>>,
    known: Seq<Seq<char>>,
) -> Scan {
    Scan { entries, fingerprints: fingerprints_at(entries, now), watermark, known }
}

/// Tests whether one of `list` has the fingerprint `text`.
fn holds_fingerprint(list: &Vec<Candidate>, text: &String) -> (found: bool)
    ensures
        found == exists|c: int|
            0 <= c < list@.len() && (#[trigger] candidate_views(list@)[c]).fingerprint == text@,
{
    let mut k: usize = 0;
    while k < list.len()
        invariant
            k <= list.len(),
            forall|j: int|
                0 <= j < k ==> (#[trigger] candidate_views(list@)[j]).fingerprint != text@,
        decreases list.len() - k,
    {
        if list[k].fingerprint == *text {
            assert(candidate_views(list@)[k as int].fingerprint == text@);
            return true;
        }
        k += 1;
    }
    false
}

/// Tests whether one of `list` has no marker.
fn holds_undated(list: &Vec<Candidate>) -> (found: bool)
    ensures
        found == exists|c: int|
            0 <= c < list@.len() && (#[trigger] candidate_views(list@)[c]).marker is None,
{
    let mut k: usize = 0;
    while k < list.len()
        invariant
            k <= list.len(),
            forall|j: int| 0 <= j < k ==> (#[trigger] candidate_views(list@)[j]).marker is Some,
        decreases list.len() - k,
    {
        if list[k].marker.is_none() {
            assert(candidate_views(list@)[k as int].marker is None);
            return true;
        }
        k += 1;
    }
    false
}

/// The effective dates of `entries`.
fn effective_dates(entries: &Vec<ParsedEntry>) -> (dates: Vec<Option<Timestamp>>)
    ensures
        dates@ == entry_views(entries@).map_values(|e: EntryView| e.effective_date()),
{
    let mut dates: Vec<Option<Timestamp>> = Vec::new();
    let mut i: usize = 0;
    while i < entries.len()
        invariant
            i <= entries.len(),
            dates.len() == i,
            forall|j: int| 0 <= j < i ==> dates@[j] == entries@[j]@.effective_date(),
        decreases entries.len() - i,
    {
        dates.push(entries[i].effective_date());
        i += 1;
    }
    dates
}

/// A copy of an optional text.
fn copy_text(text: &Option<String>) -> (out: Option<String>)
    ensures
        text_view(out) == text_view(*text),
{
    match text {
        Some(s) => Some(s.clone()),
        None => None,
    }
}

/// Selects among `entries`, whose fingerprints are `fingerprints`.
fn select_with(
    entries: &Vec<ParsedEntry>,
    fingerprints: &Vec<String>,
    watermark: &Option<String>,
    memory: &NoveltyMemory,
) -> (out: Vec<Candidate>)
    requires
        fingerprints.len() == entries.len(),
    ensures
        candidate_views(out@) == (Scan {
            entries: entry_views(entries@),
            fingerprints: texts(fingerprints@),
            watermark: text_view(*watermark),
            known: memory@,
        }).selection(),
        forall|c: int| 0 <= c < out.len() ==> (#[trigger] out@[c]).index < entries.len(),
{
    let ghost scan = Scan {
        entries: entry_views(entries@),
        fingerprints: texts(fingerprints@),
        watermark: text_view(*watermark),
        known: memory@,
    };
    let dates = effective_dates(entries);
    let order = recency_order(&dates);
    let most: usize = if watermark.is_some() {
        SCAN_WINDOW
    } else {
        1
    };
    let window: usize = if entries.len() < most {
        entries.len()
    } else {
        most
    };
    let mut markers: Vec<Option<String>> = Vec::new();
    let mut dated = false;
    let mut p: usize = 0;
    while p < window
        invariant
            p <= window <= entries.len(),
            order@ == recency(scan.dates()),
            is_recency_order(dates@, order@),
            dates.len() == entries.len(),
            scan.entries == entry_views(entries@),
            markers.len() == p,
            forall|q: int| 0 <= q < p ==> text_view(#[trigger] markers@[q]) == scan.marker_at(q),
            !dated <==> forall|q: int| 0 <= q < p ==> #[trigger] scan.marker_at(q) is None,
        decreases window - p,
    {
        let marker = entries[order[p]].marker();
        if marker.is_some() {
            dated = true;
            assert(scan.marker_at(p as int) is Some);
        }
        markers.push(marker);
        p += 1;
    }
    assert(window == scan.window());
    assert(!dated <==> scan.undated());
    let mut out: Vec<Candidate> = Vec::new();
    let mut p: usize = 0;
    while p < window
        invariant
            p <= window <= entries.len(),
            window == scan.window(),
            fingerprints.len() == entries.len(),
            order@ == recency(scan.dates()),
            is_recency_order(dates@, order@),
            dates.len() == entries.len(),
            scan.entries == entry_views(entries@),
            scan.fingerprints == texts(fingerprints@),
            scan.watermark == text_view(*watermark),
            scan.known == memory@,
            markers.len() == window,
            forall|q: int|
                0 <= q < window ==> text_view(#[trigger] markers@[q]) == scan.marker_at(q),
            !dated <==> scan.undated(),
            candidate_views(out@) == scan.picks(p as nat),
            forall|c: int| 0 <= c < out.len() ==> (#[trigger] out@[c]).index < entries.len(),
        decreases window - p,
    {
        let i = order[p];
        let print = &fingerprints[i];
        let marker = copy_text(&markers[p]);
        let fresh = !memory.contains(print);
        let beyond = match watermark {
            Some(w) => match &marker {
                Some(m) => is_less(w.as_str(), m.as_str()),
                None => !dated,
            },
            None => true,
        };
        let alone = watermark.is_some() && marker.is_none();
        if fresh && beyond && !holds_fingerprint(&out, print) && !(alone && holds_undated(&out)) {
            let ghost before = out@;
            out.push(Candidate { index: i, fingerprint: print.clone(), marker });
            assert(candidate_views(out@) =~= candidate_views(before).push(
                scan.candidate(p as int),
            ));
        }
        p += 1;
    }
    out
}

/// The fingerprint of each of `entries`, seen at the instant `now`.
pub fn fingerprints_of(entries: &Vec<ParsedEntry>, now: i64) -> (out: Vec<String>)
    ensures
        out.len() == entries.len(),
        texts(out@) == fingerprints_at(entry_views(entries@), now as int),
{
    let mut out: Vec<String> = Vec::new();
    let mut i: usize = 0;
    while i < entries.len()
        invariant
            i <= entries.len(),
            out.len() == i,
            forall|j: int|
                0 <= j < i ==> (#[trigger] out@[j])@ == fingerprint(entries@[j]@, now as int),
        decreases entries.len() - i,
    {
        out.push(identifier(&entries[i], now));
        i += 1;
    }
    assert(texts(out@) =~= fingerprints_at(entry_views(entries@), now as int));
    out
}

/// Selects the entries of a fetched feed that are to be published, in the
/// order in which they are to be published. `now` is a reading of the
/// clock, in nanoseconds since the Unix epoch; it marks the entries that
/// hold nothing to derive a fingerprint from.
///
/// The result is the selection of the scan over the entries, the watermark
/// and the memory. Every candidate names a position of the feed.
pub fn select_new(
    entries: &Vec<ParsedEntry>,
    watermark: &Option<String>,
    memory: &NoveltyMemory,
    now: i64,
) -> (out: Vec<Candidate>)
    ensures
        candidate_views(out@) == scan_of(
            entry_views(entries@),
            now as int,
            text_view(*watermark),
            memory@,
        ).selection(),
        forall|c: int| 0 <= c < out.len() ==> (#[trigger] out@[c]).index < entries.len(),
{
    let fingerprints = fingerprints_of(entries, now);
    select_with(entries, &fingerprints, watermark, memory)
}

/// Whether `candidate` is the entry of a new place among the first `upto`.
pub open spec fn picked_from(scan: Scan, upto: nat, candidate: CandidateView) -> bool {
    exists|p: int| 0 <= p < upto && #[trigger] scan.new_at(p) && candidate == scan.candidate(p)
}

/// Each candidate among the first `upto` places is the entry of a new
/// place, and there are no more candidates than places.
pub proof fn picks_are_new(scan: Scan, upto: nat)
    ensures
        scan.picks(upto).len() <= upto,
        forall|k: int|
            0 <= k < scan.picks(upto).len() ==> picked_from(
                scan,
                upto,
                #[trigger] scan.picks(upto)[k],
            ),
    decreases upto,
{
    if upto > 0 {
        picks_are_new(scan, (upto - 1) as nat);
        let earlier = scan.picks((upto - 1) as nat);
        assert forall|k: int| 0 <= k < scan.picks(upto).len() implies picked_from(
            scan,
            upto,
            #[trigger] scan.picks(upto)[k],
        ) by {
            if k < earlier.len() {
                assert(picked_from(scan, (upto - 1) as nat, earlier[k]));
                let p = choose|p: int|
                    0 <= p < upto - 1 && #[trigger] scan.new_at(p) && earlier[k] == scan.candidate(
                        p,
                    );
                assert(scan.new_at(p) && scan.picks(upto)[k] == scan.candidate(p));
            } else {
                assert(scan.new_at(upto - 1) && scan.picks(upto)[k] == scan.candidate(upto - 1));
            }
        }
    }
}

/// Detection is repeatable: over the same entries, watermark and memory it
/// selects the same candidates at whatever instants the entries are seen,
/// as long as every entry is determined.
pub proof fn selection_is_repeatable(
    entries: Seq<EntryView>,
    first: int,
    second: int,
    watermark: Option<Seq<char>>,
    known: Seq<Seq<char>>,
)
    requires
        all_determined(entries),
    ensures
        scan_of(entries, first, watermark, known).selection() == scan_of(
            entries,
            second,
            watermark,
            known,
        ).selection(),
{
    assert(fingerprints_at(entries, first) =~= fingerprints_at(entries, second));
}

/// Nothing is selected twice: an entry whose fingerprint is remembered is
/// not selected, and neither is an entry with a marker that does not lie
/// beyond the watermark of the feed.
pub proof fn published_is_not_selected_again(scan: Scan, i: usize)
    requires
        scan.fingerprints.len() == scan.entries.len(),
        i < scan.entries.len(),
        scan.known.contains(scan.fingerprints[i as int]) || (scan.watermark matches Some(w)
            && scan.entries[i as int].marker() matches Some(m) && !text_less(w, m)),
    ensures
        forall|k: int| 0 <= k < scan.selection().len() ==> scan.selection()[k].index != i,
{
    picks_are_new(scan, scan.window());
    assert forall|k: int| 0 <= k < scan.selection().len() implies scan.selection()[k].index
        != i by {
        assert(picked_from(scan, scan.window(), scan.selection()[k]));
        let p = choose|p: int|
            0 <= p < scan.window() && #[trigger] scan.new_at(p) && scan.selection()[k]
                == scan.candidate(p);
        if scan.candidate(p).index == i {
            assert(scan.slot(p) == i);
        }
    }
}

/// The first check of a feed selects at most one entry: the one with the
/// latest effective date, and of several with that date the first in the
/// feed. It is selected unless its fingerprint is remembered.
pub proof fn first_check_selects_newest(scan: Scan)
    requires
        scan.watermark is None,
        0 < scan.entries.len() <= usize::MAX,
        scan.fingerprints.len() == scan.entries.len(),
    ensures
        forall|j: usize|
            j < scan.entries.len() && j != scan.slot(0) ==> ranks_before(
                scan.dates(),
                scan.slot(0),
                j as int,
            ),
        !scan.known.contains(scan.print_at(0)) ==> scan.selection() == seq![scan.candidate(0)],
        scan.known.contains(scan.print_at(0)) ==> scan.selection().len() == 0,
{
    recency_order_exists(scan.dates());
    recency_order_starts_with_latest(scan.dates(), recency(scan.dates()));
    assert(scan.picks(0) =~= Seq::<CandidateView>::empty());
}

/// The candidates of a scan under a watermark in which no entry has a
/// marker, up to place `upto`: none before the first unseen entry, and that
/// entry alone from there on.
proof fn undated_picks(scan: Scan, first: int, upto: nat)
    requires
        scan.watermark is Some,
        0 <= first,
        upto <= scan.window(),
        forall|p: int| 0 <= p < scan.window() ==> #[trigger] scan.marker_at(p) is None,
        !scan.known.contains(scan.print_at(first)),
        forall|q: int| 0 <= q < first ==> scan.known.contains(#[trigger] scan.print_at(q)),
    ensures
        upto <= first ==> scan.picks(upto) == Seq::<CandidateView>::empty(),
        upto > first ==> scan.picks(upto) == seq![scan.candidate(first)],
    decreases upto,
{
    if upto > 0 {
        undated_picks(scan, first, (upto - 1) as nat);
        let earlier = scan.picks((upto - 1) as nat);
        assert(scan.marker_at(upto - 1) is None);
        if upto - 1 < first {
            assert(scan.known.contains(scan.print_at(upto - 1)));
        } else if upto - 1 == first {
            assert(scan.takes(earlier, first));
            assert(earlier.push(scan.candidate(first)) =~= seq![scan.candidate(first)]);
        } else {
            assert(scan.marker_at(first) is None);
            assert(earlier[0].marker is None);
            assert(!scan.takes(earlier, upto - 1));
        }
    }
}

/// Where dates are of no use the selection falls back on fingerprints: a
/// scan under a watermark in which no entry has a marker selects the first
/// entry whose fingerprint is not remembered, and no other.
pub proof fn undated_feed_yields_first_unseen(scan: Scan, first: int)
    requires
        scan.watermark is Some,
        0 <= first < scan.window(),
        forall|p: int| 0 <= p < scan.window() ==> #[trigger] scan.marker_at(p) is None,
        !scan.known.contains(scan.print_at(first)),
        forall|q: int| 0 <= q < first ==> scan.known.contains(#[trigger] scan.print_at(q)),
    ensures
        scan.selection() == seq![scan.candidate(first)],
{
    undated_picks(scan, first, scan.window());
}

/// Whether one of `taken` has the fingerprint `text`.
pub open spec fn holds_print(taken: Seq<CandidateView>, text: Seq<char>) -> bool {
    exists|c: int| 0 <= c < taken.len() && (#[trigger] taken[c]).fingerprint == text
}

/// The fingerprint of every new entry that has a marker is among the
/// candidates: the entry is taken itself, or one with its fingerprint was
/// taken before it.
pub proof fn new_prints_are_picked(scan: Scan, upto: nat)
    ensures
        forall|p: int|
            0 <= p < upto && #[trigger] scan.new_at(p) && scan.marker_at(p) is Some ==> holds_print(
                scan.picks(upto),
                scan.print_at(p),
            ),
    decreases upto,
{
    if upto > 0 {
        new_prints_are_picked(scan, (upto - 1) as nat);
        let earlier = scan.picks((upto - 1) as nat);
        let now = scan.picks(upto);
        assert forall|p: int|
            0 <= p < upto && #[trigger] scan.new_at(p) && scan.marker_at(p) is Some
            implies holds_print(now, scan.print_at(p)) by {
            if p < upto - 1 {
                assert(holds_print(earlier, scan.print_at(p)));
                let c = choose|c: int|
                    0 <= c < earlier.len() && (#[trigger] earlier[c]).fingerprint == scan.print_at(
                        p,
                    );
                assert(now[c].fingerprint == scan.print_at(p));
            } else if scan.takes(earlier, p) {
                assert(now[now.len() - 1].fingerprint == scan.print_at(p));
            } else {
                let c = choose|c: int|
                    0 <= c < earlier.len() && (#[trigger] earlier[c]).fingerprint == scan.print_at(
                        p,
                    );
                assert(now[c].fingerprint == scan.print_at(p));
            }
        }
    }
}

/// Where no place among the first `upto` is new, nothing is taken there.
proof fn nothing_new_nothing_picked(scan: Scan, upto: nat)
    requires
        forall|p: int| 0 <= p < upto ==> !#[trigger] scan.new_at(p),
    ensures
        scan.picks(upto).len() == 0,
    decreases upto,
{
    if upto > 0 {
        nothing_new_nothing_picked(scan, (upto - 1) as nat);
        assert(!scan.new_at(upto - 1));
    }
}

/// After a check in which every selected entry was published, the next
/// check of the same content selects nothing: the scan of a feed that had a
/// watermark and whose scanned entries all have markers leaves nothing for
/// a second scan that remembers what the first remembered and selected, and
/// whose watermark has not fallen back.
pub proof fn second_scan_selects_nothing(first: Scan, second: Scan)
    requires
        first.watermark is Some,
        second.watermark is Some,
        !text_less(second.watermark->0, first.watermark->0),
        second.entries == first.entries,
        second.fingerprints == first.fingerprints,
        forall|p: int| 0 <= p < first.window() ==> #[trigger] first.marker_at(p) is Some,
        forall|text: Seq<char>|
            first.known.contains(text) ==> #[trigger] second.known.contains(text),
        forall|k: int|
            0 <= k < first.selection().len() ==> second.known.contains(
                (#[trigger] first.selection()[k]).fingerprint,
            ),
    ensures
        second.selection().len() == 0,
{
    new_prints_are_picked(first, first.window());
    let old_mark = first.watermark->0;
    let new_mark = second.watermark->0;
    assert forall|p: int| 0 <= p < second.window() implies !#[trigger] second.new_at(p) by {
        assert(first.marker_at(p) is Some);
        assert(second.marker_at(p) == first.marker_at(p));
        assert(second.print_at(p) == first.print_at(p));
        let m = first.marker_at(p)->0;
        if first.new_at(p) {
            assert(holds_print(first.selection(), first.print_at(p)));
            let c = choose|c: int|
                0 <= c < first.selection().len() && (#[trigger] first.selection()[c]).fingerprint
                    == first.print_at(p);
            assert(second.known.contains(first.selection()[c].fingerprint));
        } else if !first.known.contains(first.print_at(p)) {
            if text_less(new_mark, m) {
                bytes_less_total(encode_utf8(m), encode_utf8(old_mark));
                if text_less(m, old_mark) {
                    bytes_less_transitive(
                        encode_utf8(new_mark),
                        encode_utf8(m),
                        encode_utf8(old_mark),
                    );
                }
            }
        }
    }
    nothing_new_nothing_picked(second, second.window());
}

/// Whether the scan is plain up to place `upto`: the feed has a watermark,
/// and the entries scanned before `upto` all have markers and fingerprints
/// of their own, none of them remembered.
pub open spec fn is_plain(scan: Scan, upto: nat) -> bool {
    &&& scan.watermark is Some
    &&& forall|q: int| 0 <= q < upto ==> #[trigger] scan.marker_at(q) is Some
    &&& forall|q: int| 0 <= q < upto ==> !scan.known.contains(#[trigger] scan.print_at(q))
    &&& forall|q: int, r: int| 0 <= q < r < upto ==> scan.print_at(q) != scan.print_at(r)
}

/// In a plain scan the candidates among the first `upto` places are the
/// entries whose marker lies beyond the watermark, and no others.
pub proof fn plain_picks_lie_beyond(scan: Scan, upto: nat, p: int)
    requires
        is_plain(scan, upto),
        0 <= p < upto,
    ensures
        holds_print(scan.picks(upto), scan.print_at(p)) <==> text_less(
            scan.watermark->0,
            scan.marker_at(p)->0,
        ),
    decreases upto,
{
    let earlier = scan.picks((upto - 1) as nat);
    let now = scan.picks(upto);
    picks_are_new(scan, (upto - 1) as nat);
    assert(scan.marker_at(p) is Some);
    assert(scan.marker_at(upto - 1) is Some);
    assert forall|c: int| 0 <= c < earlier.len() implies (#[trigger] earlier[c]).fingerprint
        != scan.print_at(upto - 1) by {
        assert(picked_from(scan, (upto - 1) as nat, earlier[c]));
    }
    if p < upto - 1 {
        plain_picks_lie_beyond(scan, (upto - 1) as nat, p);
        if holds_print(earlier, scan.print_at(p)) {
            let c = choose|c: int|
                0 <= c < earlier.len() && (#[trigger] earlier[c]).fingerprint == scan.print_at(p);
            assert(now[c].fingerprint == scan.print_at(p));
        }
        if holds_print(now, scan.print_at(p)) {
            let c = choose|c: int|
                0 <= c < now.len() && (#[trigger] now[c]).fingerprint == scan.print_at(p);
            if c < earlier.len() {
                assert(earlier[c].fingerprint == scan.print_at(p));
            }
        }
    } else {
        assert(scan.takes(earlier, p) == scan.new_at(p));
        if scan.new_at(p) {
            assert(now[now.len() - 1].fingerprint == scan.print_at(p));
        } else if holds_print(now, scan.print_at(p)) {
            let c = choose|c: int|
                0 <= c < now.len() && (#[trigger] now[c]).fingerprint == scan.print_at(p);
            assert(earlier[c].fingerprint == scan.print_at(p));
        }
    }
}

/// A feed without entries yields no candidate.
pub proof fn empty_feed_selects_nothing(scan: Scan)
    requires
        scan.entries.len() == 0,
    ensures
        scan.selection().len() == 0,
{
}

/// No scan selects more than the scan window holds.
pub proof fn selection_is_bounded(scan: Scan)
    ensures
        scan.selection().len() <= scan.window() <= SCAN_WINDOW,
{
    picks_are_new(scan, scan.window());
}

} // verus!
