//! The order in which a feed's entries are considered: newest first.

use crate::instant::Timestamp;
use vstd::prelude::*;

verus! {

/// Whether date `a` is later than date `b`. A missing date is earlier than
/// every date.
pub open spec fn later(a: Option<Timestamp>, b: Option<Timestamp>) -> bool {
    match (a, b) {
        (Some(x), Some(y)) => x.after(y),
        (Some(_), None) => true,
        (None, _) => false,
    }
}

/// Whether entry `i` is considered before entry `j`: it is later, or as late
/// and earlier in the feed.
pub open spec fn ranks_before(dates: Seq<Option<Timestamp>>, i: int, j: int) -> bool {
    later(dates[i], dates[j]) || (dates[i] == dates[j] && i < j)
}

/// Whether `order` lists every position of the feed exactly once, newest
/// entry first, entries of one date in feed order.
pub open spec fn is_recency_order(dates: Seq<Option<Timestamp>>, order: Seq<usize>) -> bool {
    &&& order.len() == dates.len()
    &&& forall|k: int| 0 <= k < order.len() ==> (#[trigger] order[k]) < dates.len()
    &&& forall|a: int, b: int|
        0 <= a < b < order.len() ==> ranks_before(dates, order[a] as int, order[b] as int)
    &&& forall|i: usize| i < dates.len() ==> order.contains(i)
}

/// The recency order of a feed with these effective dates.
pub open spec fn recency(dates: Seq<Option<Timestamp>>) -> Seq<usize> {
    choose|order: Seq<usize>| is_recency_order(dates, order)
}

/// Tests whether date `a` is later than date `b`.
pub fn is_later(a: Option<Timestamp>, b: Option<Timestamp>) -> (r: bool)
    ensures
        r == later(a, b),
{
    match a {
        Some(x) => match b {
            Some(y) => x.is_after(&y),
            None => true,
        },
        None => false,
    }
}

/// The positions `0..dates.len()`, newest date first; where dates are equal
/// the earlier position comes first.
pub fn recency_order(dates: &Vec<Option<Timestamp>>) -> (order: Vec<usize>)
    ensures
        is_recency_order(dates@, order@),
        order@ == recency(dates@),
{
    let mut order: Vec<usize> = Vec::new();
    let mut n: usize = 0;
    while n < dates.len()
        invariant
            n <= dates.len(),
            order.len() == n,
            forall|k: int| 0 <= k < order.len() ==> (#[trigger] order@[k]) < n,
            forall|a: int, b: int|
                0 <= a < b < order.len() ==> ranks_before(
                    dates@,
                    order@[a] as int,
                    order@[b] as int,
                ),
            forall|i: usize| i < n ==> order@.contains(i),
        decreases dates.len() - n,
    {
        let date = dates[n];
        let mut at: usize = order.len();
        while at > 0 && is_later(date, dates[order[at - 1]])
            invariant
                at <= order.len(),
                order.len() == n,
                n < dates.len(),
                date == dates@[n as int],
                forall|k: int| 0 <= k < order.len() ==> (#[trigger] order@[k]) < n,
                forall|k: int|
                    at <= k < order.len() ==> ranks_before(dates@, n as int, order@[k] as int),
            decreases at,
        {
            at -= 1;
        }
        let ghost before = order@;
        order.insert(at, n);
        proof {
            assert forall|a: int, b: int| 0 <= a < b < order.len() implies ranks_before(
                dates@,
                order@[a] as int,
                order@[b] as int,
            ) by {
                if b == at && a < at - 1 {
                    assert(ranks_before(dates@, before[a] as int, before[at - 1] as int));
                }
            }
            assert forall|i: usize| i < n + 1 implies order@.contains(i) by {
                if i < n {
                    assert(before.contains(i));
                    let k = choose|k: int| 0 <= k < before.len() && before[k] == i;
                    if k < at {
                        assert(order@[k] == i);
                    } else {
                        assert(order@[k + 1] == i);
                    }
                } else {
                    assert(order@[at as int] == i);
                }
            }
        }
        n += 1;
    }
    proof {
        recency_is_the_order(dates@, order@);
    }
    order
}

/// Where position `x` goes into `order`: behind every position that it
/// does not rank before, counted from the end.
spec fn landing(dates: Seq<Option<Timestamp>>, order: Seq<usize>, x: int) -> nat
    decreases order.len(),
{
    if order.len() > 0 && ranks_before(dates, x, order.last() as int) {
        landing(dates, order.drop_last(), x)
    } else {
        order.len()
    }
}

/// `landing` splits the order: `x` ranks before every position from there
/// on, and not before the one in front of it.
proof fn landing_splits(dates: Seq<Option<Timestamp>>, order: Seq<usize>, x: int)
    ensures
        landing(dates, order, x) <= order.len(),
        forall|k: int|
            landing(dates, order, x) <= k < order.len() ==> ranks_before(
                dates,
                x,
                #[trigger] order[k] as int,
            ),
        landing(dates, order, x) > 0 ==> !ranks_before(
            dates,
            x,
            order[landing(dates, order, x) - 1] as int,
        ),
    decreases order.len(),
{
    if order.len() > 0 && ranks_before(dates, x, order.last() as int) {
        landing_splits(dates, order.drop_last(), x);
        assert forall|k: int| landing(dates, order, x) <= k < order.len() implies ranks_before(
            dates,
            x,
            #[trigger] order[k] as int,
        ) by {
            if k < order.len() - 1 {
                assert(order.drop_last()[k] == order[k]);
            }
        }
    }
}

/// Whether `order` lists the first `n` positions of the feed exactly once,
/// newest first, entries of one date in feed order.
spec fn orders_first(dates: Seq<Option<Timestamp>>, order: Seq<usize>, n: nat) -> bool {
    &&& order.len() == n
    &&& forall|k: int| 0 <= k < order.len() ==> (#[trigger] order[k]) < n
    &&& forall|a: int, b: int|
        0 <= a < b < order.len() ==> ranks_before(dates, order[a] as int, order[b] as int)
    &&& forall|i: usize| i < n ==> order.contains(i)
}

/// An order of the first `n` positions of the feed, built by putting one
/// position after the other in its place.
proof fn order_of_first(dates: Seq<Option<Timestamp>>, n: nat) -> (order: Seq<usize>)
    requires
        n <= dates.len(),
        n <= usize::MAX,
    ensures
        orders_first(dates, order, n),
    decreases n,
{
    if n == 0 {
        Seq::empty()
    } else {
        let before = order_of_first(dates, (n - 1) as nat);
        let x = (n - 1) as usize;
        let at = landing(dates, before, x as int) as int;
        landing_splits(dates, before, x as int);
        let order = before.insert(at, x);
        assert forall|k: int| 0 <= k < order.len() implies (#[trigger] order[k]) < n by {
            if k < at {
                assert(order[k] == before[k]);
            } else if k > at {
                assert(order[k] == before[k - 1]);
            }
        }
        assert forall|a: int, b: int| 0 <= a < b < order.len() implies ranks_before(
            dates,
            order[a] as int,
            order[b] as int,
        ) by {
            if b < at {
                assert(order[a] == before[a] && order[b] == before[b]);
            } else if b == at {
                assert(order[a] == before[a]);
                assert(before[a] < n - 1);
                assert(before[at - 1] < n - 1);
                assert(!ranks_before(dates, x as int, before[at - 1] as int));
                if a < at - 1 {
                    assert(ranks_before(dates, before[a] as int, before[at - 1] as int));
                }
            } else if a == at {
                assert(order[b] == before[b - 1]);
            } else if a < at {
                assert(order[a] == before[a] && order[b] == before[b - 1]);
            } else {
                assert(order[a] == before[a - 1] && order[b] == before[b - 1]);
            }
        }
        assert forall|i: usize| i < n implies order.contains(i) by {
            if i < n - 1 {
                assert(before.contains(i));
                let k = choose|k: int| 0 <= k < before.len() && before[k] == i;
                if k < at {
                    assert(order[k] == i);
                } else {
                    assert(order[k + 1] == i);
                }
            } else {
                assert(order[at] == i);
            }
        }
        order
    }
}

/// Every feed has a recency order, as long as its positions can be
/// counted.
pub proof fn recency_order_exists(dates: Seq<Option<Timestamp>>)
    requires
        dates.len() <= usize::MAX,
    ensures
        is_recency_order(dates, recency(dates)),
{
    let order = order_of_first(dates, dates.len());
    assert(is_recency_order(dates, order));
}

/// Two recency orders of one feed agree on their first `k` places.
proof fn recency_orders_agree(
    dates: Seq<Option<Timestamp>>,
    first: Seq<usize>,
    second: Seq<usize>,
    k: int,
)
    requires
        is_recency_order(dates, first),
        is_recency_order(dates, second),
        0 <= k <= dates.len(),
    ensures
        forall|j: int| 0 <= j < k ==> first[j] == second[j],
    decreases k,
{
    if k > 0 {
        recency_orders_agree(dates, first, second, k - 1);
        let x = first[k - 1];
        let y = second[k - 1];
        if x != y {
            assert(second.contains(x));
            let m = choose|m: int| 0 <= m < second.len() && second[m] == x;
            assert(first.contains(y));
            let w = choose|w: int| 0 <= w < first.len() && first[w] == y;
            if m < k - 1 {
                assert(ranks_before(dates, first[m] as int, first[k - 1] as int));
            } else if w < k - 1 {
                assert(ranks_before(dates, second[w] as int, second[k - 1] as int));
            } else {
                assert(ranks_before(dates, second[k - 1] as int, second[m] as int));
                assert(ranks_before(dates, first[k - 1] as int, first[w] as int));
            }
        }
    }
}

/// A feed has exactly one recency order.
pub proof fn recency_order_is_unique(
    dates: Seq<Option<Timestamp>>,
    first: Seq<usize>,
    second: Seq<usize>,
)
    requires
        is_recency_order(dates, first),
        is_recency_order(dates, second),
    ensures
        first == second,
{
    recency_orders_agree(dates, first, second, dates.len() as int);
}

/// Whatever lists a feed newest first is its recency order.
pub proof fn recency_is_the_order(dates: Seq<Option<Timestamp>>, order: Seq<usize>)
    requires
        is_recency_order(dates, order),
    ensures
        recency(dates) == order,
{
    recency_order_is_unique(dates, order, recency(dates));
}

/// The recency order starts with the entry of the latest date, and among
/// several of that date with the one that comes first in the feed.
pub proof fn recency_order_starts_with_latest(dates: Seq<Option<Timestamp>>, order: Seq<usize>)
    requires
        is_recency_order(dates, order),
        dates.len() > 0,
    ensures
        forall|j: usize|
            j < dates.len() && j != order[0] ==> ranks_before(dates, order[0] as int, j as int),
{
    assert forall|j: usize| j < dates.len() && j != order[0] implies ranks_before(
        dates,
        order[0] as int,
        j as int,
    ) by {
        assert(order.contains(j));
    }
}

} // verus!
