//! Seat maps and showtime lists of a screening, in the order they are shown.
use vstd::prelude::*;
use vstd::seq_lib::*;
use crate::record_id::RecordId;

verus! {

/// One seat of a showtime.
pub struct Seat {
    pub available: bool,
    /// The seat number, unique within its showtime.
    pub seat: i32,
    pub id: RecordId,
}

/// The seat map of a showtime.
pub struct SeatingPage {
    pub id: String,
    pub seats: Vec<Seat>,
}

/// A showtime's identifier and its formatted start time.
pub struct Time {
    pub id: RecordId,
    pub time: String,
}

/// The showtimes of a theater on one day.
pub struct Times {
    pub times: Vec<Time>,
}

/// A day and a formatted time of a showing.
pub struct ShowInformation {
    pub day: i32,
    pub time: String,
}

/// The day asked for in the showtime form.
pub struct Day {
    pub day: i32,
}

/// Seat numbers never decrease along `s`.
pub open spec fn sorted_by_number(s: Seq<Seat>) -> bool {
    forall|i: int, j: int| 0 <= i <= j < s.len() ==> s[i].seat <= s[j].seat
}

/// The seat has number `k`.
pub open spec fn number_is(k: i32) -> spec_fn(Seat) -> bool {
    |x: Seat| x.seat == k
}

/// The seats of `s` that have number `k`, in their order in `s`.
pub open spec fn with_number(s: Seq<Seat>, k: i32) -> Seq<Seat> {
    s.filter(number_is(k))
}

/// The seats in ascending order of seat number: the same seats, each as
/// often as given, and seats of equal number in the order given.
pub fn sort_seats(seats: Vec<Seat>) -> (r: Vec<Seat>)
    ensures
        r@.to_multiset() == seats@.to_multiset(),
        sorted_by_number(r@),
        forall|k: i32| #[trigger] with_number(r@, k) == with_number(seats@, k),
{
    broadcast use group_to_multiset_ensures;

    let mut rest = seats;
    let mut out: Vec<Seat> = Vec::new();
    while rest.len() > 0
        invariant
            out@.to_multiset().add(rest@.to_multiset()) == seats@.to_multiset(),
            sorted_by_number(out@),
            forall|k: i32| #[trigger] with_number(out@, k) + with_number(rest@, k) == with_number(seats@, k),
        decreases rest@.len(),
    {
        let ghost before_rest = rest@;
        let ghost before_out = out@;
        let x = rest.remove(0);
        proof {
            to_multiset_remove(before_rest, 0);
        }
        let mut p: usize = 0;
        while p < out.len() && out[p].seat <= x.seat
            invariant
                p <= out@.len(),
                forall|k: int| 0 <= k < p ==> out@[k].seat <= x.seat,
            decreases out@.len() - p,
        {
            p = p + 1;
        }
        let ghost xs = x.seat;
        let ghost xv = before_rest[0];
        out.insert(p, x);
        proof {
            to_multiset_insert(before_out, p as int, xv);
            assert(before_rest[0] == xv);
            assert(before_rest.contains(xv));
            before_rest.to_multiset_ensures();
            assert(before_rest.to_multiset().count(xv) > 0);
            assert(rest@.to_multiset().insert(xv) =~= before_rest.to_multiset());
            assert(out@.to_multiset() =~= before_out.to_multiset().insert(xv));
            assert(out@.to_multiset().add(rest@.to_multiset()) =~= seats@.to_multiset());
            assert forall|k: i32| #[trigger] with_number(out@, k) + with_number(rest@, k) == with_number(seats@, k) by {
                lemma_stable_step(before_out, before_rest, p as int, k);
            }
            assert forall|i: int, j: int| 0 <= i <= j < out@.len() implies out@[i].seat
                <= out@[j].seat by {
                if i < p && j > p {
                    assert(before_out[i].seat <= xs);
                }
                if i == p && j > p {
                    assert(p < before_out.len());
                    assert(before_out[p as int].seat > xs);
                    assert(before_out[p as int].seat <= before_out[j - 1].seat);
                }
            }
        }
    }
    assert(rest@ =~= Seq::<Seat>::empty());
    assert forall|k: i32| #[trigger] with_number(out@, k) == with_number(seats@, k) by {
        assert(with_number(rest@, k) =~= Seq::<Seat>::empty()) by {
            reveal(Seq::filter);
        }
        assert(with_number(out@, k) + with_number(rest@, k) =~= with_number(out@, k));
    }
    out
}

/// Moving the first seat of `rest` into the sorted `out` at `p`, after every
/// seat of no greater number and before every seat of greater number, keeps
/// the seats of each number in their order.
proof fn lemma_stable_step(out: Seq<Seat>, rest: Seq<Seat>, p: int, k: i32)
    requires
        rest.len() > 0,
        0 <= p <= out.len(),
        sorted_by_number(out),
        forall|i: int| 0 <= i < p ==> out[i].seat <= rest[0].seat,
        p < out.len() ==> out[p].seat > rest[0].seat,
    ensures
        with_number(out.insert(p, rest[0]), k) + with_number(rest.remove(0), k) == with_number(out, k)
            + with_number(rest, k),
{
    let x = rest[0];
    let pred = number_is(k);
    let head = out.subrange(0, p);
    let tail = out.subrange(p, out.len() as int);
    assert(out =~= head + tail);
    assert(out.insert(p, x) =~= head + (seq![x] + tail));
    assert(rest =~= seq![x] + rest.remove(0));
    Seq::filter_distributes_over_add(head, tail, pred);
    Seq::filter_distributes_over_add(head, seq![x] + tail, pred);
    tail.lemma_filter_prepend(x, pred);
    rest.remove(0).lemma_filter_prepend(x, pred);
    if x.seat == k {
        assert forall|i: int| 0 <= i < tail.len() implies !pred(tail[i]) by {
            assert(out[p].seat <= out[p + i].seat);
        }
        assert(tail.all(|y: Seat| !pred(y)));
        tail.lemma_all_neg_filter_empty(pred);
        assert(tail.filter(pred) =~= Seq::<Seat>::empty());
    }
    assert(with_number(out.insert(p, x), k) + with_number(rest.remove(0), k) =~= with_number(out, k)
        + with_number(rest, k));
}

} // verus!
