//! Properties of the bip-buffer model that hold across operations.

use vstd::prelude::*;
use crate::model::{BipState, Extent, splice};

verus! {

/// One call on a bip-buffer, as far as it moves the regions.
pub enum Op {
    Reserve(int),
    Commit(int),
    Decommit(int),
    Pop,
    Clear,
}

pub open spec fn step<T>(m: BipState<T>, op: Op) -> BipState<T> {
    match op {
        Op::Reserve(count) => m.after_reserve(count),
        Op::Commit(len) => m.after_commit(len),
        Op::Decommit(len) => m.after_decommit(len),
        Op::Pop => m.after_pop(),
        Op::Clear => m.cleared(),
    }
}

/// The state after running `ops` in order from `m`.
pub open spec fn run<T>(m: BipState<T>, ops: Seq<Op>) -> BipState<T>
    decreases ops.len(),
{
    if ops.len() == 0 {
        m
    } else {
        step(run(m, ops.drop_last()), ops.last())
    }
}

/// Committed and reserved slots together never exceed the capacity: in a
/// well-formed state `a`, `b` and the reservation are disjoint ranges of the
/// store.
pub proof fn lemma_occupancy_bounded<T>(m: BipState<T>)
    requires
        m.wf(),
    ensures
        m.a.disjoint(m.b),
        m.a.disjoint(m.reserve),
        m.b.disjoint(m.reserve),
        m.committed() + m.reserved() <= m.cap(),
{
}

/// A fresh window lies in the store and overlaps neither `a` nor `b`.
pub proof fn lemma_window_is_free<T>(m: BipState<T>, count: int)
    requires
        m.wf(),
        count >= 0,
    ensures
        m.window(count).within(m.cap()),
        m.window(count).disjoint(m.a),
        m.window(count).disjoint(m.b),
        m.window(count).len() <= count,
{
}

/// Each operation keeps the state well formed and the capacity unchanged.
pub proof fn lemma_step_keeps_wf<T>(m: BipState<T>, op: Op)
    requires
        m.wf(),
        op matches Op::Reserve(c) ==> c >= 0,
        op matches Op::Commit(l) ==> l >= 0,
        op matches Op::Decommit(l) ==> l >= 0,
    ensures
        step(m, op).wf(),
        step(m, op).cap() == m.cap(),
{
}

/// Whatever sequence of reservations, commits, decommits, pops and clears
/// is run, the state stays well formed (`b` before `a`, no overlap, every
/// range inside the store) and never holds more than the capacity.
pub proof fn lemma_run_keeps_wf<T>(m: BipState<T>, ops: Seq<Op>)
    requires
        m.wf(),
        forall|i: int|
            0 <= i < ops.len() ==> match #[trigger] ops[i] {
                Op::Reserve(c) => c >= 0,
                Op::Commit(l) => l >= 0,
                Op::Decommit(l) => l >= 0,
                _ => true,
            },
    ensures
        run(m, ops).wf(),
        run(m, ops).cap() == m.cap(),
        run(m, ops).committed() + run(m, ops).reserved() <= m.cap(),
    decreases ops.len(),
{
    if ops.len() > 0 {
        let prefix = ops.drop_last();
        assert forall|i: int|
            0 <= i < prefix.len() implies match #[trigger] prefix[i] {
                Op::Reserve(c) => c >= 0,
                Op::Commit(l) => l >= 0,
                Op::Decommit(l) => l >= 0,
                _ => true,
            } by {
            assert(prefix[i] == ops[i]);
        }
        lemma_run_keeps_wf(m, prefix);
        let last = ops.last();
        assert(ops[ops.len() - 1] == last);
        lemma_step_keeps_wf(run(m, prefix), last);
    }
    lemma_occupancy_bounded(run(m, ops));
}

/// A second reservation replaces the first: filling the first window and
/// reserving again leaves the regions as one reservation alone would.
pub proof fn lemma_reserve_replaces<T>(m: BipState<T>, first: int, d: Seq<T>, second: int)
    requires
        m.wf(),
        first >= 0,
        d.len() == m.window(first).len(),
    ensures
        ({
            let twice = m.after_reserve(first).write_reserved(d).after_reserve(second);
            let once = m.after_reserve(second);
            &&& twice.a == once.a
            &&& twice.b == once.b
            &&& twice.reserve == once.reserve
        }),
{
    lemma_window_is_free(m, first);
    let w = m.after_reserve(first).write_reserved(d);
    assert(w.store.len() == m.store.len());
}

/// On a buffer with nothing committed and `a` at the front, reserving
/// `d.len() <= capacity` slots grants them all, and writing `d` there and
/// committing it makes a read return exactly `d`.
pub proof fn lemma_round_trip<T>(m: BipState<T>, d: Seq<T>)
    requires
        m.wf(),
        m.committed() == 0,
        m.a.start == 0,
        d.len() <= m.cap(),
    ensures
        m.after_reserve(d.len() as int).reserved() == d.len(),
        m.after_reserve(d.len() as int).write_reserved(d).after_commit(
            d.len() as int,
        ).readable() == d,
{
    let r = m.after_reserve(d.len() as int);
    assert(r.reserve == Extent { start: 0, end: d.len() });
    let w = r.write_reserved(d);
    assert(w.store =~= splice(m.store, r.reserve, d));
    assert(w.after_commit(d.len() as int).readable() =~= d);
}

} // verus!
