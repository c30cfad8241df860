//! The mathematical model of a bip-buffer: three index ranges over a store.

use vstd::prelude::*;

verus! {

/// A half-open range `[start, end)` of slot indices.
pub struct Extent {
    pub start: nat,
    pub end: nat,
}

impl Extent {
    pub open spec fn empty() -> Extent {
        Extent { start: 0, end: 0 }
    }

    pub open spec fn len(self) -> int {
        self.end - self.start
    }

    pub open spec fn is_empty(self) -> bool {
        self.end <= self.start
    }

    pub open spec fn within(self, cap: nat) -> bool {
        self.start <= self.end <= cap
    }

    /// No slot lies in both ranges.
    pub open spec fn disjoint(self, other: Extent) -> bool {
        self.is_empty() || other.is_empty() || self.end <= other.start || other.end <= self.start
    }
}

/// `s` with the slots `[e.start, e.end)` replaced by `d`.
pub open spec fn splice<T>(s: Seq<T>, e: Extent, d: Seq<T>) -> Seq<T> {
    s.subrange(0, e.start as int) + d + s.subrange(e.end as int, s.len() as int)
}

/// Replacing the one slot `i` by `v`, cut and joined back, is an update at `i`.
pub proof fn lemma_replace_one<T>(s: Seq<T>, i: int)
    requires
        0 <= i < s.len(),
    ensures
        forall|v: T|
            #[trigger] s.subrange(0, i) + s.subrange(i, i + 1).update(0, v) + s.subrange(
                i + 1,
                s.len() as int,
            ) == s.update(i, v),
{
    assert forall|v: T|
        #[trigger] s.subrange(0, i) + s.subrange(i, i + 1).update(0, v) + s.subrange(
            i + 1,
            s.len() as int,
        ) == s.update(i, v) by {
        assert(s.subrange(0, i) + s.subrange(i, i + 1).update(0, v) + s.subrange(
            i + 1,
            s.len() as int,
        ) =~= s.update(i, v));
    }
}

pub open spec fn min(x: int, y: int) -> int {
    if x <= y { x } else { y }
}

/// The abstract state of a bip-buffer: the committed regions `a` and `b`, the
/// outstanding reservation, and the contents of the backing store.
pub struct BipState<T> {
    pub a: Extent,
    pub b: Extent,
    pub reserve: Extent,
    pub store: Seq<T>,
}

impl<T> BipState<T> {
    pub open spec fn cap(self) -> nat {
        self.store.len()
    }

    pub open spec fn committed(self) -> int {
        self.a.len() + self.b.len()
    }

    pub open spec fn reserved(self) -> int {
        self.reserve.len()
    }

    /// The ranges lie in the store, `b` lies before `a`, and the reservation
    /// is placed where a commit can append it to `a` or to `b`.
    pub open spec fn wf(self) -> bool {
        &&& self.a.within(self.cap())
        &&& self.b.within(self.cap())
        &&& self.reserve.within(self.cap())
        &&& !self.b.is_empty() ==> self.b.end <= self.a.start
        &&& !self.reserve.is_empty() && !self.b.is_empty() ==> {
            &&& self.reserve.start == self.b.end
            &&& self.reserve.end <= self.a.start
        }
        &&& !self.reserve.is_empty() && !self.a.is_empty() && self.b.is_empty() ==> {
            ||| self.reserve.start == self.a.end
            ||| self.reserve.end <= self.a.start
        }
    }

    /// No range is in use.
    pub open spec fn is_reset(self) -> bool {
        &&& self.a == Extent::empty()
        &&& self.b == Extent::empty()
        &&& self.reserve == Extent::empty()
    }

    pub open spec fn cleared(self) -> BipState<T> {
        BipState { a: Extent::empty(), b: Extent::empty(), reserve: Extent::empty(), ..self }
    }

    /// Where the next window starts and how many slots are free there: after
    /// `b` while `b` is in use; else after `a` when the tail is at least as
    /// large as the space before `a`; else at the front.
    pub open spec fn free_space(self) -> (int, int) {
        if !self.b.is_empty() {
            (self.b.end as int, self.a.start - self.b.end)
        } else if self.cap() - self.a.end >= self.a.start {
            (self.a.end as int, self.cap() - self.a.end)
        } else {
            (0, self.a.start as int)
        }
    }

    /// The window that a reservation of `count` slots is granted.
    pub open spec fn window(self, count: int) -> Extent {
        let (start, free) = self.free_space();
        Extent { start: start as nat, end: (start + min(count, free)) as nat }
    }

    pub open spec fn after_reserve(self, count: int) -> BipState<T> {
        BipState { reserve: self.window(count), ..self }
    }

    /// The store with the reservation's slots overwritten by `d`.
    pub open spec fn write_reserved(self, d: Seq<T>) -> BipState<T> {
        BipState { store: splice(self.store, self.reserve, d), ..self }
    }

    pub open spec fn after_commit(self, len: int) -> BipState<T> {
        let n = min(len, self.reserve.len());
        let r = self.reserve;
        let grown = Extent { start: r.start, end: (r.start + n) as nat };
        if len == 0 {
            BipState { reserve: Extent::empty(), ..self }
        } else if self.a.is_empty() && self.b.is_empty() {
            BipState { a: grown, reserve: Extent::empty(), ..self }
        } else if r.start == self.a.end {
            BipState {
                a: Extent { start: self.a.start, end: (self.a.end + n) as nat },
                reserve: Extent::empty(),
                ..self
            }
        } else if self.b.is_empty() {
            BipState { b: grown, reserve: Extent::empty(), ..self }
        } else {
            BipState {
                b: Extent { start: self.b.start, end: (self.b.end + n) as nat },
                reserve: Extent::empty(),
                ..self
            }
        }
    }

    /// What a read returns: the slots of `a`.
    pub open spec fn readable(self) -> Seq<T> {
        self.store.subrange(self.a.start as int, self.a.end as int)
    }

    /// The store with the slots of `a` overwritten by `d`.
    pub open spec fn write_readable(self, d: Seq<T>) -> BipState<T> {
        BipState { store: splice(self.store, self.a, d), ..self }
    }

    /// Drops `len` slots from the front of `a`; once `a` is used up, `b`
    /// takes its place, and what is left of `len` is dropped.
    pub open spec fn after_decommit(self, len: int) -> BipState<T> {
        if len >= self.a.len() {
            BipState { a: self.b, b: Extent::empty(), ..self }
        } else {
            BipState { a: Extent { start: (self.a.start + len) as nat, end: self.a.end }, ..self }
        }
    }

    /// The slot that a pop takes: the first of `a`, else the first of `b`.
    pub open spec fn pop_slot(self) -> Option<nat> {
        if !self.a.is_empty() {
            Some(self.a.start)
        } else if !self.b.is_empty() {
            Some(self.b.start)
        } else {
            None
        }
    }

    pub open spec fn after_pop(self) -> BipState<T> {
        if !self.a.is_empty() {
            BipState { a: Extent { start: self.a.start + 1, end: self.a.end }, ..self }
        } else if !self.b.is_empty() {
            BipState { b: Extent { start: self.b.start + 1, end: self.b.end }, ..self }
        } else {
            self
        }
    }
}

} // verus!
