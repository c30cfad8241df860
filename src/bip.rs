//! The executable bip-buffer.

use vstd::prelude::*;
use crate::model::{BipState, Extent, lemma_replace_one};

verus! {

/// A range of slot indices as the executable code stores it.
#[derive(Clone, Copy)]
struct Span {
    start: usize,
    end: usize,
}

impl Span {
    spec fn view(self) -> Extent {
        Extent { start: self.start as nat, end: self.end as nat }
    }

    fn empty() -> (r: Span)
        ensures
            r.view() == Extent::empty(),
    {
        Span { start: 0, end: 0 }
    }

    fn is_empty(&self) -> (r: bool)
        ensures
            r == self.view().is_empty(),
    {
        self.end <= self.start
    }
}

/// A bip-buffer over a backing store of `CAP` slots.
pub struct StaticBip<T, const CAP: usize> {
    a: Span,
    b: Span,
    reserve: Span,
    buffer: [T; CAP],
}

impl<T, const CAP: usize> View for StaticBip<T, CAP> {
    type V = BipState<T>;

    closed spec fn view(&self) -> BipState<T> {
        BipState {
            a: self.a.view(),
            b: self.b.view(),
            reserve: self.reserve.view(),
            store: self.buffer@,
        }
    }
}

impl<T, const CAP: usize> StaticBip<T, CAP> {
    /// The buffer's state is well formed and its store has `CAP` slots.
    pub open spec fn wf(&self) -> bool {
        &&& self@.wf()
        &&& self@.cap() == CAP
    }

    /// Creates an empty buffer over the given backing store.
    pub fn new(buffer: [T; CAP]) -> (r: Self)
        ensures
            r.wf(),
            r@.is_reset(),
            r@.store == buffer@,
    {
        StaticBip { a: Span::empty(), b: Span::empty(), reserve: Span::empty(), buffer }
    }

    /// Size of the backing store.
    pub fn capacity(&self) -> (r: usize)
        requires
            self.wf(),
        ensures
            r == CAP,
            r == self@.cap(),
    {
        CAP
    }

    /// Number of committed elements, in `a` and `b` together.
    pub fn committed(&self) -> (r: usize)
        requires
            self.wf(),
        ensures
            r == self@.committed(),
    {
        (self.a.end - self.a.start) + (self.b.end - self.b.start)
    }

    /// Number of reserved elements.
    pub fn reserved(&self) -> (r: usize)
        requires
            self.wf(),
        ensures
            r == self@.reserved(),
    {
        self.reserve.end - self.reserve.start
    }

    /// Whether nothing is reserved and nothing is committed.
    pub fn is_empty(&self) -> (r: bool)
        requires
            self.wf(),
        ensures
            r == (self@.reserved() == 0 && self@.committed() == 0),
    {
        self.reserved() == 0 && self.committed() == 0
    }

    /// Empties all regions; the store is left as it is.
    pub fn clear(&mut self)
        requires
            old(self).wf(),
        ensures
            final(self).wf(),
            final(self)@ == old(self)@.cleared(),
    {
        self.a = Span::empty();
        self.b = Span::empty();
        self.reserve = Span::empty();
    }

    /// The slots `[start, end)` of the store, to be written in place.
    fn slots_mut(&mut self, start: usize, end: usize) -> (w: &mut [T])
        requires
            start <= end <= CAP,
        ensures
            w@ == old(self).buffer@.subrange(start as int, end as int),
            final(self).buffer@ == old(self).buffer@.subrange(0, start as int) + final(w)@
                + old(self).buffer@.subrange(end as int, CAP as int),
            final(self).a == old(self).a,
            final(self).b == old(self).b,
            final(self).reserve == old(self).reserve,
    {
        let all: &mut [T] = &mut self.buffer;
        let (_, tail) = all.split_at_mut(start);
        let (w, _) = tail.split_at_mut(end - start);
        w
    }
    /// Grants a window of up to `CAP` slots to write; see `reserve`.
    pub fn reserve_max(&mut self) -> (w: &mut [T])
        requires
            old(self).wf(),
        ensures
            w@ == old(self)@.store.subrange(
                old(self)@.window(CAP as int).start as int,
                old(self)@.window(CAP as int).end as int,
            ),
            final(self).wf(),
            final(self)@ == old(self)@.after_reserve(CAP as int).write_reserved(final(w)@),
    {
        self.reserve(CAP)
    }

    /// Grants a window of up to `count` slots to write, in place of any
    /// outstanding reservation. It lies after `b` while `b` is in use, else
    /// after `a` when the tail is at least as large as the space before `a`,
    /// else at the front; it is as long as `count` and the free space there
    /// allow.
    pub fn reserve(&mut self, count: usize) -> (w: &mut [T])
        requires
            old(self).wf(),
        ensures
            w@ == old(self)@.store.subrange(
                old(self)@.window(count as int).start as int,
                old(self)@.window(count as int).end as int,
            ),
            final(self).wf(),
            final(self)@ == old(self)@.after_reserve(count as int).write_reserved(final(w)@),
    {
        let space_after_a = CAP - self.a.end;
        let (start, free_space) = if !self.b.is_empty() {
            (self.b.end, self.a.start - self.b.end)
        } else if space_after_a >= self.a.start {
            (self.a.end, space_after_a)
        } else {
            (0, self.a.start)
        };
        let len = if count < free_space { count } else { free_space };
        self.reserve = Span { start, end: start + len };
        self.slots_mut(start, start + len)
    }

    /// Commits up to `len` slots from the front of the reservation and drops
    /// the reservation. With `len == 0` only the reservation is dropped.
    pub fn commit(&mut self, len: usize)
        requires
            old(self).wf(),
        ensures
            final(self).wf(),
            final(self)@ == old(self)@.after_commit(len as int),
    {
        if len != 0 {
            let reserved = self.reserve.end - self.reserve.start;
            let n = if len < reserved { len } else { reserved };
            let start = self.reserve.start;
            if self.a.is_empty() && self.b.is_empty() {
                self.a = Span { start, end: start + n };
            } else if start == self.a.end {
                self.a.end = self.a.end + n;
            } else if self.b.is_empty() {
                self.b = Span { start, end: start + n };
            } else {
                self.b.end = self.b.end + n;
            }
        }
        self.reserve = Span::empty();
    }

    /// The committed data of `a` as one contiguous block.
    pub fn read(&mut self) -> (r: &mut [T])
        requires
            old(self).wf(),
        ensures
            r@ == old(self)@.readable(),
            final(self).wf(),
            final(self)@ == old(self)@.write_readable(final(r)@),
    {
        let (start, end) = (self.a.start, self.a.end);
        self.slots_mut(start, end)
    }

    /// Marks the first `len` elements of `a` as consumed. When `len` reaches
    /// the length of `a`, `b` becomes the new `a` and the rest of `len` is
    /// dropped.
    pub fn decommit(&mut self, len: usize)
        requires
            old(self).wf(),
        ensures
            final(self).wf(),
            final(self)@ == old(self)@.after_decommit(len as int),
    {
        if len >= self.a.end - self.a.start {
            self.a = self.b;
            self.b = Span::empty();
        } else {
            self.a.start = self.a.start + len;
        }
    }

    /// Removes the earliest committed element, from `a` while it holds any,
    /// else from `b`, and hands out its slot; `None` when nothing is
    /// committed. Unlike `decommit`, this never moves `b` into `a`.
    pub fn pop(&mut self) -> (r: Option<&mut T>)
        requires
            old(self).wf(),
        ensures
            r.is_some() == old(self)@.pop_slot().is_some(),
            r.is_some() ==> {
                let i = old(self)@.pop_slot().unwrap() as int;
                &&& *r.unwrap() == old(self)@.store[i]
                &&& final(self).wf()
                &&& final(self)@ == BipState {
                    store: old(self)@.store.update(i, *final(r.unwrap())),
                    ..old(self)@.after_pop()
                }
            },
            r.is_none() ==> *final(self) == *old(self),
    {
        let i: usize;
        if !self.a.is_empty() {
            i = self.a.start;
            self.a.start = self.a.start + 1;
        } else if !self.b.is_empty() {
            i = self.b.start;
            self.b.start = self.b.start + 1;
        } else {
            return None;
        }
        proof {
            lemma_replace_one(self.buffer@, i as int);
        }
        let w = self.slots_mut(i, i + 1);
        w.first_mut()
    }
}

impl<T: Default + Copy, const CAP: usize> Default for StaticBip<T, CAP> {
    /// An empty buffer whose slots all hold `T::default()`.
    fn default() -> (r: Self)
        ensures
            r.wf(),
            r@.is_reset(),
    {
        Self::new([T::default(); CAP])
    }
}

} // verus!
