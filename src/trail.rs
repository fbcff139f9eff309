use vstd::prelude::*;
use std::collections::VecDeque;

verus! {

/// Most points a trail keeps.
pub const MAX_TRAIL_POINTS: usize = 500;

/// The trail after `p` is appended to `s`: the oldest point leaves once the
/// bound is passed.
pub open spec fn appended_trail<T>(s: Seq<T>, p: T) -> Seq<T> {
    if s.len() + 1 > MAX_TRAIL_POINTS {
        s.push(p).drop_first()
    } else {
        s.push(p)
    }
}

/// Bounded first-in first-out record of a body's recent points.
#[derive(Clone, Debug)]
pub struct Trail<T> {
    points: VecDeque<T>,
}

impl<T> View for Trail<T> {
    type V = Seq<T>;

    closed spec fn view(&self) -> Seq<T> {
        self.points@
    }
}

impl<T> Trail<T> {
    /// The trail holds no more than `MAX_TRAIL_POINTS` points.
    pub open spec fn wf(&self) -> bool {
        self@.len() <= MAX_TRAIL_POINTS
    }

    pub fn new() -> (r: Self)
        ensures
            r@ == Seq::<T>::empty(),
            r.wf(),
    {
        Trail { points: VecDeque::with_capacity(MAX_TRAIL_POINTS) }
    }

    pub fn len(&self) -> (r: usize)
        ensures
            r == self@.len(),
    {
        self.points.len()
    }

    /// The point at `i`, counted from the oldest.
    pub fn get(&self, i: usize) -> (r: &T)
        requires
            i < self@.len(),
        ensures
            *r == self@[i as int],
    {
        &self.points[i]
    }

    /// Appends `p` as the newest point, evicting the oldest on overflow.
    pub fn push(&mut self, p: T)
        requires
            old(self).wf(),
        ensures
            final(self)@ == appended_trail(old(self)@, p),
            final(self).wf(),
    {
        self.points.push_back(p);
        if self.points.len() > MAX_TRAIL_POINTS {
            let _ = self.points.pop_front();
        }
    }

    pub fn clear(&mut self)
        ensures
            final(self)@ == Seq::<T>::empty(),
            final(self).wf(),
    {
        self.points.clear();
    }
}

/// Whatever points are appended, a trail never holds more than
/// `MAX_TRAIL_POINTS` of them.
pub proof fn lemma_trail_stays_bounded<T>(s: Seq<T>, pushed: Seq<T>)
    requires
        s.len() <= MAX_TRAIL_POINTS,
    ensures
        pushed.fold_left(s, |acc: Seq<T>, p: T| appended_trail(acc, p)).len() <= MAX_TRAIL_POINTS,
    decreases pushed.len(),
{
    if pushed.len() > 0 {
        let init = pushed.drop_last();
        lemma_trail_stays_bounded(s, init);
        assert(init == pushed.subrange(0, pushed.len() - 1));
    }
}

} // verus!
