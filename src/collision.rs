use vstd::prelude::*;

verus! {

/// `(a, b)` comes at or after `(i, j)` in the scan order: ascending first
/// index, then ascending second index.
pub open spec fn at_or_after(a: int, b: int, i: int, j: int) -> bool {
    a > i || (a == i && b >= j)
}

/// The two bodies chosen by a merge: the heavier survives, the first on a tie.
pub open spec fn merge_roles(i: usize, j: usize, first_not_lighter: bool) -> (usize, usize) {
    if first_not_lighter {
        (i, j)
    } else {
        (j, i)
    }
}

/// One collision pass over `n` bodies: hands out the unordered pairs
/// `(i, j)`, `i < j`, in ascending order, skipping every pair with a side
/// that an earlier merge absorbed.
pub struct PairScan {
    absorbed: Vec<bool>,
    i: usize,
    j: usize,
}

impl PairScan {
    /// Which bodies have been absorbed so far.
    pub closed spec fn absorbed_seq(&self) -> Seq<bool> {
        self.absorbed@
    }

    /// The first pair that the next call may hand out.
    pub closed spec fn cursor(&self) -> (int, int) {
        (self.i as int, self.j as int)
    }

    /// Number of bodies in the pass.
    pub open spec fn count(&self) -> int {
        self.absorbed_seq().len() as int
    }

    /// `(a, b)` is a pair of two distinct bodies, neither absorbed.
    pub open spec fn live_pair(&self, a: int, b: int) -> bool {
        &&& 0 <= a < b < self.count()
        &&& !self.absorbed_seq()[a]
        &&& !self.absorbed_seq()[b]
    }

    pub open spec fn wf(&self) -> bool {
        &&& self.count() < usize::MAX
        &&& 0 <= self.cursor().0
        &&& self.cursor().0 < self.cursor().1
    }

    /// A pass over `n` bodies, none absorbed, starting at the first pair.
    pub fn new(n: usize) -> (r: Self)
        requires
            n < usize::MAX,
        ensures
            r.wf(),
            r.absorbed_seq() == Seq::new(n as nat, |k: int| false),
            r.cursor() == (0int, 1int),
    {
        let mut absorbed: Vec<bool> = Vec::new();
        let mut k: usize = 0;
        while k < n
            invariant
                k <= n,
                absorbed@ == Seq::new(k as nat, |t: int| false),
            decreases n - k,
        {
            absorbed.push(false);
            k = k + 1;
        }
        PairScan { absorbed, i: 0, j: 1 }
    }

    /// The next live pair at or after the cursor, which then moves past it;
    /// `None` once no such pair is left.
    pub fn next_pair(&mut self) -> (r: Option<(usize, usize)>)
        requires
            old(self).wf(),
        ensures
            final(self).wf(),
            final(self).absorbed_seq() == old(self).absorbed_seq(),
            match r {
                Some((a, b)) => {
                    &&& old(self).live_pair(a as int, b as int)
                    &&& at_or_after(a as int, b as int, old(self).cursor().0, old(self).cursor().1)
                    &&& forall|x: int, y: int|
                        old(self).live_pair(x, y) && at_or_after(
                            x,
                            y,
                            old(self).cursor().0,
                            old(self).cursor().1,
                        ) ==> at_or_after(x, y, a as int, b as int)
                    &&& final(self).cursor() == (a as int, b + 1)
                },
                None => forall|x: int, y: int|
                    old(self).live_pair(x, y) ==> !at_or_after(
                        x,
                        y,
                        old(self).cursor().0,
                        old(self).cursor().1,
                    ),
            },
    {
        let n = self.absorbed.len();
        let ghost i0 = old(self).i as int;
        let ghost j0 = old(self).j as int;
        let mut i = self.i;
        let mut j = self.j;
        while i < n
            invariant
                n == self.absorbed@.len(),
                n < usize::MAX,
                self.absorbed@ == old(self).absorbed@,
                self.i == old(self).i,
                self.j == old(self).j,
                i0 == old(self).i,
                j0 == old(self).j,
                i < j,
                at_or_after(i as int, j as int, i0, j0),
                forall|x: int, y: int|
                    old(self).live_pair(x, y) && at_or_after(x, y, i0, j0) ==> at_or_after(
                        x,
                        y,
                        i as int,
                        j as int,
                    ),
            decreases n - i,
        {
            if !self.absorbed[i] {
                while j < n
                    invariant
                        n == self.absorbed@.len(),
                        n < usize::MAX,
                        self.absorbed@ == old(self).absorbed@,
                        self.i == old(self).i,
                        self.j == old(self).j,
                        i0 == old(self).i,
                        j0 == old(self).j,
                        i < n,
                        i < j,
                        !self.absorbed@[i as int],
                        at_or_after(i as int, j as int, i0, j0),
                        forall|x: int, y: int|
                            old(self).live_pair(x, y) && at_or_after(x, y, i0, j0)
                                ==> at_or_after(x, y, i as int, j as int),
                    decreases n - j,
                {
                    if !self.absorbed[j] {
                        self.i = i;
                        self.j = j + 1;
                        return Some((i, j));
                    }
                    j = j + 1;
                }
            }
            i = i + 1;
            j = i + 1;
        }
        self.i = i;
        self.j = j;
        None
    }

    /// Marks body `k` absorbed.
    pub fn absorb(&mut self, k: usize)
        requires
            old(self).wf(),
            k < old(self).count(),
        ensures
            final(self).wf(),
            final(self).absorbed_seq() == old(self).absorbed_seq().update(k as int, true),
            final(self).cursor() == old(self).cursor(),
    {
        self.absorbed.set(k, true);
    }

    /// Settles a merge of the pair `(i, j)`: the heavier body survives (the
    /// first on a tie, told by `first_not_lighter`), the other is absorbed.
    /// Returns `(survivor, absorbed)`.
    pub fn merge(&mut self, i: usize, j: usize, first_not_lighter: bool) -> (r: (usize, usize))
        requires
            old(self).wf(),
            i < old(self).count(),
            j < old(self).count(),
        ensures
            r == merge_roles(i, j, first_not_lighter),
            final(self).wf(),
            final(self).absorbed_seq() == old(self).absorbed_seq().update(r.1 as int, true),
            final(self).cursor() == old(self).cursor(),
    {
        let roles = if first_not_lighter {
            (i, j)
        } else {
            (j, i)
        };
        self.absorb(roles.1);
        roles
    }

    /// Which bodies the pass absorbed, to be removed once it ends.
    pub fn absorbed(&self) -> (r: &Vec<bool>)
        ensures
            r@ == self.absorbed_seq(),
    {
        &self.absorbed
    }
}

/// A survivor becomes fixed when the body it absorbs was fixed.
pub fn merged_is_fixed(survivor_fixed: bool, absorbed_fixed: bool) -> (r: bool)
    ensures
        r == (survivor_fixed || absorbed_fixed),
{
    survivor_fixed || absorbed_fixed
}

} // verus!
