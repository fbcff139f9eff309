use vstd::prelude::*;

verus! {

/// Why a snapshot's bodies cannot become a roster.
#[derive(Clone, Copy, Debug, PartialEq, Eq, Structural)]
pub enum ImportError {
    /// Two bodies carry this id.
    DuplicateId(u32),
    /// A body carries the largest id, so no fresh id can follow it.
    IdsExhausted,
}

/// Largest id in `ids`, or 0 when there is none.
pub open spec fn max_id(ids: Seq<u32>) -> u32
    decreases ids.len(),
{
    if ids.len() == 0 {
        0
    } else {
        let m = max_id(ids.drop_last());
        if ids.last() > m {
            ids.last()
        } else {
            m
        }
    }
}

/// The id allocator after an import: kept when it already lies above every
/// id (taken as 0 for none), else one past the largest id.
pub open spec fn reconciled_next_id(ids: Seq<u32>, next_id: u32) -> int {
    if next_id <= max_id(ids) {
        max_id(ids) + 1
    } else {
        next_id as int
    }
}

/// `s` without the elements whose flag is set, in their order.
pub open spec fn unflagged<T>(s: Seq<T>, flags: Seq<bool>) -> Seq<T>
    decreases s.len(),
{
    if s.len() == 0 {
        Seq::empty()
    } else {
        let rest = unflagged(s.drop_first(), flags.drop_first());
        if flags[0] {
            rest
        } else {
            seq![s[0]] + rest
        }
    }
}

/// No id occurs twice.
pub open spec fn unique_ids(ids: Seq<u32>) -> bool {
    forall|i: int, j: int| 0 <= i < j < ids.len() ==> ids[i] != ids[j]
}

/// Every id lies at or below `max_id`.
proof fn lemma_max_id_bounds(ids: Seq<u32>)
    ensures
        forall|i: int| 0 <= i < ids.len() ==> ids[i] <= max_id(ids),
    decreases ids.len(),
{
    if ids.len() > 0 {
        lemma_max_id_bounds(ids.drop_last());
        assert forall|i: int| 0 <= i < ids.len() implies ids[i] <= max_id(ids) by {
            if i < ids.len() - 1 {
                assert(ids[i] == ids.drop_last()[i]);
            }
        }
    }
}

/// The bodies of a simulation, each under a unique id, with the allocator
/// of fresh ids.
#[derive(Clone, Debug)]
pub struct Roster<B> {
    ids: Vec<u32>,
    bodies: Vec<B>,
    next_id: u32,
}

impl<B> Roster<B> {
    /// Ids of the live bodies, in body order.
    pub closed spec fn id_seq(&self) -> Seq<u32> {
        self.ids@
    }

    /// The live bodies, in order.
    pub closed spec fn body_seq(&self) -> Seq<B> {
        self.bodies@
    }

    /// The id that the next allocation hands out.
    pub closed spec fn next(&self) -> u32 {
        self.next_id
    }

    /// One id per body; ids unique and all below the allocator.
    pub open spec fn wf(&self) -> bool {
        &&& self.id_seq().len() == self.body_seq().len()
        &&& forall|i: int| 0 <= i < self.id_seq().len() ==> self.id_seq()[i] < self.next()
        &&& forall|i: int, j: int|
            0 <= i < j < self.id_seq().len() ==> self.id_seq()[i] != self.id_seq()[j]
    }

    pub fn new() -> (r: Self)
        ensures
            r.wf(),
            r.id_seq() == Seq::<u32>::empty(),
            r.body_seq() == Seq::<B>::empty(),
            r.next() == 0,
    {
        Roster { ids: Vec::new(), bodies: Vec::new(), next_id: 0 }
    }

    pub fn len(&self) -> (r: usize)
        requires
            self.wf(),
        ensures
            r == self.body_seq().len(),
    {
        self.bodies.len()
    }

    pub fn is_empty(&self) -> (r: bool)
        requires
            self.wf(),
        ensures
            r == (self.body_seq().len() == 0),
    {
        self.bodies.len() == 0
    }

    pub fn next_id(&self) -> (r: u32)
        ensures
            r == self.next(),
    {
        self.next_id
    }

    /// Ids of the live bodies, in body order.
    pub fn ids(&self) -> (r: &Vec<u32>)
        ensures
            r@ == self.id_seq(),
    {
        &self.ids
    }

    /// The live bodies, in order.
    pub fn bodies(&self) -> (r: &Vec<B>)
        ensures
            r@ == self.body_seq(),
    {
        &self.bodies
    }

    pub fn id_at(&self, i: usize) -> (r: u32)
        requires
            self.wf(),
            i < self.id_seq().len(),
        ensures
            r == self.id_seq()[i as int],
    {
        self.ids[i]
    }

    pub fn body(&self, i: usize) -> (r: &B)
        requires
            self.wf(),
            i < self.body_seq().len(),
        ensures
            *r == self.body_seq()[i as int],
    {
        &self.bodies[i]
    }

    /// The body at `i`, for the caller to change; ids stay as they are.
    pub fn body_mut(&mut self, i: usize) -> (r: &mut B)
        requires
            old(self).wf(),
            i < old(self).body_seq().len(),
        ensures
            *r == old(self).body_seq()[i as int],
            final(self).body_seq() == old(self).body_seq().update(i as int, *final(r)),
            final(self).id_seq() == old(self).id_seq(),
            final(self).next() == old(self).next(),
    {
        &mut self.bodies[i]
    }

    /// Position of the body with id `id`.
    pub fn find(&self, id: u32) -> (r: Option<usize>)
        requires
            self.wf(),
        ensures
            match r {
                Some(k) => k < self.id_seq().len() && self.id_seq()[k as int] == id,
                None => !self.id_seq().contains(id),
            },
    {
        let mut k: usize = 0;
        while k < self.ids.len()
            invariant
                k <= self.ids@.len(),
                forall|t: int| 0 <= t < k ==> self.ids@[t] != id,
            decreases self.ids@.len() - k,
        {
            if self.ids[k] == id {
                return Some(k);
            }
            k = k + 1;
        }
        None
    }

    /// Rebuilds a roster from a snapshot's ids and bodies, choosing the
    /// allocator so that it lies above every id.
    pub fn from_records(ids: Vec<u32>, bodies: Vec<B>, next_id: u32) -> (r: Result<
        Self,
        ImportError,
    >)
        requires
            ids@.len() == bodies@.len(),
        ensures
            match r {
                Ok(roster) => {
                    &&& unique_ids(ids@)
                    &&& max_id(ids@) < u32::MAX
                    &&& roster.wf()
                    &&& roster.id_seq() == ids@
                    &&& roster.body_seq() == bodies@
                    &&& roster.next() == reconciled_next_id(ids@, next_id)
                },
                Err(ImportError::DuplicateId(d)) => exists|i: int, j: int|
                    0 <= i < j < ids@.len() && ids@[i] == d && ids@[j] == d,
                Err(ImportError::IdsExhausted) => unique_ids(ids@) && max_id(ids@) == u32::MAX,
            },
    {
        let n = ids.len();
        let mut i: usize = 0;
        while i < n
            invariant
                n == ids@.len(),
                i <= n,
                forall|a: int, b: int| 0 <= a < i && a < b < n ==> ids@[a] != ids@[b],
            decreases n - i,
        {
            let mut j: usize = i + 1;
            while j < n
                invariant
                    n == ids@.len(),
                    i < n,
                    i + 1 <= j <= n,
                    forall|b: int| i < b < j ==> ids@[i as int] != ids@[b],
                decreases n - j,
            {
                if ids[i] == ids[j] {
                    return Err(ImportError::DuplicateId(ids[i]));
                }
                j = j + 1;
            }
            i = i + 1;
        }
        let mut m: u32 = 0;
        let mut k: usize = 0;
        while k < n
            invariant
                n == ids@.len(),
                k <= n,
                m == max_id(ids@.subrange(0, k as int)),
            decreases n - k,
        {
            assert(ids@.subrange(0, k + 1).drop_last() == ids@.subrange(0, k as int));
            if ids[k] > m {
                m = ids[k];
            }
            k = k + 1;
        }
        assert(ids@.subrange(0, n as int) == ids@);
        if m == u32::MAX {
            return Err(ImportError::IdsExhausted);
        }
        let next = if next_id <= m {
            m + 1
        } else {
            next_id
        };
        proof {
            lemma_max_id_bounds(ids@);
        }
        Ok(Roster { ids, bodies, next_id: next })
    }

    /// Hands out the next id and advances the allocator.
    pub fn allocate_id(&mut self) -> (r: u32)
        requires
            old(self).wf(),
            old(self).next() < u32::MAX,
        ensures
            final(self).wf(),
            r == old(self).next(),
            final(self).next() == old(self).next() + 1,
            final(self).id_seq() == old(self).id_seq(),
            final(self).body_seq() == old(self).body_seq(),
    {
        let id = self.next_id;
        self.next_id = self.next_id + 1;
        id
    }

    /// Adds `body` under a freshly allocated id, which it returns.
    pub fn add(&mut self, body: B) -> (r: u32)
        requires
            old(self).wf(),
            old(self).next() < u32::MAX,
        ensures
            final(self).wf(),
            r == old(self).next(),
            final(self).next() == old(self).next() + 1,
            final(self).id_seq() == old(self).id_seq().push(r),
            final(self).body_seq() == old(self).body_seq().push(body),
    {
        let id = self.allocate_id();
        self.ids.push(id);
        self.bodies.push(body);
        id
    }

    /// Removes the body with id `id`; does nothing when there is none.
    pub fn remove(&mut self, id: u32)
        requires
            old(self).wf(),
        ensures
            final(self).wf(),
            final(self).next() == old(self).next(),
            forall|k: int|
                0 <= k < old(self).id_seq().len() && old(self).id_seq()[k] == id ==> {
                    &&& final(self).id_seq() == old(self).id_seq().remove(k)
                    &&& final(self).body_seq() == old(self).body_seq().remove(k)
                },
            !old(self).id_seq().contains(id) ==> {
                &&& final(self).id_seq() == old(self).id_seq()
                &&& final(self).body_seq() == old(self).body_seq()
            },
    {
        match self.find(id) {
            Some(k) => {
                self.ids.remove(k);
                self.bodies.remove(k);
            },
            None => {},
        }
    }

    /// Empties the roster and restarts the allocator at 0.
    pub fn clear(&mut self)
        ensures
            final(self).wf(),
            final(self).id_seq() == Seq::<u32>::empty(),
            final(self).body_seq() == Seq::<B>::empty(),
            final(self).next() == 0,
    {
        self.ids.clear();
        self.bodies.clear();
        self.next_id = 0;
    }

    /// Removes every body whose flag is set, keeping the others in order.
    pub fn remove_flagged(&mut self, flags: &Vec<bool>)
        requires
            old(self).wf(),
            flags@.len() == old(self).body_seq().len(),
        ensures
            final(self).wf(),
            final(self).next() == old(self).next(),
            final(self).id_seq() == unflagged(old(self).id_seq(), flags@),
            final(self).body_seq() == unflagged(old(self).body_seq(), flags@),
    {
        let ghost ids0 = self.ids@;
        let ghost bodies0 = self.bodies@;
        let n = self.bodies.len();
        let mut i: usize = n;
        while i > 0
            invariant
                i <= n,
                n == ids0.len(),
                n == bodies0.len(),
                flags@.len() == n,
                self.next_id == old(self).next_id,
                self.ids@ == ids0.subrange(0, i as int) + unflagged(
                    ids0.subrange(i as int, n as int),
                    flags@.subrange(i as int, n as int),
                ),
                self.bodies@ == bodies0.subrange(0, i as int) + unflagged(
                    bodies0.subrange(i as int, n as int),
                    flags@.subrange(i as int, n as int),
                ),
                self.ids@.len() == self.bodies@.len(),
                forall|t: int| 0 <= t < self.ids@.len() ==> self.ids@[t] < self.next_id,
                forall|s: int, t: int|
                    0 <= s < t < self.ids@.len() ==> self.ids@[s] != self.ids@[t],
            decreases i,
        {
            i = i - 1;
            let ghost ids_tail = ids0.subrange(i as int, n as int);
            let ghost bodies_tail = bodies0.subrange(i as int, n as int);
            let ghost flags_tail = flags@.subrange(i as int, n as int);
            assert(ids_tail.drop_first() == ids0.subrange(i + 1, n as int));
            assert(bodies_tail.drop_first() == bodies0.subrange(i + 1, n as int));
            assert(flags_tail.drop_first() == flags@.subrange(i + 1, n as int));
            assert(ids0.subrange(0, i + 1) == ids0.subrange(0, i as int).push(ids0[i as int]));
            assert(bodies0.subrange(0, i + 1) == bodies0.subrange(0, i as int).push(
                bodies0[i as int],
            ));
            if flags[i] {
                self.ids.remove(i);
                self.bodies.remove(i);
            }
            assert(self.ids@ == ids0.subrange(0, i as int) + unflagged(ids_tail, flags_tail));
            assert(self.bodies@ == bodies0.subrange(0, i as int) + unflagged(
                bodies_tail,
                flags_tail,
            ));
        }
        assert(ids0.subrange(0, n as int) == ids0);
        assert(bodies0.subrange(0, n as int) == bodies0);
        assert(flags@.subrange(0, n as int) == flags@);
        assert(self.ids@ == unflagged(ids0, flags@));
        assert(self.bodies@ == unflagged(bodies0, flags@));
    }
}

/// After any change that the roster makes, the allocator lies strictly above
/// the id of every live body.
pub proof fn lemma_next_id_above_live_ids<B>(r: Roster<B>)
    requires
        r.wf(),
    ensures
        forall|i: int| 0 <= i < r.id_seq().len() ==> r.id_seq()[i] < r.next(),
{
}

} // verus!
