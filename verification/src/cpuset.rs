//! A set of processing-unit identifiers usable as an affinity mask.

use vstd::prelude::*;

verus! {

/// A set of processing-unit identifiers, kept in ascending order as a
/// canonical form (the native enumeration order of a hardware mask).
#[derive(Debug, PartialEq, Eq)]
pub struct CpuSet {
    /// The identifiers of the processing units in the set, ascending.
    pub ids: Vec<usize>,
}

impl Clone for CpuSet {
    fn clone(&self) -> (r: Self)
        ensures
            r@ == self@,
    {
        let ids = self.ids.clone();
        proof {
            assert forall|i: int| 0 <= i < ids@.len() implies ids@[i] == self.ids@[i] by {
                assert(cloned::<usize>(self.ids[i], ids[i]));
            }
            assert(ids@ =~= self.ids@);
        }
        CpuSet { ids }
    }
}

impl View for CpuSet {
    type V = Seq<usize>;

    open spec fn view(&self) -> Seq<usize> {
        self.ids@
    }
}

/// `a` is contained in `b`: every identifier of `a` also occurs in `b`.
pub open spec fn subset_ids(a: Seq<usize>, b: Seq<usize>) -> bool {
    forall|x: usize| a.contains(x) ==> b.contains(x)
}

proof fn lemma_push_contains(s: Seq<usize>, v: usize, x: usize)
    ensures
        s.push(v).contains(x) == (s.contains(x) || x == v),
{
    if s.push(v).contains(x) {
        let k = choose|k: int| 0 <= k < s.push(v).len() && s.push(v)[k] == x;
        if k < s.len() {
            assert(s[k] == x);
        }
    }
    if s.contains(x) {
        let k = choose|k: int| 0 <= k < s.len() && s[k] == x;
        assert(s.push(v)[k] == x);
    }
    assert(s.push(v)[s.len() as int] == v);
}

proof fn lemma_take_one_more(s: Seq<usize>, i: int)
    requires
        0 <= i < s.len(),
    ensures
        s.take(i + 1) == s.take(i).push(s[i]),
{
    assert(s.take(i + 1) =~= s.take(i).push(s[i]));
}

impl CpuSet {
    /// Canonical form: identifiers strictly ascending (hence pairwise
    /// distinct), as a hardware mask enumerates them.
    pub open spec fn wf(&self) -> bool {
        forall|i: int| 0 <= i < self@.len() - 1 ==> #[trigger] self@[i] < self@[i + 1]
    }

    /// The number of processing units in the set.
    pub fn len(&self) -> (r: usize)
        ensures
            r == self@.len(),
    {
        self.ids.len()
    }

    /// Whether the set holds no processing unit at all.
    pub fn is_empty(&self) -> (r: bool)
        ensures
            r == (self@.len() == 0),
    {
        self.ids.len() == 0
    }

    /// Membership query for a single processing-unit identifier.
    pub fn contains(&self, id: usize) -> (r: bool)
        ensures
            r == self@.contains(id),
    {
        let mut i: usize = 0;
        while i < self.ids.len()
            invariant
                i <= self@.len(),
                forall|j: int| 0 <= j < i ==> self@[j] != id,
            decreases self@.len() - i,
        {
            if self.ids[i] == id {
                return true;
            }
            i += 1;
        }
        false
    }

    /// Containment query: does this set hold every unit of `other`?
    pub fn contains_all(&self, other: &CpuSet) -> (r: bool)
        ensures
            r == subset_ids(other@, self@),
    {
        let mut i: usize = 0;
        while i < other.ids.len()
            invariant
                i <= other@.len(),
                forall|j: int| 0 <= j < i ==> self@.contains(other@[j]),
            decreases other@.len() - i,
        {
            if !self.contains(other.ids[i]) {
                assert(other@.contains(other@[i as int]));
                return false;
            }
            i += 1;
        }
        assert forall|x: usize| other@.contains(x) implies self@.contains(x) by {
            let j = choose|j: int| 0 <= j < other@.len() && other@[j] == x;
            assert(self@.contains(other@[j]));
        }
        true
    }

    /// Reduce the set to exactly one representative unit: the first in
    /// enumeration order.  An empty set stays empty.
    pub fn singlify(&mut self)
        ensures
            old(self)@.len() == 0 ==> final(self)@ == old(self)@,
            old(self)@.len() > 0 ==> final(self)@ == seq![old(self)@[0]],
            final(self).wf(),
    {
        self.ids.truncate(1);
        assert(final(self)@ =~= (if old(self)@.len() == 0 {
            old(self)@
        } else {
            seq![old(self)@[0]]
        }));
    }

    /// The union of two sets, in canonical form: an identifier is in the
    /// result exactly when it is in either operand.
    #[verifier::loop_isolation(false)]
    pub fn union(&self, other: &CpuSet) -> (r: CpuSet)
        requires
            self.wf(),
            other.wf(),
        ensures
            r.wf(),
            forall|x: usize| r@.contains(x) == (self@.contains(x) || other@.contains(x)),
    {
        let a = &self.ids;
        let b = &other.ids;
        let mut out: Vec<usize> = Vec::new();
        let mut i: usize = 0;
        let mut j: usize = 0;
        while i < a.len() || j < b.len()
            invariant
                i <= a@.len(),
                j <= b@.len(),
                forall|t: int| 0 <= t < out@.len() - 1 ==> #[trigger] out@[t] < out@[t + 1],
                out@.len() > 0 && i < a@.len() ==> out@.last() < a@[i as int],
                out@.len() > 0 && j < b@.len() ==> out@.last() < b@[j as int],
                forall|x: usize|
                    out@.contains(x) == (a@.take(i as int).contains(x) || b@.take(
                        j as int,
                    ).contains(x)),
            decreases a@.len() + b@.len() - i - j,
        {
            let ghost old_out = out@;
            if j >= b.len() || (i < a.len() && a[i] < b[j]) {
                let v = a[i];
                out.push(v);
                proof {
                    lemma_take_one_more(a@, i as int);
                    assert(v == a@[i as int] && self@[i as int] == a@[i as int]);
                    assert(j < b@.len() ==> other@[j as int] == b@[j as int]);
                    assert(a@.take(i as int + 1) == a@.take(i as int).push(v));
                    assert(out@ == old_out.push(v));
                    assert(out@.last() == v);
                    assert forall|x: usize|
                        out@.contains(x) == (a@.take(i as int + 1).contains(x) || b@.take(
                            j as int,
                        ).contains(x)) by {
                        lemma_push_contains(old_out, v, x);
                        lemma_push_contains(a@.take(i as int), v, x);
                    }
                }
                i += 1;
            } else if i >= a.len() || b[j] < a[i] {
                let v = b[j];
                out.push(v);
                proof {
                    lemma_take_one_more(b@, j as int);
                    assert(v == b@[j as int] && other@[j as int] == b@[j as int]);
                    assert(i < a@.len() ==> self@[i as int] == a@[i as int]);
                    assert(b@.take(j as int + 1) == b@.take(j as int).push(v));
                    assert(out@ == old_out.push(v));
                    assert(out@.last() == v);
                    assert forall|x: usize|
                        out@.contains(x) == (a@.take(i as int).contains(x) || b@.take(
                            j as int + 1,
                        ).contains(x)) by {
                        lemma_push_contains(old_out, v, x);
                        lemma_push_contains(b@.take(j as int), v, x);
                    }
                }
                j += 1;
            } else {
                let v = a[i];
                out.push(v);
                proof {
                    lemma_take_one_more(a@, i as int);
                    lemma_take_one_more(b@, j as int);
                    assert(v == a@[i as int] && self@[i as int] == a@[i as int]);
                    assert(v == b@[j as int] && other@[j as int] == b@[j as int]);
                    assert(a@.take(i as int + 1) == a@.take(i as int).push(v));
                    assert(b@.take(j as int + 1) == b@.take(j as int).push(v));
                    assert(out@ == old_out.push(v));
                    assert(out@.last() == v);
                    assert forall|x: usize|
                        out@.contains(x) == (a@.take(i as int + 1).contains(x) || b@.take(
                            j as int + 1,
                        ).contains(x)) by {
                        lemma_push_contains(old_out, v, x);
                        lemma_push_contains(a@.take(i as int), v, x);
                        lemma_push_contains(b@.take(j as int), v, x);
                    }
                }
                i += 1;
                j += 1;
            }
        }
        proof {
            assert(a@.take(a@.len() as int) =~= a@);
            assert(b@.take(b@.len() as int) =~= b@);
        }
        CpuSet { ids: out }
    }

    /// Executable check of the canonical-form invariant.
    pub fn check_wf(&self) -> (r: bool)
        ensures
            r == self.wf(),
    {
        let n = self.ids.len();
        if n == 0 {
            return true;
        }
        let mut i: usize = 0;
        while i < n - 1
            invariant
                n == self@.len(),
                n > 0,
                i <= n - 1,
                forall|j: int| 0 <= j < i ==> #[trigger] self@[j] < self@[j + 1],
            decreases n - i,
        {
            if self.ids[i] >= self.ids[i + 1] {
                return false;
            }
            i += 1;
        }
        true
    }
}

} // verus!
