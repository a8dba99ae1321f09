use vstd::prelude::*;

use crate::clock::system_millis;
use crate::generator::{BasicIDGenerator, GeneratorModel, IDGenerator};

verus! {

/// The abstract state of a [`MultiIDGenerator`].
pub struct PoolModel {
    pub members: Seq<GeneratorModel>,
    /// Index of the member that was tried last.
    pub last: int,
}

/// The member tried `j` places after `last` in a ring of `n` (for `1 <= j <= n`).
pub open spec fn probe(last: int, j: int, n: int) -> int {
    if last + j < n {
        last + j
    } else {
        last + j - n
    }
}

impl PoolModel {
    pub open spec fn wf(self) -> bool {
        &&& self.members.len() >= 1
        &&& 0 <= self.last < self.members.len()
        &&& forall|i: int| 0 <= i < self.members.len() ==> (#[trigger] self.members[i]).wf()
    }

    /// The state and result after trying at most `fuel` members in ring
    /// order at clock reading `now`, stopping at the first that produces.
    pub open spec fn pass(self, now: i64, fuel: nat) -> (PoolModel, Option<i64>)
        decreases fuel,
    {
        if fuel == 0 {
            (self, None)
        } else {
            let idx = probe(self.last, 1, self.members.len() as int);
            let g = self.members[idx];
            let after = PoolModel { members: self.members.update(idx, g.next(now)), last: idx };
            match g.output(now) {
                Some(id) => (after, Some(id)),
                None => after.pass(now, (fuel - 1) as nat),
            }
        }
    }

    /// One call at clock reading `now`: every member is tried at most once.
    pub open spec fn step(self, now: i64) -> (PoolModel, Option<i64>) {
        self.pass(now, self.members.len() as nat)
    }
}

/// Trying members keeps the pool well formed; and a pass of `k <= n`
/// attempts finds nothing exactly when each of the `k` members it visits
/// has nothing to hand out.
pub proof fn lemma_pass(p: PoolModel, now: i64, k: nat)
    requires
        p.wf(),
        k <= p.members.len(),
    ensures
        p.pass(now, k).0.wf(),
        p.pass(now, k).0.members.len() == p.members.len(),
        p.pass(now, k).1 is None <==> forall|j: int|
            1 <= j <= k ==> (#[trigger] p.members[probe(p.last, j, p.members.len() as int)]).output(now) is None,
    decreases k,
{
    let n = p.members.len() as int;
    if k > 0 {
        let idx = probe(p.last, 1, n);
        let g = p.members[idx];
        crate::generator::lemma_step(g, now);
        let after = PoolModel { members: p.members.update(idx, g.next(now)), last: idx };
        assert(after.wf());
        lemma_pass(after, now, (k - 1) as nat);
        assert forall|j: int| 1 <= j <= k - 1 implies after.members[probe(after.last, j, n)] == p.members[probe(p.last, j + 1, n)] by {
        }
        if g.output(now) is None {
            assert forall|j: int| 1 <= j <= k - 1 && (forall|i: int|
                1 <= i <= k ==> (#[trigger] p.members[probe(p.last, i, n)]).output(now) is None) implies
                (#[trigger] after.members[probe(after.last, j, n)]).output(now) is None by {
                assert(after.members[probe(after.last, j, n)] == p.members[probe(p.last, j + 1, n)]);
            }
            assert forall|j: int| 1 <= j <= k && (forall|i: int|
                1 <= i <= k - 1 ==> (#[trigger] after.members[probe(after.last, i, n)]).output(now) is None) implies
                (#[trigger] p.members[probe(p.last, j, n)]).output(now) is None by {
                if j > 1 {
                    assert(after.members[probe(after.last, j - 1, n)] == p.members[probe(p.last, j, n)]);
                }
            }
        }
    }
}

/// A pool returns "no ID available" only when every member has nothing to
/// hand out at that reading; if any member can produce, the pool produces.
pub proof fn lemma_pool_masks_exhaustion(p: PoolModel, now: i64)
    requires
        p.wf(),
    ensures
        p.step(now).1 is None <==> forall|i: int|
            0 <= i < p.members.len() ==> (#[trigger] p.members[i]).output(now) is None,
{
    let n = p.members.len() as int;
    lemma_pass(p, now, n as nat);
    assert forall|i: int| 0 <= i < n implies #[trigger] p.members[i] == p.members[probe(
        p.last,
        if i > p.last {
            i - p.last
        } else {
            i - p.last + n
        },
        n,
    )] by {}
}

/// When the member after the last one tried can produce, the pool takes it:
/// the identifier is that member's, and the next call starts after it.
pub proof fn lemma_round_robin_step(p: PoolModel, now: i64)
    requires
        p.wf(),
        p.members[probe(p.last, 1, p.members.len() as int)].output(now) is Some,
    ensures
        p.step(now).0.last == probe(p.last, 1, p.members.len() as int),
        p.step(now).1 == p.members[probe(p.last, 1, p.members.len() as int)].output(now),
        p.step(now).0.members == p.members.update(
            probe(p.last, 1, p.members.len() as int),
            p.members[probe(p.last, 1, p.members.len() as int)].next(now),
        ),
{
}

/// The state after the pool calls at clock readings `nows`, in order.
pub open spec fn pool_run(p: PoolModel, nows: Seq<i64>) -> PoolModel
    decreases nows.len(),
{
    if nows.len() == 0 {
        p
    } else {
        pool_run(p, nows.drop_last()).step(nows.last()).0
    }
}

/// The member after the last one tried can produce at clock reading `now`.
pub open spec fn first_ready(p: PoolModel, now: i64) -> bool {
    p.members[probe(p.last, 1, p.members.len() as int)].output(now) is Some
}

proof fn lemma_ring_succ(x: int, n: int)
    requires
        n > 0,
        x >= 0,
    ensures
        probe(x % n, 1, n) == (x + 1) % n,
{
    vstd::arithmetic::div_mod::lemma_mod_bound(x, n);
    if n == 1 {
        assert((x + 1) % 1 == 0);
    } else if x % n + 1 < n {
        vstd::arithmetic::div_mod::lemma_add_mod_noop(x, 1, n);
        vstd::arithmetic::div_mod::lemma_small_mod(1, n as nat);
        vstd::arithmetic::div_mod::lemma_small_mod((x % n + 1) as nat, n as nat);
    } else {
        vstd::arithmetic::div_mod::lemma_add_mod_noop(x, 1, n);
        vstd::arithmetic::div_mod::lemma_small_mod(1, n as nat);
        vstd::arithmetic::div_mod::lemma_mod_self_0(n);
    }
}

/// Over calls in which no member in turn is exhausted, the pool hands them
/// out in ring order: after `m` calls the last member used is the one `m`
/// places after where it started, so each member serves every `n`-th call.
pub proof fn lemma_round_robin_run(p: PoolModel, nows: Seq<i64>)
    requires
        p.wf(),
        forall|i: int| 0 <= i < nows.len() ==> #[trigger] first_ready(pool_run(p, nows.take(i)), nows[i]),
    ensures
        pool_run(p, nows).wf(),
        pool_run(p, nows).members.len() == p.members.len(),
        pool_run(p, nows).last == (p.last + nows.len()) % (p.members.len() as int),
    decreases nows.len(),
{
    let n = p.members.len() as int;
    if nows.len() == 0 {
        vstd::arithmetic::div_mod::lemma_small_mod(p.last as nat, n as nat);
    } else {
        let init = nows.drop_last();
        assert forall|i: int| 0 <= i < init.len() implies #[trigger] first_ready(pool_run(p, init.take(i)), init[i]) by {
            assert(init.take(i) =~= nows.take(i));
            assert(first_ready(pool_run(p, nows.take(i)), nows[i]));
        }
        lemma_round_robin_run(p, init);
        let q = pool_run(p, init);
        assert(nows.take(nows.len() - 1) =~= init);
        assert(first_ready(pool_run(p, nows.take(nows.len() - 1)), nows[nows.len() - 1]));
        lemma_round_robin_step(q, nows.last());
        lemma_pass(q, nows.last(), n as nat);
        lemma_ring_succ(p.last + init.len(), n);
    }
}

/// A pool of single-machine generators tried in round-robin order.
#[derive(Debug)]
pub struct MultiIDGenerator {
    delegates: Vec<BasicIDGenerator>,
    last_index: usize,
}

impl View for MultiIDGenerator {
    type V = PoolModel;

    closed spec fn view(&self) -> PoolModel {
        PoolModel { members: self.delegates@.map_values(|g: BasicIDGenerator| g@), last: self.last_index as int }
    }
}

impl MultiIDGenerator {
    pub open spec fn wf(&self) -> bool {
        self@.wf()
    }

    /// A pool of `generators`; the first call tries the first of them.
    pub fn from_generators(generators: Vec<BasicIDGenerator>) -> (r: MultiIDGenerator)
        requires
            generators@.len() >= 1,
            forall|i: int| 0 <= i < generators@.len() ==> (#[trigger] generators@[i]).wf(),
        ensures
            r.wf(),
            r@.members == generators@.map_values(|g: BasicIDGenerator| g@),
            r@.last == generators@.len() - 1,
    {
        MultiIDGenerator { last_index: generators.len() - 1, delegates: generators }
    }

    /// How many machine identities the pool holds.
    pub fn num_generators(&self) -> (r: usize)
        ensures
            r == self@.members.len(),
    {
        self.delegates.len()
    }

    /// One call at clock reading `now`: starting after the last member tried,
    /// each member is tried once in ring order until one produces.
    pub fn generate_at(&mut self, now: i64) -> (r: Option<i64>)
        requires
            old(self).wf(),
        ensures
            final(self).wf(),
            (final(self)@, r) == old(self)@.step(now),
    {
        let n = self.delegates.len();
        let mut k: usize = 0;
        while k < n
            invariant
                self.wf(),
                self.delegates@.len() == n,
                n == old(self)@.members.len(),
                k <= n,
                old(self)@.step(now) == self@.pass(now, (n - k) as nat),
            decreases n - k,
        {
            let mut index = self.last_index + 1;
            if index == n {
                index = 0;
            }
            self.last_index = index;
            proof {
                crate::generator::lemma_step(self@.members[index as int], now);
            }
            let ghost before = self@;
            let produced = self.delegates[index].generate_at(now);
            assert(self@.members =~= before.members.update(index as int, before.members[index as int].next(now)));
            match produced {
                Some(id) => {
                    return Some(id);
                },
                None => {},
            }
            k = k + 1;
        }
        None
    }
}

impl IDGenerator for MultiIDGenerator {
    open spec fn inv(&self) -> bool {
        self.wf()
    }

    open spec fn produces(self, after: Self, r: Option<i64>) -> bool {
        exists|now: i64| (after@, r) == self@.step(now)
    }

    /// One call at the current clock reading, which serves the whole pass.
    fn generate(&mut self) -> (r: Option<i64>) {
        let now = system_millis();
        self.generate_at(now)
    }
}

} // verus!
