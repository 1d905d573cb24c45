//! A single-assignment future/promise primitive for one cooperative event loop.
//!
//! All futures of a loop live in one [`Reactor`]; a [`Future`] is a handle on
//! one of its slots and a [`Promise`] is the unique capability that fills it.
//! Observers are callback tokens: a resolution hands back the tokens to run, in
//! registration order, together with the value, and the loop runs them.

use vstd::prelude::*;

verus! {

/// A read-only handle on a single-assignment slot.
#[derive(Clone, Copy, PartialEq, Eq, Structural, Debug)]
pub struct Future {
    id: usize,
}

/// The write capability of one slot; resolving consumes it.
#[derive(Debug)]
pub struct Promise {
    id: usize,
}

/// A future over the results of several futures, in their given order.
#[derive(Clone, Copy, PartialEq, Eq, Structural, Debug)]
pub struct Sequence {
    id: usize,
}

/// What a continuation of [`Future::map`] or [`Future::flat_map`] produces:
/// a value now, or a future whose value is awaited.
pub enum Next<T> {
    Value(T),
    Wait(Future),
}

/// A callback to run on the event loop: its token and what it receives.
#[derive(Debug)]
pub enum Dispatch<T> {
    Value(u64, T),
    Values(Sequence, u64, Vec<T>),
}

/// What a pending slot does for others once it is resolved: resolve a
/// target through a continuation, pass its value on to a target, or count
/// towards a sequence.
pub enum Dependent<F> {
    Then(usize, F),
    Forward(usize),
    Join(usize),
}

struct Join {
    parts: Vec<usize>,
    callbacks: Vec<u64>,
    done: bool,
}

/// The futures of one event loop. `T` is the type of their values and `F` the
/// type of the continuations handed to `map` and `flat_map`.
pub struct Reactor<T, F> {
    values: Vec<Option<T>>,
    callbacks: Vec<Vec<u64>>,
    dependents: Vec<Vec<Dependent<F>>>,
    joins: Vec<Join>,
}

impl Future {
    pub closed spec fn spec_id(self) -> int {
        self.id as int
    }

    pub fn id(&self) -> (r: usize)
        ensures
            r == self.spec_id(),
    {
        self.id
    }
}

impl Promise {
    pub closed spec fn spec_id(self) -> int {
        self.id as int
    }
}

impl Sequence {
    pub closed spec fn spec_id(self) -> int {
        self.id as int
    }
}

/// A continuation may be called on every value, and a future that it waits
/// for is one of the first `n` slots.
pub open spec fn continuation_ok<T, F: Fn(T) -> Next<T>>(f: F, n: nat) -> bool {
    &&& forall|v: T| #[trigger] call_requires(f, (v,))
    &&& forall|v: T, r: Next<T>|
        #[trigger] call_ensures(f, (v,), r) ==> (r matches Next::Wait(h) ==> 0 <= h.spec_id() < n)
}

/// The number of unresolved slots.
pub open spec fn pending_count<T>(s: Seq<Option<T>>) -> nat
    decreases s.len(),
{
    if s.len() == 0 {
        0
    } else {
        pending_count(s.drop_last()) + if s.last() is None {
            1nat
        } else {
            0nat
        }
    }
}

proof fn lemma_pending_count_resolve<T>(s: Seq<Option<T>>, i: int, v: T)
    requires
        0 <= i < s.len(),
        s[i] is None,
    ensures
        pending_count(s.update(i, Some(v))) + 1 == pending_count(s),
    decreases s.len(),
{
    let t = s.update(i, Some(v));
    if i == s.len() - 1 {
        assert(t.drop_last() =~= s.drop_last());
    } else {
        assert(t.drop_last() =~= s.drop_last().update(i, Some(v)));
        lemma_pending_count_resolve(s.drop_last(), i, v);
    }
}

impl<T: Copy, F: Fn(T) -> Next<T>> Reactor<T, F> {
    /// Number of slots.
    pub closed spec fn len(&self) -> nat {
        self.values@.len()
    }

    /// The value of a slot, once resolved.
    pub closed spec fn value(&self, id: int) -> Option<T> {
        self.values@[id]
    }

    /// The callbacks queued on a slot, in registration order.
    pub closed spec fn queued(&self, id: int) -> Seq<u64> {
        self.callbacks@[id]@
    }

    /// What slot `id` does for others once it is resolved, in registration order.
    pub closed spec fn dependents(&self, id: int) -> Seq<Dependent<F>> {
        self.dependents@[id]@
    }

    /// After slot resolution with `v`, the target of a continuation that
    /// yields a value, and the target a value is passed on to, are resolved.
    pub open spec fn derived_done(&self, d: Dependent<F>, v: T) -> bool {
        match d {
            Dependent::Then(t, f) => t < self.len() && exists|n: Next<T>|
                #[trigger] call_ensures(f, (v,), n) && (n is Value ==> self.resolved(t as int)),
            Dependent::Forward(t) => t < self.len() && self.resolved(t as int),
            Dependent::Join(_) => true,
        }
    }

    /// Number of sequences.
    pub closed spec fn sequence_count(&self) -> nat {
        self.joins@.len()
    }

    /// The slots a sequence gathers, in order.
    pub closed spec fn parts(&self, s: int) -> Seq<usize> {
        self.joins@[s].parts@
    }

    /// The callbacks queued on a sequence, in registration order.
    pub closed spec fn sequence_queued(&self, s: int) -> Seq<u64> {
        self.joins@[s].callbacks@
    }

    pub open spec fn valid(&self, f: Future) -> bool {
        0 <= f.spec_id() < self.len()
    }

    pub open spec fn resolved(&self, id: int) -> bool {
        self.value(id) is Some
    }

    /// Every slot that `parts` names is resolved.
    pub open spec fn all_resolved(&self, parts: Seq<usize>) -> bool {
        forall|k: int| 0 <= k < parts.len() ==> self.resolved(#[trigger] parts[k] as int)
    }

    /// The values of `parts`, in the order of `parts`.
    pub open spec fn values_of(&self, parts: Seq<usize>) -> Seq<T> {
        parts.map_values(|p: usize| self.value(p as int)->Some_0)
    }

    /// `self` came from `old` by steps of this primitive: slots and sequences
    /// are only added, and a resolved slot keeps its value.
    pub open spec fn extends(&self, old: &Self) -> bool {
        &&& old.len() <= self.len()
        &&& old.sequence_count() <= self.sequence_count()
        &&& forall|i: int| 0 <= i < old.len() && old.resolved(i) ==> #[trigger] self.value(i) == old.value(i)
        &&& forall|s: int| 0 <= s < old.sequence_count() ==> #[trigger] self.parts(s) == old.parts(s)
    }

    pub closed spec fn wf(&self) -> bool {
        let n = self.values@.len();
        &&& self.callbacks@.len() == n
        &&& self.dependents@.len() == n
        &&& forall|i: int|
            0 <= i < n && (#[trigger] self.values@[i]) is Some ==> self.callbacks@[i]@.len() == 0
                && self.dependents@[i]@.len() == 0
        &&& forall|i: int, k: int|
            0 <= i < n && 0 <= k < self.dependents@[i]@.len() ==> self.dependent_ok(
                #[trigger] self.dependents@[i]@[k],
            )
        &&& forall|s: int, k: int|
            0 <= s < self.joins@.len() && 0 <= k < self.joins@[s].parts@.len() ==> (
            #[trigger] self.joins@[s].parts@[k]) < n
        &&& forall|s: int| 0 <= s < self.joins@.len() && (#[trigger] self.joins@[s]).done ==> self.joins@[s].callbacks@.len() == 0
        &&& forall|s: int, k: int|
            0 <= s < self.joins@.len() && self.joins@[s].done && 0 <= k < self.joins@[s].parts@.len() ==> (
            #[trigger] self.values@[self.joins@[s].parts@[k] as int]) is Some
    }

    closed spec fn pending(&self) -> nat {
        pending_count(self.values@)
    }

    closed spec fn dependent_ok(&self, d: Dependent<F>) -> bool {
        match d {
            Dependent::Then(t, f) => t < self.values@.len() && continuation_ok(f, self.values@.len() as nat),
            Dependent::Forward(t) => t < self.values@.len(),
            Dependent::Join(s) => s < self.joins@.len(),
        }
    }

    pub fn new() -> (r: Self)
        ensures
            r.wf(),
            r.len() == 0,
            r.sequence_count() == 0,
    {
        Reactor { values: Vec::new(), callbacks: Vec::new(), dependents: Vec::new(), joins: Vec::new() }
    }

    /// The current value of a future.
    pub fn get(&self, f: Future) -> (r: Option<T>)
        requires
            self.valid(f),
        ensures
            r == self.value(f.spec_id()),
    {
        self.values[f.id]
    }

    fn push_slot(&mut self, v: Option<T>) -> (id: usize)
        requires
            old(self).wf(),
            old(self).len() < usize::MAX,
        ensures
            final(self).wf(),
            id == old(self).len(),
            final(self).len() == old(self).len() + 1,
            final(self).value(id as int) == v,
            final(self).queued(id as int).len() == 0,
            final(self).dependents@[id as int]@.len() == 0,
            final(self).extends(old(self)),
            forall|i: int| 0 <= i < old(self).len() ==> #[trigger] final(self).value(i) == old(self).value(i)
                && final(self).queued(i) == old(self).queued(i) && final(self).dependents(i) == old(self).dependents(i),
            forall|s: int| 0 <= s < old(self).sequence_count() ==> #[trigger] final(self).sequence_queued(s) == old(self).sequence_queued(s),
            final(self).sequence_count() == old(self).sequence_count(),
    {
        let id = self.values.len();
        self.values.push(v);
        self.callbacks.push(Vec::new());
        self.dependents.push(Vec::new());
        proof {
            assert forall|i: int, k: int|
                0 <= i < self.values@.len() && 0 <= k < self.dependents@[i]@.len() implies self.dependent_ok(
                #[trigger] self.dependents@[i]@[k],
            ) by {
                assert(old(self).dependent_ok(old(self).dependents@[i]@[k]));
            }
        }
        id
    }
}


impl Promise {
    /// A fresh, unresolved slot and its write capability.
    pub fn new<T: Copy, F: Fn(T) -> Next<T>>(r: &mut Reactor<T, F>) -> (p: Promise)
        requires
            old(r).wf(),
            old(r).len() < usize::MAX,
        ensures
            final(r).wf(),
            p.spec_id() == old(r).len(),
            final(r).len() == old(r).len() + 1,
            final(r).value(p.spec_id()) is None,
            final(r).queued(p.spec_id()).len() == 0,
            final(r).extends(old(r)),
            forall|i: int| 0 <= i < old(r).len() ==> #[trigger] final(r).value(i) == old(r).value(i),
    {
        let id = r.push_slot(None);
        Promise { id }
    }

    /// The future that this promise resolves.
    pub fn future(&self) -> (f: Future)
        ensures
            f.spec_id() == self.spec_id(),
    {
        Future { id: self.id }
    }
}

impl Future {
    /// An already resolved future.
    pub fn apply<T: Copy, F: Fn(T) -> Next<T>>(r: &mut Reactor<T, F>, t: T) -> (f: Future)
        requires
            old(r).wf(),
            old(r).len() < usize::MAX,
        ensures
            final(r).wf(),
            f.spec_id() == old(r).len(),
            final(r).len() == old(r).len() + 1,
            final(r).value(f.spec_id()) == Some(t),
            final(r).extends(old(r)),
            forall|i: int| 0 <= i < old(r).len() ==> #[trigger] final(r).value(i) == old(r).value(i),
    {
        let id = r.push_slot(Some(t));
        Future { id }
    }

    /// Subscribes the callback `token`. On a resolved future the callback is due
    /// now: its value is returned and nothing is queued. Otherwise the token is
    /// queued behind those registered before it.
    pub fn for_each<T: Copy, F: Fn(T) -> Next<T>>(&self, r: &mut Reactor<T, F>, token: u64) -> (now: Option<T>)
        requires
            old(r).wf(),
            old(r).valid(*self),
        ensures
            final(r).wf(),
            now == old(r).value(self.spec_id()),
            now is Some ==> *final(r) == *old(r),
            now is None ==> final(r).queued(self.spec_id()) == old(r).queued(self.spec_id()).push(token),
            final(r).len() == old(r).len(),
            final(r).sequence_count() == old(r).sequence_count(),
            final(r).extends(old(r)),
            forall|i: int| 0 <= i < old(r).len() ==> #[trigger] final(r).value(i) == old(r).value(i),
            forall|i: int| 0 <= i < old(r).len() && i != self.spec_id() ==> #[trigger] final(r).queued(i) == old(r).queued(i),
            forall|s: int| 0 <= s < old(r).sequence_count() ==> #[trigger] final(r).sequence_queued(s) == old(r).sequence_queued(s),
    {
        match r.values[self.id] {
            Some(v) => Some(v),
            None => {
                r.callbacks[self.id].push(token);
                proof {
                    assert forall|i: int, k: int|
                        0 <= i < r.values@.len() && 0 <= k < r.dependents@[i]@.len() implies r.dependent_ok(
                        #[trigger] r.dependents@[i]@[k],
                    ) by {
                        assert(old(r).dependent_ok(old(r).dependents@[i]@[k]));
                    }
                }
                None
            },
        }
    }
}


impl<T: Copy, F: Fn(T) -> Next<T>> Reactor<T, F> {
    /// The values of `parts` if all of them are resolved.
    fn collect(&self, parts: &Vec<usize>) -> (r: Option<Vec<T>>)
        requires
            forall|k: int| 0 <= k < parts@.len() ==> (#[trigger] parts@[k]) < self.len(),
        ensures
            r is Some <==> self.all_resolved(parts@),
            r matches Some(vals) ==> vals@ == self.values_of(parts@),
    {
        let mut vals: Vec<T> = Vec::new();
        let mut k: usize = 0;
        while k < parts.len()
            invariant
                k <= parts@.len(),
                forall|j: int| 0 <= j < parts@.len() ==> (#[trigger] parts@[j]) < self.len(),
                forall|j: int| 0 <= j < k ==> self.resolved(#[trigger] parts@[j] as int),
                vals@ == self.values_of(parts@.take(k as int)),
            decreases parts@.len() - k,
        {
            match self.values[parts[k]] {
                Some(v) => {
                    vals.push(v);
                    assert(parts@.take(k as int + 1) =~= parts@.take(k as int).push(parts@[k as int]));
                    k += 1;
                },
                None => {
                    return None;
                },
            }
        }
        assert(parts@.take(k as int) =~= parts@);
        Some(vals)
    }

    /// Marks a gathered sequence as done once all its parts are resolved, and
    /// hands out its queued callbacks with the ordered values.
    fn fire_join(&mut self, s: usize, out: &mut Vec<Dispatch<T>>)
        requires
            old(self).wf(),
            s < old(self).sequence_count(),
        ensures
            final(self).wf(),
            final(self).len() == old(self).len(),
            final(self).sequence_count() == old(self).sequence_count(),
            final(self).values@ == old(self).values@,
            final(self).callbacks@ == old(self).callbacks@,
            final(self).extends(old(self)),
            final(out)@.len() >= old(out)@.len(),
            final(out)@.subrange(0, old(out)@.len() as int) == old(out)@,
            forall|k: int| old(out)@.len() <= k < final(out)@.len() ==> final(self).sequence_dispatch_ok(#[trigger] final(out)@[k]),
    {
        if !self.joins[s].done {
            match self.collect(&self.joins[s].parts) {
                Some(_) => {
                    let mut cbs: Vec<u64> = Vec::new();
                    std::mem::swap(&mut cbs, &mut self.joins[s].callbacks);
                    self.joins[s].done = true;
                    let ghost mid = out@;
                    let mut i: usize = 0;
                    while i < cbs.len()
                        invariant
                            self.wf(),
                            s < self.joins@.len(),
                            self.all_resolved(self.parts(s as int)),
                            i <= cbs@.len(),
                            out@.len() >= old(out)@.len(),
                            out@.subrange(0, old(out)@.len() as int) == old(out)@,
                            forall|k: int| old(out)@.len() <= k < out@.len() ==> self.sequence_dispatch_ok(#[trigger] out@[k]),
                        decreases cbs@.len() - i,
                    {
                        match self.collect(&self.joins[s].parts) {
                            Some(vals) => {
                                out.push(Dispatch::Values(Sequence { id: s }, cbs[i], vals));
                            },
                            None => {},
                        }
                        i += 1;
                    }
                },
                None => {},
            }
        }
    }

    /// A sequence dispatch carries the values of all the sequence's parts, in order.
    pub open spec fn sequence_dispatch_ok(&self, d: Dispatch<T>) -> bool {
        d matches Dispatch::Values(s, _, vals) ==> {
            &&& 0 <= s.spec_id() < self.sequence_count()
            &&& self.all_resolved(self.parts(s.spec_id()))
            &&& vals@ == self.values_of(self.parts(s.spec_id()))
        }
    }
}


/// A resolution hands the callbacks `tokens` out, in order, with `v`.
pub open spec fn value_dispatches<T>(tokens: Seq<u64>, v: T) -> Seq<Dispatch<T>> {
    tokens.map_values(|tok: u64| Dispatch::Value(tok, v))
}

impl<T: Copy, F: Fn(T) -> Next<T>> Reactor<T, F> {
    proof fn lemma_same_values_extends(&self, mid: &Self, old: &Self)
        requires
            self.values@ == mid.values@,
            self.joins@ == mid.joins@,
            mid.extends(old),
        ensures
            self.extends(old),
            self.extends(mid),
    {
        assert forall|i: int| 0 <= i < old.len() && old.resolved(i) implies #[trigger] self.value(i) == old.value(i) by {
            assert(mid.value(i) == old.value(i));
        }
        assert forall|s: int| 0 <= s < old.sequence_count() implies #[trigger] self.parts(s) == old.parts(s) by {
            assert(mid.parts(s) == old.parts(s));
        }
    }

    proof fn lemma_extends_keeps_sequence_dispatch(&self, old: &Self, d: Dispatch<T>)
        requires
            old.wf(),
            self.extends(old),
            old.sequence_dispatch_ok(d),
        ensures
            self.sequence_dispatch_ok(d),
    {
        if let Dispatch::Values(s, _, vals) = d {
            let parts = old.parts(s.spec_id());
            assert(self.parts(s.spec_id()) == parts);
            assert forall|k: int| 0 <= k < parts.len() implies self.resolved(#[trigger] parts[k] as int) && self.value(parts[k] as int) == old.value(parts[k] as int) by {
                assert(old.resolved(parts[k] as int));
                assert(parts[k] < old.len());
            }
            assert(self.values_of(parts) =~= old.values_of(parts));
        }
    }

    proof fn lemma_extends_keeps_derived(&self, old: &Self, d: Dependent<F>, v: T)
        requires
            self.extends(old),
            old.derived_done(d, v),
        ensures
            self.derived_done(d, v),
    {
        match d {
            Dependent::Then(t, f) => {
                let n = choose|n: Next<T>| #[trigger] call_ensures(f, (v,), n) && (n is Value ==> old.resolved(t as int));
                if n is Value {
                    assert(self.value(t as int) == old.value(t as int));
                }
                assert(call_ensures(f, (v,), n) && (n is Value ==> self.resolved(t as int)));
            },
            Dependent::Forward(t) => {
                assert(self.value(t as int) == old.value(t as int));
            },
            Dependent::Join(_) => {},
        }
    }

    /// Resolves slot `id` with `v`. Its callbacks go to `out` in registration
    /// order; the slots derived from it are resolved in turn, their callbacks
    /// following.
    fn settle(&mut self, id: usize, v: T, out: &mut Vec<Dispatch<T>>)
        requires
            old(self).wf(),
            id < old(self).len(),
            old(self).value(id as int) is None,
            forall|k: int| 0 <= k < old(out)@.len() ==> old(self).sequence_dispatch_ok(#[trigger] old(out)@[k]),
        ensures
            final(self).wf(),
            final(self).len() == old(self).len(),
            final(self).sequence_count() == old(self).sequence_count(),
            final(self).value(id as int) == Some(v),
            final(self).queued(id as int).len() == 0,
            final(self).extends(old(self)),
            final(self).pending() < old(self).pending(),
            final(out)@.len() >= old(out)@.len() + old(self).queued(id as int).len(),
            final(out)@.subrange(0, (old(out)@.len() + old(self).queued(id as int).len()) as int)
                == old(out)@ + value_dispatches(old(self).queued(id as int), v),
            forall|k: int| 0 <= k < final(out)@.len() ==> final(self).sequence_dispatch_ok(#[trigger] final(out)@[k]),
            forall|k: int| 0 <= k < old(self).dependents(id as int).len() ==> final(self).derived_done(
                #[trigger] old(self).dependents(id as int)[k],
                v,
            ),
        decreases old(self).pending(),
    {
        proof {
            lemma_pending_count_resolve(self.values@, id as int, v);
        }
        self.values.set(id, Some(v));
        proof {
            assert forall|s: int, k: int|
                0 <= s < self.joins@.len() && self.joins@[s].done && 0 <= k < self.joins@[s].parts@.len() implies (
                #[trigger] self.values@[self.joins@[s].parts@[k] as int]) is Some by {
                assert(old(self).values@[old(self).joins@[s].parts@[k] as int] is Some);
            }
        }
        let mut cbs: Vec<u64> = Vec::new();
        std::mem::swap(&mut cbs, &mut self.callbacks[id]);
        let mut deps: Vec<Dependent<F>> = Vec::new();
        std::mem::swap(&mut deps, &mut self.dependents[id]);
        let ghost orig = deps@;
        let total = deps.len();
        proof {
            assert forall|i: int, k: int|
                0 <= i < self.values@.len() && 0 <= k < self.dependents@[i]@.len() implies self.dependent_ok(
                #[trigger] self.dependents@[i]@[k],
            ) by {
                assert(old(self).dependent_ok(old(self).dependents@[i]@[k]));
            }
            assert forall|k: int| 0 <= k < deps@.len() implies self.dependent_ok(#[trigger] deps@[k]) by {
                assert(old(self).dependent_ok(old(self).dependents@[id as int]@[k]));
            }
            assert forall|k: int| 0 <= k < out@.len() implies self.sequence_dispatch_ok(#[trigger] out@[k]) by {
                self.lemma_extends_keeps_sequence_dispatch(old(self), out@[k]);
            }
        }
        let ghost base = out@;
        let mut i: usize = 0;
        while i < cbs.len()
            invariant
                i <= cbs@.len(),
                cbs@ == old(self).queued(id as int),
                out@ == base + value_dispatches(cbs@.take(i as int), v),
                forall|k: int| 0 <= k < out@.len() ==> self.sequence_dispatch_ok(#[trigger] out@[k]),
            decreases cbs@.len() - i,
        {
            out.push(Dispatch::Value(cbs[i], v));
            assert(cbs@.take(i as int + 1) =~= cbs@.take(i as int).push(cbs@[i as int]));
            assert(value_dispatches(cbs@.take(i as int + 1), v) =~= value_dispatches(cbs@.take(i as int), v).push(Dispatch::Value(cbs@[i as int], v)));
            i += 1;
        }
        assert(cbs@.take(i as int) =~= cbs@);
        let ghost after_cbs = out@;
        let ghost entry_pending = old(self).pending();
        let mut done: usize = 0;
        while deps.len() > 0
            invariant
                self.wf(),
                self.len() == old(self).len(),
                self.sequence_count() == old(self).sequence_count(),
                self.extends(old(self)),
                self.value(id as int) == Some(v),
                self.queued(id as int).len() == 0,
                self.pending() < entry_pending,
                entry_pending == old(self).pending(),
                orig == old(self).dependents(id as int),
                done + deps@.len() == orig.len(),
                orig.len() == total,
                id < self.len(),
                deps@ == orig.subrange(done as int, orig.len() as int),
                forall|k: int| 0 <= k < deps@.len() ==> self.dependent_ok(#[trigger] deps@[k]),
                forall|k: int| 0 <= k < done ==> self.derived_done(#[trigger] orig[k], v),
                out@.len() >= after_cbs.len(),
                out@.subrange(0, after_cbs.len() as int) == after_cbs,
                forall|k: int| 0 <= k < out@.len() ==> self.sequence_dispatch_ok(#[trigger] out@[k]),
            decreases deps@.len(),
        {
            let ghost deps_before = deps@;
            let ghost before = *self;
            let ghost out_before = out@;
            let d = deps.remove(0);
            assert(d == orig[done as int]);
            assert(before.dependent_ok(d));
            match d {
                Dependent::Then(t, f) => {
                    let n = f(v);
                    let target: Option<T> = match n {
                        Next::Value(w) => Some(w),
                        Next::Wait(h) => match self.values[h.id] {
                            Some(w) => Some(w),
                            None => {
                                self.dependents[h.id].push(Dependent::Forward(t));
                                proof {
                                    assert forall|i: int, k: int|
                                        0 <= i < self.values@.len() && 0 <= k < self.dependents@[i]@.len() implies self.dependent_ok(
                                        #[trigger] self.dependents@[i]@[k],
                                    ) by {
                                        if i != h.id || k < before.dependents@[i]@.len() {
                                            assert(before.dependent_ok(before.dependents@[i]@[k]));
                                        }
                                    }
                                    self.lemma_same_values_extends(&before, old(self));
                                }
                                None
                            },
                        },
                    };
                    let ghost mid = *self;
                    assert(mid.value(id as int) == Some(v));
                    if let Some(w) = target {
                        if self.values[t].is_none() {
                            self.settle(t, w, out);
                            assert(self.value(id as int) == mid.value(id as int));
                        }
                    }
                    proof {
                        assert(call_ensures(f, (v,), n) && (n is Value ==> self.resolved(t as int)));
                    }
                },
                Dependent::Forward(t) => {
                    if self.values[t].is_none() {
                        self.settle(t, v, out);
                        assert(self.value(id as int) == before.value(id as int));
                    }
                },
                Dependent::Join(s) => {
                    self.fire_join(s, out);
                },
            }
            proof {
                assert forall|k: int| 0 <= k < deps@.len() implies self.dependent_ok(#[trigger] deps@[k]) by {
                    assert(deps@[k] == deps_before[k + 1]);
                    assert(before.dependent_ok(deps@[k]));
                }
                assert forall|k: int| 0 <= k < out@.len() implies self.sequence_dispatch_ok(#[trigger] out@[k]) by {
                    if k < out_before.len() {
                        assert(out@.subrange(0, out_before.len() as int)[k] == out_before[k]);
                        assert(before.sequence_dispatch_ok(out_before[k]));
                        self.lemma_extends_keeps_sequence_dispatch(&before, out@[k]);
                    }
                }
                assert forall|k: int| 0 <= k < done + 1 implies self.derived_done(#[trigger] orig[k], v) by {
                    if k < done {
                        self.lemma_extends_keeps_derived(&before, orig[k], v);
                    }
                }
                assert(deps@ =~= orig.subrange(done as int + 1, orig.len() as int));
            }
            done = done + 1;
        }
    }
}

impl Promise {
    /// Resolves the slot with `v` and returns the callbacks that are now due,
    /// to be run in the returned order: first those queued on this slot, in
    /// registration order, and after them those of futures derived from it,
    /// which are resolved in turn. A slot that is already resolved keeps its
    /// value and nothing is due.
    pub fn success<T: Copy, F: Fn(T) -> Next<T>>(self, r: &mut Reactor<T, F>, v: T) -> (out: Vec<Dispatch<T>>)
        requires
            old(r).wf(),
            0 <= self.spec_id() < old(r).len(),
        ensures
            final(r).wf(),
            final(r).len() == old(r).len(),
            final(r).sequence_count() == old(r).sequence_count(),
            final(r).extends(old(r)),
            old(r).resolved(self.spec_id()) ==> *final(r) == *old(r) && out@.len() == 0,
            !old(r).resolved(self.spec_id()) ==> {
                let q = old(r).queued(self.spec_id());
                &&& final(r).value(self.spec_id()) == Some(v)
                &&& final(r).queued(self.spec_id()).len() == 0
                &&& out@.len() >= q.len()
                &&& out@.take(q.len() as int) == value_dispatches(q, v)
                &&& forall|k: int| 0 <= k < old(r).dependents(self.spec_id()).len() ==> final(r).derived_done(
                    #[trigger] old(r).dependents(self.spec_id())[k],
                    v,
                )
            },
            forall|k: int| 0 <= k < out@.len() ==> final(r).sequence_dispatch_ok(#[trigger] out@[k]),
    {
        let mut out: Vec<Dispatch<T>> = Vec::new();
        if r.values[self.id].is_some() {
            return out;
        }
        r.settle(self.id, v, &mut out);
        let ghost q = old(r).queued(self.spec_id());
        assert(out@.take(q.len() as int) == value_dispatches(q, v)) by {
            assert(out@.subrange(0, q.len() as int) == Seq::<Dispatch<T>>::empty() + value_dispatches(q, v));
        }
        out
    }
}

impl<T: Copy, F: Fn(T) -> Next<T>> Reactor<T, F> {
    /// Resolves a slot that nothing observes yet.
    fn resolve_fresh(&mut self, t: usize, w: T)
        requires
            old(self).wf(),
            t < old(self).len(),
            old(self).value(t as int) is None,
            old(self).queued(t as int).len() == 0,
            old(self).dependents@[t as int]@.len() == 0,
        ensures
            final(self).wf(),
            final(self).len() == old(self).len(),
            final(self).sequence_count() == old(self).sequence_count(),
            final(self).value(t as int) == Some(w),
            forall|i: int| 0 <= i < old(self).len() && i != t ==> #[trigger] final(self).value(i) == old(self).value(i),
            forall|i: int| 0 <= i < old(self).len() ==> #[trigger] final(self).queued(i) == old(self).queued(i),
            final(self).extends(old(self)),
    {
        self.values.set(t, Some(w));
        proof {
            assert forall|s: int, k: int|
                0 <= s < self.joins@.len() && self.joins@[s].done && 0 <= k < self.joins@[s].parts@.len() implies (
                #[trigger] self.values@[self.joins@[s].parts@[k] as int]) is Some by {
                assert(old(self).values@[old(self).joins@[s].parts@[k] as int] is Some);
            }
            assert forall|i: int, k: int|
                0 <= i < self.values@.len() && 0 <= k < self.dependents@[i]@.len() implies self.dependent_ok(
                #[trigger] self.dependents@[i]@[k],
            ) by {
                assert(old(self).dependent_ok(old(self).dependents@[i]@[k]));
            }
        }
    }
}

impl Future {
    /// A new future resolved from this one through `f`: with `f`'s value, or
    /// with the value of the future that `f` hands back.
    fn chain<T: Copy, F: Fn(T) -> Next<T>>(&self, r: &mut Reactor<T, F>, f: F) -> (t: Future)
        requires
            old(r).wf(),
            old(r).valid(*self),
            old(r).len() < usize::MAX,
            continuation_ok(f, old(r).len()),
        ensures
            final(r).wf(),
            t.spec_id() == old(r).len(),
            final(r).len() == old(r).len() + 1,
            final(r).sequence_count() == old(r).sequence_count(),
            final(r).extends(old(r)),
            forall|i: int| 0 <= i < old(r).len() ==> #[trigger] final(r).value(i) == old(r).value(i),
            final(r).queued(t.spec_id()).len() == 0,
            old(r).value(self.spec_id()) is None ==> final(r).value(t.spec_id()) is None
                && final(r).dependents(self.spec_id()) == old(r).dependents(self.spec_id()).push(
                Dependent::Then(t.spec_id() as usize, f),
            ),
            old(r).value(self.spec_id()) matches Some(v) ==> exists|n: Next<T>| {
                &&& #[trigger] call_ensures(f, (v,), n)
                &&& n matches Next::Value(w) ==> final(r).value(t.spec_id()) == Some(w)
                &&& n matches Next::Wait(h) ==> final(r).value(t.spec_id()) == old(r).value(h.spec_id())
            },
    {
        let t = r.push_slot(None);
        let ghost pushed = *r;
        assert(pushed.value(self.spec_id()) == old(r).value(self.spec_id()));
        assert(pushed.dependents(self.spec_id()) == old(r).dependents(self.spec_id()));
        match r.values[self.id] {
            None => {
                r.dependents[self.id].push(Dependent::Then(t, f));
                proof {
                    assert forall|i: int, k: int|
                        0 <= i < r.values@.len() && 0 <= k < r.dependents@[i]@.len() implies r.dependent_ok(
                        #[trigger] r.dependents@[i]@[k],
                    ) by {
                        if i != self.id || k < pushed.dependents@[i]@.len() {
                            assert(pushed.dependent_ok(pushed.dependents@[i]@[k]));
                        }
                    }
                    r.lemma_same_values_extends(&pushed, old(r));
                }
                assert(r.value(t as int) is None);
            },
            Some(v) => {
                let n = f(v);
                match n {
                    Next::Value(w) => {
                        r.resolve_fresh(t, w);
                    },
                    Next::Wait(h) => {
                        assert(h.spec_id() < old(r).len());
                        assert(pushed.value(h.spec_id()) == old(r).value(h.spec_id()));
                        match r.values[h.id] {
                            Some(w) => {
                                r.resolve_fresh(t, w);
                            },
                            None => {
                                r.dependents[h.id].push(Dependent::Forward(t));
                                proof {
                                    assert forall|i: int, k: int|
                                        0 <= i < r.values@.len() && 0 <= k < r.dependents@[i]@.len() implies r.dependent_ok(
                                        #[trigger] r.dependents@[i]@[k],
                                    ) by {
                                        if i != h.id || k < pushed.dependents@[i]@.len() {
                                            assert(pushed.dependent_ok(pushed.dependents@[i]@[k]));
                                        }
                                    }
                                    r.lemma_same_values_extends(&pushed, old(r));
                                }
                            },
                        }
                    },
                }
                assert(call_ensures(f, (v,), n));
                assert(n matches Next::Value(w) ==> r.value(t as int) == Some(w));
                assert(n matches Next::Wait(h) ==> r.value(t as int) == old(r).value(h.spec_id()));
            },
        }
        let fut = Future { id: t };
        assert(fut.spec_id() == t);
        fut
    }
}


impl Future {
    /// A new future resolved with `f(value)` once this one resolves.
    pub fn map<T: Copy, F: Fn(T) -> Next<T>>(&self, r: &mut Reactor<T, F>, f: F) -> (t: Future)
        requires
            old(r).wf(),
            old(r).valid(*self),
            old(r).len() < usize::MAX,
            forall|v: T| #[trigger] call_requires(f, (v,)),
            forall|v: T, n: Next<T>| #[trigger] call_ensures(f, (v,), n) ==> n is Value,
        ensures
            final(r).wf(),
            t.spec_id() == old(r).len(),
            final(r).len() == old(r).len() + 1,
            final(r).sequence_count() == old(r).sequence_count(),
            final(r).extends(old(r)),
            forall|i: int| 0 <= i < old(r).len() ==> #[trigger] final(r).value(i) == old(r).value(i),
            final(r).queued(t.spec_id()).len() == 0,
            old(r).value(self.spec_id()) is None ==> final(r).value(t.spec_id()) is None
                && final(r).dependents(self.spec_id()) == old(r).dependents(self.spec_id()).push(
                Dependent::Then(t.spec_id() as usize, f),
            ),
            old(r).value(self.spec_id()) matches Some(v) ==> final(r).value(t.spec_id()) matches Some(w)
                && call_ensures(f, (v,), Next::Value(w)),
    {
        self.chain(r, f)
    }

    /// A new future that, once this one resolves with `v`, resolves with the
    /// value of the future `f(v)`.
    pub fn flat_map<T: Copy, F: Fn(T) -> Next<T>>(&self, r: &mut Reactor<T, F>, f: F) -> (t: Future)
        requires
            old(r).wf(),
            old(r).valid(*self),
            old(r).len() < usize::MAX,
            continuation_ok(f, old(r).len()),
            forall|v: T, n: Next<T>| #[trigger] call_ensures(f, (v,), n) ==> n is Wait,
        ensures
            final(r).wf(),
            t.spec_id() == old(r).len(),
            final(r).len() == old(r).len() + 1,
            final(r).sequence_count() == old(r).sequence_count(),
            final(r).extends(old(r)),
            forall|i: int| 0 <= i < old(r).len() ==> #[trigger] final(r).value(i) == old(r).value(i),
            final(r).queued(t.spec_id()).len() == 0,
            old(r).value(self.spec_id()) is None ==> final(r).value(t.spec_id()) is None
                && final(r).dependents(self.spec_id()) == old(r).dependents(self.spec_id()).push(
                Dependent::Then(t.spec_id() as usize, f),
            ),
            old(r).value(self.spec_id()) matches Some(v) ==> exists|h: Future|
                #[trigger] call_ensures(f, (v,), Next::Wait(h)) && final(r).value(t.spec_id())
                    == old(r).value(h.spec_id()),
    {
        self.chain(r, f)
    }

    /// One future over the results of `futures`, which come in the order of
    /// `futures` whatever order they resolve in.
    pub fn sequence<T: Copy, F: Fn(T) -> Next<T>>(r: &mut Reactor<T, F>, futures: &Vec<Future>) -> (s: Sequence)
        requires
            old(r).wf(),
            old(r).sequence_count() < usize::MAX,
            forall|k: int| 0 <= k < futures@.len() ==> old(r).valid(#[trigger] futures@[k]),
        ensures
            final(r).wf(),
            s.spec_id() == old(r).sequence_count(),
            final(r).sequence_count() == old(r).sequence_count() + 1,
            final(r).len() == old(r).len(),
            final(r).parts(s.spec_id()).len() == futures@.len(),
            forall|k: int| 0 <= k < futures@.len() ==> #[trigger] final(r).parts(s.spec_id())[k] == futures@[k].spec_id(),
            final(r).sequence_queued(s.spec_id()).len() == 0,
            final(r).extends(old(r)),
            forall|i: int| 0 <= i < old(r).len() ==> #[trigger] final(r).value(i) == old(r).value(i),
    {
        let mut parts: Vec<usize> = Vec::new();
        let mut k: usize = 0;
        while k < futures.len()
            invariant
                k <= futures@.len(),
                parts@.len() == k,
                forall|j: int| 0 <= j < k ==> #[trigger] parts@[j] == futures@[j].spec_id(),
            decreases futures@.len() - k,
        {
            parts.push(futures[k].id);
            k += 1;
        }
        let s = r.joins.len();
        r.joins.push(Join { parts, callbacks: Vec::new(), done: false });
        let ghost joined = *r;
        proof {
            assert forall|i: int, k: int|
                0 <= i < r.values@.len() && 0 <= k < r.dependents@[i]@.len() implies r.dependent_ok(
                #[trigger] r.dependents@[i]@[k],
            ) by {
                assert(old(r).dependent_ok(old(r).dependents@[i]@[k]));
            }
            assert forall|t: int, k: int|
                0 <= t < r.joins@.len() && 0 <= k < r.joins@[t].parts@.len() implies (
                #[trigger] r.joins@[t].parts@[k]) < r.values@.len() by {
                if t < s {
                    assert(old(r).joins@[t] == r.joins@[t]);
                } else {
                    assert(r.joins@[t].parts@[k] == futures@[k].spec_id());
                }
            }
            assert forall|t: int| 0 <= t < old(r).sequence_count() implies #[trigger] r.parts(t) == old(r).parts(t) by {
                assert(old(r).joins@[t] == r.joins@[t]);
            }
        }
        let mut k: usize = 0;
        while k < futures.len()
            invariant
                r.wf(),
                s < r.joins@.len(),
                r.values@ == joined.values@,
                r.joins@ == joined.joins@,
                r.callbacks@ == joined.callbacks@,
                forall|j: int| 0 <= j < futures@.len() ==> joined.valid(#[trigger] futures@[j]),
            decreases futures@.len() - k,
        {
            let id = futures[k].id;
            if r.values[id].is_none() {
                let ghost before = *r;
                r.dependents[id].push(Dependent::Join(s));
                proof {
                    assert forall|i: int, j: int|
                        0 <= i < r.values@.len() && 0 <= j < r.dependents@[i]@.len() implies r.dependent_ok(
                        #[trigger] r.dependents@[i]@[j],
                    ) by {
                        if i != id || j < before.dependents@[i]@.len() {
                            assert(before.dependent_ok(before.dependents@[i]@[j]));
                        }
                    }
                }
            }
            k += 1;
        }
        proof {
            r.lemma_same_values_extends(&joined, old(r));
        }
        Sequence { id: s }
    }
}

impl Sequence {
    /// Subscribes the callback `token`. Once every part is resolved the
    /// callback is due now: the values of the parts are returned, in order, and
    /// nothing is queued. Otherwise the token is queued.
    pub fn for_each<T: Copy, F: Fn(T) -> Next<T>>(&self, r: &mut Reactor<T, F>, token: u64) -> (now: Option<Vec<T>>)
        requires
            old(r).wf(),
            0 <= self.spec_id() < old(r).sequence_count(),
        ensures
            final(r).wf(),
            now is Some <==> old(r).all_resolved(old(r).parts(self.spec_id())),
            now matches Some(vals) ==> vals@ == old(r).values_of(old(r).parts(self.spec_id())),
            now is Some ==> *final(r) == *old(r),
            now is None ==> final(r).sequence_queued(self.spec_id()) == old(r).sequence_queued(self.spec_id()).push(token),
            final(r).len() == old(r).len(),
            final(r).sequence_count() == old(r).sequence_count(),
            final(r).extends(old(r)),
            forall|i: int| 0 <= i < old(r).len() ==> #[trigger] final(r).value(i) == old(r).value(i),
            forall|i: int| 0 <= i < old(r).len() ==> #[trigger] final(r).queued(i) == old(r).queued(i),
    {
        match r.collect(&r.joins[self.id].parts) {
            Some(vals) => Some(vals),
            None => {
                proof {
                    if r.joins@[self.id as int].done {
                        let parts = r.joins@[self.id as int].parts@;
                        assert forall|k: int| 0 <= k < parts.len() implies r.resolved(#[trigger] parts[k] as int) by {
                            assert(r.values@[r.joins@[self.id as int].parts@[k] as int] is Some);
                        }
                    }
                }
                r.joins[self.id].callbacks.push(token);
                proof {
                    assert forall|i: int, k: int|
                        0 <= i < r.values@.len() && 0 <= k < r.dependents@[i]@.len() implies r.dependent_ok(
                        #[trigger] r.dependents@[i]@[k],
                    ) by {
                        assert(old(r).dependent_ok(old(r).dependents@[i]@[k]));
                    }
                    assert forall|t: int| 0 <= t < old(r).sequence_count() implies #[trigger] r.parts(t) == old(r).parts(t) by {
                        if t != self.id {
                            assert(old(r).joins@[t] == r.joins@[t]);
                        }
                    }
                }
                None
            },
        }
    }
}

} // verus!
