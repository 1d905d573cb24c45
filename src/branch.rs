//! Live attach and detach of a stage chain at a fan-out point of a running
//! graph.
//!
//! Detaching runs in two steps around an asynchronous wait: first the tee's
//! port is unlinked, an end-of-stream marker is pushed into the chain and a
//! future is handed out that the runtime resolves once the marker has left
//! the chain's last stage; only then are the port and the chain released.

use vstd::prelude::*;
use crate::future::{Future, Next, Promise, Reactor};
use crate::graph::{Fanout, Graph, GraphView, Link, LinkKind, Port, StageState};
use crate::stage::{stage_seq_view, StageSpec, StageView};

verus! {

/// Where a branch is in its life.
#[derive(PartialEq, Eq, Structural, Clone, Copy, Debug)]
pub enum BranchState {
    Detached,
    Attaching,
    Attached,
    Detaching,
}

/// An attached chain: the tee it hangs from, the tee port that feeds it, and
/// the stages it added, which follow each other from `first` on.
#[derive(Debug)]
pub struct BranchHandle {
    tee: usize,
    port: u64,
    first: usize,
    count: usize,
    state: BranchState,
}

pub struct BranchView {
    pub tee: usize,
    pub port: u64,
    pub first: usize,
    pub count: usize,
    pub state: BranchState,
}

impl View for BranchHandle {
    type V = BranchView;

    closed spec fn view(&self) -> BranchView {
        BranchView { tee: self.tee, port: self.port, first: self.first, count: self.count, state: self.state }
    }
}

impl BranchHandle {
    pub fn state(&self) -> (r: BranchState)
        ensures
            r == self@.state,
    {
        self.state
    }
}

/// Why a chain could not be attached.
#[derive(PartialEq, Eq, Structural, Clone, Copy, Debug)]
pub enum AttachError {
    /// The graph has no tee at that fan-out point.
    NoSuchTee,
    /// There is no stage to attach.
    EmptyChain,
}

/// The graph after `chain` was attached to the tee at `tee`: the stages added
/// in the graph's state, linked in sequence, and a new port of the tee linked
/// to the first of them.
pub open spec fn attached(g: GraphView, tee: usize, chain: Seq<StageView>) -> GraphView {
    let n = g.stages.len();
    GraphView {
        stages: g.stages + chain,
        present: g.present + Seq::new(chain.len(), |i: int| true),
        states: g.states + Seq::new(chain.len(), |i: int| g.state),
        links: g.links + Seq::new((chain.len() - 1) as nat, |i: int| Link { from: (n + i) as usize, to: (n + i + 1) as usize, kind: LinkKind::Static })
            + seq![Link { from: tee, to: n as usize, kind: LinkKind::Port(g.next_port) }],
        ports: g.ports.push(Port { tee, id: g.next_port }),
        next_port: (g.next_port + 1) as u64,
        ..g
    }
}

/// The graph once the port `port` feeds nothing.
pub open spec fn unlinked(g: GraphView, port: u64) -> GraphView {
    GraphView { links: g.links.filter(not_from_port(port)), ..g }
}

pub open spec fn not_from_port(port: u64) -> spec_fn(Link) -> bool {
    |l: Link| l.kind != LinkKind::Port(port)
}

pub open spec fn not_port(port: u64) -> spec_fn(Port) -> bool {
    |p: Port| p.id != port
}

pub open spec fn clear_of(first: usize, count: usize) -> spec_fn(Link) -> bool {
    |l: Link| !(first <= l.from < first + count) && !(first <= l.to < first + count)
}

pub open spec fn in_branch(b: BranchView, i: int) -> bool {
    b.first <= i < b.first + b.count
}

/// The graph once a branch's port is freed and its stages removed and
/// stopped, with their links.
pub open spec fn released(g: GraphView, b: BranchView) -> GraphView {
    GraphView {
        present: Seq::new(g.present.len(), |i: int| g.present[i] && !in_branch(b, i)),
        states: Seq::new(g.states.len(), |i: int| if in_branch(b, i) {
            StageState::Null
        } else {
            g.states[i]
        }),
        links: g.links.filter(clear_of(b.first, b.count)),
        ports: g.ports.filter(not_port(b.port)),
        ..g
    }
}

/// Attaches `elements`, in order, behind a new port of the tee at `fanout`,
/// each new stage taking the graph's current state. Fails, leaving the graph
/// as it was, where the graph has no such tee or the chain is empty.
pub fn connect_elements_to_pipeline(
    graph: &mut Graph,
    fanout: Fanout,
    elements: Vec<StageSpec>,
) -> (r: Result<BranchHandle, AttachError>)
    requires
        old(graph)@.wf(),
        old(graph)@.stages.len() + elements@.len() < usize::MAX,
        old(graph)@.next_port < u64::MAX,
    ensures
        old(graph)@.tee(fanout) is None ==> r == Err::<BranchHandle, AttachError>(AttachError::NoSuchTee),
        old(graph)@.tee(fanout) is Some && elements@.len() == 0 ==> r == Err::<BranchHandle, AttachError>(AttachError::EmptyChain),
        r is Err ==> final(graph)@ == old(graph)@,
        r is Ok <==> old(graph)@.tee(fanout) is Some && elements@.len() > 0,
        r matches Ok(h) ==> {
            let t = old(graph)@.tee(fanout)->Some_0;
            &&& final(graph)@ == attached(old(graph)@, t, stage_seq_view(elements@))
            &&& h@ == (BranchView {
                tee: t,
                port: old(graph)@.next_port,
                first: old(graph)@.stages.len() as usize,
                count: elements@.len() as usize,
                state: BranchState::Attached,
            })
        },
        final(graph)@.wf(),
{
    let t = match graph.tee_index(fanout) {
        Some(t) => t,
        None => {
            return Err(AttachError::NoSuchTee);
        },
    };
    if elements.len() == 0 {
        return Err(AttachError::EmptyChain);
    }
    let (first, count, port) = graph.attach_chain(t, elements);
    Ok(BranchHandle { tee: t, port, first, count, state: BranchState::Attached })
}

/// What the caller does to let a detaching branch drain: push an
/// end-of-stream marker into stage `eos_into`, watch for it to leave stage
/// `watch`, and then resolve `promise`, whose future is `done`.
#[derive(Debug)]
pub struct Drain {
    pub eos_into: usize,
    pub watch: usize,
    pub promise: Promise,
    pub done: Future,
}

/// Starts detaching an attached branch: unlinks its tee port at once so that
/// no new data enters it, and hands out what draining it needs. The graph is
/// released with [`release_elements`] once `done` resolves.
pub fn disconnect_elements_to_pipeline<T: Copy, F: Fn(T) -> Next<T>>(
    graph: &mut Graph,
    handle: &mut BranchHandle,
    reactor: &mut Reactor<T, F>,
) -> (d: Drain)
    requires
        old(graph)@.wf(),
        old(handle)@.state == BranchState::Attached,
        old(handle)@.count > 0,
        old(handle)@.first + old(handle)@.count <= old(graph)@.stages.len(),
        old(reactor).wf(),
        old(reactor).len() < usize::MAX,
    ensures
        final(graph)@ == unlinked(old(graph)@, old(handle)@.port),
        final(graph)@.wf(),
        final(handle)@ == (BranchView { state: BranchState::Detaching, ..old(handle)@ }),
        d.eos_into == old(handle)@.first,
        d.watch == old(handle)@.first + old(handle)@.count - 1,
        d.done.spec_id() == d.promise.spec_id(),
        d.promise.spec_id() == old(reactor).len(),
        final(reactor).wf(),
        final(reactor).len() == old(reactor).len() + 1,
        final(reactor).value(d.done.spec_id()) is None,
        final(reactor).extends(old(reactor)),
        forall|i: int| 0 <= i < old(reactor).len() ==> #[trigger] final(reactor).value(i) == old(reactor).value(i),
{
    graph.unlink_port(handle.port);
    handle.state = BranchState::Detaching;
    let promise = Promise::new(reactor);
    let done = promise.future();
    Drain { eos_into: handle.first, watch: handle.first + (handle.count - 1), promise, done }
}

/// Ends a detach once its branch has drained: frees the tee port and removes
/// and stops every stage of the branch.
pub fn release_elements(graph: &mut Graph, handle: &mut BranchHandle)
    requires
        old(graph)@.wf(),
        old(handle)@.state == BranchState::Detaching,
    ensures
        final(graph)@ == released(old(graph)@, old(handle)@),
        final(graph)@.wf(),
        final(handle)@ == (BranchView { state: BranchState::Detached, ..old(handle)@ }),
{
    graph.release_branch(handle.port, handle.first, handle.count, Ghost(handle@));
    handle.state = BranchState::Detached;
}


proof fn lemma_filter_keeps_all<A>(s: Seq<A>, pred: spec_fn(A) -> bool)
    requires
        forall|i: int| 0 <= i < s.len() ==> pred(#[trigger] s[i]),
    ensures
        s.filter(pred) == s,
    decreases s.len(),
{
    if s.len() > 0 {
        let d = s.drop_last();
        assert(d.push(s.last()) =~= s);
        lemma_filter_keeps_all(d, pred);
        d.lemma_filter_push(s.last(), pred);
    } else {
        reveal(Seq::filter);
    }
}

proof fn lemma_filter_drops_all<A>(s: Seq<A>, pred: spec_fn(A) -> bool)
    requires
        forall|i: int| 0 <= i < s.len() ==> !pred(#[trigger] s[i]),
    ensures
        s.filter(pred) == Seq::<A>::empty(),
    decreases s.len(),
{
    if s.len() > 0 {
        let d = s.drop_last();
        assert(d.push(s.last()) =~= s);
        lemma_filter_drops_all(d, pred);
        d.lemma_filter_push(s.last(), pred);
    } else {
        reveal(Seq::filter);
        assert(s.filter(pred) =~= Seq::<A>::empty());
    }
}

/// Attaching a chain and detaching it again, with no data flowing in between,
/// leaves the graph with the tee ports and the links it had before: no port
/// leaks, and the tee's port count is what it was.
pub proof fn lemma_attach_detach_restores(g: GraphView, tee: usize, chain: Seq<StageView>)
    requires
        g.wf(),
        tee < g.stages.len(),
        chain.len() > 0,
        g.stages.len() + chain.len() <= usize::MAX,
    ensures
        ({
            let a = attached(g, tee, chain);
            let b = BranchView {
                tee,
                port: g.next_port,
                first: g.stages.len() as usize,
                count: chain.len() as usize,
                state: BranchState::Detaching,
            };
            let d = released(unlinked(a, g.next_port), b);
            &&& d.ports == g.ports
            &&& d.port_count(tee) == g.port_count(tee)
            &&& d.links == g.links
        }),
{
    let n = g.stages.len();
    let np = g.next_port;
    let k = chain.len();
    lemma_new_port_dropped(g.ports, tee, np);
    lemma_new_links_dropped(g.links, n, k, tee, np);
}

proof fn lemma_new_port_dropped(ports: Seq<Port>, tee: usize, np: u64)
    requires
        forall|i: int| 0 <= i < ports.len() ==> (#[trigger] ports[i]).id < np,
    ensures
        ports.push(Port { tee, id: np }).filter(not_port(np)) == ports,
{
    ports.lemma_filter_push(Port { tee, id: np }, not_port(np));
    lemma_filter_keeps_all(ports, not_port(np));
}

proof fn lemma_new_links_dropped(links: Seq<Link>, n: nat, k: nat, tee: usize, np: u64)
    requires
        k > 0,
        n + k <= usize::MAX,
        forall|i: int| 0 <= i < links.len() ==> (#[trigger] links[i]).from < n && links[i].to < n
            && (links[i].kind matches LinkKind::Port(id) ==> id < np),
    ensures
        (links + Seq::new((k - 1) as nat, |i: int| Link { from: (n + i) as usize, to: (n + i + 1) as usize, kind: LinkKind::Static })
            + seq![Link { from: tee, to: n as usize, kind: LinkKind::Port(np) }]).filter(not_from_port(np)).filter(
            clear_of(n as usize, k as usize),
        ) == links,
{
    let inner = Seq::new((k - 1) as nat, |i: int| Link { from: (n + i) as usize, to: (n + i + 1) as usize, kind: LinkKind::Static });
    let port_link = seq![Link { from: tee, to: n as usize, kind: LinkKind::Port(np) }];
    lemma_filter_three(links, inner, port_link, not_from_port(np));
    lemma_filter_keeps_all(links, not_from_port(np));
    lemma_filter_keeps_all(inner, not_from_port(np));
    lemma_filter_drops_all(port_link, not_from_port(np));
    assert(links + inner + Seq::<Link>::empty() =~= links + inner);
    let keep = clear_of(n as usize, k as usize);
    Seq::filter_distributes_over_add(links, inner, keep);
    lemma_filter_keeps_all(links, keep);
    lemma_filter_drops_all(inner, keep);
    assert(links + Seq::<Link>::empty() =~= links);
}

proof fn lemma_filter_three<A>(x: Seq<A>, y: Seq<A>, z: Seq<A>, pred: spec_fn(A) -> bool)
    ensures
        (x + y + z).filter(pred) == x.filter(pred) + y.filter(pred) + z.filter(pred),
{
    Seq::filter_distributes_over_add(x + y, z, pred);
    Seq::filter_distributes_over_add(x, y, pred);
}

} // verus!
