use rovhost::future::{Dispatch, Future, Next, Promise, Reactor, Sequence};

type Cont = Box<dyn Fn(u64) -> Next<u64>>;

fn double(v: u64) -> Next<u64> {
    Next::Value(v.wrapping_mul(2))
}

fn tokens(out: &[Dispatch<u64>]) -> Vec<u64> {
    out.iter()
        .map(|d| match d {
            Dispatch::Value(t, _) => *t,
            Dispatch::Values(_, t, _) => *t,
        })
        .collect()
}

#[test]
fn resolved_future_runs_callback_at_registration() {
    let mut r: Reactor<u64, Cont> = Reactor::new();
    let f = Future::apply(&mut r, 7);
    assert_eq!(f.for_each(&mut r, 1), Some(7));
    assert_eq!(r.get(f), Some(7));
}

#[test]
fn pending_callbacks_run_once_in_registration_order() {
    let mut r: Reactor<u64, Cont> = Reactor::new();
    let p = Promise::new(&mut r);
    let f = p.future();
    assert_eq!(f.for_each(&mut r, 10), None);
    assert_eq!(f.for_each(&mut r, 11), None);
    assert_eq!(f.for_each(&mut r, 12), None);
    let out = p.success(&mut r, 5);
    assert_eq!(tokens(&out), vec![10, 11, 12]);
    for d in &out {
        match d {
            Dispatch::Value(_, v) => assert_eq!(*v, 5),
            Dispatch::Values(..) => panic!("unexpected sequence dispatch"),
        }
    }
    assert_eq!(r.get(f), Some(5));
    // A later subscriber is served at once; nothing is queued again.
    assert_eq!(f.for_each(&mut r, 13), Some(5));
}

#[test]
fn map_resolves_with_function_of_value() {
    let mut r: Reactor<u64, Cont> = Reactor::new();
    let p = Promise::new(&mut r);
    let src = p.future();
    let m = src.map(&mut r, Box::new(double));
    assert_eq!(r.get(m), None);
    assert_eq!(m.for_each(&mut r, 3), None);
    let out = p.success(&mut r, 21);
    assert_eq!(r.get(m), Some(42));
    assert!(out.iter().any(|d| matches!(d, Dispatch::Value(3, 42))));
}

#[test]
fn map_on_resolved_future_is_resolved() {
    let mut r: Reactor<u64, Cont> = Reactor::new();
    let src = Future::apply(&mut r, 4);
    let m = src.map(&mut r, Box::new(double));
    assert_eq!(r.get(m), Some(8));
}

#[test]
fn flat_map_waits_for_inner_future() {
    let mut r: Reactor<u64, Cont> = Reactor::new();
    let outer = Promise::new(&mut r);
    let inner = Promise::new(&mut r);
    let awaited = inner.future();
    let chained = outer.future().flat_map(&mut r, Box::new(move |_v: u64| Next::Wait(awaited)));
    outer.success(&mut r, 1);
    assert_eq!(r.get(chained), None);
    inner.success(&mut r, 99);
    assert_eq!(r.get(chained), Some(99));
}

#[test]
fn sequence_keeps_input_order_when_last_resolves_first() {
    let mut r: Reactor<u64, Cont> = Reactor::new();
    let first = Promise::new(&mut r);
    let second = Promise::new(&mut r);
    let third = Promise::new(&mut r);
    let futures = vec![first.future(), second.future(), third.future()];
    let s: Sequence = Future::sequence(&mut r, &futures);
    assert_eq!(s.for_each(&mut r, 77), None);
    assert!(third.success(&mut r, 3).is_empty());
    assert!(second.success(&mut r, 2).is_empty());
    let out = first.success(&mut r, 1);
    let seqs: Vec<&Vec<u64>> = out
        .iter()
        .filter_map(|d| match d {
            Dispatch::Values(_, 77, vals) => Some(vals),
            _ => None,
        })
        .collect();
    assert_eq!(seqs, vec![&vec![1, 2, 3]]);
    assert_eq!(s.for_each(&mut r, 78), Some(vec![1, 2, 3]));
}

#[test]
fn empty_sequence_is_resolved() {
    let mut r: Reactor<u64, Cont> = Reactor::new();
    let s = Future::sequence(&mut r, &Vec::new());
    assert_eq!(s.for_each(&mut r, 1), Some(vec![]));
}

#[test]
fn resolution_cascades_through_derived_futures() {
    let mut r: Reactor<u64, Cont> = Reactor::new();
    let p = Promise::new(&mut r);
    let a = p.future().map(&mut r, Box::new(double));
    let b = a.map(&mut r, Box::new(double));
    assert_eq!(b.for_each(&mut r, 9), None);
    let out = p.success(&mut r, 1);
    assert_eq!(r.get(a), Some(2));
    assert_eq!(r.get(b), Some(4));
    assert!(out.iter().any(|d| matches!(d, Dispatch::Value(9, 4))));
}
