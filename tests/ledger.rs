use producerid::entry::{EngineError, PodHistoryEntry, Timestamp};
use producerid::ledger::Ledger;

const T0: Timestamp = Timestamp { secs: 1_700_000_000, nanos: 250 };

#[test]
fn scenario_two_pods_release_and_reacquire() {
    let mut l = Ledger::new();
    let x = l.acquire("web-1", T0).unwrap();
    assert_ne!(x, 0);
    let y = l.acquire("web-2", T0).unwrap();
    assert_ne!(y, 0);
    assert_ne!(y, x);
    l.release("web-1").unwrap();
    assert_eq!(l.producer_id("web-1"), None);
    assert_eq!(l.producer_id("web-2"), Some(y));
    let z = l.acquire("web-1", T0).unwrap();
    assert_ne!(z, 0);
    assert_ne!(z, y);
    assert_eq!(l.pod_history("web-1").len(), 2);
    let hx = l.producer_history(x);
    if z == x {
        assert_eq!(hx.len(), 2);
    } else {
        assert_eq!(hx.len(), 1);
    }
    assert!(hx.iter().all(|e| e.pod_name == "web-1"));
}

#[test]
fn scenario_empty_name_is_rejected() {
    let mut l = Ledger::new();
    let id = l.acquire("web-1", T0).unwrap();
    let r = l.acquire("", T0);
    assert_eq!(r, Err(EngineError::InvalidInput("pod name can't be empty".to_string())));
    assert_eq!(l.active_ids(), vec![id]);
    assert_eq!(l.pod_history("").len(), 0);
    assert_eq!(l.pod_history("web-1").len(), 1);
    assert_eq!(
        l.release(""),
        Err(EngineError::InvalidInput("pod name can't be empty".to_string()))
    );
}

#[test]
fn fresh_id_is_nonzero_and_unused() {
    let mut l = Ledger::new();
    for i in 0..200u32 {
        let name = format!("pod-{}", i);
        let before = l.active_ids();
        let id = l.acquire(&name, T0).unwrap();
        assert_ne!(id, 0);
        assert!(!before.contains(&id));
    }
    let mut ids = l.active_ids();
    ids.sort();
    ids.dedup();
    assert_eq!(ids.len(), 200);
}

#[test]
fn acquire_twice_gives_same_id() {
    let mut l = Ledger::new();
    let a = l.acquire("worker", T0).unwrap();
    let b = l.acquire("worker", T0).unwrap();
    assert_eq!(a, b);
    assert_eq!(l.producer_id("worker"), Some(a));
}

#[test]
fn release_then_acquire_gives_a_free_id() {
    let mut l = Ledger::new();
    let _ = l.acquire("a", T0).unwrap();
    let other = l.acquire("b", T0).unwrap();
    l.release("a").unwrap();
    let again = l.acquire("a", T0).unwrap();
    assert_ne!(again, 0);
    assert_ne!(again, other);
}

#[test]
fn release_of_unbound_pod_changes_nothing() {
    let mut l = Ledger::new();
    let id = l.acquire("a", T0).unwrap();
    assert!(l.release("never-seen").is_ok());
    assert_eq!(l.producer_id("a"), Some(id));
    assert_eq!(l.active_ids(), vec![id]);
    assert_eq!(l.pod_history("a").len(), 1);
    assert_eq!(l.pod_history("never-seen").len(), 0);
}

#[test]
fn pod_history_grows_by_one_per_acquire() {
    let mut l = Ledger::new();
    for n in 1..6usize {
        l.acquire("p", T0).unwrap();
        assert_eq!(l.pod_history("p").len(), n);
    }
    l.release("p").unwrap();
    assert_eq!(l.pod_history("p").len(), 5);
    l.acquire("p", T0).unwrap();
    assert_eq!(l.pod_history("p").len(), 6);
}

#[test]
fn producer_history_names_exactly_the_acquirers() {
    let mut l = Ledger::new();
    let a = l.acquire("alpha", T0).unwrap();
    let b = l.acquire("beta", T0).unwrap();
    let ha = l.producer_history(a);
    assert_eq!(ha.len(), 1);
    assert_eq!(ha[0].pod_name, "alpha");
    let hb = l.producer_history(b);
    assert_eq!(hb.len(), 1);
    assert_eq!(hb[0].pod_name, "beta");
    let unused = (1..=u16::MAX).find(|v| *v != a && *v != b).unwrap();
    assert!(l.producer_history(unused).is_empty());
}

#[test]
fn history_round_trip_keeps_fields_and_time() {
    let mut l = Ledger::new();
    let id = l.acquire("rt", T0).unwrap();
    let pod = l.pod_history("rt");
    let prod = l.producer_history(id);
    assert_eq!(pod.len(), 1);
    assert_eq!(prod.len(), 1);
    assert_eq!(pod[0].producer_id, id);
    assert_eq!(prod[0].pod_name, "rt");
    assert_eq!(pod[0].date, T0);
    assert_eq!(prod[0].date, T0);
}

#[test]
fn pod_history_is_newest_first() {
    let mut l = Ledger::new();
    let first = l.acquire("n", T0).unwrap();
    l.release("n").unwrap();
    l.acquire("other", T0).unwrap();
    let later = Timestamp { secs: T0.secs + 5, nanos: 0 };
    let second = l.acquire("n", later).unwrap();
    let h: Vec<PodHistoryEntry> = l.pod_history("n");
    assert_eq!(h.len(), 2);
    assert_eq!(h[0].producer_id, second);
    assert_eq!(h[1].producer_id, first);
    assert_eq!(h[0].date, later);
    assert_eq!(h[1].date, T0);
}

#[test]
fn empty_ledger_has_nothing() {
    let l = Ledger::new();
    assert!(l.active_ids().is_empty());
    assert_eq!(l.producer_id("x"), None);
    assert!(l.pod_history("x").is_empty());
    assert!(l.producer_history(1).is_empty());
}
