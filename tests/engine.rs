use producerid::dispatch::{route, Route};
use producerid::engine::{check_pod_name, collect_history, plan_acquire, record_acquisition, resolve_id};
use producerid::entry::{EngineError, PodHistoryEntry, Timestamp};
use producerid::keys::{decimal, pod_key, producer_key, IDS_KEY};
use producerid::minting::new_id;

const T0: Timestamp = Timestamp { secs: 1_700_000_000, nanos: 250 };

#[test]
fn key_names() {
    assert_eq!(IDS_KEY, "producerid-service::ids");
    assert_eq!(pod_key("web-1"), "producerid-service::history_per_pod::web-1");
    assert_eq!(producer_key(4242), "producerid-service::history_per_producer::4242");
    assert_eq!(producer_key(0), "producerid-service::history_per_producer::0");
    assert_eq!(producer_key(65535), "producerid-service::history_per_producer::65535");
}

#[test]
fn decimal_notation() {
    assert_eq!(decimal(0), "0");
    assert_eq!(decimal(7), "7");
    assert_eq!(decimal(10), "10");
    assert_eq!(decimal(305), "305");
    assert_eq!(decimal(u16::MAX), "65535");
}

#[test]
fn empty_pod_name_is_invalid() {
    assert_eq!(
        check_pod_name(""),
        Err(EngineError::InvalidInput("pod name can't be empty".to_string()))
    );
    assert!(check_pod_name("a").is_ok());
    let r = plan_acquire("", None, &vec![], T0);
    assert!(matches!(r, Err(EngineError::InvalidInput(_))));
}

#[test]
fn existing_binding_is_kept() {
    assert_eq!(resolve_id(Some(77), &vec![77, 3]).unwrap(), 77);
    let a = plan_acquire("p", Some(77), &vec![77], T0).unwrap();
    assert_eq!(a.producer_id, 77);
    assert_eq!(a.pod_key, "producerid-service::history_per_pod::p");
    assert_eq!(a.producer_key, "producerid-service::history_per_producer::77");
    assert_eq!(a.pod_entry.producer_id, 77);
    assert_eq!(a.producer_entry.pod_name, "p");
    assert_eq!(a.pod_entry.date, T0);
    assert_eq!(a.producer_entry.date, T0);
}

#[test]
fn fresh_id_avoids_active_ones() {
    let active: Vec<u16> = (1..=65000u16).collect();
    for _ in 0..20 {
        let id = new_id(&active).unwrap();
        assert!(id > 65000);
    }
    let a = plan_acquire("fresh", None, &active, T0).unwrap();
    assert!(a.producer_id > 65000);
}

#[test]
fn single_free_id_is_found() {
    let active: Vec<u16> = (1..=u16::MAX).filter(|v| *v != 12345).collect();
    assert_eq!(new_id(&active).unwrap(), 12345);
}

#[test]
fn full_range_is_exhausted() {
    let active: Vec<u16> = (1..=u16::MAX).collect();
    assert!(matches!(new_id(&active), Err(EngineError::Exhausted(_))));
    assert!(matches!(plan_acquire("p", None, &active, T0), Err(EngineError::Exhausted(_))));
    assert_eq!(plan_acquire("p", Some(9), &active, T0).unwrap().producer_id, 9);
}

#[test]
fn zero_is_never_minted() {
    for _ in 0..1000 {
        assert_ne!(new_id(&vec![]).unwrap(), 0);
    }
}

#[test]
fn record_holds_given_values() {
    let at = Timestamp { secs: 1_431_648_000, nanos: 5 };
    let a = record_acquisition("pod-a", 9, at);
    assert_eq!(a.producer_id, 9);
    assert_eq!(a.pod_entry, PodHistoryEntry { producer_id: 9, date: at });
    assert_eq!(a.producer_entry.pod_name, "pod-a");
    assert_eq!(a.producer_entry.date, at);
    assert_eq!(a.pod_key, "producerid-service::history_per_pod::pod-a");
    assert_eq!(a.producer_key, "producerid-service::history_per_producer::9");
}

#[test]
fn history_with_a_malformed_record_fails_whole() {
    let ok = collect_history(vec![Some(1u16), Some(2), Some(3)]).unwrap();
    assert_eq!(ok, vec![1, 2, 3]);
    let bad = collect_history(vec![Some(1u16), None, Some(3)]);
    assert!(matches!(bad, Err(EngineError::Decode(_))));
    let empty: Vec<Option<u16>> = vec![];
    assert!(collect_history(empty).unwrap().is_empty());
}

#[test]
fn routes() {
    assert_eq!(route("/history/pod"), Route::PodHistory);
    assert_eq!(route("/history/producer"), Route::ProducerHistory);
    assert_eq!(route("/acquire"), Route::Acquire);
    assert_eq!(route("/release"), Route::Release);
    assert_eq!(route("/"), Route::Other);
    assert_eq!(route("/acquire/"), Route::Other);
}

#[test]
fn error_message() {
    let e = plan_acquire("", None, &vec![], T0).err().unwrap();
    assert_eq!(e.message(), "pod name can't be empty");
}
