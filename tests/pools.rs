use audio_ingest::model_pool::{
    select_model_tier, wait_step, worker_count, workers_for, ResultStore, WaitStep, ModelStats,
};
use audio_ingest::pool::{BoundedPool, Checkout, Lease};
use audio_ingest::quality::TranscriptionQuality;

#[test]
fn pool_overflows_instead_of_failing() {
    let mut pool = BoundedPool::new(vec![1u32, 2]);
    let a = match pool.checkout() {
        Lease::Pooled(c) => c,
        Lease::Miss => panic!("expected a pooled resource"),
    };
    assert_eq!(a.resource, 1);
    let b = match pool.checkout() {
        Lease::Pooled(c) => c,
        Lease::Miss => panic!("expected a pooled resource"),
    };
    assert_eq!(b.resource, 2);
    assert!(matches!(pool.checkout(), Lease::Miss));
    let extra = Checkout::overflow(99u32);
    assert!(!pool.release(extra));
    assert!(pool.release(a));
    assert!(pool.release(b));
    assert_eq!(pool.available(), 2);
    let stats = pool.get_pool_stats();
    assert_eq!((stats.total_size, stats.available, stats.in_use), (2, 2, 0));
}

#[test]
fn pool_never_grows_past_its_size() {
    let mut pool = BoundedPool::new(vec![1u32]);
    let a = match pool.checkout() {
        Lease::Pooled(c) => c,
        Lease::Miss => panic!("expected a pooled resource"),
    };
    pool.refresh(vec![5, 6, 7]);
    assert_eq!(pool.available(), 1);
    assert!(!pool.release(a));
    assert_eq!(pool.available(), 1);
    assert_eq!(pool.capacity(), 1);
}

#[test]
fn model_tier_fallbacks() {
    assert_eq!(select_model_tier(&[TranscriptionQuality::Premium, TranscriptionQuality::Turbo], TranscriptionQuality::Turbo), Some(TranscriptionQuality::Turbo));
    assert_eq!(select_model_tier(&[TranscriptionQuality::Premium, TranscriptionQuality::Medium], TranscriptionQuality::Turbo), Some(TranscriptionQuality::Medium));
    assert_eq!(select_model_tier(&[TranscriptionQuality::Balanced, TranscriptionQuality::Premium], TranscriptionQuality::Turbo), Some(TranscriptionQuality::Balanced));
    assert_eq!(select_model_tier(&[TranscriptionQuality::Premium], TranscriptionQuality::Turbo), Some(TranscriptionQuality::Premium));
    assert_eq!(select_model_tier(&[], TranscriptionQuality::Turbo), None);
}

#[test]
fn worker_counts() {
    assert_eq!(workers_for(1), 1);
    assert_eq!(workers_for(8), 8);
    assert_eq!(workers_for(64), 8);
    let n = worker_count();
    assert!(n >= 1 && n <= 8);
}

#[test]
fn results_are_taken_once() {
    let mut store: ResultStore<String> = ResultStore::new();
    store.insert(7, "first".to_string());
    store.insert(9, "other".to_string());
    store.insert(7, "second".to_string());
    assert!(store.contains(7));
    assert_eq!(store.take(7), Some("second".to_string()));
    assert_eq!(store.take(7), None);
    assert!(!store.contains(7));
    assert_eq!(store.take(9), Some("other".to_string()));
}

#[test]
fn blocking_wait_decisions() {
    assert_eq!(wait_step(true, 100_000, 90_000), WaitStep::Ready);
    assert_eq!(wait_step(false, 90_001, 90_000), WaitStep::TimedOut);
    assert_eq!(wait_step(false, 90_000, 90_000), WaitStep::Poll);
}

#[test]
fn model_stats_average() {
    let d = std::time::Duration::from_secs(3);
    let s = ModelStats::from_counters(TranscriptionQuality::Medium, 4, 1000, d);
    assert_eq!(s.average_processing_time_ms, 250);
    let z = ModelStats::from_counters(TranscriptionQuality::Turbo, 0, 0, d);
    assert_eq!(z.average_processing_time_ms, 0);
}
