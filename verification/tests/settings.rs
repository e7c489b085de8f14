use multix::config::{Config, TPBuilder, DEFAULT_QUEUE_CAPACITY};
use multix::pool::ThreadPool;
use multix::queue::MAX_QUEUE_CAPACITY;
use std::sync::atomic::{AtomicUsize, Ordering};
use std::sync::Arc;
use std::time::Duration;

#[test]
fn builder_defaults() {
    let b = TPBuilder::new();
    let c = b.config();
    assert!(c.size >= 1);
    assert_eq!(c.max_size, None);
    assert_eq!(c.max_workers(), c.size);
    assert_eq!(c.queue_capacity, 64 * 1024);
    assert_eq!(DEFAULT_QUEUE_CAPACITY, 65536);
    assert!(DEFAULT_QUEUE_CAPACITY <= MAX_QUEUE_CAPACITY);
    assert_eq!(c.timeout, None);
    assert_eq!(c.stack_size, None);
    assert!(c.mount.is_none());
    assert!(c.unmount.is_none());
    assert!(c.is_valid());
}

#[test]
fn builder_setters_change_one_setting_each() {
    let c = TPBuilder::new().size(3).into_config();
    assert_eq!((c.size, c.max_size, c.queue_capacity), (3, None, 65536));

    let c = TPBuilder::new().size(3).max_size(7).into_config();
    assert_eq!((c.size, c.max_size, c.queue_capacity), (3, Some(7), 65536));
    assert_eq!(c.max_workers(), 7);

    let c = TPBuilder::new().size(3).queue_capacity(12).into_config();
    assert_eq!((c.size, c.max_size, c.queue_capacity), (3, None, 12));

    let c = TPBuilder::new().size(2).timeout(Duration::from_millis(250)).into_config();
    assert_eq!(c.timeout, Some(Duration::from_millis(250)));
    assert_eq!(c.stack_size, None);

    let c = TPBuilder::new().size(2).stack_size(4096).into_config();
    assert_eq!(c.stack_size, Some(4096));
    assert_eq!(c.timeout, None);

    let c = TPBuilder::new().size(2).mount(|| {}).into_config();
    assert!(c.mount.is_some());
    assert!(c.unmount.is_none());

    let c = TPBuilder::new().size(2).unmount(|| {}).into_config();
    assert!(c.mount.is_none());
    assert!(c.unmount.is_some());
}

#[test]
fn later_setting_wins() {
    let c = TPBuilder::new().size(3).size(5).max_size(9).max_size(6).into_config();
    assert_eq!((c.size, c.max_size), (5, Some(6)));
}

fn config(size: usize, max_size: Option<usize>) -> Config {
    let b = TPBuilder::new().size(size);
    match max_size {
        Some(m) => b.max_size(m).into_config(),
        None => b.into_config(),
    }
}

#[test]
fn validity_of_settings() {
    assert!(config(1, None).is_valid());
    assert!(config(8, None).is_valid());
    assert!(config(2, Some(2)).is_valid());
    assert!(config(2, Some(3)).is_valid());
    assert!(!config(0, None).is_valid());
    assert!(!config(0, Some(4)).is_valid());
    assert!(!config(3, Some(2)).is_valid());
}

#[test]
fn worker_limit_depends_on_the_job_in_hand() {
    let c = config(2, Some(5));
    assert_eq!(c.worker_limit(false), 2);
    assert_eq!(c.worker_limit(true), 5);
    let c = config(2, None);
    assert_eq!(c.worker_limit(false), 2);
    assert_eq!(c.worker_limit(true), 2);
}

#[test]
fn hooks_run_when_called() {
    let mounted = Arc::new(AtomicUsize::new(0));
    let unmounted = Arc::new(AtomicUsize::new(0));
    let (m, u) = (mounted.clone(), unmounted.clone());
    let c = TPBuilder::new()
        .mount(move || {
            m.fetch_add(1, Ordering::SeqCst);
        })
        .unmount(move || {
            u.fetch_add(10, Ordering::SeqCst);
        })
        .into_config();
    assert!(c.run_mount());
    assert!(c.run_mount());
    assert!(c.run_unmount());
    assert_eq!(mounted.load(Ordering::SeqCst), 2);
    assert_eq!(unmounted.load(Ordering::SeqCst), 10);

    let bare = config(1, None);
    assert!(!bare.run_mount());
    assert!(!bare.run_unmount());
}

#[test]
fn pool_keeps_its_settings() {
    let pool: ThreadPool<u32> = TPBuilder::new()
        .size(2)
        .max_size(4)
        .queue_capacity(8)
        .stack_size(1 << 16)
        .build();
    let c = pool.settings();
    assert_eq!((c.size, c.max_size, c.queue_capacity), (2, Some(4), 8));
    assert_eq!(c.stack_size, Some(65536));
    assert_eq!(pool.size(), 0);
    assert_eq!(pool.queued(), 0);
    assert!(!pool.is_disconnected());
    assert!(!pool.is_workers_overflow());

    let pool: ThreadPool<u32> = ThreadPool::new(6);
    assert_eq!(pool.settings().size, 6);
    assert_eq!(pool.settings().max_workers(), 6);
    let pool: ThreadPool<u32> = ThreadPool::single_thread();
    assert_eq!(pool.settings().size, 1);
    assert_eq!(pool.settings().max_workers(), 1);
}

#[test]
fn default_size_is_the_cpu_count() {
    for cpus in [1usize, 2, 8, 64] {
        let c = TPBuilder::with_cpus(cpus).into_config();
        assert_eq!(c.size, cpus);
        assert_eq!(c.max_size, None);
        assert_eq!(c.max_workers(), cpus);
        assert_eq!(c.queue_capacity, 64 * 1024);
        assert_eq!(c.timeout, None);
        assert_eq!(c.stack_size, None);
        assert!(c.mount.is_none());
        assert!(c.unmount.is_none());
        assert!(c.is_valid());
    }
    assert!(!TPBuilder::with_cpus(0).into_config().is_valid());
}
