use pprof::error::Error;
use pprof::frames::UnresolvedFrames;
use pprof::guard::ProfilerGuard;
use pprof::guard::ProfilerGuardBuilder;
use pprof::profiler::Profiler;
use pprof::MAX_DEPTH;
use pprof::MAX_THREAD_NAME;

fn fresh() -> Profiler {
    Profiler::new().expect("creating a profiler must succeed")
}

#[test]
fn new_profiler_is_idle_and_zeroed() {
    let p = fresh();
    assert!(!p.running);
    assert_eq!(p.sample_counter, 0);
    assert_eq!(p.data.len(), 0);
    assert!(p.blocklist_segments.is_empty());
}

#[test]
fn start_stop_alternates() {
    let mut p = fresh();
    assert_eq!(p.start(), Ok(()));
    assert!(p.running);
    assert_eq!(p.start(), Err(Error::Running));
    assert!(p.running);
    assert_eq!(p.stop(), Ok(()));
    assert!(!p.running);
    assert_eq!(p.stop(), Err(Error::NotRunning));
    assert!(!p.running);
    assert_eq!(p.start(), Ok(()));
    assert!(p.running);
}

#[test]
fn stop_twice_returns_not_running() {
    let mut p = fresh();
    assert_eq!(p.start(), Ok(()));
    assert_eq!(p.stop(), Ok(()));
    assert_eq!(p.stop(), Err(Error::NotRunning));
}

#[test]
fn start_twice_leaves_first_session_undisturbed() {
    let mut p = fresh();
    assert_eq!(p.start(), Ok(()));
    p.sample(vec![1, 2, 3], b"t", 5, 1000);
    p.sample(vec![4, 5], b"t", 5, 1001);
    assert_eq!(p.start(), Err(Error::Running));
    assert_eq!(p.sample_counter, 2);
    assert_eq!(p.data.len(), 2);
    assert!(p.running);
}

#[test]
fn counter_counts_each_submission() {
    let mut p = fresh();
    assert_eq!(p.start(), Ok(()));
    assert_eq!(p.sample_counter, 0);
    for k in 0..5u64 {
        p.sample(vec![0xdead, 0xbeef], b"worker", 9, k);
        assert_eq!(p.sample_counter, (k + 1) as i64);
    }
    assert_eq!(p.data.len(), 5);
}

#[test]
fn sample_records_identity_and_weight() {
    let mut p = fresh();
    assert_eq!(p.start(), Ok(()));
    p.sample(vec![0x10, 0x20, 0x30], b"main", 42, 777);
    let (frames, weight) = p.data.get(0);
    assert_eq!(*weight, 1);
    assert_eq!(frames.frames, vec![0x10, 0x20, 0x30]);
    assert_eq!(frames.thread_name, b"main".to_vec());
    assert_eq!(frames.thread_id, 42);
    assert_eq!(frames.timestamp, 777);
}

#[test]
fn frames_clipped_to_max_depth() {
    let mut p = fresh();
    assert_eq!(p.start(), Ok(()));
    let deep: Vec<u64> = (0..(MAX_DEPTH as u64 + 8)).collect();
    p.sample(deep.clone(), b"deep", 1, 0);
    let (frames, _) = p.data.get(0);
    assert_eq!(frames.frames.len(), MAX_DEPTH);
    assert_eq!(frames.frames, deep[..MAX_DEPTH].to_vec());
}

#[test]
fn thread_name_clipped_to_limit() {
    let long = UnresolvedFrames::new(vec![1], b"a-thread-name-well-past-the-limit", 1, 0);
    assert_eq!(long.thread_name.len(), MAX_THREAD_NAME);
    assert_eq!(long.thread_name, b"a-thread-name-we".to_vec());
    let short = UnresolvedFrames::new(vec![1], b"short", 1, 0);
    assert_eq!(short.thread_name, b"short".to_vec());
}

#[test]
fn blocklisted_range_is_strictly_inside() {
    let mut p = fresh();
    p.set_blocklist(vec![(10, 20), (100, 200)]);
    assert!(!p.is_blocklisted(5));
    assert!(!p.is_blocklisted(10));
    assert!(p.is_blocklisted(11));
    assert!(p.is_blocklisted(19));
    assert!(!p.is_blocklisted(20));
    assert!(p.is_blocklisted(150));
    assert!(!p.is_blocklisted(200));
    assert!(!p.is_blocklisted(1000));
}

#[test]
fn builder_defaults_and_frequency() {
    let b = ProfilerGuardBuilder::default();
    assert_eq!(b.frequency, 99);
    assert!(b.blocklist_segments.is_empty());
    let b = b.frequency(250);
    assert_eq!(b.frequency, 250);
}

#[test]
fn build_starts_and_installs_blocklist() {
    let mut p = fresh();
    let builder = ProfilerGuardBuilder::default().frequency(77);
    let builder = ProfilerGuardBuilder {
        blocklist_segments: vec![(1, 2)],
        ..builder
    };
    let guard = builder.build(&mut p).expect("building on an idle profiler succeeds");
    assert!(p.running);
    assert_eq!(p.sample_counter, 0);
    assert_eq!(p.blocklist_segments, vec![(1, 2)]);
    let timer = guard.timer.as_ref().expect("a successful build holds a timer");
    assert_eq!(timer.frequency, 77);
    assert_eq!(guard.release(&mut p), Ok(()));
}

#[test]
fn build_rejected_while_running() {
    let mut p = fresh();
    let g1 = ProfilerGuard::new(99, &mut p).expect("first build succeeds");
    p.sample(vec![1], b"t", 1, 0);
    let second = ProfilerGuard::new(99, &mut p);
    assert!(matches!(second, Err(Error::Running)));
    assert_eq!(p.sample_counter, 1);
    assert_eq!(g1.release(&mut p), Ok(()));
}

#[test]
fn guard_cycles_leave_idle_and_reset() {
    let mut p = fresh();
    for cycle in 0..4i64 {
        let guard = ProfilerGuard::new(99, &mut p).expect("idle profiler starts");
        for s in 0..=cycle {
            p.sample(vec![s as u64], b"t", 3, 0);
        }
        assert_eq!(p.sample_counter, cycle + 1);
        assert_eq!(guard.release(&mut p), Ok(()));
        assert!(!p.running);
        assert_eq!(p.sample_counter, 0);
        assert_eq!(p.data.len(), 0);
    }
}

#[test]
fn release_when_idle_is_swallowed_as_not_running() {
    let mut p = fresh();
    let guard = ProfilerGuard::new(99, &mut p).expect("idle profiler starts");
    assert_eq!(p.stop(), Ok(()));
    assert_eq!(guard.release(&mut p), Err(Error::NotRunning));
    assert!(!p.running);
}

#[test]
fn error_messages_name_the_failure() {
    assert_eq!(Error::Running.message(), "profiler is already running");
    assert_eq!(Error::NotRunning.message(), "profiler is not running");
    assert_eq!(Error::CreatingError.message(), "failed to create the profiler");
}
