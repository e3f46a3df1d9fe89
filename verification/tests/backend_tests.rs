use pprof::backend::capture_targets;
use pprof::backend::process_thread_ids;
use pprof::backend::register;
use pprof::backend::submit_capture;
use pprof::backend::thread_label;
use pprof::backend::unregister;
use pprof::backend::BackendAction;
use pprof::backend::ThreadEntry;
use pprof::backend::WorkerState;
use pprof::guard::ProfilerGuard;
use pprof::profiler::Profiler;

#[test]
fn register_spawns_once_and_unregister_joins() {
    let mut w = WorkerState::new();
    assert!(!w.terminated);
    assert!(!w.active);

    assert_eq!(register(&mut w), Ok(BackendAction::SpawnWorker));
    assert!(w.active);
    assert!(!w.terminated);

    assert_eq!(register(&mut w), Ok(BackendAction::NoAction));
    assert!(w.active);

    assert_eq!(unregister(&mut w), Ok(BackendAction::JoinWorker));
    assert!(w.terminated);
    assert!(!w.active);

    assert_eq!(unregister(&mut w), Ok(BackendAction::NoAction));
    assert!(w.terminated);

    assert_eq!(register(&mut w), Ok(BackendAction::SpawnWorker));
    assert!(!w.terminated);
}

#[test]
fn capture_targets_never_include_the_worker() {
    let ids = vec![10, 20, 30, 20, 40];
    let targets = capture_targets(&ids, 20);
    assert_eq!(targets, vec![10, 30, 40]);

    let only_self = capture_targets(&vec![7, 7, 7], 7);
    assert!(only_self.is_empty());

    let untouched = capture_targets(&vec![1, 2, 3], 9);
    assert_eq!(untouched, vec![1, 2, 3]);
}

#[test]
fn process_thread_ids_keeps_only_this_process() {
    let entries = vec![
        ThreadEntry { owner_process_id: 100, thread_id: 1 },
        ThreadEntry { owner_process_id: 200, thread_id: 2 },
        ThreadEntry { owner_process_id: 100, thread_id: 3 },
        ThreadEntry { owner_process_id: 300, thread_id: 4 },
    ];
    assert_eq!(process_thread_ids(&entries, 100), vec![1, 3]);
    assert_eq!(process_thread_ids(&entries, 300), vec![4]);
    assert_eq!(process_thread_ids(&entries, 999), Vec::<u32>::new());
}

#[test]
fn thread_label_is_main_or_lowercase_hex() {
    assert_eq!(thread_label(7, 7), b"main".to_vec());
    assert_eq!(thread_label(0x1a2b, 1), b"1a2b".to_vec());
    assert_eq!(thread_label(0, 1), b"0".to_vec());
    assert_eq!(thread_label(0xdeadbeef, 1), b"deadbeef".to_vec());
    assert_eq!(thread_label(u32::MAX, 1), b"ffffffff".to_vec());
    assert_eq!(thread_label(16, 1), b"10".to_vec());
}

#[test]
fn submit_capture_labels_and_counts() {
    let mut p = Profiler::new().expect("creating a profiler must succeed");
    let guard = ProfilerGuard::new(99, &mut p).expect("idle profiler starts");

    submit_capture(&mut p, vec![0x1000, 0x2000], 5, 5, 11);
    submit_capture(&mut p, vec![0x3000], 0xab, 5, 12);

    assert_eq!(p.sample_counter, 2);
    let (main_frames, w0) = p.data.get(0);
    assert_eq!(*w0, 1);
    assert_eq!(main_frames.thread_name, b"main".to_vec());
    assert_eq!(main_frames.thread_id, 5);
    assert_eq!(main_frames.frames, vec![0x1000, 0x2000]);
    assert_eq!(main_frames.timestamp, 11);

    let (other_frames, _) = p.data.get(1);
    assert_eq!(other_frames.thread_name, b"ab".to_vec());
    assert_eq!(other_frames.thread_id, 0xab);

    assert_eq!(guard.release(&mut p), Ok(()));
}

#[test]
fn three_live_threads_each_get_a_sample() {
    let mut p = Profiler::new().expect("creating a profiler must succeed");
    let guard = ProfilerGuard::new(99, &mut p).expect("idle profiler starts");
    let main_thread_id = 1;
    let worker_id = 99;

    // One capture pass over a snapshot holding three live threads plus the
    // worker itself.
    let ids = vec![1, 2, 3, worker_id];
    let targets = capture_targets(&ids, worker_id);
    assert_eq!(targets.len(), 3);
    for (k, id) in targets.iter().enumerate() {
        submit_capture(&mut p, vec![0x40 + k as u64], *id, main_thread_id, k as u64);
    }

    for wanted in [1u64, 2, 3] {
        let mut seen = 0;
        for i in 0..p.data.len() {
            let (frames, _) = p.data.get(i);
            if frames.thread_id == wanted {
                seen += 1;
            }
        }
        assert!(seen >= 1, "thread {wanted} was never sampled");
    }
    assert_eq!(guard.release(&mut p), Ok(()));
}
