use cpuprof::blocklist::{blocklist_segments_of, contains, LoadedLibrary};
use cpuprof::frames::{empty_stack, push_frame};
use cpuprof::{Error, Profiler, ProfilerGuardBuilder, UnresolvedFrames, MAX_DEPTH};

fn ok() -> Result<(), Error> {
    Ok(())
}

fn os_failure() -> Result<(), Error> {
    Err(Error::NixError(nix::errno::Errno::EINVAL))
}

fn idle() -> Profiler {
    Profiler::new().unwrap()
}

#[test]
fn new_profiler_is_idle_and_empty() {
    let p = idle();
    assert!(!p.is_running());
    assert_eq!(p.sample_count(), 0);
    assert!(p.blocklist_segments().is_empty());
}

#[test]
fn start_succeeds_only_when_idle() {
    let mut p = idle();
    assert!(p.start(ok).is_ok());
    assert!(p.is_running());
    assert!(matches!(p.start(ok), Err(Error::Running)));
    assert!(p.is_running());
}

#[test]
fn stop_succeeds_only_when_running() {
    let mut p = idle();
    assert!(matches!(p.stop(ok), Err(Error::NotRunning)));
    p.start(ok).unwrap();
    assert!(p.stop(ok).is_ok());
    assert!(!p.is_running());
    assert!(matches!(p.stop(ok), Err(Error::NotRunning)));
}

#[test]
fn start_stop_cycles_repeat() {
    let mut p = idle();
    for _ in 0..3 {
        assert!(p.start(ok).is_ok());
        assert!(matches!(p.start(ok), Err(Error::Running)));
        assert!(p.stop(ok).is_ok());
        assert!(matches!(p.stop(ok), Err(Error::NotRunning)));
    }
}

#[test]
fn already_running_does_not_register_again() {
    let mut p = idle();
    p.start(ok).unwrap();
    let mut called = false;
    let r = p.start(|| {
        called = true;
        Ok(())
    });
    assert!(matches!(r, Err(Error::Running)));
    assert!(!called);
}

#[test]
fn failed_registration_leaves_profiler_idle() {
    let mut p = idle();
    let r = p.start(os_failure);
    assert!(matches!(r, Err(Error::NixError(nix::errno::Errno::EINVAL))));
    assert!(!p.is_running());
}

#[test]
fn failed_unregistration_leaves_profiler_running() {
    let mut p = idle();
    p.start(ok).unwrap();
    p.sample(empty_stack(), b"t", 1);
    let r = p.stop(os_failure);
    assert!(matches!(r, Err(Error::NixError(_))));
    assert!(p.is_running());
    assert_eq!(p.sample_count(), 1);
}

#[test]
fn sample_counter_counts_and_resets() {
    let mut p = idle();
    p.start(ok).unwrap();
    assert_eq!(p.sample_count(), 0);
    p.sample(empty_stack(), b"a", 1);
    assert_eq!(p.sample_count(), 1);
    p.sample(empty_stack(), b"b", 2);
    assert_eq!(p.sample_count(), 2);
    p.stop(ok).unwrap();
    assert_eq!(p.sample_count(), 0);
    p.start(ok).unwrap();
    assert_eq!(p.sample_count(), 0);
}

#[test]
fn init_resets_state() {
    let mut p = idle();
    p.start(ok).unwrap();
    p.sample(empty_stack(), b"", 3);
    assert!(p.init().is_ok());
    assert!(!p.is_running());
    assert_eq!(p.sample_count(), 0);
}

fn started_with(segments: Vec<(usize, usize)>) -> Profiler {
    let mut slot: Result<Profiler, Error> = Profiler::new();
    ProfilerGuardBuilder::default()
        .blocklist_segments(segments)
        .start(&mut slot, ok)
        .unwrap();
    slot.unwrap()
}

#[test]
fn blocklist_uses_strict_interior() {
    let p = started_with(vec![(100, 200), (500, 600)]);
    assert!(!p.is_blocklisted(100));
    assert!(p.is_blocklisted(101));
    assert!(p.is_blocklisted(199));
    assert!(!p.is_blocklisted(200));
    assert!(p.is_blocklisted(550));
    assert!(!p.is_blocklisted(300));
    assert!(!p.is_blocklisted(0));
}

#[test]
fn empty_blocklist_filters_nothing() {
    let p = idle();
    for addr in [0usize, 1, 4096, usize::MAX] {
        assert!(!p.is_blocklisted(addr));
        assert!(p.should_sample(Some(addr)));
    }
    assert!(p.should_sample(None));
}

#[test]
fn builder_start_reports_creating_error() {
    let mut slot: Result<Profiler, Error> = Err(Error::CreatingError);
    let r = ProfilerGuardBuilder::default().start(&mut slot, ok);
    assert!(matches!(r, Err(Error::CreatingError)));
}

#[test]
fn builder_start_when_running_keeps_blocklist() {
    let mut slot: Result<Profiler, Error> = Ok(started_with(vec![(10, 20)]));
    let r = ProfilerGuardBuilder::default()
        .blocklist_segments(vec![(30, 40)])
        .start(&mut slot, ok);
    assert!(matches!(r, Err(Error::Running)));
    assert_eq!(slot.unwrap().blocklist_segments(), &vec![(10, 20)]);
}

#[test]
fn builder_start_failure_keeps_old_blocklist() {
    let mut slot: Result<Profiler, Error> = Profiler::new();
    let r = ProfilerGuardBuilder::default()
        .blocklist_segments(vec![(30, 40)])
        .start(&mut slot, os_failure);
    assert!(matches!(r, Err(Error::NixError(_))));
    let p = slot.unwrap();
    assert!(!p.is_running());
    assert!(p.blocklist_segments().is_empty());
}

#[test]
fn substring_search() {
    assert!(contains(b"libfoo.so.1", b"libfoo"));
    assert!(contains(b"/usr/lib/libfoo.so", b"foo"));
    assert!(contains(b"abc", b""));
    assert!(contains(b"", b""));
    assert!(!contains(b"libbar.so", b"libfoo"));
    assert!(!contains(b"lib", b"libfoo"));
    assert!(contains(b"aaab", b"aab"));
}

fn libraries() -> Vec<LoadedLibrary> {
    vec![
        LoadedLibrary { name: Some(b"/usr/lib/libfoo.so.1".to_vec()), segments: vec![(0x10000, 0x1000), (0x20000, 0x800)] },
        LoadedLibrary { name: Some(b"/usr/lib/libbar.so".to_vec()), segments: vec![(0x30000, 0x100)] },
        LoadedLibrary { name: None, segments: vec![(0x40000, 0x100)] },
        LoadedLibrary { name: Some(b"libfoo-extra.so".to_vec()), segments: vec![(usize::MAX - 5, 10)] },
    ]
}

#[test]
fn blocklist_ranges_from_matching_libraries() {
    let segs = blocklist_segments_of(&libraries(), &["libfoo"]);
    assert_eq!(segs, vec![(0x10000, 0x11000), (0x20000, 0x20800), (usize::MAX - 5, usize::MAX)]);
    let segs = blocklist_segments_of(&libraries(), &["bar", "nothing"]);
    assert_eq!(segs, vec![(0x30000, 0x30100)]);
    assert!(blocklist_segments_of(&libraries(), &[]).is_empty());
    assert!(blocklist_segments_of(&libraries(), &["zzz"]).is_empty());
}

#[test]
fn blocklist_of_loaded_libraries_finds_libc() {
    let mut slot: Result<Profiler, Error> = Profiler::new();
    ProfilerGuardBuilder::default()
        .blocklist(&["libc"])
        .start(&mut slot, ok)
        .unwrap();
    let p = slot.unwrap();
    let segs = p.blocklist_segments().clone();
    assert!(!segs.is_empty());
    for (start, end) in segs {
        assert!(start <= end);
    }
    let mut none: Result<Profiler, Error> = Profiler::new();
    ProfilerGuardBuilder::default()
        .blocklist(&["no-such-library-name-here"])
        .start(&mut none, ok)
        .unwrap();
    assert!(none.unwrap().blocklist_segments().is_empty());
}

#[test]
fn blocklisted_pc_is_not_sampled_end_to_end() {
    let segs = blocklist_segments_of(&libraries(), &["libfoo"]);
    let mut p = started_with(segs);
    let inside = Some(0x10800usize);
    assert!(!p.should_sample(inside));
    assert_eq!(p.sample_count(), 0);
    let outside = Some(0x50000usize);
    assert!(p.should_sample(outside));
    let record = p.sample(empty_stack(), b"worker", 4242);
    assert_eq!(p.sample_count(), 1);
    assert_eq!(record.thread_id, 4242);
    assert_eq!(record.thread_name_length, 6);
    assert_eq!(&record.thread_name[..6], b"worker");
}

#[test]
fn record_pads_thread_name() {
    let r = UnresolvedFrames::new(empty_stack(), b"abc", 9);
    assert_eq!(r.thread_name, [b'a', b'b', b'c', 0, 0, 0, 0, 0, 0, 0, 0, 0, 0, 0, 0, 0]);
    assert_eq!(r.thread_name_length, 3);
    assert_eq!(r.thread_id, 9);
    assert_eq!(r.frames.len(), 0);
    let full = UnresolvedFrames::new(empty_stack(), b"0123456789abcdef", 1);
    assert_eq!(&full.thread_name, b"0123456789abcdef");
    assert_eq!(full.thread_name_length, 16);
}

fn deep(n: usize, out: &mut Vec<backtrace::Frame>) {
    if n == 0 {
        backtrace::trace(|f| {
            out.push(f.clone());
            true
        });
    } else {
        deep(n - 1, out);
        std::hint::black_box(n);
    }
}

#[test]
fn stack_capture_stops_at_max_depth() {
    let mut walk = Vec::new();
    deep(3 * MAX_DEPTH, &mut walk);
    assert!(walk.len() > MAX_DEPTH);
    let mut bt = empty_stack();
    let mut offered = 0usize;
    for f in walk {
        offered += 1;
        let more = push_frame(&mut bt, f);
        assert_eq!(more, offered <= MAX_DEPTH);
        assert!(bt.len() <= MAX_DEPTH);
    }
    assert_eq!(bt.len(), MAX_DEPTH);
}

#[test]
fn shallow_capture_keeps_every_frame() {
    let mut bt = empty_stack();
    let mut walk = Vec::new();
    backtrace::trace(|f| {
        walk.push(f.clone());
        walk.len() < 3
    });
    let n = walk.len();
    for f in walk {
        assert!(push_frame(&mut bt, f));
    }
    assert_eq!(bt.len(), n);
}
