use fftw::{
    create_plan, dispatch_offsets, init_threads, plan_with_nthreads, planner_nthreads, Alignment,
    DomainState, Error, NativeCallGuard, Precision, ThreadingMode, WorkItem,
};

#[test]
fn fresh_domain_defaults() {
    let s = DomainState::fresh(Precision::Single);
    assert!(matches!(s.precision, Precision::Single));
    assert!(s.threading.is_none());
    assert_eq!(s.nthreads, 1);
    assert!(s.wisdom.is_empty());
}

#[test]
fn init_threads_success_registers() {
    let mut s = DomainState::fresh(Precision::Double);
    let r = init_threads(&mut s, ThreadingMode::ExternalPool, 1);
    assert!(r.is_ok());
    assert!(matches!(s.threading, Some(ThreadingMode::ExternalPool)));
}

#[test]
fn init_threads_failure_reports_and_leaves_state() {
    let mut s = DomainState::fresh(Precision::Double);
    let r = init_threads(&mut s, ThreadingMode::ExternalPool, 0);
    assert!(matches!(r, Err(Error::InitThreadError)));
    assert!(s.threading.is_none());
    assert_eq!(s.nthreads, 1);
}

#[test]
fn nthreads_set_and_get() {
    let mut s = DomainState::fresh(Precision::Single);
    assert_eq!(planner_nthreads(&s), 1);
    plan_with_nthreads(&mut s, 8);
    assert_eq!(planner_nthreads(&s), 8);
}

#[test]
fn plan_captures_thread_count_at_creation() {
    let mut s = DomainState::fresh(Precision::Double);
    init_threads(&mut s, ThreadingMode::ExternalPool, 1).unwrap();
    plan_with_nthreads(&mut s, 4);
    let mut g = NativeCallGuard::new();
    let plan = create_plan(&mut g, &s, true).unwrap();
    plan_with_nthreads(&mut s, 1);
    assert_eq!(plan.nthreads, 4);
    assert!(matches!(plan.precision, Precision::Double));
    assert_eq!(planner_nthreads(&s), 1);
}

#[test]
fn serial_plan_needs_no_threading_init() {
    let s = DomainState::fresh(Precision::Single);
    let mut g = NativeCallGuard::new();
    let plan = create_plan(&mut g, &s, true).unwrap();
    assert_eq!(plan.nthreads, 1);
}

#[test]
fn failed_creation_reports_invalid_plan() {
    let s = DomainState::fresh(Precision::Single);
    let mut g = NativeCallGuard::new();
    let r = create_plan(&mut g, &s, false);
    assert!(matches!(r, Err(Error::InvalidPlanError)));
}

#[test]
fn creation_in_one_domain_leaves_the_other_free() {
    let mut g = NativeCallGuard::new();
    assert!(!g.is_creating(Precision::Single));
    g.acquire(Precision::Single);
    assert!(g.is_creating(Precision::Single));
    // The double-precision engine is untouched: its lock can be taken
    // while a single-precision creation is in flight.
    assert!(!g.is_creating(Precision::Double));
    g.acquire(Precision::Double);
    g.release(Precision::Single);
    assert!(g.is_creating(Precision::Double));
    g.release(Precision::Double);
    assert!(!g.is_creating(Precision::Double));
}

#[test]
fn consecutive_creations_reuse_the_guard() {
    let s = DomainState::fresh(Precision::Single);
    let mut g = NativeCallGuard::new();
    // The guard comes back released after each creation, successful or not.
    create_plan(&mut g, &s, true).unwrap();
    let _ = create_plan(&mut g, &s, false);
    create_plan(&mut g, &s, true).unwrap();
}

fn dispatch_marks_every_job_once(jobs: usize) {
    let elem = 16usize;
    let item = WorkItem { elem_size: elem, job_count: jobs };
    let offsets = dispatch_offsets(&item);
    assert_eq!(offsets.len(), jobs);
    let mut counter = vec![0u32; jobs];
    for off in offsets {
        assert_eq!(off % elem, 0);
        counter[off / elem] += 1;
    }
    assert!(counter.iter().all(|&c| c == 1));
}

#[test]
fn dispatch_covers_empty_item() {
    dispatch_marks_every_job_once(0);
}

#[test]
fn dispatch_covers_single_job() {
    dispatch_marks_every_job_once(1);
}

#[test]
fn dispatch_covers_seventeen_jobs() {
    dispatch_marks_every_job_once(17);
}

#[test]
fn dispatch_covers_large_item() {
    dispatch_marks_every_job_once(1024);
}

#[test]
fn dispatch_offsets_are_strided() {
    let item = WorkItem { elem_size: 24, job_count: 5 };
    let offsets = dispatch_offsets(&item);
    assert_eq!(offsets, vec![0, 24, 48, 72, 96]);
}

#[test]
fn array_mismatch_errors_carry_descriptors() {
    let e = Error::InputArrayMismatch {
        expect: (32, Alignment::Aligned),
        actual: (16, Alignment::Unaligned),
    };
    if let Error::InputArrayMismatch { expect, actual } = e {
        assert_eq!(expect.0, 32);
        assert_eq!(actual.0, 16);
        assert!(matches!(actual.1, Alignment::Unaligned));
    } else {
        panic!("wrong variant");
    }
    let o = Error::OutputArrayMismatch {
        expect: (8, Alignment::Aligned),
        actual: (8, Alignment::Aligned),
    };
    assert!(matches!(o, Error::OutputArrayMismatch { .. }));
}
