use render_cx::sched::RedrawScheduler;
use render_cx::shader::ShaderTracker;
use render_cx::signal::SignalBus;

#[test]
fn marks_during_cycle_go_to_next_cycle() {
    let mut s = RedrawScheduler::new();
    // Clear the initial redraw-all state with an empty first cycle.
    s.begin_cycle(&vec![]);
    s.end_cycle();
    s.mark_dirty(3);
    s.mark_dirty(7);
    let live: Vec<usize> = vec![3, 7, 9];
    s.begin_cycle(&live);
    assert_eq!(s.current_views().clone(), vec![3, 7]);
    // A draw handler marks view 9 during the traversal of cycle N.
    s.mark_dirty(9);
    // Cycle N's traversal set is unchanged.
    assert_eq!(s.current_views().clone(), vec![3, 7]);
    s.end_cycle();
    // Cycle N+1 picks the deferred mark up.
    s.begin_cycle(&live);
    assert_eq!(s.current_views().clone(), vec![9]);
}

#[test]
fn mark_dirty_twice_is_harmless() {
    let mut s = RedrawScheduler::new();
    s.begin_cycle(&vec![]);
    s.end_cycle();
    s.mark_dirty(4);
    s.mark_dirty(4);
    s.begin_cycle(&vec![4]);
    assert_eq!(s.current_views().clone(), vec![4]);
}

#[test]
fn redraw_all_forces_every_live_view_once_then_clears() {
    let mut s = RedrawScheduler::new();
    s.begin_cycle(&vec![]);
    s.end_cycle();
    s.set_redraw_all();
    let live: Vec<usize> = vec![0, 2, 5];
    s.begin_cycle(&live);
    // Every live view appears exactly once.
    assert_eq!(s.current_views().clone(), vec![0, 2, 5]);
    s.end_cycle();
    // The flag cleared itself: the next cycle forces nothing.
    s.begin_cycle(&live);
    assert_eq!(s.current_views().clone(), Vec::<usize>::new());
}

#[test]
fn redraw_generation_advances_per_cycle() {
    let mut s = RedrawScheduler::new();
    let g1 = s.begin_cycle(&vec![]);
    s.end_cycle();
    let g2 = s.begin_cycle(&vec![]);
    assert_eq!(g1, 2);
    assert_eq!(g2, 3);
}

#[test]
fn signal_delivery_is_fifo_per_signal() {
    let mut bus = SignalBus::new();
    let sig: u64 = 77;
    bus.raise(sig, 5);
    bus.raise(sig, 2);
    bus.raise(sig, 9);
    assert_eq!(bus.drain(sig), vec![5, 2, 9]);
    // Draining cleared the list.
    assert_eq!(bus.drain(sig), Vec::<u64>::new());
}

#[test]
fn signals_do_not_interfere() {
    let mut bus = SignalBus::new();
    bus.raise(1, 10);
    bus.raise(2, 20);
    bus.raise(1, 11);
    assert_eq!(bus.drain(2), vec![20]);
    assert_eq!(bus.drain(1), vec![10, 11]);
}

#[test]
fn shader_pending_batch_is_sorted_and_deduplicated() {
    let mut t = ShaderTracker::new();
    t.mark_for_compile(9);
    t.mark_for_compile(2);
    t.mark_for_compile(9);
    t.mark_for_compile(5);
    assert_eq!(t.drain_pending(), vec![2, 5, 9]);
    assert_eq!(t.drain_pending(), Vec::<u64>::new());
}

#[test]
fn shader_failed_compile_is_retried_after_remark() {
    let mut t = ShaderTracker::new();
    t.mark_for_compile(8);
    t.mark_for_compile(3);
    let batch = t.drain_pending();
    assert_eq!(batch, vec![3, 8]);
    // The compiler succeeded on 3 and rejected 8: the caller records the
    // one and re-marks the other instead of dropping it.
    t.record_compiled(3, 12);
    t.mark_for_compile(8);
    assert_eq!(t.resolve(3), Some(12));
    assert_eq!(t.resolve(8), None);
    assert_eq!(t.drain_pending(), vec![8]);
}
