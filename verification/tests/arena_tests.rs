use render_cx::arena::Arena;
use render_cx::arena::ArenaError;
use render_cx::dedup::ConstFactory;
use render_cx::dedup::DedupArena;

#[test]
fn arena_allocates_fresh_indices() {
    let mut a: Arena<u64> = Arena::new();
    let i0 = a.allocate(10);
    let i1 = a.allocate(11);
    let i2 = a.allocate(12);
    assert_eq!(i0, 0);
    assert_eq!(i1, 1);
    assert_eq!(i2, 2);
    assert_eq!(a.slot_count(), 3);
    assert_eq!(*a.get(0), 10);
    assert_eq!(*a.get(1), 11);
    assert_eq!(*a.get(2), 12);
}

#[test]
fn arena_reuses_freed_index_before_growing() {
    let mut a: Arena<u64> = Arena::new();
    let i0 = a.allocate(10);
    let _i1 = a.allocate(11);
    let i2 = a.allocate(12);
    assert!(a.release(i0).is_ok());
    assert!(a.release(i2).is_ok());
    assert_eq!(a.free_count(), 2);
    // Freed indices come back (most recent first) before the arena grows.
    let r0 = a.allocate(20);
    assert_eq!(r0, i2);
    let r1 = a.allocate(21);
    assert_eq!(r1, i0);
    assert_eq!(a.slot_count(), 3);
    // Only with the free stack empty does the arena grow.
    let r2 = a.allocate(22);
    assert_eq!(r2, 3);
    assert_eq!(a.slot_count(), 4);
}

#[test]
fn arena_no_two_live_slots_share_an_index() {
    let mut a: Arena<u64> = Arena::new();
    let i0 = a.allocate(1);
    let i1 = a.allocate(2);
    assert_ne!(i0, i1);
    assert!(a.release(i0).is_ok());
    assert!(!a.live(i0));
    let i2 = a.allocate(3);
    // The reused index was not live when it was handed out again.
    assert_eq!(i2, i0);
    assert!(a.live(i1) && a.live(i2));
    assert_eq!(*a.get(i1), 2);
    assert_eq!(*a.get(i2), 3);
}

#[test]
fn arena_release_out_of_range() {
    let mut a: Arena<u64> = Arena::new();
    a.allocate(1);
    assert_eq!(a.release(5), Err(ArenaError::OutOfRange));
}

#[test]
fn arena_double_release_rejected() {
    let mut a: Arena<u64> = Arena::new();
    let i0 = a.allocate(1);
    assert_eq!(a.release(i0), Ok(()));
    assert_eq!(a.release(i0), Err(ArenaError::AlreadyFree));
}

#[test]
fn arena_sentinel_release_rejected() {
    let mut a: Arena<u64> = Arena::with_sentinel(99);
    assert_eq!(a.release(0), Err(ArenaError::Reserved));
    assert!(a.live(0));
    assert_eq!(*a.get(0), 99);
}

#[test]
fn arena_epoch_invalidates_stale_handles() {
    let mut a: Arena<u64> = Arena::new();
    let id = a.allocate(7);
    let epoch = a.epoch_of(id);
    assert!(a.check_handle(id, epoch));
    assert!(a.release(id).is_ok());
    assert!(!a.check_handle(id, epoch));
    let id2 = a.allocate(8);
    assert_eq!(id2, id);
    // The reused slot has a newer epoch; the old handle stays dead.
    assert!(!a.check_handle(id, epoch));
    assert!(a.check_handle(id2, a.epoch_of(id2)));
}

#[test]
fn intern_same_fingerprint_twice_builds_once() {
    let mut d: DedupArena<u64> = DedupArena::new();
    let mut factory = ConstFactory::new(42u64);
    let id1 = d.intern(0xfeed, &mut factory);
    let id2 = d.intern(0xfeed, &mut factory);
    assert_eq!(id1, id2);
    assert_eq!(factory.times_built(), 1);
    assert_eq!(*d.get(id1), 42);
    assert_eq!(d.slot_count(), 1);
}

#[test]
fn intern_distinct_fingerprints_build_separately() {
    let mut d: DedupArena<u64> = DedupArena::new();
    let mut fa = ConstFactory::new(1u64);
    let mut fb = ConstFactory::new(2u64);
    let ia = d.intern(100, &mut fa);
    let ib = d.intern(200, &mut fb);
    assert_ne!(ia, ib);
    assert_eq!(*d.get(ia), 1);
    assert_eq!(*d.get(ib), 2);
}

#[test]
fn intern_after_release_builds_again() {
    let mut d: DedupArena<u64> = DedupArena::new();
    let mut factory = ConstFactory::new(42u64);
    let id1 = d.intern(0xfeed, &mut factory);
    assert_eq!(factory.times_built(), 1);
    assert!(d.release(id1).is_ok());
    assert!(!d.slot_live(id1));
    // The cache entry is stale now: the next intern must miss and rebuild.
    let id2 = d.intern(0xfeed, &mut factory);
    assert_eq!(factory.times_built(), 2);
    assert!(d.slot_live(id2));
    assert_eq!(*d.get(id2), 42);
}

#[test]
fn lookup_hits_live_entries_and_evicts_dead_ones() {
    let mut d: DedupArena<u64> = DedupArena::new();
    let mut factory = ConstFactory::new(3u64);
    assert_eq!(d.lookup(500), None);
    let id = d.intern(500, &mut factory);
    assert_eq!(d.lookup(500), Some(id));
    assert!(d.release(id).is_ok());
    // The dead entry is evicted, not answered.
    assert_eq!(d.lookup(500), None);
    assert_eq!(factory.times_built(), 1);
}

#[test]
fn stale_entry_does_not_alias_reused_slot() {
    let mut d: DedupArena<u64> = DedupArena::new();
    let mut fa = ConstFactory::new(5u64);
    let mut fb = ConstFactory::new(6u64);
    let ia = d.intern(111, &mut fa);
    assert!(d.release(ia).is_ok());
    // An unrelated resource reuses the slot that backed fingerprint 111.
    let ib = d.intern(222, &mut fb);
    assert_eq!(ib, ia);
    // Looking up 111 must rebuild rather than alias the reused slot.
    let ia2 = d.intern(111, &mut fa);
    assert_eq!(fa.times_built(), 2);
    assert_ne!(ia2, ib);
    assert_eq!(*d.get(ib), 6);
    assert_eq!(*d.get(ia2), 5);
}
