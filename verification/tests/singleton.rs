use preview1_adapter::descriptor::{Descriptor, StreamType, Streams};
use preview1_adapter::import_alloc::AllocMode;
use preview1_adapter::singleton::Singleton;
use preview1_adapter::state::{AllocationState, State};

fn is_new(state: &mut State, arena_base: usize) {
    assert!(state.check_canaries());
    assert_eq!(state.descriptor_count(), 3);
    assert_eq!(
        state.get(0),
        Ok(Descriptor::Streams(Streams { input: None, output: None, type_: StreamType::Unknown }))
    );
    assert_eq!(state.get(1), Ok(Descriptor::Stderr));
    assert_eq!(state.get(2), Ok(Descriptor::Stderr));
    assert_eq!(state.current_alloc_mode(), AllocMode::Idle);
    assert_eq!(state.args_sizes_get(), (0, 0, 0));
    assert!(state.environment_request().is_some());
    assert!(state.preopens_request().is_some());
    assert!(state.get_preopen(3).is_none());
    // nothing of the arena is taken, and the arena lies where it was asked for
    assert_eq!(state.cabi_export_realloc(0, 0, 1, 1), arena_base);
    // no slot is free: what is opened gets a new slot
    assert_eq!(state.path_open_finish(0, Ok(5)).0, Ok(3));
}

#[test]
fn first_borrow_makes_a_new_state() {
    let mut place = Singleton::new(AllocationState::StackAllocated);
    let (mut state, intact) = place.acquire_mut(0x3000);
    assert!(intact);
    is_new(&mut state, 0x3000);
    place.release_mut(state);
    // the second borrow hands out the state as it came back
    let (mut state, intact) = place.acquire_mut(0x9000);
    assert!(intact);
    assert_eq!(state.descriptor_count(), 4);
    assert_eq!(state.cabi_export_realloc(0, 0, 1, 1), 0x3001);
    place.release_mut(state);
    let (state, intact) = place.acquire(0x9000);
    assert!(intact);
    assert_eq!(state.descriptor_count(), 4);

    let mut place = Singleton::new(AllocationState::StackAllocated);
    let (state, intact) = place.acquire(0x5008);
    assert!(intact);
    assert_eq!(state.descriptor_count(), 3);
    assert!(state.can_export_realloc(0, 0, 8, 54892));
    assert!(!state.can_export_realloc(0, 0, 8, 54893));
    place.release();
    let (mut state, _) = place.acquire_mut(0);
    is_new(&mut state, 0x5008);
}

#[test]
fn state_is_made_on_first_use() {
    let mut place = Singleton::new(AllocationState::StackAllocated);
    assert_eq!(place.get_allocation_state(), AllocationState::StackAllocated);
    assert!(place.can_acquire(false));
    assert!(place.can_acquire(true));
    let (state, intact) = place.acquire(4096);
    assert!(intact);
    assert_eq!(state.descriptor_count(), 3);
    assert_eq!(place.get_allocation_state(), AllocationState::StateAllocated);
    // a second reader is welcome, a writer is not
    assert!(place.can_acquire(false));
    assert!(!place.can_acquire(true));
    place.acquire(4096);
    assert!(!place.can_acquire(true));
    place.release();
    assert!(!place.can_acquire(true));
    place.release();
    assert!(place.can_acquire(true));
}

#[test]
fn a_writer_excludes_everybody() {
    let mut place = Singleton::new(AllocationState::StackAllocated);
    let (mut state, intact) = place.acquire_mut(0);
    assert!(intact);
    assert!(!place.can_acquire(false));
    assert!(!place.can_acquire(true));
    assert_eq!(state.fd_close(0).0, 0);
    place.release_mut(state);
    assert!(place.can_acquire(true));
    // the state that comes back is the one that was handed out
    let (state, _) = place.acquire(0);
    assert!(state.get_file(0).is_err());
    assert_eq!(state.fd_tell(0), Err(8));
}

#[test]
fn no_state_without_memory_for_it() {
    for allocation in [
        AllocationState::StackUnallocated,
        AllocationState::StackAllocating,
        AllocationState::StateAllocating,
    ] {
        let place = Singleton::new(allocation);
        assert!(!place.can_acquire(false));
        assert!(!place.can_acquire(true));
    }
    let mut place = Singleton::new(AllocationState::StackUnallocated);
    place.set_allocation_state(AllocationState::StackAllocating);
    assert!(!place.can_acquire(true));
    place.set_allocation_state(AllocationState::StackAllocated);
    assert!(place.can_acquire(true));
}
