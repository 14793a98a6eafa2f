use memsafe::type_state::{MemSafe as TypedMemSafe, NoAccess, ReadOnly};
use memsafe::error::ErrorKind;
use memsafe::sequence::{teardown_steps, unwind_steps, SetupStep, TeardownStep};
use memsafe::{Cell, MemSafe, Platform, Prot};

#[test]
fn test_donor_zeroed_on_construction() {
    // A 1024-byte buffer filled with the pattern i mod 256.
    let mut donor: Vec<u8> = Vec::new();
    for i in 0..1024 {
        donor.push((i % 256) as u8);
    }
    let mut cell = Cell::new_from(&mut donor).unwrap();

    // The caller-side location that held the secret is all zero, its
    // length untouched.
    assert_eq!(donor.len(), 1024);
    assert!(donor.iter().all(|b| *b == 0));

    // The protected copy is intact.
    cell.read_only().unwrap();
    for i in 0..1024 {
        assert_eq!(cell.borrow()[i], (i % 256) as u8);
    }
}

#[test]
fn test_zero_on_destroy() {
    let mut donor: Vec<u8> = Vec::new();
    for i in 0..1024 {
        donor.push((i % 256) as u8);
    }
    let cell = Cell::new_from(&mut donor).unwrap();

    let (scrubbed, spent) = cell.retire();

    // Inspected before the caller lets go of it: every backing byte is zero.
    assert_eq!(scrubbed.len(), 1024);
    assert!(scrubbed.iter().all(|b| *b == 0));

    // The spent allocation is unpinned and released.
    assert!(!spent.currently_locked());
    assert!(!spent.currently_allocated());
}

#[test]
fn test_scenario_no_access_floor() {
    let mem_safe = MemSafe::new_on([0_u8; 16], Platform::with_no_access_floor()).unwrap();
    assert_eq!(mem_safe.current_prot(), Prot::NoAccess);

    let mut writer = mem_safe.write().unwrap();
    for i in 0..16 {
        writer.get_mut()[i] = i as u8;
    }
    let mem_safe = writer.release().unwrap();
    assert_eq!(mem_safe.current_prot(), Prot::NoAccess);

    let reader = mem_safe.read().unwrap();
    for i in 0..16 {
        assert_eq!(reader.get()[i], i as u8);
    }
    let mem_safe = reader.release().unwrap();
    assert_eq!(mem_safe.current_prot(), Prot::NoAccess);

    drop(mem_safe);
}

#[test]
fn test_scenario_read_only_floor() {
    let mem_safe = MemSafe::new_on([0_u8; 16], Platform::with_read_only_floor()).unwrap();
    assert_eq!(mem_safe.current_prot(), Prot::ReadOnly);

    let mut writer = mem_safe.write().unwrap();
    for i in 0..16 {
        writer.get_mut()[i] = i as u8;
    }
    let mem_safe = writer.release().unwrap();
    assert_eq!(mem_safe.current_prot(), Prot::ReadOnly);

    let reader = mem_safe.read().unwrap();
    for i in 0..16 {
        assert_eq!(reader.get()[i], i as u8);
    }
    let mem_safe = reader.release().unwrap();
    assert_eq!(mem_safe.current_prot(), Prot::ReadOnly);

    drop(mem_safe);
}

#[test]
fn test_round_trip_integer() {
    let safe_data = MemSafe::new(42).unwrap();

    let reader = safe_data.read().unwrap();
    assert_eq!(*reader.get(), 42);
    let safe_data = reader.release().unwrap();

    let mut writer = safe_data.write().unwrap();
    *writer.get_mut() = 100;
    let safe_data = writer.release().unwrap();

    let reader = safe_data.read().unwrap();
    assert_eq!(*reader.get(), 100);
}

#[test]
fn test_round_trip_string_typed_state() {
    let handle = TypedMemSafe::<String, NoAccess>::new(String::from("alpha"))
        .unwrap()
        .read_write()
        .unwrap();
    let mut handle = handle;
    *handle.as_mut() = String::from("beta");
    let handle = handle.read_only().unwrap();
    assert_eq!(handle.as_ref().as_str(), "beta");
}

#[test]
fn test_identity_transitions_trivial() {
    let handle = TypedMemSafe::<u64, NoAccess>::new(7).unwrap();
    let handle = handle.no_access().unwrap();

    let handle = handle.read_only().unwrap();
    let handle = handle.read_only().unwrap();
    assert_eq!(*handle.as_ref(), 7);

    let handle = handle.read_write().unwrap();
    let handle = handle.read_write().unwrap();
    assert_eq!(*handle.as_ref(), 7);

    let handle = handle.no_access().unwrap();
    drop(handle);
}

#[test]
fn test_read_only_floor_construction() {
    let handle = TypedMemSafe::<u64, ReadOnly>::new(9).unwrap();
    assert_eq!(*handle.as_ref(), 9);
    let mut handle = handle.read_write().unwrap();
    *handle.as_mut() = 11;
    let handle = handle.read_only().unwrap();
    assert_eq!(*handle.as_ref(), 11);
}

#[test]
fn test_destroy_releases_allocation() {
    let cell = Cell::new([5_u8; 8]).unwrap();
    let spent = cell.destroy();
    assert!(!spent.currently_allocated());
    assert!(!spent.currently_locked());
}

#[test]
fn test_cell_transition_idempotent() {
    let mut cell = Cell::new(1_u32).unwrap();
    assert_eq!(cell.current_prot(), Prot::NoAccess);
    cell.read_only().unwrap();
    assert_eq!(cell.current_prot(), Prot::ReadOnly);
    cell.read_only().unwrap();
    assert_eq!(cell.current_prot(), Prot::ReadOnly);
    cell.read_write().unwrap();
    assert_eq!(cell.current_prot(), Prot::ReadWrite);
    cell.low_priv().unwrap();
    assert_eq!(cell.current_prot(), Prot::NoAccess);
    cell.no_access().unwrap();
    assert_eq!(cell.current_prot(), Prot::NoAccess);
}

#[test]
fn test_error_wraps_platform_code() {
    let e = memsafe::MemoryError::new(ErrorKind::Lock, 12);
    assert_eq!(e.inner(), 12);
    assert_eq!(e.kind, ErrorKind::Lock);
    let kinds = [
        ErrorKind::Allocation,
        ErrorKind::Lock,
        ErrorKind::ProtectionChange,
        ErrorKind::DumpExclusion,
        ErrorKind::Deallocation,
    ];
    for (i, k) in kinds.into_iter().enumerate() {
        let e = memsafe::MemoryError::new(k, i as i32);
        assert_eq!(e.inner(), i as i32);
        assert_eq!(e.kind, k);
    }
}

#[test]
fn test_platform_floors() {
    assert_eq!(Platform::with_no_access_floor().floor_prot(), Prot::NoAccess);
    assert_eq!(Platform::with_read_only_floor().floor_prot(), Prot::ReadOnly);
    assert_eq!(Platform::default().floor_prot(), Prot::NoAccess);
}

#[test]
fn test_teardown_plan_order() {
    let plan = teardown_steps();
    assert_eq!(
        plan,
        vec![
            TeardownStep::Elevate,
            TeardownStep::DropValue,
            TeardownStep::Zero,
            TeardownStep::Unlock,
            TeardownStep::Release,
        ]
    );
    assert_eq!(unwind_steps(SetupStep::Allocate), vec![]);
    assert_eq!(unwind_steps(SetupStep::Lock), vec![TeardownStep::Release]);
    assert_eq!(
        unwind_steps(SetupStep::ExcludeDump),
        vec![TeardownStep::Unlock, TeardownStep::Release]
    );
    assert_eq!(
        unwind_steps(SetupStep::Lower),
        vec![
            TeardownStep::DropValue,
            TeardownStep::Zero,
            TeardownStep::Unlock,
            TeardownStep::Release,
        ]
    );
}
