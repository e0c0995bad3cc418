use wiggle::memory::{read_bytes, write_bytes, HOST_MEMORY_SIZE};
use wiggle::{BufferMemory, GuestError, GuestMemory, GuestPtr, HostMemory, Region};

#[test]
fn hostmemory_is_aligned() {
    let h = HostMemory::new();
    assert_eq!(h.base().0 as usize % 4096, 0);
    let h = Box::new(h);
    assert_eq!(h.base().0 as usize % 4096, 0);
}

#[test]
fn hostmemory_starts_zeroed() {
    let h = HostMemory::new();
    assert_eq!(h.base().1, 4096);
    assert_eq!(HOST_MEMORY_SIZE, 4096);
    assert_eq!(h.load(0), 0);
    assert_eq!(h.load(4095), 0);
}

#[test]
fn hostmemory_store_then_load() {
    let mut h = HostMemory::new();
    h.store(17, 0xab);
    assert_eq!(h.load(17), 0xab);
    assert_eq!(h.load(16), 0);
    assert_eq!(h.load(18), 0);
    assert_eq!(h.base(), (4096, 4096));
}

#[test]
fn validate_accepts_in_bounds_aligned() {
    let h = HostMemory::new();
    assert_eq!(h.validate_size_align(0, 1, 0), Ok(4096));
    assert_eq!(h.validate_size_align(8, 4, 4), Ok(4096 + 8));
    assert_eq!(h.validate_size_align(4092, 4, 4), Ok(4096 + 4092));
    assert_eq!(h.validate_size_align(0, 8, 4096), Ok(4096));
    assert_eq!(h.validate_size_align(4096, 1, 0), Ok(8192));
}

#[test]
fn validate_rejects_out_of_bounds() {
    let h = HostMemory::new();
    assert_eq!(
        h.validate_size_align(4092, 4, 8),
        Err(GuestError::PtrOutOfBounds(Region::new(4092, 8)))
    );
    assert_eq!(
        h.validate_size_align(4096, 1, 1),
        Err(GuestError::PtrOutOfBounds(Region::new(4096, 1)))
    );
    assert_eq!(
        h.validate_size_align(4097, 1, 0),
        Err(GuestError::PtrOutOfBounds(Region::new(4097, 0)))
    );
}

#[test]
fn validate_rejects_misaligned() {
    let h = HostMemory::new();
    assert_eq!(
        h.validate_size_align(1, 4, 4),
        Err(GuestError::PtrNotAligned(Region::new(1, 4), 4))
    );
    assert_eq!(
        h.validate_size_align(4, 8, 8),
        Err(GuestError::PtrNotAligned(Region::new(4, 8), 8))
    );
}

#[test]
fn validate_checks_bounds_before_alignment() {
    let h = HostMemory::new();
    assert_eq!(
        h.validate_size_align(4095, 4, 4),
        Err(GuestError::PtrOutOfBounds(Region::new(4095, 4)))
    );
}

#[test]
fn validate_uses_the_host_address_for_alignment() {
    let h = HostMemory::at(4097);
    assert_eq!(
        h.validate_size_align(0, 4, 4),
        Err(GuestError::PtrNotAligned(Region::new(0, 4), 4))
    );
    assert_eq!(h.validate_size_align(3, 4, 4), Ok(4100));
}

#[test]
fn validate_reports_overflow_of_the_host_address() {
    let h = HostMemory::at(usize::MAX - 10);
    assert_eq!(h.validate_size_align(11, 1, 0), Err(GuestError::PtrOverflow));
    assert_eq!(h.validate_size_align(4, 1, 7), Err(GuestError::PtrOverflow));
    assert_eq!(h.validate_size_align(4, 1, 6), Ok(usize::MAX - 6));
}

#[test]
fn read_bytes_returns_what_write_bytes_stored() {
    let mut h = HostMemory::new();
    write_bytes(&mut h, 100, &vec![1, 2, 3, 4, 5]);
    assert_eq!(read_bytes(&h, 100, 5), vec![1, 2, 3, 4, 5]);
    assert_eq!(read_bytes(&h, 99, 7), vec![0, 1, 2, 3, 4, 5, 0]);
    assert_eq!(read_bytes(&h, 0, 0), Vec::<u8>::new());
}

#[test]
fn buffer_memory_of_any_length() {
    let mut mem = BufferMemory::new(64, vec![1, 2, 3, 4, 5, 6, 7, 8, 9]).expect("nine bytes fit");
    assert_eq!(mem.base(), (64, 9));
    assert_eq!(mem.load(8), 9);
    assert_eq!(mem.validate_size_align(4, 4, 4), Ok(68));
    assert_eq!(
        mem.validate_size_align(8, 4, 4),
        Err(GuestError::PtrOutOfBounds(Region::new(8, 4)))
    );
    mem.store(0, 0xff);
    assert_eq!(GuestPtr::<u32>::new(0).read(&mem), Ok(0x0403_02ff));
    assert_eq!(GuestPtr::<u8>::new(8).write(&mut mem, 0), Ok(()));
    assert_eq!(mem.into_bytes(), vec![0xff, 2, 3, 4, 5, 6, 7, 8, 0]);
    let empty = BufferMemory::new(0, vec![]).expect("no bytes fit");
    assert_eq!(empty.base(), (0, 0));
    assert_eq!(empty.validate_size_align(0, 1, 0), Ok(0));
}
