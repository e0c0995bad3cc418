use wiggle::{
    GuestBorrows, GuestError, GuestMemory, GuestPtr, GuestString, HostMemory, RawSlice, Region,
};

#[test]
fn ptr_new_keeps_offset() {
    let p: GuestPtr<u32> = GuestPtr::new(12);
    assert_eq!(p.offset(), 12);
    let s: GuestPtr<[u16]> = GuestPtr::new((4, 9));
    assert_eq!(s.offset(), (4, 9));
    assert_eq!(s.offset_base(), 4);
    assert_eq!(s.len(), 9);
    let t: GuestPtr<str> = GuestPtr::new((6, 3));
    assert_eq!(t.offset(), (6, 3));
    assert_eq!(t.offset_base(), 6);
    assert_eq!(t.len(), 3);
}

#[test]
fn ptr_cast_keeps_offset() {
    let p: GuestPtr<u32> = GuestPtr::new(12);
    let q: GuestPtr<u8> = p.cast();
    assert_eq!(q.offset(), 12);
}

#[test]
fn ptr_is_copy() {
    let p: GuestPtr<u32> = GuestPtr::new(12);
    let q = p;
    let r = p.clone();
    assert_eq!(p.offset(), q.offset());
    assert_eq!(p.offset(), r.offset());
}

#[test]
fn ptr_add_moves_by_whole_elements() {
    let p: GuestPtr<u32> = GuestPtr::new(8);
    assert_eq!(p.add(0).map(|q| q.offset()), Ok(8));
    assert_eq!(p.add(3).map(|q| q.offset()), Ok(20));
    let b: GuestPtr<u8> = GuestPtr::new(8);
    assert_eq!(b.add(3).map(|q| q.offset()), Ok(11));
    let w: GuestPtr<u64> = GuestPtr::new(8);
    assert_eq!(w.add(3).map(|q| q.offset()), Ok(32));
}

#[test]
fn ptr_add_overflow() {
    let p: GuestPtr<u32> = GuestPtr::new(8);
    // the distance in bytes leaves u32
    assert_eq!(p.add(1 << 30).map(|q| q.offset()), Err(GuestError::PtrOverflow));
    // the distance fits, the new offset does not
    assert_eq!(p.add((1 << 30) - 1).map(|q| q.offset()), Err(GuestError::PtrOverflow));
    assert_eq!(p.add((1 << 30) - 2).map(|q| q.offset()), Err(GuestError::PtrOverflow));
    assert_eq!(p.add((1 << 30) - 3).map(|q| q.offset()), Ok(u32::MAX - 3));
    assert_eq!(p.add((1 << 30) - 4).map(|q| q.offset()), Ok(u32::MAX - 7));
}

#[test]
fn ptr_at_max_offset_overflows_on_every_step() {
    let p: GuestPtr<u8> = GuestPtr::new(u32::MAX);
    assert_eq!(p.add(0).map(|q| q.offset()), Ok(u32::MAX));
    assert_eq!(p.add(1).map(|q| q.offset()), Err(GuestError::PtrOverflow));
    let p: GuestPtr<u32> = GuestPtr::new(u32::MAX);
    assert_eq!(p.add(1).map(|q| q.offset()), Err(GuestError::PtrOverflow));
    assert_eq!(p.add(u32::MAX).map(|q| q.offset()), Err(GuestError::PtrOverflow));
    let p: GuestPtr<u64> = GuestPtr::new(u32::MAX);
    assert_eq!(p.add(7).map(|q| q.offset()), Err(GuestError::PtrOverflow));
}

#[test]
fn ptr_at_max_offset_cannot_be_read_or_written() {
    let mut mem = HostMemory::at(usize::MAX - 4096);
    let p: GuestPtr<u32> = GuestPtr::new(u32::MAX);
    assert_eq!(p.read(&mem), Err(GuestError::PtrOverflow));
    assert_eq!(p.write(&mut mem, 1), Err(GuestError::PtrOverflow));
    let b: GuestPtr<u8> = GuestPtr::new(u32::MAX);
    assert_eq!(b.read(&mem), Err(GuestError::PtrOverflow));
    let mut bc = GuestBorrows::new();
    let s: GuestPtr<[u8]> = GuestPtr::new((u32::MAX, 1));
    assert_eq!(s.as_raw(&mem, &mut bc), Err(GuestError::PtrOverflow));
    let t: GuestPtr<str> = GuestPtr::new((u32::MAX, 1));
    assert_eq!(t.as_raw(&mem, &mut bc), Err(GuestError::PtrOverflow));
}

#[test]
fn ptr_as_array_and_back() {
    let p: GuestPtr<u16> = GuestPtr::new(6);
    let a = p.as_array(5);
    assert_eq!(a.offset(), (6, 5));
    assert_eq!(a.as_ptr().offset(), 6);
}

#[test]
fn slice_iter_yields_each_element() {
    let a: GuestPtr<[u32]> = GuestPtr::new((8, 3));
    let offsets: Vec<Result<u32, GuestError>> =
        a.iter().into_iter().map(|r| r.map(|p| p.offset())).collect();
    assert_eq!(offsets, vec![Ok(8), Ok(12), Ok(16)]);
    let empty: GuestPtr<[u32]> = GuestPtr::new((8, 0));
    assert_eq!(empty.iter().len(), 0);
}

#[test]
fn slice_iter_reports_overflow_per_element() {
    let a: GuestPtr<[u32]> = GuestPtr::new((u32::MAX - 7, 3));
    let offsets: Vec<Result<u32, GuestError>> =
        a.iter().into_iter().map(|r| r.map(|p| p.offset())).collect();
    assert_eq!(
        offsets,
        vec![Ok(u32::MAX - 7), Ok(u32::MAX - 3), Err(GuestError::PtrOverflow)]
    );
}

#[test]
fn slice_as_raw_returns_host_address_and_records_region() {
    let mem = HostMemory::new();
    let mut bc = GuestBorrows::new();
    let a: GuestPtr<[u32]> = GuestPtr::new((8, 3));
    assert_eq!(a.as_raw(&mem, &mut bc), Ok(RawSlice { addr: 4096 + 8, len: 3 }));
    assert!(bc.is_borrowed(Region::new(8, 1)));
    assert!(bc.is_borrowed(Region::new(19, 1)));
    assert!(!bc.is_borrowed(Region::new(20, 1)));
    // a second borrow of an overlapping slice is refused
    let b: GuestPtr<[u8]> = GuestPtr::new((19, 4));
    assert_eq!(
        b.as_raw(&mem, &mut bc),
        Err(GuestError::PtrBorrowed(Region::new(19, 4)))
    );
    let c: GuestPtr<[u8]> = GuestPtr::new((20, 4));
    assert_eq!(c.as_raw(&mem, &mut bc), Ok(RawSlice { addr: 4096 + 20, len: 4 }));
}

#[test]
fn slice_as_raw_zero_length() {
    let mem = HostMemory::new();
    let mut bc = GuestBorrows::new();
    assert_eq!(bc.borrow(Region::new(0, 64)), Ok(()));
    let a: GuestPtr<[u32]> = GuestPtr::new((8, 0));
    assert_eq!(a.as_raw(&mem, &mut bc), Ok(RawSlice { addr: 4096 + 8, len: 0 }));
    // and again: an empty region overlaps nothing, itself included
    assert_eq!(a.as_raw(&mem, &mut bc), Ok(RawSlice { addr: 4096 + 8, len: 0 }));
    assert!(!bc.is_borrowed(Region::new(64, 8)));
}

#[test]
fn slice_as_raw_checks() {
    let mem = HostMemory::new();
    let mut bc = GuestBorrows::new();
    let too_many: GuestPtr<[u32]> = GuestPtr::new((0, 1 << 30));
    assert_eq!(too_many.as_raw(&mem, &mut bc), Err(GuestError::PtrOverflow));
    let past_end: GuestPtr<[u32]> = GuestPtr::new((4092, 2));
    assert_eq!(
        past_end.as_raw(&mem, &mut bc),
        Err(GuestError::PtrOutOfBounds(Region::new(4092, 8)))
    );
    let misaligned: GuestPtr<[u32]> = GuestPtr::new((2, 2));
    assert_eq!(
        misaligned.as_raw(&mem, &mut bc),
        Err(GuestError::PtrNotAligned(Region::new(2, 8), 4))
    );
    // none of the failed attempts left a region behind
    assert!(!bc.is_borrowed(Region::new(0, 4096)));
}

#[test]
fn str_as_bytes_keeps_span() {
    let t: GuestPtr<str> = GuestPtr::new((6, 3));
    assert_eq!(t.as_bytes().offset(), (6, 3));
}

fn store(mem: &mut HostMemory, at: u32, bytes: &[u8]) {
    for (i, b) in bytes.iter().enumerate() {
        mem.store(at + i as u32, *b);
    }
}

#[test]
fn str_as_raw_accepts_utf8() {
    let mut mem = HostMemory::new();
    let word = "γειά";
    store(&mut mem, 100, word.as_bytes());
    let n = word.len() as u32;
    assert_eq!(n, 8);
    let mut bc = GuestBorrows::new();
    let t: GuestPtr<str> = GuestPtr::new((100, n));
    assert_eq!(t.as_raw(&mem, &mut bc), Ok(RawSlice { addr: 4096 + 100, len: n }));
    assert!(bc.is_borrowed(Region::new(107, 1)));
    assert!(!bc.is_borrowed(Region::new(108, 1)));
    assert_eq!(
        t.as_raw(&mem, &mut bc),
        Err(GuestError::PtrBorrowed(Region::new(100, n)))
    );
}

#[test]
fn str_as_raw_rejects_invalid_utf8() {
    let mut mem = HostMemory::new();
    let word = "γειά";
    store(&mut mem, 100, word.as_bytes());
    mem.store(103, 0xff);
    let mut bc = GuestBorrows::new();
    let t: GuestPtr<str> = GuestPtr::new((100, 8));
    assert_eq!(t.as_raw(&mem, &mut bc), Err(GuestError::InvalidUtf8));
    // the region was recorded before the bytes were looked at
    assert!(bc.is_borrowed(Region::new(100, 8)));
}

#[test]
fn str_as_raw_rejects_truncated_and_overlong_sequences() {
    let mut mem = HostMemory::new();
    let mut bc = GuestBorrows::new();
    // the first byte of a two-byte sequence alone
    store(&mut mem, 0, &[0xce]);
    let t: GuestPtr<str> = GuestPtr::new((0, 1));
    assert_eq!(t.as_raw(&mem, &mut bc), Err(GuestError::InvalidUtf8));
    // an overlong encoding of '/'
    store(&mut mem, 8, &[0xc0, 0xaf]);
    let t: GuestPtr<str> = GuestPtr::new((8, 2));
    assert_eq!(t.as_raw(&mem, &mut bc), Err(GuestError::InvalidUtf8));
    // a surrogate
    store(&mut mem, 16, &[0xed, 0xa0, 0x80]);
    let t: GuestPtr<str> = GuestPtr::new((16, 3));
    assert_eq!(t.as_raw(&mem, &mut bc), Err(GuestError::InvalidUtf8));
}

#[test]
fn str_as_raw_at_the_end_of_the_code_space() {
    let mut mem = HostMemory::new();
    let mut bc = GuestBorrows::new();
    // the last scalar value
    store(&mut mem, 0, &[0xf4, 0x8f, 0xbf, 0xbf]);
    let t: GuestPtr<str> = GuestPtr::new((0, 4));
    assert_eq!(t.as_raw(&mem, &mut bc), Ok(RawSlice { addr: 4096, len: 4 }));
    // one past it
    store(&mut mem, 8, &[0xf4, 0x90, 0x80, 0x80]);
    let t: GuestPtr<str> = GuestPtr::new((8, 4));
    assert_eq!(t.as_raw(&mem, &mut bc), Err(GuestError::InvalidUtf8));
    // a continuation byte on its own
    store(&mut mem, 16, &[0x80]);
    let t: GuestPtr<str> = GuestPtr::new((16, 1));
    assert_eq!(t.as_raw(&mem, &mut bc), Err(GuestError::InvalidUtf8));
}

#[test]
fn str_as_raw_empty() {
    let mem = HostMemory::new();
    let mut bc = GuestBorrows::new();
    let t: GuestPtr<str> = GuestPtr::new((4096, 0));
    assert_eq!(t.as_raw(&mem, &mut bc), Ok(RawSlice { addr: 8192, len: 0 }));
}

#[test]
fn str_as_raw_out_of_bounds() {
    let mem = HostMemory::new();
    let mut bc = GuestBorrows::new();
    let t: GuestPtr<str> = GuestPtr::new((4090, 10));
    assert_eq!(
        t.as_raw(&mem, &mut bc),
        Err(GuestError::PtrOutOfBounds(Region::new(4090, 10)))
    );
    assert!(!bc.is_borrowed(Region::new(4090, 10)));
}

#[test]
fn guest_string_to_string() {
    let mut mem = HostMemory::new();
    let word = "γειά σου";
    store(&mut mem, 40, word.as_bytes());
    let s = GuestString::new(GuestPtr::new((40, word.len() as u32)));
    assert_eq!(s.to_string(&mem), Ok(word.to_string()));
    let r = s.as_ref(&mem).expect("in bounds");
    assert_eq!(r.as_str(), Ok(word));
}

#[test]
fn guest_string_invalid_utf8() {
    let mut mem = HostMemory::new();
    store(&mut mem, 40, &[b'a', 0x80, b'b']);
    let s = GuestString::new(GuestPtr::new((40, 3)));
    assert_eq!(s.to_string(&mem), Err(GuestError::InvalidUtf8));
    let r = s.as_ref(&mem).expect("in bounds");
    assert_eq!(r.as_str(), Err(GuestError::InvalidUtf8));
}

#[test]
fn guest_string_out_of_bounds() {
    let mem = HostMemory::new();
    let s = GuestString::new(GuestPtr::new((4095, 2)));
    assert_eq!(
        s.to_string(&mem),
        Err(GuestError::PtrOutOfBounds(Region::new(4095, 2)))
    );
    assert!(s.as_ref(&mem).is_err());
}
