use posix_shm::{OpenFlags, PosixShm, ShmError, SysCall};

const MAP_FAILED: usize = usize::MAX;

fn created(name: &str, fd: i32) -> PosixShm {
    PosixShm::create(name, fd, 0).unwrap()
}

#[test]
fn open_mode_call_hands_over_name_flags_and_permissions() {
    let call = PosixShm::open_mode_call("/seg", libc::O_RDWR | libc::O_CREAT, 0o640).unwrap();
    assert_eq!(
        call,
        SysCall::ShmOpen { name: "/seg".to_string(), oflag: 66, mode: 0o640 }
    );
}

#[test]
fn open_mode_keeps_what_it_was_given() {
    let seg = PosixShm::open_mode("/seg", 2, 0o640, 1, 7, 0).unwrap();
    assert_eq!(seg.name(), "/seg");
    assert_eq!(seg.fd(), 7);
    assert_eq!(seg.flags(), OpenFlags { mode: 2, perm: 0o640, prot: 1 });
    assert!(!seg.has_map());
}

#[test]
fn open_mode_accepts_descriptor_zero() {
    let seg = PosixShm::open_mode("/seg", 2, 0o600, 3, 0, 0).unwrap();
    assert_eq!(seg.fd(), 0);
}

#[test]
fn name_with_zero_byte_is_refused_before_any_call() {
    assert!(!posix_shm::segment::name_is_representable("/a\0b"));
    assert!(posix_shm::segment::name_is_representable("/ab"));
    assert!(posix_shm::segment::name_is_representable(""));
    assert_eq!(
        PosixShm::open_mode_call("/a\0b", 2, 0o600),
        Err(ShmError::OpenFailed(libc::EINVAL))
    );
    let r = PosixShm::open_mode("/a\0b", 2, 0o600, 3, 5, 0);
    assert_eq!(r.err(), Some(ShmError::OpenFailed(22)));
    let r = PosixShm::create("\0", 5, 0);
    assert_eq!(r.err(), Some(ShmError::OpenFailed(22)));
}

#[test]
fn opening_a_missing_name_fails_and_succeeds_after_create() {
    let missing = PosixShm::open("/missing", -1, libc::ENOENT);
    assert_eq!(missing.err(), Some(ShmError::OpenFailed(libc::ENOENT)));
    let made = PosixShm::create("/missing", 3, 0);
    assert!(made.is_ok());
    let again = PosixShm::open("/missing", 4, 0).unwrap();
    assert_eq!(again.fd(), 4);
    assert_eq!(again.name(), "/missing");
}

#[test]
fn every_constructor_reports_a_failed_open() {
    let e = Some(ShmError::OpenFailed(13));
    assert_eq!(PosixShm::open_mode("/s", 2, 0o600, 3, -1, 13).err(), e);
    assert_eq!(PosixShm::open("/s", -1, 13).err(), e);
    assert_eq!(PosixShm::open_read_only("/s", -1, 13).err(), e);
    assert_eq!(PosixShm::create("/s", -1, 13).err(), e);
    assert_eq!(PosixShm::create_shared_group("/s", -1, 13).err(), e);
    assert_eq!(PosixShm::create_shared_everyone("/s", -1, 13).err(), e);
}

#[test]
fn presets_carry_their_permission_bits() {
    assert_eq!(created("/p", 3).flags().perm, 0o600);
    assert_eq!(PosixShm::create_shared_group("/p", 3, 0).unwrap().flags().perm, 0o660);
    assert_eq!(PosixShm::create_shared_everyone("/p", 3, 0).unwrap().flags().perm, 0o666);
    assert_eq!(PosixShm::open("/p", 3, 0).unwrap().flags().perm, 0o600);
    assert_eq!(PosixShm::open_read_only("/p", 3, 0).unwrap().flags().perm, 0o600);
}

#[test]
fn presets_carry_their_modes_and_protection() {
    let rw = libc::PROT_READ | libc::PROT_WRITE;
    assert_eq!(
        PosixShm::open("/p", 3, 0).unwrap().flags(),
        OpenFlags { mode: libc::O_RDWR, perm: 0o600, prot: rw }
    );
    assert_eq!(
        PosixShm::open_read_only("/p", 3, 0).unwrap().flags(),
        OpenFlags { mode: libc::O_RDONLY, perm: 0o600, prot: libc::PROT_READ }
    );
    assert_eq!(
        created("/p", 3).flags(),
        OpenFlags { mode: libc::O_RDWR | libc::O_CREAT, perm: 0o600, prot: rw }
    );
    assert_eq!(
        PosixShm::create_shared_group("/p", 3, 0).unwrap().flags(),
        OpenFlags { mode: 66, perm: 0o660, prot: 3 }
    );
    assert_eq!(
        PosixShm::create_shared_everyone("/p", 3, 0).unwrap().flags(),
        OpenFlags { mode: 66, perm: 0o666, prot: 3 }
    );
}

#[test]
fn preset_flags_match_the_constructors() {
    assert_eq!(OpenFlags::open(), OpenFlags { mode: 2, perm: 0o600, prot: 3 });
    assert_eq!(OpenFlags::open_read_only(), OpenFlags { mode: 0, perm: 0o600, prot: 1 });
    assert_eq!(OpenFlags::create(), OpenFlags { mode: 66, perm: 0o600, prot: 3 });
    assert_eq!(OpenFlags::create_shared_group(), OpenFlags { mode: 66, perm: 0o660, prot: 3 });
    assert_eq!(OpenFlags::create_shared_everyone(), OpenFlags { mode: 66, perm: 0o666, prot: 3 });
    assert_eq!(OpenFlags::create().mode, libc::O_RDWR | libc::O_CREAT);
}

#[test]
fn truncate_call_names_descriptor_and_size() {
    let seg = created("/t", 9);
    assert_eq!(seg.truncate_call(4096), SysCall::Ftruncate { fd: 9, size: 4096 });
    assert_eq!(seg.truncate_call(0), SysCall::Ftruncate { fd: 9, size: 0 });
    assert_eq!(seg.truncate_call(-1), SysCall::Ftruncate { fd: 9, size: -1 });
}

#[test]
fn truncate_reports_a_rejected_resize() {
    let mut seg = created("/t", 9);
    assert_eq!(seg.truncate(0, 0), Ok(()));
    assert_eq!(seg.truncate(-1, libc::EINVAL), Err(ShmError::ResizeFailed(22)));
    assert_eq!(seg.fd(), 9);
}

#[test]
fn map_call_is_shared_and_uses_the_segments_protection() {
    let seg = PosixShm::open_read_only("/m", 4, 0).unwrap();
    assert_eq!(
        seg.map_call(100, 4096),
        SysCall::Mmap {
            length: 100,
            prot: libc::PROT_READ,
            flags: libc::MAP_SHARED,
            fd: 4,
            offset: 4096
        }
    );
    let seg = created("/m", 5);
    assert_eq!(
        seg.map_call(0, 0),
        SysCall::Mmap { length: 0, prot: 3, flags: 1, fd: 5, offset: 0 }
    );
}

#[test]
fn map_installs_the_window() {
    let mut seg = created("/m", 5);
    let prev = seg.map(100, 16, 0x7000, 0).unwrap();
    assert!(prev.is_none());
    assert!(seg.has_map());
    let m = seg.get_map();
    assert_eq!(m.size(), 100);
    assert_eq!(m.offset(), 16);
    assert_eq!(m.addr(), 0x7000);
}

#[test]
fn map_failure_keeps_the_mapping_held() {
    let mut seg = created("/m", 5);
    seg.map(100, 0, 0x7000, 0).unwrap();
    let r = seg.map(200, 0, MAP_FAILED, libc::ENOMEM);
    assert_eq!(r.err(), Some(ShmError::MapFailed(libc::ENOMEM)));
    assert_eq!(seg.get_map().size(), 100);
    assert_eq!(seg.get_map().addr(), 0x7000);
    let mut bare = created("/m", 6);
    assert_eq!(bare.map(1, 0, MAP_FAILED, 12).err(), Some(ShmError::MapFailed(12)));
    assert!(!bare.has_map());
}

#[test]
fn a_new_mapping_displaces_the_one_held() {
    let mut seg = created("/m", 5);
    seg.map(100, 0, 0x7000, 0).unwrap();
    let prev = seg.map(200, 4096, 0x9000, 0).unwrap().unwrap();
    assert_eq!((prev.addr(), prev.size(), prev.offset()), (0x7000, 100, 0));
    assert_eq!(prev.unmap_call(), SysCall::Munmap { addr: 0x7000, length: 100 });
    assert_eq!(prev.release(0, 0), Ok(()));
    let m = seg.get_map();
    assert_eq!((m.addr(), m.size(), m.offset()), (0x9000, 200, 4096));
}

#[test]
fn remapping_after_release_gives_the_same_window() {
    let mut seg = created("/r", 5);
    seg.map(64, 0, 0x7000, 0).unwrap();
    let first = seg.take_map().unwrap();
    assert!(!seg.has_map());
    assert_eq!(first.release(0, 0), Ok(()));
    assert_eq!(seg.map_call(64, 0), SysCall::Mmap { length: 64, prot: 3, flags: 1, fd: 5, offset: 0 });
    assert!(seg.map(64, 0, 0x8000, 0).unwrap().is_none());
    assert_eq!(seg.get_map().size(), 64);
    assert_eq!(seg.get_map().offset(), 0);
}

#[test]
fn take_map_on_a_bare_segment_gives_nothing() {
    let mut seg = created("/r", 5);
    assert!(seg.take_map().is_none());
    assert!(!seg.has_map());
}

#[test]
fn get_mut_map_hands_out_the_mapping_held() {
    let mut seg = created("/g", 5);
    seg.map(32, 8, 0x7000, 0).unwrap();
    let m = seg.get_mut_map();
    assert_eq!((m.addr(), m.size(), m.offset()), (0x7000, 32, 8));
    assert!(seg.has_map());
}

#[test]
fn stat_call_names_the_descriptor() {
    assert_eq!(created("/s", 11).stat_call(), SysCall::Fstat { fd: 11 });
}

#[test]
fn map_all_maps_exactly_the_size_reported() {
    let mut writer = created("/all", 3);
    assert_eq!(writer.truncate_call(12345), SysCall::Ftruncate { fd: 3, size: 12345 });
    assert_eq!(writer.truncate(0, 0), Ok(()));
    let mut fresh = PosixShm::open("/all", 4, 0).unwrap();
    assert_eq!(
        fresh.map_all_call(0, 12345, 0),
        Ok(SysCall::Mmap { length: 12345, prot: 3, flags: 1, fd: 4, offset: 0 })
    );
    assert!(fresh.map_all(0, 12345, 0, 0x7000, 0).unwrap().is_none());
    assert_eq!(fresh.get_map().size(), 12345);
    assert_eq!(fresh.get_map().offset(), 0);
    assert_eq!(fresh.get_map().addr(), 0x7000);
}

#[test]
fn map_all_of_an_empty_object_has_no_bytes() {
    let mut seg = created("/all", 3);
    seg.map_all(0, 0, 0, 0x7000, 0).unwrap();
    assert_eq!(seg.get_map().size(), 0);
}

#[test]
fn map_all_reports_a_failed_size_query() {
    let mut seg = created("/all", 3);
    assert_eq!(seg.map_all_call(-1, 0, libc::EBADF), Err(ShmError::StatFailed(libc::EBADF)));
    let r = seg.map_all(-1, 77, libc::EBADF, 0x7000, 0);
    assert_eq!(r.err(), Some(ShmError::StatFailed(libc::EBADF)));
    assert!(!seg.has_map());
}

#[test]
fn map_all_reports_a_failed_mapping() {
    let mut seg = created("/all", 3);
    let r = seg.map_all(0, 77, 0, MAP_FAILED, libc::EACCES);
    assert_eq!(r.err(), Some(ShmError::MapFailed(libc::EACCES)));
    assert!(!seg.has_map());
}

#[test]
fn map_all_refuses_a_size_that_is_no_length() {
    let mut seg = created("/all", 3);
    assert_eq!(seg.map_all_call(0, -5, 0), Err(ShmError::MapFailed(22)));
    let r = seg.map_all(0, -5, 0, 0x7000, 0);
    assert_eq!(r.err(), Some(ShmError::MapFailed(22)));
    assert!(!seg.has_map());
}

#[test]
fn resize_leaves_the_window_held_as_it_was() {
    let mut seg = created("/h", 3);
    assert_eq!(seg.truncate(0, 0), Ok(()));
    seg.map_all(0, 100, 0, 0x7000, 0).unwrap();
    assert_eq!(seg.truncate_call(200), SysCall::Ftruncate { fd: 3, size: 200 });
    assert_eq!(seg.truncate(0, 0), Ok(()));
    assert_eq!(seg.get_map().size(), 100);
    assert_eq!(seg.get_map().element_offset(1, 150), None);
    let old = seg.map_all(0, 200, 0, 0x9000, 0).unwrap().unwrap();
    assert_eq!(old.size(), 100);
    assert_eq!(seg.get_map().size(), 200);
    assert_eq!(seg.get_map().element_offset(1, 150), Some(150));
}

#[test]
fn unlink_call_names_the_segment() {
    assert_eq!(
        created("/u", 3).unlink_call(),
        SysCall::ShmUnlink { name: "/u".to_string() }
    );
}

#[test]
fn second_unlink_fails_and_the_descriptor_stays() {
    let mut seg = created("/u", 3);
    seg.map(10, 0, 0x7000, 0).unwrap();
    assert_eq!(seg.unlink(0, 0), Ok(()));
    assert_eq!(seg.unlink(-1, libc::ENOENT), Err(ShmError::UnlinkFailed(libc::ENOENT)));
    assert_eq!(seg.fd(), 3);
    assert_eq!(seg.get_map().size(), 10);
    assert_eq!(seg.truncate_call(5), SysCall::Ftruncate { fd: 3, size: 5 });
    assert_eq!(seg.close_calls().len(), 2);
}

#[test]
fn two_handles_of_one_name_map_the_same_object_shared() {
    let mut a = created("/iso", 3);
    let mut b = PosixShm::open("/iso", 4, 0).unwrap();
    let ca = a.map_call(64, 0);
    let cb = b.map_call(64, 0);
    assert_eq!(ca, SysCall::Mmap { length: 64, prot: 3, flags: libc::MAP_SHARED, fd: 3, offset: 0 });
    assert_eq!(cb, SysCall::Mmap { length: 64, prot: 3, flags: libc::MAP_SHARED, fd: 4, offset: 0 });
    a.map(64, 0, 0x7000, 0).unwrap();
    b.map(64, 0, 0x9000, 0).unwrap();
    assert_eq!(a.get_map().size(), b.get_map().size());
    assert_ne!(a.get_map().addr(), b.get_map().addr());
}

#[test]
fn duplicate_opens_the_same_name_again() {
    let seg = PosixShm::open_mode("/d", 2, 0o660, 1, 3, 0).unwrap();
    assert_eq!(
        seg.duplicate_call(),
        SysCall::ShmOpen { name: "/d".to_string(), oflag: 2, mode: 0o660 }
    );
    let dup = seg.duplicate(8, 0).unwrap();
    assert_eq!(dup.name(), "/d");
    assert_eq!(dup.fd(), 8);
    assert_eq!(dup.flags(), seg.flags());
    assert!(!dup.has_map());
    assert_eq!(seg.duplicate(-1, 24).err(), Some(ShmError::OpenFailed(24)));
}

#[test]
fn duplicate_maps_the_window_of_the_first_handle() {
    let mut seg = created("/d", 3);
    seg.map(100, 4096, 0x7000, 0).unwrap();
    let mut dup = seg.duplicate(8, 0).unwrap();
    assert!(!dup.has_map());
    assert_eq!(
        seg.duplicate_map_call(&dup),
        Some(SysCall::Mmap { length: 100, prot: 3, flags: 1, fd: 8, offset: 4096 })
    );
    assert!(seg.duplicate_map(&mut dup, 0x9000, 0).unwrap().is_none());
    let m = dup.get_map();
    assert_eq!((m.addr(), m.size(), m.offset()), (0x9000, 100, 4096));
    assert_eq!(seg.get_map().addr(), 0x7000);
}

#[test]
fn duplicate_of_a_bare_segment_maps_nothing() {
    let seg = created("/d", 3);
    let mut dup = seg.duplicate(8, 0).unwrap();
    assert_eq!(seg.duplicate_map_call(&dup), None);
    assert!(seg.duplicate_map(&mut dup, 0x9000, 0).unwrap().is_none());
    assert!(!dup.has_map());
}

#[test]
fn duplicate_reports_a_failed_mapping() {
    let mut seg = created("/d", 3);
    seg.map(100, 0, 0x7000, 0).unwrap();
    let mut dup = seg.duplicate(8, 0).unwrap();
    let r = seg.duplicate_map(&mut dup, MAP_FAILED, 12);
    assert_eq!(r.err(), Some(ShmError::MapFailed(12)));
    assert!(!dup.has_map());
}

#[test]
fn closing_releases_the_mapping_before_the_descriptor() {
    let mut seg = created("/c", 3);
    assert_eq!(seg.close_calls(), vec![SysCall::Close { fd: 3 }]);
    seg.map(100, 0, 0x7000, 0).unwrap();
    assert_eq!(
        seg.close_calls(),
        vec![SysCall::Munmap { addr: 0x7000, length: 100 }, SysCall::Close { fd: 3 }]
    );
    assert_eq!(seg.close(0, 0, 0, 0), Ok(()));
}

#[test]
fn closing_reports_the_first_failure() {
    let mut seg = created("/c", 3);
    seg.map(100, 0, 0x7000, 0).unwrap();
    assert_eq!(seg.close(-1, 22, -1, 9), Err(ShmError::UnmapFailed(22)));
    let mut seg = created("/c", 3);
    seg.map(100, 0, 0x7000, 0).unwrap();
    assert_eq!(seg.close(0, 0, -1, 9), Err(ShmError::CloseFailed(9)));
    let bare = created("/c", 3);
    assert_eq!(bare.close(-1, 22, 0, 0), Ok(()));
    let bare = created("/c", 3);
    assert_eq!(bare.close(-1, 22, -1, 9), Err(ShmError::CloseFailed(9)));
}

#[test]
fn protection_matches_mode_in_every_preset() {
    assert!(OpenFlags::open().matched());
    assert!(OpenFlags::open_read_only().matched());
    assert!(OpenFlags::create().matched());
    assert!(OpenFlags::create_shared_group().matched());
    assert!(OpenFlags::create_shared_everyone().matched());
}

#[test]
fn read_only_mode_does_not_match_write_protection() {
    let ro = libc::O_RDONLY;
    assert!(!OpenFlags { mode: ro, perm: 0o600, prot: libc::PROT_WRITE }.matched());
    assert!(!OpenFlags { mode: ro, perm: 0o600, prot: 3 }.matched());
    assert!(!OpenFlags { mode: ro | libc::O_CREAT, perm: 0o600, prot: 3 }.matched());
    assert!(OpenFlags { mode: ro, perm: 0o600, prot: 1 }.matched());
    assert!(OpenFlags { mode: ro, perm: 0o600, prot: 0 }.matched());
    assert!(OpenFlags { mode: libc::O_WRONLY, perm: 0o600, prot: 2 }.matched());
    assert!(OpenFlags { mode: libc::O_RDWR, perm: 0o600, prot: 3 }.matched());
}
