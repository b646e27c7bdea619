use myos::fd_table::{FdTable, FileDesc};
use myos::fs::{close, open, read, stat, FileType, OpenFlags};
use myos::error::KernelError;

fn is_file(d: Option<&FileDesc<u32>>, v: u32) -> bool {
    matches!(d, Some(FileDesc::File(x)) if *x == v)
}

#[test]
fn new_table_has_standard_streams() {
    let t: FdTable<u32> = FdTable::new();
    assert!(matches!(t.get(0), Some(FileDesc::Stdin)));
    assert!(matches!(t.get(1), Some(FileDesc::Stdout)));
    assert!(matches!(t.get(2), Some(FileDesc::Stderr)));
    assert!(t.get(3).is_none());
    let d: FdTable<u32> = FdTable::default();
    assert!(matches!(d.get(2), Some(FileDesc::Stderr)));
}

#[test]
fn alloc_then_get_gives_back_the_file() {
    let mut t: FdTable<u32> = FdTable::new();
    assert_eq!(t.alloc_fd(FileDesc::File(7)), Some(3));
    assert_eq!(t.alloc_fd(FileDesc::File(8)), Some(4));
    assert!(is_file(t.get(3), 7));
    assert!(is_file(t.get(4), 8));
    assert!(t.get(5).is_none());
}

#[test]
fn closed_descriptor_is_reused_lowest_first() {
    let mut t: FdTable<u32> = FdTable::new();
    for v in 0..4 {
        t.alloc_fd(FileDesc::File(v));
    }
    assert!(t.close(4));
    assert!(t.close(3));
    assert!(t.get(3).is_none());
    assert_eq!(t.alloc_fd(FileDesc::File(40)), Some(3));
    assert_eq!(t.alloc_fd(FileDesc::File(41)), Some(4));
    assert_eq!(t.alloc_fd(FileDesc::File(42)), Some(7));
    assert!(is_file(t.get(5), 2));
}

#[test]
fn standard_streams_cannot_be_closed() {
    let mut t: FdTable<u32> = FdTable::new();
    assert!(!t.close(0));
    assert!(!t.close(1));
    assert!(!t.close(2));
    assert!(matches!(t.get(1), Some(FileDesc::Stdout)));
}

#[test]
fn closing_twice_or_unknown_fails() {
    let mut t: FdTable<u32> = FdTable::new();
    assert_eq!(t.alloc_fd(FileDesc::File(1)), Some(3));
    assert!(t.close(3));
    assert!(!t.close(3));
    assert!(!t.close(99));
}

#[test]
fn file_operations_are_unsupported() {
    assert_eq!(open("/a", OpenFlags::RDONLY()), Err(KernelError::Unsupported));
    assert_eq!(close(3), Err(KernelError::Unsupported));
    let mut buf = [1u8, 2, 3];
    assert_eq!(read(3, &mut buf), Err(KernelError::Unsupported));
    assert_eq!(buf, [1, 2, 3]);
    assert_eq!(myos::fs::write(3, &buf), Err(KernelError::Unsupported));
    assert!(matches!(stat("/a"), Err(KernelError::Unsupported)));
}

#[test]
fn open_flags_have_linux_values() {
    assert_eq!(OpenFlags::RDONLY().bits(), 0);
    assert_eq!(OpenFlags::WRONLY().bits(), 1);
    assert_eq!(OpenFlags::RDWR().bits(), 2);
    assert_eq!(OpenFlags::CREATE().bits(), 0o100);
    assert_eq!(OpenFlags::TRUNC().bits(), 0o1000);
    assert_eq!(OpenFlags::APPEND().bits(), 0o2000);
    assert_ne!(FileType::Regular, FileType::Directory);
}
