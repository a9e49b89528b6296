use nmount::flags::MntFlags;
use nmount::options::{Nmount, OptionEntry};

#[test]
fn new_builder_is_empty() {
    let b: Nmount = Nmount::new();
    assert_eq!(b.len(), 0);
    assert_eq!(b.owned_count(), 0);
    assert_eq!(b.discard(), 0);
}

#[test]
fn owned_insertions_release_two_regions_each() {
    let mut b: Nmount = Nmount::new();
    b.str_opt_owned(b"fstype", b"nullfs");
    b.str_opt_owned(b"fspath", b"/mnt/a");
    b.str_opt_owned(b"target", b"/mnt/b");
    assert_eq!(b.len(), 6);
    assert_eq!(b.owned_count(), 6);
    assert_eq!(b.discard(), 6);
}

#[test]
fn discard_without_finalize_releases_owned_regions() {
    let mut b: Nmount = Nmount::new();
    b.str_opt_owned(b"fspath", b"/mnt/a");
    b.null_opt_owned(b"ro");
    // two owned insertions: two owned regions each, all released at discard
    assert_eq!(b.owned_count(), 4);
    assert_eq!(b.discard(), 4);
}

#[test]
fn borrowed_insertions_release_nothing() {
    let mut b = Nmount::new();
    b.str_opt(b"fstype\0", b"nullfs\0");
    b.null_opt(b"ro\0");
    b.mut_ptr_opt(b"raw\0", 0xdead_beef, 4);
    assert_eq!(b.len(), 6);
    assert_eq!(b.owned_count(), 0);
    assert_eq!(b.discard(), 0);
}

#[test]
fn mixed_insertions_keep_insertion_order() {
    let mut b = Nmount::new();
    b.str_opt(b"fstype\0", b"nullfs\0")
        .str_opt_owned(b"fspath", b"/mnt/a")
        .null_opt(b"noatime\0")
        .null_opt_owned(b"ro")
        .mut_ptr_opt(b"raw\0", 0x1000, 8);
    let req = b.prepare(MntFlags::empty());

    assert_eq!(req.opts.len(), 10);
    match &req.opts[0] {
        OptionEntry::Borrowed(s) => assert_eq!(*s, b"fstype\0"),
        _ => panic!("entry 0 should be borrowed"),
    }
    match &req.opts[1] {
        OptionEntry::Borrowed(s) => assert_eq!(*s, b"nullfs\0"),
        _ => panic!("entry 1 should be borrowed"),
    }
    match &req.opts[2] {
        OptionEntry::Owned(v) => assert_eq!(v.as_slice(), b"fspath\0"),
        _ => panic!("entry 2 should be owned"),
    }
    match &req.opts[3] {
        OptionEntry::Owned(v) => assert_eq!(v.as_slice(), b"/mnt/a\0"),
        _ => panic!("entry 3 should be owned"),
    }
    match &req.opts[4] {
        OptionEntry::Borrowed(s) => assert_eq!(*s, b"noatime\0"),
        _ => panic!("entry 4 should be borrowed"),
    }
    match &req.opts[5] {
        OptionEntry::Borrowed(s) => assert_eq!(*s, b""),
        _ => panic!("entry 5 should be a zero-length borrowed region"),
    }
    match &req.opts[6] {
        OptionEntry::Owned(v) => assert_eq!(v.as_slice(), b"ro\0"),
        _ => panic!("entry 6 should be owned"),
    }
    match &req.opts[7] {
        OptionEntry::Owned(v) => assert_eq!(v.as_slice(), b""),
        _ => panic!("entry 7 should be a zero-length owned region"),
    }
    match &req.opts[8] {
        OptionEntry::Borrowed(s) => assert_eq!(*s, b"raw\0"),
        _ => panic!("entry 8 should be borrowed"),
    }
    match &req.opts[9] {
        OptionEntry::Raw(base, len) => {
            assert_eq!(*base, 0x1000);
            assert_eq!(*len, 8);
        }
        _ => panic!("entry 9 should be a raw region"),
    }
}

#[test]
fn chained_insertions_accumulate() {
    let mut b: Nmount = Nmount::new();
    b.str_opt_owned(b"fstype", b"nullfs").null_opt_owned(b"ro");
    assert_eq!(b.len(), 4);
    assert_eq!(b.owned_count(), 4);
}
