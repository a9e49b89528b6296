use nmount::flags::{MntFlag, MntFlags, Os};

#[test]
fn empty_flagset_has_no_modifiers() {
    let e = MntFlags::empty();
    assert_eq!(e.bits(), 0);
    assert!(e.is_empty());
    assert!(!e.contains(MntFlag::Rdonly));
}

#[test]
fn flag_bits_follow_freebsd_numbering() {
    assert_eq!(MntFlag::Rdonly.bit(), 0x0000_0001);
    assert_eq!(MntFlag::Synchronous.bit(), 0x0000_0002);
    assert_eq!(MntFlag::NoExec.bit(), 0x0000_0004);
    assert_eq!(MntFlag::Force.bit(), 0x0008_0000);
    assert_eq!(MntFlag::Update.bit(), 0x0001_0000);
    assert_eq!(MntFlag::ByFsid.bit(), 0x0800_0000);
    assert_eq!(MntFlag::NoClusterW.bit(), 0x8000_0000);
}

#[test]
fn union_intersection_difference_algebra() {
    let ro = MntFlags::from_flag(MntFlag::Rdonly);
    let noexec = MntFlags::from_flag(MntFlag::NoExec);
    let sync = MntFlags::from_flag(MntFlag::Synchronous);
    let a = ro.union(noexec);
    let b = noexec.union(sync);

    assert_eq!(a.bits(), 0x5);
    // commutativity
    assert_eq!(a.union(b), b.union(a));
    assert_eq!(a.intersection(b), b.intersection(a));
    // associativity
    assert_eq!(a.union(b).union(sync), a.union(b.union(sync)));
    // distributivity
    assert_eq!(
        a.intersection(b.union(sync)),
        a.intersection(b).union(a.intersection(sync))
    );
    // difference partitions
    assert_eq!(a.difference(b).intersection(b), MntFlags::empty());
    assert_eq!(a.difference(b).union(a.intersection(b)), a);
    // the empty set is the identity
    assert_eq!(a.union(MntFlags::empty()), a);
    assert_eq!(a.intersection(MntFlags::empty()), MntFlags::empty());
    assert_eq!(a.difference(MntFlags::empty()), a);
    // idempotence
    assert_eq!(a.union(a), a);
    assert_eq!(a.intersection(a), a);
}

#[test]
fn membership_and_insert() {
    let f = MntFlags::empty().insert(MntFlag::Force).insert(MntFlag::NoAtime);
    assert!(f.contains(MntFlag::Force));
    assert!(f.contains(MntFlag::NoAtime));
    assert!(!f.contains(MntFlag::Rdonly));
    assert_eq!(f.bits(), 0x0008_0000 | 0x1000_0000);
}

#[test]
fn availability_is_platform_conditioned() {
    assert!(MntFlag::Force.available(Os::FreeBsd));
    assert!(MntFlag::Force.available(Os::OpenBsd));
    assert!(MntFlag::ByFsid.available(Os::FreeBsd));
    assert!(!MntFlag::ByFsid.available(Os::NetBsd));
    assert!(MntFlag::SoftDep.available(Os::NetBsd));
    assert!(!MntFlag::SoftDep.available(Os::MacOs));
    assert!(MntFlag::Snapshot.available(Os::MacOs));
    assert!(!MntFlag::Snapshot.available(Os::OpenBsd));
    assert!(!MntFlag::SuidDir.available(Os::NetBsd));
    assert!(MntFlag::Acls.available(Os::NetBsd));
}
