//! The catalogue of mount behavior flags and the bitmask type over it.
//!
//! Each named flag stands for one bit of the mask handed to the mount and
//! unmount calls.  The catalogue is closed and platform-conditioned: a flag
//! carries the set of operating systems it is defined on, and a capability
//! query replaces compile-time gating.  Bit numbering follows FreeBSD, the
//! platform whose mount call the rest of this crate models.

use vstd::prelude::*;

verus! {

/// One named mount behavior from the closed catalogue.
#[derive(Clone, Copy, PartialEq, Eq, Structural, Debug)]
pub enum MntFlag {
    /// ACL support enabled.
    Acls,
    /// All I/O to the file system should be done asynchronously.
    Async,
    /// The unmount target is a file system ID encoded as `FSID:val0:val1`.
    ByFsid,
    /// Force the operation even if the file system is unclean or busy.
    Force,
    /// GEOM journal support enabled.
    GJournal,
    /// MAC support for objects.
    MultiLabel,
    /// Enable NFS version 4 ACLs.
    Nfs4Acls,
    /// Do not update access times.
    NoAtime,
    /// Disable read clustering.
    NoClusterR,
    /// Disable write clustering.
    NoClusterW,
    /// Disallow program execution.
    NoExec,
    /// Check vnode use counts.
    NonBusy,
    /// Do not honor setuid or setgid bits on files when executing them.
    NoSuid,
    /// Do not follow symlinks.
    NoSymFollow,
    /// Mount read-only.
    Rdonly,
    /// Update the data structures of an already mounted file system.
    Reload,
    /// Create a snapshot of the file system.
    Snapshot,
    /// Using soft updates.
    SoftDep,
    /// Directories with the SUID bit set chown new files to their owner.
    SuidDir,
    /// All I/O to the file system should be done synchronously.
    Synchronous,
    /// Union with the underlying file system.
    Union,
    /// Apply the operation to an already mounted file system.
    Update,
}

/// The operating systems on which parts of the catalogue are available.
#[derive(Clone, Copy, PartialEq, Eq, Structural, Debug)]
pub enum Os {
    /// DragonFly BSD.
    DragonFly,
    /// FreeBSD.
    FreeBsd,
    /// macOS.
    MacOs,
    /// NetBSD.
    NetBsd,
    /// OpenBSD.
    OpenBsd,
}

impl MntFlag {
    /// The flag's bit in the mask, with FreeBSD's numbering.
    pub open spec fn spec_bit(self) -> u32 {
        match self {
            MntFlag::Rdonly => 0x00000001,
            MntFlag::Synchronous => 0x00000002,
            MntFlag::NoExec => 0x00000004,
            MntFlag::NoSuid => 0x00000008,
            MntFlag::Nfs4Acls => 0x00000010,
            MntFlag::Union => 0x00000020,
            MntFlag::Async => 0x00000040,
            MntFlag::Update => 0x00010000,
            MntFlag::Reload => 0x00040000,
            MntFlag::Force => 0x00080000,
            MntFlag::SuidDir => 0x00100000,
            MntFlag::SoftDep => 0x00200000,
            MntFlag::NoSymFollow => 0x00400000,
            MntFlag::Snapshot => 0x01000000,
            MntFlag::GJournal => 0x02000000,
            MntFlag::MultiLabel => 0x04000000,
            MntFlag::NonBusy => 0x04000000,
            MntFlag::Acls => 0x08000000,
            MntFlag::ByFsid => 0x08000000,
            MntFlag::NoAtime => 0x10000000,
            MntFlag::NoClusterR => 0x40000000,
            MntFlag::NoClusterW => 0x80000000,
        }
    }

    /// The flag's bit in the mask, with FreeBSD's numbering.
    pub fn bit(self) -> (r: u32)
        ensures
            r == self.spec_bit(),
    {
        match self {
            MntFlag::Rdonly => 0x00000001,
            MntFlag::Synchronous => 0x00000002,
            MntFlag::NoExec => 0x00000004,
            MntFlag::NoSuid => 0x00000008,
            MntFlag::Nfs4Acls => 0x00000010,
            MntFlag::Union => 0x00000020,
            MntFlag::Async => 0x00000040,
            MntFlag::Update => 0x00010000,
            MntFlag::Reload => 0x00040000,
            MntFlag::Force => 0x00080000,
            MntFlag::SuidDir => 0x00100000,
            MntFlag::SoftDep => 0x00200000,
            MntFlag::NoSymFollow => 0x00400000,
            MntFlag::Snapshot => 0x01000000,
            MntFlag::GJournal => 0x02000000,
            MntFlag::MultiLabel => 0x04000000,
            MntFlag::NonBusy => 0x04000000,
            MntFlag::Acls => 0x08000000,
            MntFlag::ByFsid => 0x08000000,
            MntFlag::NoAtime => 0x10000000,
            MntFlag::NoClusterR => 0x40000000,
            MntFlag::NoClusterW => 0x80000000,
        }
    }

    /// Whether the flag is defined on the given operating system.
    pub open spec fn spec_available(self, os: Os) -> bool {
        match self {
            MntFlag::Acls => os == Os::FreeBsd || os == Os::NetBsd,
            MntFlag::Async => true,
            MntFlag::ByFsid => os == Os::FreeBsd,
            MntFlag::Force => true,
            MntFlag::GJournal => os == Os::FreeBsd,
            MntFlag::MultiLabel => os == Os::FreeBsd || os == Os::MacOs,
            MntFlag::Nfs4Acls => os == Os::FreeBsd,
            MntFlag::NoAtime => true,
            MntFlag::NoClusterR => os == Os::FreeBsd || os == Os::DragonFly,
            MntFlag::NoClusterW => os == Os::FreeBsd || os == Os::DragonFly,
            MntFlag::NoExec => true,
            MntFlag::NonBusy => os == Os::FreeBsd,
            MntFlag::NoSuid => true,
            MntFlag::NoSymFollow => os == Os::FreeBsd || os == Os::DragonFly,
            MntFlag::Rdonly => true,
            MntFlag::Reload => true,
            MntFlag::Snapshot => os == Os::FreeBsd || os == Os::MacOs,
            MntFlag::SoftDep => (os == Os::FreeBsd || os == Os::DragonFly
                || os == Os::NetBsd || os == Os::OpenBsd),
            MntFlag::SuidDir => os == Os::FreeBsd || os == Os::DragonFly,
            MntFlag::Synchronous => true,
            MntFlag::Union => (os == Os::FreeBsd || os == Os::MacOs
                || os == Os::NetBsd),
            MntFlag::Update => true,
        }
    }

    /// Capability query: whether the flag is defined on the given
    /// operating system.
    pub fn available(self, os: Os) -> (r: bool)
        ensures
            r == self.spec_available(os),
    {
        match self {
            MntFlag::Acls => os == Os::FreeBsd || os == Os::NetBsd,
            MntFlag::Async => true,
            MntFlag::ByFsid => os == Os::FreeBsd,
            MntFlag::Force => true,
            MntFlag::GJournal => os == Os::FreeBsd,
            MntFlag::MultiLabel => os == Os::FreeBsd || os == Os::MacOs,
            MntFlag::Nfs4Acls => os == Os::FreeBsd,
            MntFlag::NoAtime => true,
            MntFlag::NoClusterR => os == Os::FreeBsd || os == Os::DragonFly,
            MntFlag::NoClusterW => os == Os::FreeBsd || os == Os::DragonFly,
            MntFlag::NoExec => true,
            MntFlag::NonBusy => os == Os::FreeBsd,
            MntFlag::NoSuid => true,
            MntFlag::NoSymFollow => os == Os::FreeBsd || os == Os::DragonFly,
            MntFlag::Rdonly => true,
            MntFlag::Reload => true,
            MntFlag::Snapshot => os == Os::FreeBsd || os == Os::MacOs,
            MntFlag::SoftDep => (os == Os::FreeBsd || os == Os::DragonFly
                || os == Os::NetBsd || os == Os::OpenBsd),
            MntFlag::SuidDir => os == Os::FreeBsd || os == Os::DragonFly,
            MntFlag::Synchronous => true,
            MntFlag::Union => (os == Os::FreeBsd || os == Os::MacOs
                || os == Os::NetBsd),
            MntFlag::Update => true,
        }
    }
}

/// A set of mount behavior flags, held as a bitmask.
///
/// Pure value type: it composes by bitwise set algebra and has no failure
/// modes.  An empty `MntFlags` applies no behavior modifiers.
#[derive(Clone, Copy, PartialEq, Eq, Structural, Debug)]
pub struct MntFlags {
    bits: u32,
}

impl MntFlags {
    /// The raw bitmask.
    pub closed spec fn spec_bits(self) -> u32 {
        self.bits
    }

    /// The set with the given raw bitmask.
    pub closed spec fn spec_from_bits(bits: u32) -> MntFlags {
        MntFlags { bits }
    }

    /// The union of the two sets.
    pub closed spec fn spec_union(self, other: MntFlags) -> MntFlags {
        MntFlags { bits: self.bits | other.bits }
    }

    /// The intersection of the two sets.
    pub closed spec fn spec_intersection(self, other: MntFlags) -> MntFlags {
        MntFlags { bits: self.bits & other.bits }
    }

    /// The set of flags in `self` but not in `other`.
    pub closed spec fn spec_difference(self, other: MntFlags) -> MntFlags {
        MntFlags { bits: self.bits & !other.bits }
    }

    /// Whether the named flag is a member of the set.
    pub open spec fn spec_contains(self, flag: MntFlag) -> bool {
        self.spec_bits() & flag.spec_bit() == flag.spec_bit()
    }

    /// The empty set: no behavior modifiers.
    pub fn empty() -> (r: MntFlags)
        ensures
            r.spec_bits() == 0,
    {
        MntFlags { bits: 0 }
    }

    /// The set with exactly the given raw bitmask.
    pub fn from_bits(bits: u32) -> (r: MntFlags)
        ensures
            r == MntFlags::spec_from_bits(bits),
            r.spec_bits() == bits,
    {
        MntFlags { bits }
    }

    /// The set holding the one named flag.
    pub fn from_flag(flag: MntFlag) -> (r: MntFlags)
        ensures
            r.spec_bits() == flag.spec_bit(),
    {
        MntFlags { bits: flag.bit() }
    }

    /// The raw bitmask, as handed to the kernel calls.
    pub fn bits(self) -> (r: u32)
        ensures
            r == self.spec_bits(),
    {
        self.bits
    }

    /// Whether the set holds no flag at all.
    pub fn is_empty(self) -> (r: bool)
        ensures
            r == (self.spec_bits() == 0),
    {
        self.bits == 0
    }

    /// The union of the two sets.
    pub fn union(self, other: MntFlags) -> (r: MntFlags)
        ensures
            r == self.spec_union(other),
    {
        MntFlags { bits: self.bits | other.bits }
    }

    /// The intersection of the two sets.
    pub fn intersection(self, other: MntFlags) -> (r: MntFlags)
        ensures
            r == self.spec_intersection(other),
    {
        MntFlags { bits: self.bits & other.bits }
    }

    /// The set of flags in `self` but not in `other`.
    pub fn difference(self, other: MntFlags) -> (r: MntFlags)
        ensures
            r == self.spec_difference(other),
    {
        MntFlags { bits: self.bits & !other.bits }
    }

    /// Add one named flag to the set.
    pub fn insert(self, flag: MntFlag) -> (r: MntFlags)
        ensures
            r == self.spec_union(MntFlags::spec_from_bits(flag.spec_bit())),
            r.spec_contains(flag),
    {
        let r = MntFlags { bits: self.bits | flag.bit() };
        proof {
            let b = flag.spec_bit();
            let s = self.bits;
            assert((s | b) & b == b) by (bit_vector);
        }
        r
    }

    /// Whether the named flag is a member of the set.
    pub fn contains(self, flag: MntFlag) -> (r: bool)
        ensures
            r == self.spec_contains(flag),
    {
        let b = flag.bit();
        self.bits & b == b
    }
}

/// Union is commutative.
pub proof fn lemma_union_comm(a: MntFlags, b: MntFlags)
    ensures
        a.spec_union(b) == b.spec_union(a),
{
    let x = a.spec_bits();
    let y = b.spec_bits();
    assert(x | y == y | x) by (bit_vector);
}

/// Union is associative.
pub proof fn lemma_union_assoc(a: MntFlags, b: MntFlags, c: MntFlags)
    ensures
        a.spec_union(b).spec_union(c) == a.spec_union(b.spec_union(c)),
{
    let x = a.spec_bits();
    let y = b.spec_bits();
    let z = c.spec_bits();
    assert((x | y) | z == x | (y | z)) by (bit_vector);
}

/// Intersection is commutative.
pub proof fn lemma_intersection_comm(a: MntFlags, b: MntFlags)
    ensures
        a.spec_intersection(b) == b.spec_intersection(a),
{
    let x = a.spec_bits();
    let y = b.spec_bits();
    assert(x & y == y & x) by (bit_vector);
}

/// Intersection is associative.
pub proof fn lemma_intersection_assoc(a: MntFlags, b: MntFlags, c: MntFlags)
    ensures
        a.spec_intersection(b).spec_intersection(c)
            == a.spec_intersection(b.spec_intersection(c)),
{
    let x = a.spec_bits();
    let y = b.spec_bits();
    let z = c.spec_bits();
    assert((x & y) & z == x & (y & z)) by (bit_vector);
}

/// Intersection distributes over union.
pub proof fn lemma_intersection_distributes(a: MntFlags, b: MntFlags, c: MntFlags)
    ensures
        a.spec_intersection(b.spec_union(c))
            == a.spec_intersection(b).spec_union(a.spec_intersection(c)),
{
    let x = a.spec_bits();
    let y = b.spec_bits();
    let z = c.spec_bits();
    assert(x & (y | z) == (x & y) | (x & z)) by (bit_vector);
}

/// Union distributes over intersection.
pub proof fn lemma_union_distributes(a: MntFlags, b: MntFlags, c: MntFlags)
    ensures
        a.spec_union(b.spec_intersection(c))
            == a.spec_union(b).spec_intersection(a.spec_union(c)),
{
    let x = a.spec_bits();
    let y = b.spec_bits();
    let z = c.spec_bits();
    assert(x | (y & z) == (x | y) & (x | z)) by (bit_vector);
}

/// Difference removes exactly the intersection: what is left is disjoint
/// from `b`, and together with the intersection it restores `a`.
pub proof fn lemma_difference_partitions(a: MntFlags, b: MntFlags)
    ensures
        a.spec_difference(b).spec_intersection(b) == MntFlags::spec_from_bits(0),
        a.spec_difference(b).spec_union(a.spec_intersection(b)) == a,
{
    let x = a.spec_bits();
    let y = b.spec_bits();
    assert((x & !y) & y == 0) by (bit_vector);
    assert((x & !y) | (x & y) == x) by (bit_vector);
}

/// The empty set is the identity of union, absorbing for intersection,
/// and neutral on either side of difference.
pub proof fn lemma_empty_is_identity(a: MntFlags)
    ensures
        a.spec_union(MntFlags::spec_from_bits(0)) == a,
        a.spec_intersection(MntFlags::spec_from_bits(0)) == MntFlags::spec_from_bits(0),
        a.spec_difference(MntFlags::spec_from_bits(0)) == a,
        MntFlags::spec_from_bits(0).spec_difference(a) == MntFlags::spec_from_bits(0),
{
    let x = a.spec_bits();
    assert(x | 0 == x) by (bit_vector);
    assert(x & 0 == 0) by (bit_vector);
    assert(x & !0u32 == x) by (bit_vector);
    assert(0u32 & !x == 0) by (bit_vector);
}

/// Union and intersection are idempotent.
pub proof fn lemma_idempotent(a: MntFlags)
    ensures
        a.spec_union(a) == a,
        a.spec_intersection(a) == a,
{
    let x = a.spec_bits();
    assert(x | x == x) by (bit_vector);
    assert(x & x == x) by (bit_vector);
}

} // verus!
