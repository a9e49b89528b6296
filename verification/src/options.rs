//! The option-list builder: an ordered accumulator of name/value byte
//! regions with per-entry ownership tracking.
//!
//! The mount call takes its options as a flat array of (pointer, length)
//! descriptors, alternating names and values.  Names are null-terminated
//! byte strings; a value is a null-terminated string, a zero-length region
//! (flag-only option), or arbitrary binary data.  Some regions are borrowed
//! from the caller and must never be released here; others are copied into
//! buffers the builder owns, and the release pass must free each of those
//! exactly once — whether the builder is finalized into a call or discarded
//! untouched.

use vstd::prelude::*;
use vstd::slice::slice_subrange;
use vstd::slice::slice_to_vec;

verus! {

/// The mathematical model of one accumulated region descriptor.
pub enum EntryModel {
    /// A caller-owned byte region, given by its contents.
    Borrowed(Seq<u8>),
    /// A caller-supplied raw region, given by its address and length.
    Raw(usize, usize),
    /// A region the builder owns and the release pass frees, given by its
    /// contents.
    Owned(Seq<u8>),
}

/// One accumulated entry: a byte region descriptor tagged with who owns the
/// backing memory.
pub enum OptionEntry<'a> {
    /// Borrowed from the caller, who guarantees that the region outlives
    /// the finalizing call; never released by this crate.
    Borrowed(&'a [u8]),
    /// A caller-supplied raw region, as an address and a length; never
    /// released by this crate.  Only platform code that issues the call may
    /// read it, under the caller's validity guarantee.
    Raw(usize, usize),
    /// Allocated by the builder and released by the release pass, exactly
    /// once.
    Owned(Vec<u8>),
}

impl<'a> OptionEntry<'a> {
    /// The entry's model: its contents, or its raw descriptor, under the
    /// ownership tag.
    pub open spec fn model(self) -> EntryModel {
        match self {
            OptionEntry::Borrowed(s) => EntryModel::Borrowed(s@),
            OptionEntry::Raw(base, len) => EntryModel::Raw(base, len),
            OptionEntry::Owned(v) => EntryModel::Owned(v@),
        }
    }
}

/// The models of a sequence of entries, in order.
pub open spec fn models_of<'a>(s: Seq<OptionEntry<'a>>) -> Seq<EntryModel> {
    Seq::new(s.len(), |i: int| s[i].model())
}

/// Whether a byte sequence is a well-formed null-terminated region: it ends
/// in the terminator, and no other byte is null.
pub open spec fn is_cstr_bytes(s: Seq<u8>) -> bool {
    &&& s.len() >= 1
    &&& s.last() == 0
    &&& forall|i: int| 0 <= i < s.len() - 1 ==> s[i] != 0
}

/// Whether a byte sequence holds no null byte, so that appending one
/// terminator makes it a well-formed null-terminated region.
pub open spec fn nul_free(s: Seq<u8>) -> bool {
    forall|i: int| 0 <= i < s.len() ==> s[i] != 0
}

/// How many regions of a descriptor sequence are owned: what the release
/// pass must free.
pub open spec fn owned_regions(s: Seq<EntryModel>) -> nat
    decreases s.len(),
{
    if s.len() == 0 {
        0
    } else {
        owned_regions(s.drop_last()) + if s.last() is Owned {
            1nat
        } else {
            0nat
        }
    }
}

/// Whether a model entry may stand in a name position: a null-terminated
/// region, borrowed or owned.
pub open spec fn is_name_entry(e: EntryModel) -> bool {
    match e {
        EntryModel::Borrowed(s) => is_cstr_bytes(s),
        EntryModel::Owned(s) => is_cstr_bytes(s),
        EntryModel::Raw(base, len) => false,
    }
}

/// The builder's invariant: entries come in name/value pairs, so the length
/// is even and every even position holds a well-formed name.
pub open spec fn wf_entries(s: Seq<EntryModel>) -> bool {
    &&& s.len() % 2 == 0
    &&& forall|i: int| 0 <= i < s.len() && i % 2 == 0 ==> is_name_entry(#[trigger] s[i])
}

/// One insertion operation, at the specification level.  Each exposed
/// insertion method appends exactly the two entries of one such operation.
pub enum InsertOp {
    /// A borrowed name with a borrowed value.
    BorrowedPair(Seq<u8>, Seq<u8>),
    /// A borrowed name with a zero-length value.
    BorrowedFlag(Seq<u8>),
    /// An owned copy of a name with an owned copy of a value, both given
    /// before null-termination.
    OwnedPair(Seq<u8>, Seq<u8>),
    /// An owned copy of a name with a zero-length owned value, the name
    /// given before null-termination.
    OwnedFlag(Seq<u8>),
    /// A borrowed name with a caller-supplied raw region.
    RawPair(Seq<u8>, usize, usize),
}

/// The two descriptor entries one insertion appends.
pub open spec fn op_entries(op: InsertOp) -> Seq<EntryModel> {
    match op {
        InsertOp::BorrowedPair(name, val) => seq![
            EntryModel::Borrowed(name),
            EntryModel::Borrowed(val),
        ],
        InsertOp::BorrowedFlag(name) => seq![
            EntryModel::Borrowed(name),
            EntryModel::Borrowed(Seq::empty()),
        ],
        InsertOp::OwnedPair(name, val) => seq![
            EntryModel::Owned(name.push(0)),
            EntryModel::Owned(val.push(0)),
        ],
        InsertOp::OwnedFlag(name) => seq![
            EntryModel::Owned(name.push(0)),
            EntryModel::Owned(Seq::empty()),
        ],
        InsertOp::RawPair(name, base, len) => seq![
            EntryModel::Borrowed(name),
            EntryModel::Raw(base, len),
        ],
    }
}

/// What each insertion requires of its inputs: names (and string values)
/// must be, or become by null-termination, well-formed regions.
pub open spec fn op_wf(op: InsertOp) -> bool {
    match op {
        InsertOp::BorrowedPair(name, val) => is_cstr_bytes(name) && is_cstr_bytes(val),
        InsertOp::BorrowedFlag(name) => is_cstr_bytes(name),
        InsertOp::OwnedPair(name, val) => nul_free(name) && nul_free(val),
        InsertOp::OwnedFlag(name) => nul_free(name),
        InsertOp::RawPair(name, base, len) => is_cstr_bytes(name),
    }
}

/// The descriptor sequence that a sequence of insertions contributes, in
/// operation order.
pub open spec fn entries_of_ops(ops: Seq<InsertOp>) -> Seq<EntryModel>
    decreases ops.len(),
{
    if ops.len() == 0 {
        Seq::empty()
    } else {
        op_entries(ops.first()) + entries_of_ops(ops.drop_first())
    }
}

/// The descriptor sequence after applying the insertions in order, left to
/// right, to an initial sequence.
pub open spec fn apply_ops(init: Seq<EntryModel>, ops: Seq<InsertOp>) -> Seq<EntryModel>
    decreases ops.len(),
{
    if ops.len() == 0 {
        init
    } else {
        apply_ops(init + op_entries(ops.first()), ops.drop_first())
    }
}

/// An ordered list of mount options under construction.
///
/// Insertions append one name/value pair each; insertion order is the order
/// the kernel sees.  The builder owns every `Owned` entry until it is
/// consumed — by finalizing it into a request, or by [`Nmount::discard`] —
/// and either path releases each owned region exactly once.  Borrowed
/// entries are never released here.
pub struct Nmount<'a> {
    entries: Vec<OptionEntry<'a>>,
}

impl<'a> View for Nmount<'a> {
    type V = Seq<EntryModel>;

    closed spec fn view(&self) -> Seq<EntryModel> {
        models_of(self.entries@)
    }
}

impl<'a> Nmount<'a> {
    /// A new builder with no options.
    pub fn new() -> (r: Nmount<'a>)
        ensures
            r@ == Seq::<EntryModel>::empty(),
    {
        let r = Nmount { entries: Vec::new() };
        proof {
            assert(r@ =~= Seq::<EntryModel>::empty());
        }
        r
    }

    /// How many descriptor entries have accumulated.
    pub fn len(&self) -> (r: usize)
        ensures
            r == self@.len(),
    {
        self.entries.len()
    }

    /// How many of the accumulated regions are owned: what the release
    /// pass will free.
    pub fn owned_count(&self) -> (r: usize)
        ensures
            r == owned_regions(self@),
    {
        let mut count: usize = 0;
        let n = self.entries.len();
        let mut i: usize = 0;
        proof {
            lemma_owned_regions_le_len(self@);
            assert(self@.take(0) =~= Seq::<EntryModel>::empty());
        }
        while i < n
            invariant
                0 <= i <= n,
                n == self@.len(),
                count == owned_regions(self@.take(i as int)),
                count <= i,
            decreases n - i,
        {
            proof {
                lemma_owned_regions_take_step(self@, i as int);
            }
            if let OptionEntry::Owned(_v) = &self.entries[i] {
                count = count + 1;
            }
            i = i + 1;
        }
        proof {
            assert(self@.take(n as int) =~= self@);
        }
        count
    }

    /// Append two entries, as one insertion operation's contribution.
    fn push_pair(&mut self, first: OptionEntry<'a>, second: OptionEntry<'a>)
        ensures
            final(self)@ == old(self)@ + seq![first.model(), second.model()],
    {
        self.entries.push(first);
        self.entries.push(second);
        proof {
            assert(final(self)@ =~= old(self)@ + seq![first.model(), second.model()]);
        }
    }

    /// Add a borrowed option: a null-terminated name with a null-terminated
    /// value, both guaranteed by the caller to outlive the finalizing call.
    /// Zero-copy; nothing here is ever released.
    pub fn str_opt(&mut self, name: &'a [u8], val: &'a [u8]) -> (r: &mut Nmount<'a>)
        requires
            is_cstr_bytes(name@),
            is_cstr_bytes(val@),
        ensures
            (*r)@ == old(self)@ + op_entries(InsertOp::BorrowedPair(name@, val@)),
            *final(self) == *final(r),
    {
        self.push_pair(OptionEntry::Borrowed(name), OptionEntry::Borrowed(val));
        self
    }

    /// Add a borrowed option that takes no value: a null-terminated name
    /// paired with a zero-length region.
    pub fn null_opt(&mut self, name: &'a [u8]) -> (r: &mut Nmount<'a>)
        requires
            is_cstr_bytes(name@),
        ensures
            (*r)@ == old(self)@ + op_entries(InsertOp::BorrowedFlag(name@)),
            *final(self) == *final(r),
    {
        let empty: &'a [u8] = slice_subrange(name, 0, 0);
        proof {
            assert(empty@ =~= Seq::<u8>::empty());
        }
        self.push_pair(OptionEntry::Borrowed(name), OptionEntry::Borrowed(empty));
        self
    }

    /// Add an option copied into owned storage: name and value are copied
    /// and null-terminated, and the copies are released — exactly once —
    /// when the builder is consumed.  For sources whose lifetime is shorter
    /// than the builder's.
    pub fn str_opt_owned(&mut self, name: &[u8], val: &[u8]) -> (r: &mut Nmount<'a>)
        requires
            nul_free(name@),
            nul_free(val@),
        ensures
            (*r)@ == old(self)@ + op_entries(InsertOp::OwnedPair(name@, val@)),
            *final(self) == *final(r),
    {
        let owned_name = to_owned_cstr(name);
        let owned_val = to_owned_cstr(val);
        self.push_pair(OptionEntry::Owned(owned_name), OptionEntry::Owned(owned_val));
        self
    }

    /// Add an option that takes no value, copying the name into owned
    /// storage; the copy and the zero-length owned value are released when
    /// the builder is consumed.
    pub fn null_opt_owned(&mut self, name: &[u8]) -> (r: &mut Nmount<'a>)
        requires
            nul_free(name@),
        ensures
            (*r)@ == old(self)@ + op_entries(InsertOp::OwnedFlag(name@)),
            *final(self) == *final(r),
    {
        let owned_name = to_owned_cstr(name);
        let empty_val: Vec<u8> = Vec::new();
        self.push_pair(OptionEntry::Owned(owned_name), OptionEntry::Owned(empty_val));
        self
    }

    /// Add an opaque, binary-valued option as a raw region descriptor.
    ///
    /// The region is recorded as an address and a length only.  The caller
    /// must guarantee that the region stays valid — and, if mutable,
    /// exclusively accessible — until the finalizing call completes; the
    /// platform code that issues the call reads it verbatim under that
    /// guarantee, and misuse there is undefined behavior, not a reported
    /// error.  Nothing here dereferences or releases the region.
    pub fn mut_ptr_opt(&mut self, name: &'a [u8], base: usize, len: usize) -> (r: &mut Nmount<'a>)
        requires
            is_cstr_bytes(name@),
        ensures
            (*r)@ == old(self)@ + op_entries(InsertOp::RawPair(name@, base, len)),
            *final(self) == *final(r),
    {
        self.push_pair(OptionEntry::Borrowed(name), OptionEntry::Raw(base, len));
        self
    }

    /// Abandon the builder without issuing a call, releasing every owned
    /// region exactly once; returns how many regions were released.
    pub fn discard(self) -> (released: usize)
        ensures
            released == owned_regions(self@),
    {
        release_owned(self.entries)
    }

    /// Take the accumulated entries out of the builder, consuming it.
    pub(crate) fn into_entries(self) -> (r: Vec<OptionEntry<'a>>)
        ensures
            models_of(r@) == self@,
    {
        self.entries
    }
}

/// Copy a null-free byte string and append the terminator.
pub(crate) fn to_owned_cstr(bytes: &[u8]) -> (v: Vec<u8>)
    requires
        nul_free(bytes@),
    ensures
        v@ == bytes@.push(0u8),
        is_cstr_bytes(v@),
{
    let mut v = slice_to_vec(bytes);
    v.push(0u8);
    proof {
        assert(v@ =~= bytes@.push(0u8));
    }
    v
}

/// The single release pass, shared by every path that consumes a builder:
/// frees each owned region exactly once — each is moved out of the list and
/// dropped here, and borrowed and raw regions are left untouched — and
/// returns how many were freed.
pub(crate) fn release_owned<'a>(entries: Vec<OptionEntry<'a>>) -> (released: usize)
    ensures
        released == owned_regions(models_of(entries@)),
{
    let ghost all = models_of(entries@);
    let mut rest = entries;
    let total: usize = rest.len();
    let mut released: usize = 0;
    while rest.len() != 0
        invariant
            released + owned_regions(models_of(rest@)) == owned_regions(all),
            released + rest@.len() <= total,
        decreases rest@.len(),
    {
        let ghost before = models_of(rest@);
        let entry = rest.pop().unwrap();
        proof {
            assert(models_of(rest@) =~= before.drop_last());
            assert(before.last() == entry.model());
        }
        match entry {
            OptionEntry::Owned(_buf) => {
                // `_buf` is dropped here: the one release of this region.
                released = released + 1;
            },
            OptionEntry::Borrowed(_region) => {},
            OptionEntry::Raw(_base, _len) => {},
        }
    }
    proof {
        assert(models_of(rest@) =~= Seq::<EntryModel>::empty());
    }
    released
}

/// Each owned region counts once, so a descriptor sequence never holds more
/// owned regions than entries.
pub proof fn lemma_owned_regions_le_len(s: Seq<EntryModel>)
    ensures
        owned_regions(s) <= s.len(),
    decreases s.len(),
{
    if s.len() > 0 {
        lemma_owned_regions_le_len(s.drop_last());
    }
}

/// Extending a prefix by one entry raises the owned-region count by one
/// exactly when that entry is owned.
pub proof fn lemma_owned_regions_take_step(s: Seq<EntryModel>, i: int)
    requires
        0 <= i < s.len(),
    ensures
        owned_regions(s.take(i + 1)) == owned_regions(s.take(i)) + if s[i] is Owned {
            1nat
        } else {
            0nat
        },
{
    assert(s.take(i + 1).drop_last() =~= s.take(i));
    assert(s.take(i + 1).last() == s[i]);
}

/// Appending one entry raises the owned-region count by one exactly when
/// that entry is owned.
pub proof fn lemma_owned_regions_push(s: Seq<EntryModel>, e: EntryModel)
    ensures
        owned_regions(s.push(e)) == owned_regions(s) + if e is Owned {
            1nat
        } else {
            0nat
        },
{
    assert(s.push(e).drop_last() =~= s);
    assert(s.push(e).last() == e);
}

/// Owned regions add up over concatenation.
pub proof fn lemma_owned_regions_concat(a: Seq<EntryModel>, b: Seq<EntryModel>)
    ensures
        owned_regions(a + b) == owned_regions(a) + owned_regions(b),
    decreases b.len(),
{
    if b.len() == 0 {
        assert(a + b =~= a);
    } else {
        lemma_owned_regions_concat(a, b.drop_last());
        assert((a + b).drop_last() =~= a + b.drop_last());
        assert((a + b).last() == b.last());
    }
}

/// Law: insertions preserve insertion order.  In whatever order borrowed
/// and owned insertions are mixed, the accumulated descriptor sequence is
/// the initial one followed by each operation's two entries, in operation
/// order.
pub proof fn lemma_insertion_order(init: Seq<EntryModel>, ops: Seq<InsertOp>)
    ensures
        apply_ops(init, ops) == init + entries_of_ops(ops),
    decreases ops.len(),
{
    if ops.len() == 0 {
        assert(apply_ops(init, ops) =~= init + entries_of_ops(ops));
    } else {
        lemma_insertion_order(init + op_entries(ops.first()), ops.drop_first());
        assert((init + op_entries(ops.first())) + entries_of_ops(ops.drop_first())
            =~= init + (op_entries(ops.first()) + entries_of_ops(ops.drop_first())));
    }
}

/// Law: a sequence of N insertions through the owned-string variants, run
/// on an empty builder, puts exactly 2N owned regions in the list — N
/// pairs' worth — so the release pass frees exactly 2N regions: no leak,
/// no double release.
pub proof fn lemma_owned_insertions_count(ops: Seq<InsertOp>)
    requires
        forall|i: int| 0 <= i < ops.len()
            ==> (#[trigger] ops[i]) is OwnedPair || ops[i] is OwnedFlag,
    ensures
        owned_regions(entries_of_ops(ops)) == 2 * ops.len(),
        owned_regions(apply_ops(Seq::empty(), ops)) == 2 * ops.len(),
    decreases ops.len(),
{
    lemma_insertion_order(Seq::empty(), ops);
    assert(apply_ops(Seq::empty(), ops) =~= entries_of_ops(ops));
    if ops.len() > 0 {
        let head = op_entries(ops.first());
        assert(ops[0] is OwnedPair || ops[0] is OwnedFlag);
        let e0 = head[0];
        let e1 = head[1];
        assert(head =~= Seq::<EntryModel>::empty().push(e0).push(e1));
        lemma_owned_regions_push(Seq::<EntryModel>::empty(), e0);
        lemma_owned_regions_push(Seq::<EntryModel>::empty().push(e0), e1);
        assert(owned_regions(head) == 2);
        assert forall|i: int| 0 <= i < ops.drop_first().len()
            implies ((#[trigger] ops.drop_first()[i]) is OwnedPair
                || ops.drop_first()[i] is OwnedFlag) by {
            assert(ops.drop_first()[i] == ops[i + 1]);
            assert(ops[i + 1] is OwnedPair || ops[i + 1] is OwnedFlag);
        }
        lemma_owned_insertions_count(ops.drop_first());
        lemma_owned_regions_concat(head, entries_of_ops(ops.drop_first()));
    }
}

/// Law: every insertion keeps the builder's pairing invariant — the entry
/// count stays even and every even position holds a well-formed name.
pub proof fn lemma_wf_preserved(s: Seq<EntryModel>, op: InsertOp)
    requires
        wf_entries(s),
        op_wf(op),
    ensures
        wf_entries(s + op_entries(op)),
{
    let t = s + op_entries(op);
    assert(t.len() == s.len() + 2);
    assert(t[s.len() as int] == op_entries(op)[0]);
    assert(is_name_entry(op_entries(op)[0]));
    assert forall|i: int| 0 <= i < t.len() && i % 2 == 0 implies is_name_entry(#[trigger] t[i]) by {
        if i < s.len() {
            assert(t[i] == s[i]);
        } else {
            assert(i == s.len());
        }
    }
}

} // verus!
