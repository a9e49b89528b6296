//! Finalizing an option list into one mount request and interpreting the
//! raw outcome of the issued call.
//!
//! Finalization consumes the builder, appends the reserved diagnostic pair
//! — the fixed name `errmsg` and a zero-initialized output buffer the
//! kernel may write an error text into — and hands the descriptor list to
//! the platform code that issues the call.  The outcome comes back as the
//! call's return value, the thread's error code, and the buffer's content;
//! interpreting it consumes the request, releasing every owned region
//! exactly once whether the call succeeded or failed.

use vstd::prelude::*;
use vstd::slice::slice_subrange;
use vstd::utf8::decode_utf8;
use vstd::utf8::valid_utf8;
use crate::flags::MntFlags;
use crate::options::models_of;
use crate::options::release_owned;
use crate::options::Nmount;
use crate::options::OptionEntry;

verus! {

/// The fixed capacity of the diagnostic output buffer.
pub const DIAG_CAPACITY: usize = 255;

/// The bytes of the reserved diagnostic pair's name: `errmsg`, terminated.
pub open spec fn errmsg_name_bytes() -> Seq<u8> {
    seq![0x65u8, 0x72, 0x72, 0x6d, 0x73, 0x67, 0]
}

/// What `String::from_utf8_lossy` returns for the given bytes; a function
/// of the bytes alone.
pub uninterp spec fn lossy_decoded(bytes: Seq<u8>) -> Seq<char>;

/// Relies on `String::from_utf8_lossy`: its result depends on the bytes
/// alone, and valid UTF-8 input decodes to exactly its own decoding.
#[verifier::external_body]
fn utf8_lossy(bytes: &[u8]) -> (r: String)
    ensures
        r@ == lossy_decoded(bytes@),
        valid_utf8(bytes@) ==> r@ == decode_utf8(bytes@),
{
    String::from_utf8_lossy(bytes).into_owned()
}

/// Whether position `i` holds the buffer's first null byte.
pub open spec fn is_first_nul(s: Seq<u8>, i: int) -> bool {
    &&& 0 <= i < s.len()
    &&& s[i] == 0
    &&& forall|j: int| 0 <= j < i ==> s[j] != 0
}

/// Where the buffer's first null byte stands.
pub open spec fn first_nul_index(s: Seq<u8>) -> int {
    choose|i: int| is_first_nul(s, i)
}

/// At most one position holds the first null byte.
pub proof fn lemma_first_nul_unique(s: Seq<u8>, i: int)
    requires
        is_first_nul(s, i),
    ensures
        first_nul_index(s) == i,
{
    assert(is_first_nul(s, first_nul_index(s)));
    let k = first_nul_index(s);
    if k < i {
        assert(s[k] != 0);
    }
    if i < k {
        assert(s[i] != 0);
    }
}

/// The diagnostic text a failing call yields from the buffer: absent when
/// the leading byte is null — the kernel wrote nothing — or when no null
/// terminator exists at all; otherwise the bytes before the first null
/// terminator, decoded lossily.
pub open spec fn diag_message(diag: Seq<u8>) -> Option<Seq<char>> {
    if diag.len() == 0 || diag[0] == 0 || !diag.contains(0u8) {
        None
    } else {
        Some(lossy_decoded(diag.take(first_nul_index(diag))))
    }
}

/// The structured failure of a finalizing mount call: the error code the
/// kernel left, and the optional diagnostic text it wrote.
#[derive(Debug)]
pub struct NmountError {
    errno: i32,
    errmsg: Option<String>,
}

/// Result type of a finalized mount call.
pub type NmountResult = Result<(), NmountError>;

impl NmountError {
    /// The error code carried by the failure.
    pub closed spec fn spec_error(&self) -> i32 {
        self.errno
    }

    /// The diagnostic text carried by the failure, if the kernel wrote one.
    pub closed spec fn spec_errmsg(&self) -> Option<Seq<char>> {
        match self.errmsg {
            Some(s) => Some(s@),
            None => None,
        }
    }

    /// The additional diagnostic string the kernel sometimes writes on a
    /// failed mount call.
    pub fn errmsg(&self) -> (r: Option<&str>)
        ensures
            r is Some <==> self.spec_errmsg() is Some,
            r is Some ==> r->0@ == self.spec_errmsg()->0,
    {
        match &self.errmsg {
            Some(s) => Some(s.as_str()),
            None => None,
        }
    }

    /// The inner error code.
    pub fn error(&self) -> (r: i32)
        ensures
            r == self.spec_error(),
    {
        self.errno
    }

    /// Pack an error code and an optional diagnostic into a report.
    fn new(errno: i32, errmsg: Option<String>) -> (r: NmountError)
        ensures
            r.spec_error() == errno,
            r.spec_errmsg() is Some <==> errmsg is Some,
            errmsg is Some ==> r.spec_errmsg()->0 == errmsg->0@,
    {
        NmountError { errno, errmsg }
    }
}

/// One finalized mount request, ready for the platform code that issues
/// the call.
///
/// The kernel sees the descriptors in this order: every accumulated entry
/// of [`opts`](Self::opts), then the reserved name
/// [`errmsg_name`](Self::errmsg_name), then the diagnostic output buffer
/// (a zero-initialized region of [`DIAG_CAPACITY`] bytes, held by the
/// issuer for the kernel to write into).
pub struct MountRequest<'a> {
    /// The accumulated option entries, in insertion order.
    pub opts: Vec<OptionEntry<'a>>,
    /// The reserved diagnostic pair's name.  Local to the request — freed
    /// with it by scope exit, never by the owned-release pass.
    pub errmsg_name: Vec<u8>,
    /// The flag bits the call is issued with.
    pub flags: MntFlags,
}

impl<'a> Nmount<'a> {
    /// Finalize the builder into one mount request, consuming it: the
    /// accumulated entries keep their order, the reserved diagnostic name
    /// is appended, and the given flags — and no others — are attached.
    pub fn prepare(self, flags: MntFlags) -> (req: MountRequest<'a>)
        ensures
            models_of(req.opts@) == self@,
            req.errmsg_name@ == errmsg_name_bytes(),
            req.flags == flags,
    {
        MountRequest { opts: self.into_entries(), errmsg_name: errmsg_name_vec(), flags }
    }
}

impl<'a> MountRequest<'a> {
    /// Interpret the outcome of the issued call, consuming the request and
    /// releasing every owned region exactly once whatever the outcome.
    ///
    /// `ret` is the call's return value and `errno_code` the calling
    /// thread's error code right after it; `diag` is the diagnostic
    /// buffer's content after the call.  A non-negative return is success,
    /// and the result then consults no diagnostic content; a negative
    /// return yields the structured report: the error code, and the
    /// buffer's text exactly when its first byte is non-null.
    pub fn complete(self, ret: i32, errno_code: i32, diag: &[u8]) -> (r: NmountResult)
        requires
            diag@.len() == DIAG_CAPACITY,
        ensures
            ret >= 0 ==> r == Ok::<(), NmountError>(()),
            ret < 0 ==> r is Err && r->Err_0.spec_error() == errno_code
                && r->Err_0.spec_errmsg() == diag_message(diag@),
    {
        // The single release pass runs before the outcome is examined:
        // success and failure release the same owned regions.
        let _released = release_owned(self.opts);
        if ret >= 0 {
            Ok(())
        } else {
            let errmsg = read_diag(diag);
            let report = NmountError::new(errno_code, errmsg);
            proof {
                assert(report.spec_errmsg() == diag_message(diag@));
            }
            Err(report)
        }
    }

    /// How many of the request's regions are owned: what
    /// [`complete`](Self::complete) will release.
    pub fn owned_count(&self) -> (r: usize)
        ensures
            r == crate::options::owned_regions(models_of(self.opts@)),
    {
        let mut count: usize = 0;
        let n = self.opts.len();
        let mut i: usize = 0;
        proof {
            assert(models_of(self.opts@).take(0) =~= Seq::<crate::options::EntryModel>::empty());
        }
        while i < n
            invariant
                0 <= i <= n,
                n == self.opts@.len(),
                count == crate::options::owned_regions(models_of(self.opts@).take(i as int)),
                count <= i,
            decreases n - i,
        {
            proof {
                crate::options::lemma_owned_regions_take_step(models_of(self.opts@), i as int);
            }
            if let OptionEntry::Owned(_buf) = &self.opts[i] {
                count = count + 1;
            }
            i = i + 1;
        }
        proof {
            assert(models_of(self.opts@).take(n as int) =~= models_of(self.opts@));
        }
        count
    }
}

/// The reserved diagnostic pair's name, as owned bytes.
fn errmsg_name_vec() -> (v: Vec<u8>)
    ensures
        v@ == errmsg_name_bytes(),
{
    let mut v: Vec<u8> = Vec::new();
    v.push(0x65);
    v.push(0x72);
    v.push(0x72);
    v.push(0x6d);
    v.push(0x73);
    v.push(0x67);
    v.push(0);
    proof {
        assert(v@ =~= errmsg_name_bytes());
    }
    v
}

/// A fresh, zero-initialized diagnostic buffer of the fixed capacity, to be
/// held by the issuer as the in/out value of the reserved pair.
pub fn new_diag_buffer() -> (v: Vec<u8>)
    ensures
        v@ == Seq::new(DIAG_CAPACITY as nat, |i: int| 0u8),
{
    let mut v: Vec<u8> = Vec::new();
    let mut i: usize = 0;
    while i < DIAG_CAPACITY
        invariant
            i <= DIAG_CAPACITY,
            v@ =~= Seq::new(i as nat, |j: int| 0u8),
        decreases DIAG_CAPACITY - i,
    {
        v.push(0);
        i = i + 1;
    }
    proof {
        assert(v@ =~= Seq::new(DIAG_CAPACITY as nat, |i: int| 0u8));
    }
    v
}

/// Extract a failed call's diagnostic text from the buffer: `None` if the
/// leading byte is null or no terminator exists; otherwise the bytes before
/// the first null terminator, decoded lossily.
fn read_diag(diag: &[u8]) -> (r: Option<String>)
    ensures
        r is Some <==> diag_message(diag@) is Some,
        r is Some ==> r->0@ == diag_message(diag@)->0,
{
    let n = diag.len();
    if n == 0 {
        return None;
    }
    if diag[0] == 0 {
        return None;
    }
    let mut i: usize = 0;
    while i < n && diag[i] != 0
        invariant
            0 <= i <= n,
            n == diag@.len(),
            forall|j: int| 0 <= j < i ==> diag@[j] != 0,
        decreases n - i,
    {
        i = i + 1;
    }
    if i == n {
        proof {
            assert(!diag@.contains(0u8)) by {
                if diag@.contains(0u8) {
                    let k = choose|k: int| 0 <= k < diag@.len() && diag@[k] == 0u8;
                    assert(diag@[k] != 0);
                }
            }
        }
        None
    } else {
        let prefix = slice_subrange(diag, 0, i);
        let text = utf8_lossy(prefix);
        proof {
            assert(is_first_nul(diag@, i as int));
            lemma_first_nul_unique(diag@, i as int);
            assert(diag@.contains(0u8));
            assert(prefix@ =~= diag@.take(i as int));
        }
        Some(text)
    }
}

} // verus!
