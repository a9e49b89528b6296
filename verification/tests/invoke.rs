use nmount::flags::{MntFlag, MntFlags};
use nmount::invoke::{new_diag_buffer, DIAG_CAPACITY};
use nmount::options::{Nmount, OptionEntry};

fn diag_with(text: &[u8]) -> Vec<u8> {
    let mut diag = new_diag_buffer();
    diag[..text.len()].copy_from_slice(text);
    diag
}

#[test]
fn prepare_appends_reserved_diagnostic_name() {
    let mut b: Nmount = Nmount::new();
    b.str_opt_owned(b"fstype", b"nullfs");
    let req = b.prepare(MntFlags::from_flag(MntFlag::Rdonly));
    assert_eq!(req.errmsg_name.as_slice(), b"errmsg\0");
    assert_eq!(req.flags.bits(), 0x1);
    assert_eq!(req.opts.len(), 2);
}

#[test]
fn prepare_with_empty_flags_has_no_modifiers() {
    let b: Nmount = Nmount::new();
    let req = b.prepare(MntFlags::empty());
    assert_eq!(req.flags.bits(), 0);
}

#[test]
fn diag_buffer_is_zeroed_at_capacity() {
    let diag = new_diag_buffer();
    assert_eq!(diag.len(), DIAG_CAPACITY);
    assert!(diag.iter().all(|b| *b == 0));
}

#[test]
fn successful_call_is_ok_and_ignores_diagnostics() {
    let mut b: Nmount = Nmount::new();
    b.str_opt_owned(b"fstype", b"nullfs");
    b.str_opt_owned(b"fspath", b"/mnt/a");
    b.str_opt_owned(b"target", b"/mnt/b");
    let req = b.prepare(MntFlags::empty());
    assert_eq!(req.owned_count(), 6);
    // even a kernel that left text in the buffer yields plain success
    let diag = diag_with(b"already mounted\0");
    let r = req.complete(0, 0, &diag);
    assert!(r.is_ok());
}

#[test]
fn failed_call_reports_code_and_diagnostic_text() {
    let mut b: Nmount = Nmount::new();
    b.str_opt_owned(b"fstype", b"nullfs");
    b.str_opt_owned(b"fspath", b"/mnt/a");
    b.str_opt_owned(b"target", b"/mnt/b");
    let req = b.prepare(MntFlags::empty());
    let diag = diag_with(b"already mounted\0");
    let err = req.complete(-1, 16, &diag).unwrap_err();
    assert_eq!(err.error(), 16);
    assert_eq!(err.errmsg(), Some("already mounted"));
}

#[test]
fn failed_call_with_untouched_buffer_has_no_text() {
    let b: Nmount = Nmount::new();
    let req = b.prepare(MntFlags::empty());
    let diag = new_diag_buffer();
    let err = req.complete(-1, 22, &diag).unwrap_err();
    assert_eq!(err.error(), 22);
    assert_eq!(err.errmsg(), None);
}

#[test]
fn failed_call_without_terminator_has_no_text() {
    let diag = vec![0xffu8; DIAG_CAPACITY];
    let b: Nmount = Nmount::new();
    let req = b.prepare(MntFlags::empty());
    let err = req.complete(-1, 5, &diag).unwrap_err();
    assert_eq!(err.errmsg(), None);
}

#[test]
fn diagnostic_text_stops_at_first_terminator() {
    let b: Nmount = Nmount::new();
    let req = b.prepare(MntFlags::empty());
    let diag = diag_with(b"first\0second\0");
    let err = req.complete(-3, 1, &diag).unwrap_err();
    assert_eq!(err.errmsg(), Some("first"));
}

#[test]
fn diagnostic_text_is_decoded_lossily() {
    let b: Nmount = Nmount::new();
    let req = b.prepare(MntFlags::empty());
    let diag = diag_with(&[0xff, b'A', 0]);
    let err = req.complete(-1, 9, &diag).unwrap_err();
    assert_eq!(err.errmsg(), Some("\u{fffd}A"));
}

#[test]
fn request_keeps_raw_regions_verbatim() {
    let mut b = Nmount::new();
    let addr: usize = 0x7fff_0000;
    b.mut_ptr_opt(b"flags\0", addr, core::mem::size_of::<u32>());
    let req = b.prepare(MntFlags::empty());
    match &req.opts[1] {
        OptionEntry::Raw(base, len) => {
            assert_eq!(*base, addr);
            assert_eq!(*len, 4);
        }
        _ => panic!("the value entry should be a raw region"),
    }
    let diag = new_diag_buffer();
    assert!(req.complete(1, 0, &diag).is_ok());
}
