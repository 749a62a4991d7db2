use fceux::Error;
use fceux::ErrorKind;
use fceux::MemoryDomain;
use fceux::check_path;
use fceux::frame_height;
use fceux::frame_pixel_count;
use fceux::frame_width;
use fceux::status_to_result;

#[test]
fn status_zero_is_failure() {
    let e = status_to_result(0, ErrorKind::LoadFailed).err().unwrap();
    assert_eq!(e.kind(), ErrorKind::LoadFailed);
}

#[test]
fn status_nonzero_is_success() {
    assert!(status_to_result(1, ErrorKind::SaveFailed).is_ok());
    assert!(status_to_result(-1, ErrorKind::SaveFailed).is_ok());
    assert!(status_to_result(123, ErrorKind::SaveFailed).is_ok());
}

#[test]
fn status_carries_each_failure_kind() {
    for kind in [
        ErrorKind::AlreadyActive,
        ErrorKind::InvalidPath,
        ErrorKind::InitFailed,
        ErrorKind::LoadFailed,
        ErrorKind::SaveFailed,
        ErrorKind::UnsupportedFrequency,
    ] {
        let e = status_to_result(0, kind).err().unwrap();
        assert_eq!(e.kind(), kind);
    }
}

#[test]
fn error_reports_its_kind() {
    let e = Error::new(ErrorKind::UnsupportedFrequency);
    assert_eq!(e.kind(), ErrorKind::UnsupportedFrequency);
}

#[test]
fn path_plain_utf8_accepted() {
    assert!(check_path(Some(b"roms/smb.nes".as_slice())).is_ok());
}

#[test]
fn path_empty_accepted() {
    // An empty path converts to the native encoding; the native core
    // decides what to make of it.
    assert!(check_path(Some(b"".as_slice())).is_ok());
}

#[test]
fn path_not_unicode_rejected() {
    let e = check_path(None).err().unwrap();
    assert_eq!(e.kind(), ErrorKind::InvalidPath);
}

#[test]
fn path_interior_nul_rejected() {
    let e = check_path(Some(b"roms\0smb.nes".as_slice())).err().unwrap();
    assert_eq!(e.kind(), ErrorKind::InvalidPath);
    let e = check_path(Some(b"\0".as_slice())).err().unwrap();
    assert_eq!(e.kind(), ErrorKind::InvalidPath);
}

#[test]
fn nul_scan_on_bytes() {
    assert!(fceux::bytes_nul_free(b"abc".as_slice()));
    assert!(fceux::bytes_nul_free(b"".as_slice()));
    assert!(!fceux::bytes_nul_free(b"a\0c".as_slice()));
    assert!(!fceux::bytes_nul_free(b"\0".as_slice()));
}

#[test]
fn frame_geometry() {
    assert_eq!(frame_width(), 256);
    assert_eq!(frame_height(), 240);
    assert_eq!(frame_pixel_count(), 256 * 240);
    assert_eq!(frame_pixel_count(), 61440);
}

#[test]
fn cpu_domain_native_tag() {
    assert_eq!(MemoryDomain::Cpu.native_code(), 0);
}
