use amvideo::controller::{required_entry_points, AmVideo};
use amvideo::layout::{push_u16_le, push_u32_le, CONTEXT_SIZE, SETTING_SIZE};
use amvideo::library_handle::LibraryHandle;
use amvideo::{
    AmVideoContext, AmVideoMode, AmVideoResolution, AmVideoSetting, ControllerState,
    NativeCallError, VersionError,
};

fn resolution(width: u16, height: u16) -> AmVideoResolution {
    AmVideoResolution { width, height }
}

fn sample_setting() -> AmVideoSetting {
    AmVideoSetting {
        version: 1,
        use_segatiming: 1,
        mode: AmVideoMode::Single,
        resolution_1: resolution(1920, 1080),
        resolution_2: resolution(1920, 1080),
    }
}

fn assembled() -> AmVideo {
    let lib = LibraryHandle::new(0x1000);
    AmVideo::assemble(lib, Ok(0x11), Ok(0x12), Ok(0x13), Ok(0x14)).unwrap()
}

#[test]
fn setting_image_is_exactly_twenty_bytes() {
    let bytes = sample_setting().encode();
    assert_eq!(bytes.len(), SETTING_SIZE);
    assert_eq!(bytes.len(), 20);
    assert_eq!(
        bytes,
        vec![
            1, 0, 0, 0, // version
            1, 0, 0, 0, // use_segatiming
            0, 0, 0, 0, // mode Single
            0x80, 0x07, 0x38, 0x04, // 1920 x 1080
            0x80, 0x07, 0x38, 0x04, // 1920 x 1080
        ]
    );
}

#[test]
fn context_image_is_exactly_one_kilobyte() {
    let ctx = AmVideoContext::new_zeroed();
    let bytes = ctx.encode();
    assert_eq!(bytes.len(), CONTEXT_SIZE);
    assert_eq!(bytes.len(), 1024);
    assert_eq!(&bytes[..4], &[1, 0, 0, 0]);
    assert!(bytes[4..].iter().all(|&b| b == 0));
}

#[test]
fn mode_codes_keep_their_gaps() {
    assert_eq!(AmVideoMode::Single.code(), 0);
    assert_eq!(AmVideoMode::CloneVideoMode.code(), 1);
    assert_eq!(AmVideoMode::DualVideoMode.code(), 4);
}

#[test]
fn little_endian_encoders_exact_values() {
    let mut out: Vec<u8> = Vec::new();
    push_u16_le(&mut out, 0x0780);
    assert_eq!(out, vec![0x80, 0x07]);
    let mut out: Vec<u8> = Vec::new();
    push_u32_le(&mut out, 0xDEADBEEF);
    assert_eq!(out, vec![0xEF, 0xBE, 0xAD, 0xDE]);
    let mut out: Vec<u8> = Vec::new();
    push_u32_le(&mut out, 1);
    assert_eq!(out, vec![1, 0, 0, 0]);
}

#[test]
fn default_resolution_is_zero() {
    let r = AmVideoResolution::default();
    assert_eq!(r.width, 0);
    assert_eq!(r.height, 0);
}

#[test]
fn load_failure_keeps_path_and_os_code() {
    let r = LibraryHandle::from_load_result("amVideo.dll", 0, 126);
    let e = r.err().unwrap();
    assert_eq!(e.path, "amVideo.dll");
    assert_eq!(e.os_code, 126);
}

#[test]
fn load_success_wraps_the_handle() {
    assert!(LibraryHandle::from_load_result("amVideo.dll", 0x4000, 0).is_ok());
}

#[test]
fn symbol_lookup_failure_names_the_symbol() {
    let lib = LibraryHandle::new(0x4000);
    let r = lib.get_func_named_ordinal("amDllVideoOpen", 1, 0, 127);
    let e = r.err().unwrap();
    assert_eq!(e.name(), "amDllVideoOpen");
    assert_eq!(e.os_code, 127);
    let ok = lib.get_func_named_ordinal("amDllVideoOpen", 1, 0x2222, 0);
    assert_eq!(ok.ok(), Some(0x2222));
}

#[test]
fn release_is_exactly_once() {
    let mut lib = LibraryHandle::new(0x4000);
    assert!(lib.release());
    assert!(!lib.release());
    assert!(!lib.release());
    let mut empty = LibraryHandle::new(0);
    assert!(!empty.release());
}

#[test]
fn required_entry_points_table() {
    let table = required_entry_points();
    let expected = vec![
        ("amDllVideoOpen", 1),
        ("amDllVideoClose", 2),
        ("amDllVideoSetResolution", 3),
        ("amDllVideoGetVBiosVersion", 4),
    ];
    assert_eq!(table, expected);
}

#[test]
fn construction_error_lists_every_missing_symbol() {
    let lib = LibraryHandle::new(0x1000);
    let missing_close = lib
        .get_func_named_ordinal("amDllVideoClose", 2, 0, 127)
        .err()
        .unwrap();
    let missing_version = lib
        .get_func_named_ordinal("amDllVideoGetVBiosVersion", 4, 0, 127)
        .err()
        .unwrap();
    let r = AmVideo::assemble(lib, Ok(0x11), Err(missing_close), Ok(0x13), Err(missing_version));
    let e = r.err().unwrap();
    assert_eq!(e.missing, vec!["amDllVideoClose", "amDllVideoGetVBiosVersion"]);
}

#[test]
fn successful_construction_starts_constructed() {
    let c = assembled();
    assert_eq!(c.current_state(), ControllerState::Constructed);
    let funcs = c.function_table();
    assert_eq!(funcs.video_open, 0x11);
    assert_eq!(funcs.video_close, 0x12);
    assert_eq!(funcs.video_set_resolution, 0x13);
    assert_eq!(funcs.video_get_v_bios_version, 0x14);
    assert_eq!(c.context_image().len(), 1024);
}

#[test]
fn open_failure_preserves_code_and_state() {
    let mut c = assembled();
    let r = c.open(57);
    assert_eq!(r, Err(NativeCallError(57)));
    assert_eq!(c.current_state(), ControllerState::Constructed);
    assert_eq!(c.open(0), Ok(()));
    assert_eq!(c.current_state(), ControllerState::Opened);
}

#[test]
fn set_resolution_passes_code_through() {
    let mut c = assembled();
    c.open(0).unwrap();
    let setting = sample_setting();
    assert_eq!(c.set_resolution(&setting, 0), Ok(()));
    assert_eq!(c.set_resolution(&setting, 33), Err(NativeCallError(33)));
    // the record is untouched and reusable
    assert_eq!(setting, sample_setting());
    assert_eq!(c.current_state(), ControllerState::Opened);
}

#[test]
fn vbios_version_truncates_at_first_zero() {
    let c = assembled();
    let mut buf = AmVideo::vbios_buffer();
    assert_eq!(buf.len(), 255);
    assert!(buf.iter().all(|&b| b == 0));
    buf[0] = b'1';
    buf[1] = b'.';
    buf[2] = b'2';
    buf[3] = b'3';
    let v = c.get_vbios_version(0, &buf).unwrap();
    assert_eq!(v, "1.23");
}

#[test]
fn vbios_version_without_zero_uses_whole_buffer() {
    let c = assembled();
    let buf = vec![b'9'; 255];
    let v = c.get_vbios_version(0, &buf).unwrap();
    assert_eq!(v.len(), 255);
    assert!(v.chars().all(|ch| ch == '9'));
}

#[test]
fn vbios_version_native_failure_keeps_code() {
    let c = assembled();
    let buf = AmVideo::vbios_buffer();
    assert_eq!(c.get_vbios_version(7, &buf), Err(VersionError::Native(7)));
}

#[test]
fn vbios_version_invalid_text_is_a_decode_error() {
    let c = assembled();
    let mut buf = AmVideo::vbios_buffer();
    buf[0] = 0xFF;
    buf[1] = 0xFE;
    buf[2] = 0xFD;
    assert_eq!(c.get_vbios_version(0, &buf), Err(VersionError::Decode));
}

#[test]
fn close_reports_diagnostic_never_an_error() {
    let mut c = assembled();
    c.open(0).unwrap();
    let diag = c.close(3);
    assert_eq!(diag, Some(3));
    assert_eq!(c.current_state(), ControllerState::Closed);

    let mut c = assembled();
    let diag = c.close(0);
    assert_eq!(diag, None);
    assert_eq!(c.current_state(), ControllerState::Closed);
}

#[test]
fn logging_patch_is_the_two_known_offsets() {
    let patch = amvideo::controller::logging_patch_locations();
    assert_eq!(patch, vec![(0x505D4, 1), (0x505D8, 1)]);
}

#[test]
fn end_to_end_protocol() {
    // construct with a valid module handle and all four symbols resolved
    let lib = LibraryHandle::from_load_result("amVideo.dll", 0x7000, 0).unwrap();
    let mut open_fn = None;
    let mut close_fn = None;
    let mut set_resolution_fn = None;
    let mut get_vbios_fn = None;
    for (i, (name, ordinal)) in required_entry_points().into_iter().enumerate() {
        let resolved = lib.get_func_named_ordinal(name, ordinal, 0x100 + i, 0);
        match ordinal {
            1 => open_fn = Some(resolved),
            2 => close_fn = Some(resolved),
            3 => set_resolution_fn = Some(resolved),
            _ => get_vbios_fn = Some(resolved),
        }
    }
    let mut c = AmVideo::assemble(
        lib,
        open_fn.unwrap(),
        close_fn.unwrap(),
        set_resolution_fn.unwrap(),
        get_vbios_fn.unwrap(),
    )
    .unwrap();
    assert_eq!(c.current_state(), ControllerState::Constructed);

    // open succeeds
    assert_eq!(c.open(0), Ok(()));
    assert_eq!(c.current_state(), ControllerState::Opened);

    // set the documented resolution
    assert_eq!(c.set_resolution(&sample_setting(), 0), Ok(()));

    // the version query yields a non-empty ASCII string
    let mut buf = AmVideo::vbios_buffer();
    for (i, b) in b"04.22.17".iter().enumerate() {
        buf[i] = *b;
    }
    let version = c.get_vbios_version(0, &buf).unwrap();
    assert!(!version.is_empty());
    assert!(version.is_ascii());
    assert_eq!(version, "04.22.17");

    // teardown: close exactly once, then the module is freed exactly once
    assert_eq!(c.close(0), None);
    assert_eq!(c.current_state(), ControllerState::Closed);
    assert!(c.release_module());
    assert!(!c.release_module());
}
