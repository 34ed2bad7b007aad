use webp_to_gif::launcher::{payload_dir, payload_layout, read_footer, LauncherError, PayloadLayout};
use webp_to_gif::path::FilePath;

fn packed(launcher: &[u8], app: &[u8], dll: &[u8]) -> Vec<u8> {
    let mut data = launcher.to_vec();
    data.extend_from_slice(app);
    data.extend_from_slice(dll);
    data.extend_from_slice(b"WPGIFPK1");
    data.extend_from_slice(&(app.len() as u64).to_le_bytes());
    data.extend_from_slice(&(dll.len() as u64).to_le_bytes());
    data
}

#[test]
fn footer_records_payload_lengths() {
    let data = packed(b"launcher", b"application", b"dll");
    assert_eq!(read_footer(&data), Ok((11, 3)));
}

#[test]
fn short_data_has_no_footer() {
    assert_eq!(read_footer(&[0u8; 23]), Err(LauncherError::PayloadMissing));
    assert_eq!(read_footer(&[]), Err(LauncherError::PayloadMissing));
}

#[test]
fn launcher_errors_have_messages() {
    assert_eq!(LauncherError::PayloadMissing.message(), "portable payload is missing");
    assert_eq!(LauncherError::PayloadInvalid.message(), "portable payload is invalid");
    assert_eq!(LauncherError::PayloadTruncated.message(), "portable payload is truncated");
}

#[test]
fn footer_needs_magic_bytes() {
    let mut data = packed(b"x", b"app", b"dll");
    let at = data.len() - 24;
    data[at] = b'X';
    assert_eq!(read_footer(&data), Err(LauncherError::PayloadInvalid));
}

#[test]
fn layout_finds_packed_parts() {
    let data = packed(b"launcher", b"application", b"dll");
    let (app_len, dll_len) = read_footer(&data).unwrap();
    let layout = payload_layout(data.len(), app_len, dll_len).unwrap();
    assert_eq!(layout, PayloadLayout { payload_start: 8, dll_start: 19, footer_start: 22 });
    assert_eq!(&data[layout.payload_start..layout.dll_start], b"application");
    assert_eq!(&data[layout.dll_start..layout.footer_start], b"dll");
}

#[test]
fn layout_refuses_truncated_payload() {
    assert_eq!(payload_layout(30, 4, 3), Err(LauncherError::PayloadTruncated));
    assert_eq!(
        payload_layout(31, 4, 3),
        Ok(PayloadLayout { payload_start: 0, dll_start: 4, footer_start: 7 })
    );
}

#[test]
fn payload_folder_is_named_by_hex_lengths() {
    let temp = FilePath { root: "/".to_string(), names: vec!["tmp".to_string()] };
    let dir = payload_dir(&temp, 255, 4096);
    assert_eq!(dir.root, "/");
    assert_eq!(
        dir.names,
        vec!["tmp".to_string(), "webptogif-portable".to_string(), "ff-1000".to_string()]
    );
}

#[test]
fn payloads_of_different_lengths_get_different_folders() {
    let temp = FilePath { root: "/".to_string(), names: vec!["tmp".to_string()] };
    let a = payload_dir(&temp, 0x1, 0x23);
    let b = payload_dir(&temp, 0x12, 0x3);
    assert_eq!(a.names.last().unwrap(), "1-23");
    assert_eq!(b.names.last().unwrap(), "12-3");
    assert_ne!(a.names, b.names);
}
