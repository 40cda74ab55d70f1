use rawview::{
    attribute_open_status, buffer_shape, error_string, from_raw_os_error, validate_path_bytes,
    Error, OpenStatus, PixelType, Repr, EINVAL, ENGINE_IO_ERROR, ENGINE_SUCCESS, ENOMEM,
};

#[test]
fn it_attributes_success() {
    assert_eq!(OpenStatus::Success, attribute_open_status(ENGINE_SUCCESS, 0));
    assert_eq!(OpenStatus::Success, attribute_open_status(ENGINE_SUCCESS, 2));
}

#[test]
fn it_attributes_the_io_sentinel_to_the_os_when_errno_is_set() {
    assert_eq!(OpenStatus::Os(2), attribute_open_status(ENGINE_IO_ERROR, 2));
}

#[test]
fn it_keeps_the_io_sentinel_as_engine_error_when_errno_is_clear() {
    assert_eq!(
        OpenStatus::Engine(ENGINE_IO_ERROR),
        attribute_open_status(ENGINE_IO_ERROR, 0)
    );
}

#[test]
fn it_attributes_other_statuses_to_the_engine() {
    assert_eq!(OpenStatus::Engine(-2), attribute_open_status(-2, 0));
    assert_eq!(OpenStatus::Engine(-2), attribute_open_status(-2, 5));
}

#[test]
fn it_accepts_paths_without_nul_bytes() {
    assert!(validate_path_bytes(b"tests/data/image.raw").is_ok());
    assert!(validate_path_bytes(b"").is_ok());
}

#[test]
fn it_rejects_paths_with_embedded_nul_bytes() {
    let error = validate_path_bytes(b"bad\0path").unwrap_err();
    assert!(matches!(error.repr, Repr::Os(e) if e == EINVAL));
    let error = validate_path_bytes(b"\0").unwrap_err();
    assert!(matches!(error.repr, Repr::Os(e) if e == EINVAL));
}

#[test]
fn it_resolves_os_messages_eagerly() {
    let error = from_raw_os_error(2);
    assert!(matches!(error.repr, Repr::Os(2)));
    assert!(error.description().contains("such file"));
    let error = from_raw_os_error(EINVAL);
    assert!(error.description().to_lowercase().contains("invalid argument"));
    let error = from_raw_os_error(ENOMEM);
    assert!(!error.description().is_empty());
}

#[test]
fn it_renders_the_embedded_message_only() {
    let error = Error::engine(-2, String::from("Unsupported file format or not RAW file"));
    assert!(matches!(error.repr, Repr::Engine(-2)));
    assert_eq!("Unsupported file format or not RAW file", error.description());
}

#[test]
fn it_describes_error_numbers_as_text() {
    let text = error_string(2);
    assert!(text.contains("such file"));
}

#[test]
fn it_derives_the_buffer_shape_from_presence_flags() {
    assert_eq!(None, buffer_shape(false, false, false, false));
    assert_eq!(None, buffer_shape(false, true, true, true));
    assert_eq!(Some(PixelType::Raw), buffer_shape(true, true, false, false));
    assert_eq!(Some(PixelType::Color3), buffer_shape(true, false, true, false));
    assert_eq!(Some(PixelType::Color4), buffer_shape(true, false, false, true));
    assert_eq!(Some(PixelType::Raw), buffer_shape(true, true, true, true));
}
