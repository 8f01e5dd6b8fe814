use mullvad_core::management::{
    socket_mode, CUSTOM_LIST_LIST_EXISTS_DETAILS, CUSTOM_LIST_LIST_NAME_TOO_LONG_DETAILS,
    CUSTOM_LIST_LIST_NOT_FOUND_DETAILS,
};

#[test]
fn socket_is_closed_to_others_when_it_has_a_group() {
    assert_eq!(0o760, socket_mode(true));
    assert_eq!(0o766, socket_mode(false));
}

#[test]
fn error_details_are_fixed() {
    assert_eq!(b"custom_list_list_not_found", CUSTOM_LIST_LIST_NOT_FOUND_DETAILS.as_bytes());
    assert_eq!(b"custom_list_list_exists", CUSTOM_LIST_LIST_EXISTS_DETAILS.as_bytes());
    assert_eq!(
        b"custom_list_list_name_too_long",
        CUSTOM_LIST_LIST_NAME_TOO_LONG_DETAILS.as_bytes()
    );
}
