//! What the management interface of the daemon fixes for both of its
//! sides: the details that tell its errors apart, which go over the wire as
//! the bytes of these texts, and who may talk to its socket.

use vstd::prelude::*;

verus! {

/// The detail of the error of a custom list that does not exist.
pub const CUSTOM_LIST_LIST_NOT_FOUND_DETAILS: &'static str = "custom_list_list_not_found";

/// The detail of the error of a custom list whose name is taken.
pub const CUSTOM_LIST_LIST_EXISTS_DETAILS: &'static str = "custom_list_list_exists";

/// The detail of the error of a custom list whose name is too long.
pub const CUSTOM_LIST_LIST_NAME_TOO_LONG_DETAILS: &'static str = "custom_list_list_name_too_long";

/// The mode of a socket that belongs to a group: the owner may do
/// everything, the group may read and write, others nothing.
pub const GROUP_SOCKET_MODE: u32 = 0o760;

/// The mode of a socket that belongs to no group: the owner may do
/// everything, everybody else may read and write.
pub const OPEN_SOCKET_MODE: u32 = 0o766;

/// The mode of the socket, which depends on whether a group is named for
/// it.
pub open spec fn socket_mode_for(has_group: bool) -> u32 {
    if has_group {
        GROUP_SOCKET_MODE
    } else {
        OPEN_SOCKET_MODE
    }
}

/// Picks the mode of the socket. With a group, the socket is handed to the
/// group and closed to others; without one it is open to all users.
pub fn socket_mode(has_group: bool) -> (mode: u32)
    ensures
        mode == socket_mode_for(has_group),
        !has_group ==> mode & 0o006 == 0o006,
        has_group ==> mode & 0o007 == 0,
{
    assert(0o766u32 & 0o006 == 0o006) by (bit_vector);
    assert(0o760u32 & 0o007 == 0) by (bit_vector);
    if has_group {
        GROUP_SOCKET_MODE
    } else {
        OPEN_SOCKET_MODE
    }
}

} // verus!
