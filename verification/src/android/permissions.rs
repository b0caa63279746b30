//! Runtime permissions.
use vstd::prelude::*;

verus! {

pub const POST_NOTIFICATIONS: &'static str = "android.permission.POST_NOTIFICATIONS";
pub const READ_EXTERNAL_STORAGE: &'static str = "android.permission.READ_EXTERNAL_STORAGE";
pub const WRITE_EXTERNAL_STORAGE: &'static str = "android.permission.WRITE_EXTERNAL_STORAGE";
pub const MANAGE_EXTERNAL_STORAGE: &'static str = "android.permission.MANAGE_EXTERNAL_STORAGE";
/// Granular media permissions replacing `READ_EXTERNAL_STORAGE` on API 33+.
pub const READ_MEDIA_IMAGES: &'static str = "android.permission.READ_MEDIA_IMAGES";
pub const READ_MEDIA_VIDEO: &'static str = "android.permission.READ_MEDIA_VIDEO";
pub const READ_MEDIA_AUDIO: &'static str = "android.permission.READ_MEDIA_AUDIO";
pub const CAMERA: &'static str = "android.permission.CAMERA";
pub const RECORD_AUDIO: &'static str = "android.permission.RECORD_AUDIO";
pub const ACCESS_FINE_LOCATION: &'static str = "android.permission.ACCESS_FINE_LOCATION";
pub const ACCESS_COARSE_LOCATION: &'static str = "android.permission.ACCESS_COARSE_LOCATION";
pub const ACCESS_NETWORK_STATE: &'static str = "android.permission.ACCESS_NETWORK_STATE";

/// `PackageManager.PERMISSION_GRANTED`.
pub const PERMISSION_GRANTED: i32 = 0;

/// Whether `Activity.checkSelfPermission` answered that the permission is granted.
pub fn is_granted_result(check: i32) -> (r: bool)
    ensures
        r == (check == PERMISSION_GRANTED),
{
    check == PERMISSION_GRANTED
}

/// Whether a permission request goes to the system at all: an empty request returns at
/// once, before the context is even looked at.
pub fn request_needed(permission_count: usize) -> (r: bool)
    ensures
        r == (permission_count > 0),
{
    permission_count > 0
}

} // verus!
