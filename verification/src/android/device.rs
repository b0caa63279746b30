//! Device and OS information.
use vstd::prelude::*;

verus! {

/// Basic device and OS information read from `android.os.Build`.
pub struct DeviceInfo {
    pub manufacturer: String,
    pub model: String,
    pub android_version: String,
    pub sdk_int: i32,
}

} // verus!
