//! Opening URLs and the camera.
use vstd::prelude::*;
use crate::error::BridgeError;

verus! {

/// `Intent.ACTION_VIEW`.
pub const ACTION_VIEW: &'static str = "android.intent.action.VIEW";
/// `MediaStore.ACTION_IMAGE_CAPTURE`.
pub const ACTION_IMAGE_CAPTURE: &'static str = "android.media.action.IMAGE_CAPTURE";
/// Error context when the URL does not parse.
pub const URI_PARSE_NULL: &'static str = "Uri.parse returned null";

/// Whether the parsed URI may be opened: `Uri.parse` giving null is an error.
pub fn check_uri(uri_present: bool) -> (r: Result<(), BridgeError>)
    ensures
        uri_present <==> r is Ok,
        r matches Err(e) ==> e == (BridgeError::NullPointer { context: URI_PARSE_NULL }),
{
    if uri_present {
        Ok(())
    } else {
        Err(BridgeError::NullPointer { context: URI_PARSE_NULL })
    }
}

} // verus!
