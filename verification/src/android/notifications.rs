//! Posting notifications.
use vstd::prelude::*;
use crate::error::BridgeError;

verus! {

/// `android.R.drawable.sym_def_app_icon`, the icon used when the app has none.
pub const FALLBACK_ICON: i32 = 0x0108_0017;
/// `NotificationManager.IMPORTANCE_DEFAULT`, the importance of created channels.
pub const CHANNEL_IMPORTANCE: i32 = 3;
/// `Intent.FLAG_ACTIVITY_SINGLE_TOP`.
pub const FLAG_SINGLE_TOP: i32 = 0x2000_0000;
/// `Intent.FLAG_ACTIVITY_CLEAR_TOP`.
pub const FLAG_CLEAR_TOP: i32 = 0x0400_0000;
/// `PendingIntent.FLAG_IMMUTABLE`, required on Android 12+.
pub const FLAG_IMMUTABLE: i32 = 0x0400_0000;
/// Error context when the notification manager is missing.
pub const NO_NOTIFICATION_MANAGER: &'static str = "getSystemService(notification)";
/// The settings screen opened by `open_settings`.
pub const APP_NOTIFICATION_SETTINGS: &'static str = "android.settings.APP_NOTIFICATION_SETTINGS";
/// The extra naming the app on that screen.
pub const EXTRA_APP_PACKAGE: &'static str = "android.provider.extra.APP_PACKAGE";

/// The flags added to the launch intent that a notification opens.
pub fn launch_intent_flags() -> (r: i32)
    ensures
        r == FLAG_SINGLE_TOP | FLAG_CLEAR_TOP,
{
    FLAG_SINGLE_TOP | FLAG_CLEAR_TOP
}

/// After the notification manager was asked for: `None` when
/// `areNotificationsEnabled()` is to be asked next; without a manager notifications count
/// as enabled, so that callers fail open.
pub fn enabled_without_manager(manager_present: bool) -> (r: Option<bool>)
    ensures
        manager_present ==> r is None,
        !manager_present ==> r == Some(true),
{
    if manager_present {
        None
    } else {
        Some(true)
    }
}

/// The answer of `are_enabled` once its calls are made: a JNI error counts as enabled, so
/// that callers fail open; any other error is passed on.
pub fn enabled_result(r: Result<bool, BridgeError>) -> (out: Result<bool, BridgeError>)
    ensures
        r is Ok ==> out == r,
        r matches Err(e) ==> (e is Jni ==> out == Ok::<bool, BridgeError>(true)),
        r matches Err(e) ==> (!(e is Jni) ==> out == r),
{
    match r {
        Ok(b) => Ok(b),
        Err(e) => match e {
            BridgeError::Jni(_) => Ok(true),
            other => Err(other),
        },
    }
}

/// The next step of finding the intent a notification opens when tapped.
#[derive(Debug, Clone, Copy, PartialEq, Eq, Structural)]
pub enum ContentIntentStep {
    /// Add the launch flags to the launch intent and ask `PendingIntent.getActivity`;
    /// answered by whether it is non-null.
    AskPendingIntent,
    /// The notification gets no content intent.
    NoContentIntent,
    /// The pending intent is the notification's content intent.
    UsePendingIntent,
}

/// After `PackageManager.getLaunchIntentForPackage`: without a launch intent there is no
/// content intent.
pub fn content_intent_after_launch_intent(present: bool) -> (r: ContentIntentStep)
    ensures
        present ==> r == ContentIntentStep::AskPendingIntent,
        !present ==> r == ContentIntentStep::NoContentIntent,
{
    if present {
        ContentIntentStep::AskPendingIntent
    } else {
        ContentIntentStep::NoContentIntent
    }
}

/// After `PendingIntent.getActivity`: a null pending intent means no content intent.
pub fn content_intent_after_pending_intent(present: bool) -> (r: ContentIntentStep)
    ensures
        present ==> r == ContentIntentStep::UsePendingIntent,
        !present ==> r == ContentIntentStep::NoContentIntent,
{
    if present {
        ContentIntentStep::UsePendingIntent
    } else {
        ContentIntentStep::NoContentIntent
    }
}

/// The next step of choosing the notification icon.
#[derive(Debug, Clone, Copy, PartialEq, Eq, Structural)]
pub enum IconStep {
    /// Ask `PackageManager.getApplicationInfo(package, 0)`; answered by whether it is non-null.
    AskApplicationInfo,
    /// Ask the `icon` field of the application info; answered by its value.
    AskApplicationIcon,
    /// The icon is chosen.
    Done(i32),
}

/// After `Resources.getIdentifier("ic_launcher", "mipmap", package)`: a found launcher icon is used.
pub fn icon_after_resource(id: i32) -> (r: IconStep)
    ensures
        id != 0 ==> r == IconStep::Done(id),
        id == 0 ==> r == IconStep::AskApplicationInfo,
{
    if id != 0 {
        IconStep::Done(id)
    } else {
        IconStep::AskApplicationInfo
    }
}

/// After the application info was asked for: without it the system icon is used.
pub fn icon_after_application_info(present: bool) -> (r: IconStep)
    ensures
        present ==> r == IconStep::AskApplicationIcon,
        !present ==> r == IconStep::Done(FALLBACK_ICON),
{
    if present {
        IconStep::AskApplicationIcon
    } else {
        IconStep::Done(FALLBACK_ICON)
    }
}

/// After the application icon field: it is used unless it is zero.
pub fn icon_after_application_icon(icon: i32) -> (r: i32)
    ensures
        icon != 0 ==> r == icon,
        icon == 0 ==> r == FALLBACK_ICON,
{
    if icon != 0 {
        icon
    } else {
        FALLBACK_ICON
    }
}

/// The icon chosen: the launcher icon, else the application's icon, else the system icon.
pub open spec fn spec_icon(resource_id: i32, app_info: bool, app_icon: i32) -> i32 {
    if resource_id != 0 {
        resource_id
    } else if app_info && app_icon != 0 {
        app_icon
    } else {
        FALLBACK_ICON
    }
}

/// The three steps choose `spec_icon`, and the icon chosen is never zero.
pub proof fn lemma_icon_choice(resource_id: i32, app_info: bool, app_icon: i32)
    ensures
        spec_icon(resource_id, app_info, app_icon) != 0,
        resource_id != 0 ==> spec_icon(resource_id, app_info, app_icon) == resource_id,
        resource_id == 0 && !app_info ==> spec_icon(resource_id, app_info, app_icon) == FALLBACK_ICON,
{
}

} // verus!
