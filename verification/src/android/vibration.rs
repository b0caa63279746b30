//! Vibration and haptic feedback.
use vstd::prelude::*;
use crate::error::BridgeError;
use crate::text::{append_bool, append_decimal, append_str, bool_text, decimal, string_of};

verus! {

/// `VibrationEffect.EFFECT_HEAVY_CLICK`.
pub const EFFECT_HEAVY_CLICK: i32 = 5;
/// The amplitude used for one-shot vibrations: the maximum, as the default amplitude
/// resolves to near zero on some devices.
pub const AMPLITUDE_MAX: i32 = 255;
/// Length of the one-shot vibration that stands in for a click.
pub const CLICK_FALLBACK_MS: u64 = 50;
/// First SDK with `VibrationEffect.createOneShot`.
pub const SDK_ONE_SHOT: i32 = 26;
/// First SDK with `VibrationEffect.createPredefined`.
pub const SDK_PREDEFINED: i32 = 29;

/// Error context when the device reports no vibrator.
pub const NO_VIBRATOR: &'static str = "hasVibrator() returned false";
/// Error context when the vibrator service is missing.
pub const NO_VIBRATOR_SERVICE: &'static str = "getSystemService(vibrator)";
/// Error context when no predefined effect is given back.
pub const NO_PREDEFINED_EFFECT: &'static str = "VibrationEffect.createPredefined returned null";
/// Error context when no one-shot effect is given back.
pub const NO_ONE_SHOT_EFFECT: &'static str = "VibrationEffect.createOneShot returned null";

/// The vibrator call to make.
#[derive(Debug, Clone, Copy, PartialEq, Eq, Structural)]
pub enum VibrationCall {
    /// `Vibrator.vibrate(VibrationEffect.createPredefined(effect))`
    Predefined(i32),
    /// `Vibrator.vibrate(VibrationEffect.createOneShot(duration_ms, amplitude))`
    OneShot { duration_ms: u64, amplitude: i32 },
    /// `Vibrator.vibrate(duration_ms)`
    Legacy(u64),
}

/// The call for a vibration of `duration_ms` on SDK `sdk`: a one-shot effect from SDK 26 on,
/// the legacy call before.
pub fn vibrate_call(sdk: i32, duration_ms: u64) -> (r: VibrationCall)
    ensures
        sdk >= SDK_ONE_SHOT ==> r == (VibrationCall::OneShot { duration_ms, amplitude: AMPLITUDE_MAX }),
        sdk < SDK_ONE_SHOT ==> r == VibrationCall::Legacy(duration_ms),
{
    if sdk >= SDK_ONE_SHOT {
        VibrationCall::OneShot { duration_ms, amplitude: AMPLITUDE_MAX }
    } else {
        VibrationCall::Legacy(duration_ms)
    }
}

/// The call for a haptic click on SDK `sdk`: the predefined heavy click from SDK 29 on,
/// otherwise a 50 ms vibration.
pub fn click_call(sdk: i32) -> (r: VibrationCall)
    ensures
        sdk >= SDK_PREDEFINED ==> r == VibrationCall::Predefined(EFFECT_HEAVY_CLICK),
        sdk < SDK_PREDEFINED ==> r == vibrate_call_spec(sdk, CLICK_FALLBACK_MS),
{
    if sdk >= SDK_PREDEFINED {
        VibrationCall::Predefined(EFFECT_HEAVY_CLICK)
    } else {
        vibrate_call(sdk, CLICK_FALLBACK_MS)
    }
}

/// The call `vibrate_call` makes.
pub open spec fn vibrate_call_spec(sdk: i32, duration_ms: u64) -> VibrationCall {
    if sdk >= SDK_ONE_SHOT {
        VibrationCall::OneShot { duration_ms, amplitude: AMPLITUDE_MAX }
    } else {
        VibrationCall::Legacy(duration_ms)
    }
}

/// Whether vibrating may go on: a device without a vibrator is an error.
pub fn check_has_vibrator(has_vibrator: bool) -> (r: Result<(), BridgeError>)
    ensures
        has_vibrator <==> r is Ok,
        r matches Err(e) ==> e == (BridgeError::NullPointer { context: NO_VIBRATOR }),
{
    if has_vibrator {
        Ok(())
    } else {
        Err(BridgeError::NullPointer { context: NO_VIBRATOR })
    }
}

/// Whether `hasAmplitudeControl` is asked: only from SDK 26 on (before, it counts as false).
pub fn amplitude_query_needed(sdk: i32) -> (r: bool)
    ensures
        r == (sdk >= SDK_ONE_SHOT),
{
    sdk >= SDK_ONE_SHOT
}

/// How the ringer mode is reported: its name, or its number when it has none.
pub open spec fn ringer_text(mode: i32) -> Seq<char> {
    if mode == 0 {
        "SILENT"@
    } else if mode == 1 {
        "VIBRATE"@
    } else if mode == 2 {
        "NORMAL"@
    } else {
        decimal(mode as int)
    }
}

/// The diagnostic line when the vibrator service is unavailable.
pub open spec fn spec_debug_unavailable(sdk: i32) -> Seq<char> {
    "SDK="@ + decimal(sdk as int) + " vibrator-svc=unavailable"@
}

/// The diagnostic line; `ringer` is `None` when there is no audio service.
pub open spec fn spec_debug_line(sdk: i32, has_vibrator: bool, amp_ctrl: bool, permission_ok: bool, ringer: Option<i32>) -> Seq<char> {
    "SDK="@ + decimal(sdk as int) + " hasVibrator="@ + bool_text(has_vibrator) + " ampCtrl="@ + bool_text(amp_ctrl)
        + " VIBRATE="@ + (if permission_ok { "ok"@ } else { "DENIED!"@ }) + " ringer="@
        + (match ringer { Some(m) => ringer_text(m), None => "?"@ })
}

fn append_ringer(out: &mut Vec<char>, mode: i32)
    ensures
        final(out)@ == old(out)@ + ringer_text(mode),
{
    if mode == 0 {
        append_str(out, "SILENT");
    } else if mode == 1 {
        append_str(out, "VIBRATE");
    } else if mode == 2 {
        append_str(out, "NORMAL");
    } else {
        append_decimal(out, mode as i64);
    }
}

/// The diagnostic line when the vibrator service is unavailable.
pub fn debug_unavailable(sdk: i32) -> (r: String)
    ensures
        r@ == spec_debug_unavailable(sdk),
{
    let mut out: Vec<char> = Vec::new();
    append_str(&mut out, "SDK=");
    append_decimal(&mut out, sdk as i64);
    append_str(&mut out, " vibrator-svc=unavailable");
    assert(out@ =~= spec_debug_unavailable(sdk));
    string_of(&out)
}

/// The diagnostic line: SDK, vibrator presence, amplitude control, the VIBRATE permission
/// and the ringer mode (`?` without an audio service).
pub fn debug_line(sdk: i32, has_vibrator: bool, amp_ctrl: bool, permission_ok: bool, ringer: Option<i32>) -> (r: String)
    ensures
        r@ == spec_debug_line(sdk, has_vibrator, amp_ctrl, permission_ok, ringer),
{
    let mut out: Vec<char> = Vec::new();
    append_str(&mut out, "SDK=");
    append_decimal(&mut out, sdk as i64);
    append_str(&mut out, " hasVibrator=");
    append_bool(&mut out, has_vibrator);
    append_str(&mut out, " ampCtrl=");
    append_bool(&mut out, amp_ctrl);
    append_str(&mut out, " VIBRATE=");
    if permission_ok {
        append_str(&mut out, "ok");
    } else {
        append_str(&mut out, "DENIED!");
    }
    append_str(&mut out, " ringer=");
    match ringer {
        Some(m) => append_ringer(&mut out, m),
        None => append_str(&mut out, "?"),
    }
    assert(out@ =~= spec_debug_line(sdk, has_vibrator, amp_ctrl, permission_ok, ringer));
    string_of(&out)
}

} // verus!
