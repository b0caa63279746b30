use jni_high::android::activity::{
    foreground_after_count, foreground_after_importance, foreground_after_object, foreground_after_pid, foreground_result,
    foreground_start, FgQuery, FgStep,
};
use jni_high::android::browser::check_uri;
use jni_high::android::clipboard::{clip_read_next, clip_read_start, clip_write_needed, ClipQuery, ClipStep};
use jni_high::android::connectivity::{
    active_type_next, active_type_start, is_connected_type, NetQuery, NetStep, NetworkType, TRANSPORT_CELLULAR,
    TRANSPORT_ETHERNET, TRANSPORT_VPN, TRANSPORT_WIFI,
};
use jni_high::android::context::{check_vm, require_context};
use jni_high::android::dex::{dex_file_path, oats_dir_path};
use jni_high::android::notifications::{
    content_intent_after_launch_intent, content_intent_after_pending_intent, enabled_result, enabled_without_manager, icon_after_application_icon, icon_after_application_info, icon_after_resource,
    launch_intent_flags, ContentIntentStep, IconStep, FALLBACK_ICON,
};
use jni_high::android::permissions::{is_granted_result, request_needed};
use jni_high::android::share::{share_extras, EXTRA_SUBJECT, EXTRA_TEXT};
use jni_high::android::vibration::{
    amplitude_query_needed, check_has_vibrator, click_call, debug_line, debug_unavailable, vibrate_call, VibrationCall,
};
use jni_high::BridgeError;

fn run_network(service: bool, network: bool, caps: bool, present: &[i32]) -> NetworkType {
    let mut step = active_type_start();
    let mut asked = 0;
    loop {
        match step {
            NetStep::Done(t) => return t,
            NetStep::Ask(q) => {
                asked += 1;
                assert!(asked <= 7);
                let answer = match q {
                    NetQuery::ConnectivityService => service,
                    NetQuery::ActiveNetwork => network,
                    NetQuery::Capabilities => caps,
                    NetQuery::HasTransport(t) => present.contains(&t),
                };
                step = active_type_next(q, answer);
            }
        }
    }
}

#[test]
fn network_type_follows_the_first_present_transport() {
    assert_eq!(run_network(false, true, true, &[TRANSPORT_WIFI]), NetworkType::Disconnected);
    assert_eq!(run_network(true, false, true, &[TRANSPORT_WIFI]), NetworkType::Disconnected);
    assert_eq!(run_network(true, true, false, &[TRANSPORT_WIFI]), NetworkType::Disconnected);
    assert_eq!(run_network(true, true, true, &[TRANSPORT_WIFI, TRANSPORT_CELLULAR]), NetworkType::Wifi);
    assert_eq!(run_network(true, true, true, &[TRANSPORT_VPN, TRANSPORT_CELLULAR]), NetworkType::Mobile);
    assert_eq!(run_network(true, true, true, &[TRANSPORT_ETHERNET, TRANSPORT_VPN]), NetworkType::Ethernet);
    assert_eq!(run_network(true, true, true, &[TRANSPORT_VPN]), NetworkType::Vpn);
    assert_eq!(run_network(true, true, true, &[2]), NetworkType::Other);
}

#[test]
fn connected_means_any_network() {
    assert!(!is_connected_type(NetworkType::Disconnected));
    assert!(is_connected_type(NetworkType::Other));
    assert!(is_connected_type(NetworkType::Wifi));
}

fn run_clipboard(answers: [bool; 6]) -> ClipStep {
    let mut step = clip_read_start();
    while let ClipStep::Ask(q) = step {
        let a = match q {
            ClipQuery::ClipboardService => answers[0],
            ClipQuery::HasPrimaryClip => answers[1],
            ClipQuery::PrimaryClip => answers[2],
            ClipQuery::FirstItem => answers[3],
            ClipQuery::ItemText => answers[4],
            ClipQuery::TextString => answers[5],
        };
        step = clip_read_next(q, a);
    }
    step
}

#[test]
fn clipboard_text_needs_every_link() {
    assert_eq!(run_clipboard([true; 6]), ClipStep::ReadText);
    for k in 0..6 {
        let mut a = [true; 6];
        a[k] = false;
        assert_eq!(run_clipboard(a), ClipStep::NoText);
    }
}

fn run_foreground(manager: bool, processes: bool, pids: &[i32], importance: &[i32], me: i32) -> bool {
    let mut step = foreground_start();
    loop {
        step = match step {
            FgStep::Done(b) => return b,
            FgStep::Ask(FgQuery::ActivityManager) => foreground_after_object(true, manager),
            FgStep::Ask(FgQuery::RunningProcesses) => foreground_after_object(false, processes),
            FgStep::Ask(FgQuery::ProcessCount) => foreground_after_count(pids.len() as i32),
            FgStep::Ask(FgQuery::Pid { index, count }) => foreground_after_pid(index, count, pids[index as usize], me),
            FgStep::Ask(FgQuery::Importance { index }) => FgStep::Done(foreground_after_importance(importance[index as usize])),
        };
    }
}

#[test]
fn foreground_is_decided_by_our_process() {
    assert!(run_foreground(true, true, &[10, 42], &[400, 100], 42));
    assert!(!run_foreground(true, true, &[10, 42], &[100, 200], 42));
    assert!(!run_foreground(true, true, &[10, 11], &[100, 100], 42));
    assert!(!run_foreground(true, true, &[], &[], 42));
    assert!(!run_foreground(false, true, &[42], &[100], 42));
    assert!(!run_foreground(true, false, &[42], &[100], 42));
    assert!(run_foreground(true, true, &[42, 42], &[100, 300], 42));
}

#[test]
fn notification_icon_falls_back_in_order() {
    assert_eq!(icon_after_resource(77), IconStep::Done(77));
    assert_eq!(icon_after_resource(0), IconStep::AskApplicationInfo);
    assert_eq!(icon_after_application_info(false), IconStep::Done(FALLBACK_ICON));
    assert_eq!(icon_after_application_info(true), IconStep::AskApplicationIcon);
    assert_eq!(icon_after_application_icon(5), 5);
    assert_eq!(icon_after_application_icon(0), 0x0108_0017);
}

#[test]
fn notifications_fail_open_and_flags() {
    assert_eq!(enabled_without_manager(false), Some(true));
    assert_eq!(enabled_without_manager(true), None);
    assert_eq!(launch_intent_flags(), 0x2400_0000);
}

#[test]
fn vibration_calls_by_sdk() {
    assert_eq!(vibrate_call(26, 300), VibrationCall::OneShot { duration_ms: 300, amplitude: 255 });
    assert_eq!(vibrate_call(25, 300), VibrationCall::Legacy(300));
    assert_eq!(click_call(29), VibrationCall::Predefined(5));
    assert_eq!(click_call(28), VibrationCall::OneShot { duration_ms: 50, amplitude: 255 });
    assert_eq!(click_call(21), VibrationCall::Legacy(50));
    assert!(amplitude_query_needed(26));
    assert!(!amplitude_query_needed(25));
    assert!(check_has_vibrator(true).is_ok());
    assert!(matches!(
        check_has_vibrator(false),
        Err(BridgeError::NullPointer { context: "hasVibrator() returned false" })
    ));
}

#[test]
fn vibration_debug_lines() {
    assert_eq!(debug_unavailable(33), "SDK=33 vibrator-svc=unavailable");
    assert_eq!(
        debug_line(34, true, false, true, Some(2)),
        "SDK=34 hasVibrator=true ampCtrl=false VIBRATE=ok ringer=NORMAL"
    );
    assert_eq!(
        debug_line(21, false, false, false, Some(0)),
        "SDK=21 hasVibrator=false ampCtrl=false VIBRATE=DENIED! ringer=SILENT"
    );
    assert_eq!(debug_line(30, true, true, true, Some(1)), "SDK=30 hasVibrator=true ampCtrl=true VIBRATE=ok ringer=VIBRATE");
    assert_eq!(debug_line(30, true, true, true, Some(-7)), "SDK=30 hasVibrator=true ampCtrl=true VIBRATE=ok ringer=-7");
    assert_eq!(debug_line(-2147483648, true, true, true, None), "SDK=-2147483648 hasVibrator=true ampCtrl=true VIBRATE=ok ringer=?");
    assert_eq!(debug_line(0, true, true, true, Some(1234567)), "SDK=0 hasVibrator=true ampCtrl=true VIBRATE=ok ringer=1234567");
}

#[test]
fn permissions_and_uri_checks() {
    assert!(is_granted_result(0));
    assert!(!is_granted_result(-1));
    assert!(!request_needed(0));
    assert!(request_needed(2));
    assert!(check_uri(true).is_ok());
    assert!(matches!(check_uri(false), Err(BridgeError::NullPointer { context: "Uri.parse returned null" })));
}

#[test]
fn share_extras_in_order() {
    let e = share_extras(Some("subj"), "body");
    assert_eq!(e.len(), 2);
    assert_eq!((e[0].key, e[0].value.as_str()), (EXTRA_SUBJECT, "subj"));
    assert_eq!((e[1].key, e[1].value.as_str()), (EXTRA_TEXT, "body"));
    let e = share_extras(None, "only");
    assert_eq!(e.len(), 1);
    assert_eq!(e[0].key, "android.intent.extra.TEXT");
}

#[test]
fn dex_fallback_paths() {
    assert_eq!(dex_file_path("/data/code_cache"), "/data/code_cache/jni_high_bridge.dex");
    assert_eq!(oats_dir_path("/data/code_cache"), "/data/code_cache/oats");
}

#[test]
fn context_checks() {
    assert!(check_vm(false).is_ok());
    assert!(matches!(check_vm(true), Err(BridgeError::VmNotAvailable)));
    assert_eq!(require_context(Some(3)).ok(), Some(3));
    assert!(matches!(require_context::<u8>(None), Err(BridgeError::ContextNotInitialized)));
}

#[test]
fn foreground_check_fails_closed_and_notifications_fail_open() {
    let jni = || BridgeError::from(jni::errors::Error::WrongObjectType);
    assert!(matches!(foreground_result(Ok(true)), Ok(true)));
    assert!(matches!(foreground_result(Err(jni())), Ok(false)));
    assert!(matches!(foreground_result(Err(BridgeError::ContextNotInitialized)), Ok(false)));
    assert!(matches!(foreground_result(Err(BridgeError::VmNotAvailable)), Err(BridgeError::VmNotAvailable)));
    assert!(matches!(enabled_result(Ok(false)), Ok(false)));
    assert!(matches!(enabled_result(Err(jni())), Ok(true)));
    assert!(matches!(
        enabled_result(Err(BridgeError::ContextNotInitialized)),
        Err(BridgeError::ContextNotInitialized)
    ));
}

#[test]
fn clipboard_write_and_content_intent_decisions() {
    assert!(clip_write_needed(true));
    assert!(!clip_write_needed(false));
    assert_eq!(content_intent_after_launch_intent(false), ContentIntentStep::NoContentIntent);
    assert_eq!(content_intent_after_launch_intent(true), ContentIntentStep::AskPendingIntent);
    assert_eq!(content_intent_after_pending_intent(false), ContentIntentStep::NoContentIntent);
    assert_eq!(content_intent_after_pending_intent(true), ContentIntentStep::UsePendingIntent);
}
