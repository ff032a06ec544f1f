use capture_protection::controller::{
    conclude_native_call, disable_capture_protection, disable_capture_protection_impl,
    enable_capture_protection, enable_capture_protection_impl, get_capture_protection_support,
    platform_name, CapturePlan, NativeCall, NativeOutcome, Platform,
};
use capture_protection::decimal::u32_to_string;
use capture_protection::version::Version;

fn v(major: u32, minor: u32, patch: u32) -> Version {
    Version { major, minor, patch }
}

#[test]
fn query_support_always_yields_a_status() {
    // The signature alone already rules out an error; check that each
    // platform yields a coherent record.
    let w = get_capture_protection_support(Platform::Windows, v(0, 0, 0));
    assert_eq!(w.platform, "windows");
    assert!(w.supported);
    assert!(!w.enabled);
    assert!(w.message.is_some());

    let m = get_capture_protection_support(Platform::Macos, v(14, 5, 0));
    assert_eq!(m.platform, "macos");
    assert!(m.supported);
    assert!(!m.enabled);

    let l = get_capture_protection_support(Platform::Linux, v(0, 0, 0));
    assert_eq!(l.platform, "linux");
    assert!(!l.supported);
    assert!(!l.enabled);
    assert!(l.message.is_some());
}

#[test]
fn windows_enable_then_disable() {
    let e = enable_capture_protection(Platform::Windows, v(0, 0, 0), NativeOutcome::Succeeded)
        .unwrap();
    assert!(e.enabled);
    assert!(e.supported);
    assert_eq!(e.platform, "windows");
    assert_eq!(
        e.message.as_deref(),
        Some("화면 캡처 방지가 활성화되었습니다. OBS 등의 녹화 프로그램에서 이 창이 검은색으로 표시됩니다.")
    );

    let d = disable_capture_protection(Platform::Windows, v(0, 0, 0), NativeOutcome::Succeeded)
        .unwrap();
    assert!(!d.enabled);
    assert!(d.supported);
    assert_eq!(d.platform, "windows");
    assert_eq!(d.message.as_deref(), Some("화면 캡처 방지가 해제되었습니다."));
}

#[test]
fn macos_14_5_enable_is_supported() {
    let e = enable_capture_protection(Platform::Macos, v(14, 5, 0), NativeOutcome::Succeeded)
        .unwrap();
    assert!(e.enabled);
    assert!(e.supported);
    assert_eq!(e.platform, "macos");
}

#[test]
fn macos_14_5_support_message_quotes_the_version() {
    let s = get_capture_protection_support(Platform::Macos, v(14, 5, 0));
    assert!(s.supported);
    let msg = s.message.unwrap();
    assert!(msg.contains("14.5"));
    assert_eq!(msg, "macOS 14.5 - 화면 캡처 방지가 지원됩니다.");
}

#[test]
fn macos_15_enable_makes_no_native_call() {
    // The plan settles without ever asking for a native call: zero
    // invocations, observable here as the absence of any Invoke.
    match enable_capture_protection_impl(Platform::Macos, v(15, 0, 0)) {
        CapturePlan::Invoke(_) => panic!("macOS 15 enable must not touch the native API"),
        CapturePlan::Done(s) => {
            assert!(!s.enabled);
            assert!(!s.supported);
            assert_eq!(s.platform, "macos");
            assert!(s.message.is_some());
        }
    }
}

#[test]
fn macos_15_disable_is_a_silent_no_op() {
    match disable_capture_protection_impl(Platform::Macos, v(15, 0, 0)) {
        CapturePlan::Invoke(_) => panic!("macOS 15 disable must not touch the native API"),
        CapturePlan::Done(s) => {
            assert!(!s.enabled);
            assert!(!s.supported);
            assert_eq!(s.message, None);
        }
    }
}

#[test]
fn macos_15_query_support_cites_the_policy() {
    let s = get_capture_protection_support(Platform::Macos, v(15, 0, 0));
    assert!(!s.supported);
    assert!(!s.enabled);
    assert!(s.message.unwrap().contains("정책"));
}

#[test]
fn linux_never_invokes_and_is_unsupported() {
    match enable_capture_protection_impl(Platform::Linux, v(0, 0, 0)) {
        CapturePlan::Invoke(_) => panic!("Linux enable must not make a native call"),
        CapturePlan::Done(s) => {
            assert!(!s.supported);
            assert!(!s.enabled);
            assert_eq!(s.platform, "linux");
        }
    }
    match disable_capture_protection_impl(Platform::Linux, v(0, 0, 0)) {
        CapturePlan::Invoke(_) => panic!("Linux disable must not make a native call"),
        CapturePlan::Done(s) => {
            assert!(!s.supported);
            assert!(!s.enabled);
            assert_eq!(s.message, None);
        }
    }
    let q = get_capture_protection_support(Platform::Linux, v(0, 0, 0));
    assert!(!q.supported);
}

#[test]
fn enable_twice_yields_the_same_status() {
    let first = enable_capture_protection(Platform::Windows, v(0, 0, 0), NativeOutcome::Succeeded)
        .unwrap();
    let second = enable_capture_protection(Platform::Windows, v(0, 0, 0), NativeOutcome::Succeeded)
        .unwrap();
    assert_eq!(first, second);

    let m1 = enable_capture_protection(Platform::Macos, v(14, 5, 0), NativeOutcome::Succeeded)
        .unwrap();
    let m2 = enable_capture_protection(Platform::Macos, v(14, 5, 0), NativeOutcome::Succeeded)
        .unwrap();
    assert_eq!(m1, m2);
}

#[test]
fn windows_native_failure_is_a_descriptive_error() {
    let e = enable_capture_protection(
        Platform::Windows,
        v(0, 0, 0),
        NativeOutcome::CallFailed("access denied".to_string()),
    );
    assert_eq!(
        e.unwrap_err(),
        "SetWindowDisplayAffinity failed: access denied"
    );
}

#[test]
fn handle_resolution_failure_is_passed_through() {
    let e = enable_capture_protection(
        Platform::Windows,
        v(0, 0, 0),
        NativeOutcome::NoHandle("window was destroyed".to_string()),
    );
    assert_eq!(e.unwrap_err(), "window was destroyed");

    let m = disable_capture_protection(
        Platform::Macos,
        v(14, 0, 0),
        NativeOutcome::NoHandle("no ns_window".to_string()),
    );
    assert_eq!(m.unwrap_err(), "no ns_window");
}

#[test]
fn macos_version_gate_ignores_native_outcome_at_15() {
    // At macOS 15 the outcome of a call that is never made cannot matter.
    let r = enable_capture_protection(
        Platform::Macos,
        v(15, 2, 1),
        NativeOutcome::CallFailed("would have failed".to_string()),
    )
    .unwrap();
    assert!(!r.enabled);
    assert!(!r.supported);
}

#[test]
fn probe_failure_version_takes_the_supported_branch() {
    // Version (0, 0, 0) — the deliberate reading of a failed probe —
    // never meets the >= 15 gate.
    let s = get_capture_protection_support(Platform::Macos, v(0, 0, 0));
    assert!(s.supported);
    assert_eq!(s.message.unwrap(), "macOS 0.0 - 화면 캡처 방지가 지원됩니다.");
}

#[test]
fn conclude_reports_each_successful_call() {
    let a = conclude_native_call(NativeCall::AffinityExclude, NativeOutcome::Succeeded).unwrap();
    assert!(a.enabled && a.supported);
    let b = conclude_native_call(NativeCall::AffinityDefault, NativeOutcome::Succeeded).unwrap();
    assert!(!b.enabled && b.supported);
    let c = conclude_native_call(NativeCall::SharingNone, NativeOutcome::Succeeded).unwrap();
    assert!(c.enabled && c.supported);
    assert_eq!(c.platform, "macos");
    let d = conclude_native_call(NativeCall::SharingReadOnly, NativeOutcome::Succeeded).unwrap();
    assert!(!d.enabled && d.supported);
}

#[test]
fn platform_names() {
    assert_eq!(platform_name(Platform::Windows), "windows");
    assert_eq!(platform_name(Platform::Macos), "macos");
    assert_eq!(platform_name(Platform::Linux), "linux");
}

#[test]
fn decimal_rendering() {
    assert_eq!(u32_to_string(0), "0");
    assert_eq!(u32_to_string(10), "10");
    assert_eq!(u32_to_string(205), "205");
    assert_eq!(u32_to_string(4294967295), "4294967295");
}
