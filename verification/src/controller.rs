//! The capture-protection controller: maps an intent (enable, disable,
//! query support) on a given platform — with the detected OS version where
//! that matters — to either a finished status or the one native call the
//! embedding shell must perform, and maps the call's outcome back to a
//! status or an error string.
//!
//! The shell owns the window handle and the native windowing API; this
//! module owns every decision: which call to make, when to make none at
//! all, and what to report in each case.

use vstd::prelude::*;
use vstd::string::StringExecFns;
use crate::decimal::{dec_seq, u32_to_string};
use crate::version::Version;

verus! {

/// The platform the embedding shell was built for. Exactly one applies to
/// a given binary; the shell passes its own.
#[derive(Clone, Copy, PartialEq, Eq, Structural, Debug)]
pub enum Platform {
    Windows,
    Macos,
    Linux,
}

/// The status reported back to the shell after any of the three
/// operations.
#[derive(Clone, Debug, PartialEq, Eq)]
pub struct CaptureProtectionStatus {
    pub enabled: bool,
    pub supported: bool,
    pub platform: String,
    pub message: Option<String>,
}

/// Mathematical image of a status: the string fields as character
/// sequences.
pub ghost struct StatusView {
    pub enabled: bool,
    pub supported: bool,
    pub platform: Seq<char>,
    pub message: Option<Seq<char>>,
}

impl View for CaptureProtectionStatus {
    type V = StatusView;

    open spec fn view(&self) -> StatusView {
        StatusView {
            enabled: self.enabled,
            supported: self.supported,
            platform: self.platform@,
            message: match self.message {
                Some(m) => Some(m@),
                None => None,
            },
        }
    }
}

/// The one native call a plan can ask the shell to perform.
#[derive(Clone, Copy, PartialEq, Eq, Structural, Debug)]
pub enum NativeCall {
    /// Windows: set the window's display affinity to "exclude from
    /// capture".
    AffinityExclude,
    /// Windows: reset the window's display affinity to its capturable
    /// default.
    AffinityDefault,
    /// macOS: set the window's content-sharing type to "none".
    SharingNone,
    /// macOS: set the window's content-sharing type back to "read-only",
    /// the default visible sharing mode.
    SharingReadOnly,
}

/// What an enable or disable request decides before any native work: either
/// the status is already settled (no native call is made at all), or the
/// shell must perform exactly one native call on the window.
pub enum CapturePlan {
    Invoke(NativeCall),
    Done(CaptureProtectionStatus),
}

pub ghost enum PlanView {
    Invoke(NativeCall),
    Done(StatusView),
}

impl View for CapturePlan {
    type V = PlanView;

    open spec fn view(&self) -> PlanView {
        match self {
            CapturePlan::Invoke(c) => PlanView::Invoke(*c),
            CapturePlan::Done(s) => PlanView::Done(s@),
        }
    }
}

/// How the shell's attempt at the requested native call went.
pub enum NativeOutcome {
    /// The handle resolved and the call succeeded.
    Succeeded,
    /// The opaque window reference did not yield a native handle; the
    /// detail text describes why. No call was made.
    NoHandle(String),
    /// The native primitive rejected the request; the detail text is the
    /// native error.
    CallFailed(String),
}

pub ghost enum OutcomeView {
    Succeeded,
    NoHandle(Seq<char>),
    CallFailed(Seq<char>),
}

impl View for NativeOutcome {
    type V = OutcomeView;

    open spec fn view(&self) -> OutcomeView {
        match self {
            NativeOutcome::Succeeded => OutcomeView::Succeeded,
            NativeOutcome::NoHandle(d) => OutcomeView::NoHandle(d@),
            NativeOutcome::CallFailed(d) => OutcomeView::CallFailed(d@),
        }
    }
}

/// Result of an enable or disable operation: a status, or the error string
/// the shell displays.
pub ghost enum OpResultView {
    Success(StatusView),
    Failure(Seq<char>),
}

/// Mathematical image of an operation's result.
pub open spec fn op_result_view(r: &Result<CaptureProtectionStatus, String>) -> OpResultView {
    match r {
        Ok(s) => OpResultView::Success(s@),
        Err(e) => OpResultView::Failure(e@),
    }
}

pub open spec fn name_windows() -> Seq<char> {
    "windows"@
}

pub open spec fn name_macos() -> Seq<char> {
    "macos"@
}

pub open spec fn name_linux() -> Seq<char> {
    "linux"@
}

/// The platform identifier reported in a status.
pub open spec fn spec_platform_name(p: Platform) -> Seq<char> {
    match p {
        Platform::Windows => name_windows(),
        Platform::Macos => name_macos(),
        Platform::Linux => name_linux(),
    }
}

pub open spec fn msg_enabled_windows() -> Seq<char> {
    "화면 캡처 방지가 활성화되었습니다. OBS 등의 녹화 프로그램에서 이 창이 검은색으로 표시됩니다."@
}

pub open spec fn msg_enabled_macos() -> Seq<char> {
    "화면 캡처 방지가 활성화되었습니다."@
}

pub open spec fn msg_disabled() -> Seq<char> {
    "화면 캡처 방지가 해제되었습니다."@
}

pub open spec fn msg_macos_too_new() -> Seq<char> {
    "macOS 15 이상에서는 화면 캡처 방지가 지원되지 않습니다. OBS에서 수동으로 이 창을 녹화 대상에서 제외해주세요."@
}

pub open spec fn msg_macos_policy() -> Seq<char> {
    "macOS 15 (Sequoia) 이상에서는 Apple 정책 변경으로 화면 캡처 방지가 지원되지 않습니다. OBS 설정에서 수동으로 창을 제외해주세요."@
}

pub open spec fn msg_linux_unsupported() -> Seq<char> {
    "Linux에서는 화면 캡처 방지가 지원되지 않습니다."@
}

pub open spec fn msg_windows_support() -> Seq<char> {
    "Windows 10 v2004 이상에서 완벽하게 지원됩니다."@
}

/// The support message interpolating the detected macOS version.
pub open spec fn msg_macos_supported(major: u32, minor: u32) -> Seq<char> {
    "macOS "@ + dec_seq(major as nat) + "."@ + dec_seq(minor as nat)
        + " - 화면 캡처 방지가 지원됩니다."@
}

/// The error string reported when a native call fails: the Windows
/// display-affinity primitive is named in it; the macOS sharing-type call
/// reports no error of its own, so a failure detail passes through
/// unchanged.
pub open spec fn spec_call_error(call: NativeCall, detail: Seq<char>) -> Seq<char> {
    match call {
        NativeCall::AffinityExclude => "SetWindowDisplayAffinity failed: "@ + detail,
        NativeCall::AffinityDefault => "SetWindowDisplayAffinity failed: "@ + detail,
        NativeCall::SharingNone => detail,
        NativeCall::SharingReadOnly => detail,
    }
}

/// The status owed once the native call a plan asked for has succeeded.
pub open spec fn spec_call_done_status(call: NativeCall) -> StatusView {
    match call {
        NativeCall::AffinityExclude => StatusView {
            enabled: true,
            supported: true,
            platform: name_windows(),
            message: Some(msg_enabled_windows()),
        },
        NativeCall::AffinityDefault => StatusView {
            enabled: false,
            supported: true,
            platform: name_windows(),
            message: Some(msg_disabled()),
        },
        NativeCall::SharingNone => StatusView {
            enabled: true,
            supported: true,
            platform: name_macos(),
            message: Some(msg_enabled_macos()),
        },
        NativeCall::SharingReadOnly => StatusView {
            enabled: false,
            supported: true,
            platform: name_macos(),
            message: Some(msg_disabled()),
        },
    }
}

/// What an enable request decides: Windows always applies the exclusion;
/// macOS applies it only below major version 15 and otherwise settles on an
/// unsupported status without touching the native API; Linux always
/// settles on an unsupported status.
pub open spec fn spec_enable_plan(p: Platform, v: Version) -> PlanView {
    match p {
        Platform::Windows => PlanView::Invoke(NativeCall::AffinityExclude),
        Platform::Macos => if v.major >= 15 {
            PlanView::Done(
                StatusView {
                    enabled: false,
                    supported: false,
                    platform: name_macos(),
                    message: Some(msg_macos_too_new()),
                },
            )
        } else {
            PlanView::Invoke(NativeCall::SharingNone)
        },
        Platform::Linux => PlanView::Done(
            StatusView {
                enabled: false,
                supported: false,
                platform: name_linux(),
                message: Some(msg_linux_unsupported()),
            },
        ),
    }
}

/// What a disable request decides: Windows resets the affinity; macOS at
/// major version 15 or later settles silently (disabling an already
/// unsupported protection is a no-op, not an error), below 15 it resets
/// the sharing type; Linux settles silently.
pub open spec fn spec_disable_plan(p: Platform, v: Version) -> PlanView {
    match p {
        Platform::Windows => PlanView::Invoke(NativeCall::AffinityDefault),
        Platform::Macos => if v.major >= 15 {
            PlanView::Done(
                StatusView {
                    enabled: false,
                    supported: false,
                    platform: name_macos(),
                    message: None,
                },
            )
        } else {
            PlanView::Invoke(NativeCall::SharingReadOnly)
        },
        Platform::Linux => PlanView::Done(
            StatusView {
                enabled: false,
                supported: false,
                platform: name_linux(),
                message: None,
            },
        ),
    }
}

/// The platform identifier reported in a status.
pub fn platform_name(p: Platform) -> (s: String)
    ensures
        s@ == spec_platform_name(p),
{
    match p {
        Platform::Windows => "windows".to_owned(),
        Platform::Macos => "macos".to_owned(),
        Platform::Linux => "linux".to_owned(),
    }
}

/// Decides an enable request for the given platform and detected OS
/// version (the version only matters on macOS).
pub fn enable_capture_protection_impl(p: Platform, v: Version) -> (plan: CapturePlan)
    ensures
        plan@ == spec_enable_plan(p, v),
{
    match p {
        Platform::Windows => CapturePlan::Invoke(NativeCall::AffinityExclude),
        Platform::Macos => if v.major >= 15 {
            CapturePlan::Done(
                CaptureProtectionStatus {
                    enabled: false,
                    supported: false,
                    platform: "macos".to_owned(),
                    message: Some(
                        "macOS 15 이상에서는 화면 캡처 방지가 지원되지 않습니다. OBS에서 수동으로 이 창을 녹화 대상에서 제외해주세요.".to_owned(),
                    ),
                },
            )
        } else {
            CapturePlan::Invoke(NativeCall::SharingNone)
        },
        Platform::Linux => CapturePlan::Done(
            CaptureProtectionStatus {
                enabled: false,
                supported: false,
                platform: "linux".to_owned(),
                message: Some("Linux에서는 화면 캡처 방지가 지원되지 않습니다.".to_owned()),
            },
        ),
    }
}

/// Decides a disable request for the given platform and detected OS
/// version (the version only matters on macOS).
pub fn disable_capture_protection_impl(p: Platform, v: Version) -> (plan: CapturePlan)
    ensures
        plan@ == spec_disable_plan(p, v),
{
    match p {
        Platform::Windows => CapturePlan::Invoke(NativeCall::AffinityDefault),
        Platform::Macos => if v.major >= 15 {
            CapturePlan::Done(
                CaptureProtectionStatus {
                    enabled: false,
                    supported: false,
                    platform: "macos".to_owned(),
                    message: None,
                },
            )
        } else {
            CapturePlan::Invoke(NativeCall::SharingReadOnly)
        },
        Platform::Linux => CapturePlan::Done(
            CaptureProtectionStatus {
                enabled: false,
                supported: false,
                platform: "linux".to_owned(),
                message: None,
            },
        ),
    }
}

/// The result owed after the shell performed (or failed to perform) the
/// native call a plan asked for.
pub open spec fn spec_conclude(call: NativeCall, o: OutcomeView) -> OpResultView {
    match o {
        OutcomeView::Succeeded => OpResultView::Success(spec_call_done_status(call)),
        OutcomeView::NoHandle(d) => OpResultView::Failure(d),
        OutcomeView::CallFailed(d) => OpResultView::Failure(spec_call_error(call, d)),
    }
}

/// The full result of an enable request, given how the native layer
/// responds if the plan asks it to act: on a settled plan the outcome is
/// never consulted.
pub open spec fn spec_enable(p: Platform, v: Version, o: OutcomeView) -> OpResultView {
    match spec_enable_plan(p, v) {
        PlanView::Invoke(c) => spec_conclude(c, o),
        PlanView::Done(s) => OpResultView::Success(s),
    }
}

/// The full result of a disable request, given how the native layer
/// responds if the plan asks it to act.
pub open spec fn spec_disable(p: Platform, v: Version, o: OutcomeView) -> OpResultView {
    match spec_disable_plan(p, v) {
        PlanView::Invoke(c) => spec_conclude(c, o),
        PlanView::Done(s) => OpResultView::Success(s),
    }
}

/// The status a support query reports: Windows is always supported, macOS
/// is supported exactly below major version 15 (with the detected version
/// quoted back), Linux never is. `enabled` is false in every case: the
/// query reflects capability, never live window state.
pub open spec fn spec_support_status(p: Platform, v: Version) -> StatusView {
    match p {
        Platform::Windows => StatusView {
            enabled: false,
            supported: true,
            platform: name_windows(),
            message: Some(msg_windows_support()),
        },
        Platform::Macos => if v.major >= 15 {
            StatusView {
                enabled: false,
                supported: false,
                platform: name_macos(),
                message: Some(msg_macos_policy()),
            }
        } else {
            StatusView {
                enabled: false,
                supported: true,
                platform: name_macos(),
                message: Some(msg_macos_supported(v.major, v.minor)),
            }
        },
        Platform::Linux => StatusView {
            enabled: false,
            supported: false,
            platform: name_linux(),
            message: Some(msg_linux_unsupported()),
        },
    }
}

/// Turns the outcome of the native call a plan asked for into the final
/// result: success yields the call's settled status; a handle that did not
/// resolve or a rejected call aborts with a descriptive error string.
pub fn conclude_native_call(call: NativeCall, outcome: NativeOutcome) -> (r: Result<
    CaptureProtectionStatus,
    String,
>)
    ensures
        op_result_view(&r) == spec_conclude(call, outcome@),
{
    match outcome {
        NativeOutcome::Succeeded => Ok(native_call_succeeded(call)),
        NativeOutcome::NoHandle(d) => Err(d),
        NativeOutcome::CallFailed(d) => Err(native_call_error(call, d)),
    }
}

/// The status owed once the given native call has succeeded.
fn native_call_succeeded(call: NativeCall) -> (s: CaptureProtectionStatus)
    ensures
        s@ == spec_call_done_status(call),
{
    match call {
        NativeCall::AffinityExclude => CaptureProtectionStatus {
            enabled: true,
            supported: true,
            platform: "windows".to_owned(),
            message: Some(
                "화면 캡처 방지가 활성화되었습니다. OBS 등의 녹화 프로그램에서 이 창이 검은색으로 표시됩니다.".to_owned(),
            ),
        },
        NativeCall::AffinityDefault => CaptureProtectionStatus {
            enabled: false,
            supported: true,
            platform: "windows".to_owned(),
            message: Some("화면 캡처 방지가 해제되었습니다.".to_owned()),
        },
        NativeCall::SharingNone => CaptureProtectionStatus {
            enabled: true,
            supported: true,
            platform: "macos".to_owned(),
            message: Some("화면 캡처 방지가 활성화되었습니다.".to_owned()),
        },
        NativeCall::SharingReadOnly => CaptureProtectionStatus {
            enabled: false,
            supported: true,
            platform: "macos".to_owned(),
            message: Some("화면 캡처 방지가 해제되었습니다.".to_owned()),
        },
    }
}

/// The error string for a rejected native call.
fn native_call_error(call: NativeCall, detail: String) -> (e: String)
    ensures
        e@ == spec_call_error(call, detail@),
{
    match call {
        NativeCall::AffinityExclude | NativeCall::AffinityDefault => {
            let mut e = "SetWindowDisplayAffinity failed: ".to_owned();
            e.append(detail.as_str());
            e
        },
        NativeCall::SharingNone | NativeCall::SharingReadOnly => detail,
    }
}

/// Runs a whole enable request at once, with the native layer's response
/// supplied as a value: what the operation returns for every way the
/// platform layer can answer. The shell itself uses
/// `enable_capture_protection_impl` and `conclude_native_call` around the
/// real call instead, since the outcome only exists after the call.
pub fn enable_capture_protection(p: Platform, v: Version, outcome: NativeOutcome) -> (r: Result<
    CaptureProtectionStatus,
    String,
>)
    ensures
        op_result_view(&r) == spec_enable(p, v, outcome@),
{
    match enable_capture_protection_impl(p, v) {
        CapturePlan::Invoke(c) => conclude_native_call(c, outcome),
        CapturePlan::Done(s) => Ok(s),
    }
}

/// Runs a whole disable request at once, with the native layer's response
/// supplied as a value.
pub fn disable_capture_protection(p: Platform, v: Version, outcome: NativeOutcome) -> (r: Result<
    CaptureProtectionStatus,
    String,
>)
    ensures
        op_result_view(&r) == spec_disable(p, v, outcome@),
{
    match disable_capture_protection_impl(p, v) {
        CapturePlan::Invoke(c) => conclude_native_call(c, outcome),
        CapturePlan::Done(s) => Ok(s),
    }
}

/// Queries whether capture protection is available on the given platform
/// and detected OS version. A pure capability probe: it never fails, makes
/// no native call, and always reports `enabled == false`.
pub fn get_capture_protection_support(p: Platform, v: Version) -> (s: CaptureProtectionStatus)
    ensures
        s@ == spec_support_status(p, v),
{
    match p {
        Platform::Windows => CaptureProtectionStatus {
            enabled: false,
            supported: true,
            platform: "windows".to_owned(),
            message: Some("Windows 10 v2004 이상에서 완벽하게 지원됩니다.".to_owned()),
        },
        Platform::Macos => if v.major >= 15 {
            CaptureProtectionStatus {
                enabled: false,
                supported: false,
                platform: "macos".to_owned(),
                message: Some(
                    "macOS 15 (Sequoia) 이상에서는 Apple 정책 변경으로 화면 캡처 방지가 지원되지 않습니다. OBS 설정에서 수동으로 창을 제외해주세요.".to_owned(),
                ),
            }
        } else {
            let mut m = "macOS ".to_owned();
            m.append(u32_to_string(v.major).as_str());
            m.append(".");
            m.append(u32_to_string(v.minor).as_str());
            m.append(" - 화면 캡처 방지가 지원됩니다.");
            proof {
                assert(m@ =~= msg_macos_supported(v.major, v.minor));
            }
            CaptureProtectionStatus {
                enabled: false,
                supported: true,
                platform: "macos".to_owned(),
                message: Some(m),
            }
        },
        Platform::Linux => CaptureProtectionStatus {
            enabled: false,
            supported: false,
            platform: "linux".to_owned(),
            message: Some("Linux에서는 화면 캡처 방지가 지원되지 않습니다.".to_owned()),
        },
    }
}

/// The controller holds no state: two enable requests in a row on the same
/// platform, detected version, and native response settle on the same
/// result — repeating an enable accumulates nothing. The exec operation's
/// contract pins each of its results to `spec_enable`, so the premises
/// hold of any two successive calls with the same inputs.
pub proof fn lemma_enable_idempotent(
    p: Platform,
    v: Version,
    o: OutcomeView,
    r1: OpResultView,
    r2: OpResultView,
)
    requires
        r1 == spec_enable(p, v, o),
        r2 == spec_enable(p, v, o),
    ensures
        r1 == r2,
{
}

/// The same statelessness holds of disable requests.
pub proof fn lemma_disable_idempotent(
    p: Platform,
    v: Version,
    o: OutcomeView,
    r1: OpResultView,
    r2: OpResultView,
)
    requires
        r1 == spec_disable(p, v, o),
        r2 == spec_disable(p, v, o),
    ensures
        r1 == r2,
{
}

} // verus!
