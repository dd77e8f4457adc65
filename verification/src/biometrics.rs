//! Kinds of biometric authentication and their outcomes.
use vstd::prelude::*;

verus! {

/// Outcome of a biometric authentication.
#[derive(Debug, Clone)]
pub enum BiometricResult {
    Success,
    Cancelled,
    Failed(String),
    NotAvailable,
    NotEnrolled,
}

/// Biometric method offered by the platform.
#[derive(Debug, Clone, Copy, PartialEq, Eq, Structural)]
pub enum BiometricType {
    WindowsHello,
    TouchID,
    FaceID,
    NoBiometric,
}

impl BiometricType {
    pub open spec fn display_text(self) -> Seq<char> {
        match self {
            BiometricType::WindowsHello => "Windows Hello"@,
            BiometricType::TouchID => "Touch ID"@,
            BiometricType::FaceID => "Face ID"@,
            BiometricType::NoBiometric => "None"@,
        }
    }

    pub fn display_name(&self) -> (s: &'static str)
        ensures
            s@ == self.display_text(),
    {
        match self {
            BiometricType::WindowsHello => "Windows Hello",
            BiometricType::TouchID => "Touch ID",
            BiometricType::FaceID => "Face ID",
            BiometricType::NoBiometric => "None",
        }
    }
}

/// Whether the platform has to be asked at all: disabled or unavailable
/// biometrics are answered `NotAvailable` without asking it.
pub fn must_ask_platform(enabled: bool, available: bool) -> (b: bool)
    ensures
        b == (enabled && available),
{
    enabled && available
}

/// The platform the application runs on, as far as biometrics go.
#[derive(Debug, Clone, Copy, PartialEq, Eq, Structural)]
pub enum Platform {
    Windows,
    MacOs,
    Other,
}

/// The biometric method of a platform: Windows Hello on Windows, Touch ID on
/// macOS (desktops have no Face ID), none elsewhere.
pub fn biometric_type_for(platform: Platform) -> (t: BiometricType)
    ensures
        t == (match platform {
            Platform::Windows => BiometricType::WindowsHello,
            Platform::MacOs => BiometricType::TouchID,
            Platform::Other => BiometricType::NoBiometric,
        }),
{
    match platform {
        Platform::Windows => BiometricType::WindowsHello,
        Platform::MacOs => BiometricType::TouchID,
        Platform::Other => BiometricType::NoBiometric,
    }
}

/// What Windows says of the availability of Windows Hello.
#[derive(Debug, Clone, Copy, PartialEq, Eq, Structural)]
pub enum WindowsAvailability {
    Available,
    DeviceNotPresent,
    NotConfiguredForUser,
    /// Any other answer (disabled by policy, busy, ...).
    Other,
}

/// What Windows answers to a request for verification.
#[derive(Debug, Clone, Copy, PartialEq, Eq, Structural)]
pub enum WindowsVerification {
    Verified,
    Canceled,
    DeviceNotPresent,
    NotConfiguredForUser,
    /// Any other answer.
    Other,
}

/// How Windows' availability answer reads when it rules out a verification;
/// `None` when Windows Hello is available and may be asked.
pub fn windows_unavailable_result(a: WindowsAvailability) -> (r: Option<BiometricResult>)
    ensures
        match a {
            WindowsAvailability::Available => r is None,
            WindowsAvailability::NotConfiguredForUser => r matches Some(BiometricResult::NotEnrolled),
            _ => r matches Some(BiometricResult::NotAvailable),
        },
{
    match a {
        WindowsAvailability::Available => None,
        WindowsAvailability::DeviceNotPresent => Some(BiometricResult::NotAvailable),
        WindowsAvailability::NotConfiguredForUser => Some(BiometricResult::NotEnrolled),
        WindowsAvailability::Other => Some(BiometricResult::NotAvailable),
    }
}

/// The outcome of a Windows verification.
pub fn windows_verification_result(v: WindowsVerification) -> (r: BiometricResult)
    ensures
        match v {
            WindowsVerification::Verified => r matches BiometricResult::Success,
            WindowsVerification::Canceled => r matches BiometricResult::Cancelled,
            WindowsVerification::DeviceNotPresent => r matches BiometricResult::NotAvailable,
            WindowsVerification::NotConfiguredForUser => r matches BiometricResult::NotEnrolled,
            WindowsVerification::Other => r matches BiometricResult::Failed(m) && m@ == "Authentication failed"@,
        },
{
    match v {
        WindowsVerification::Verified => BiometricResult::Success,
        WindowsVerification::Canceled => BiometricResult::Cancelled,
        WindowsVerification::DeviceNotPresent => BiometricResult::NotAvailable,
        WindowsVerification::NotConfiguredForUser => BiometricResult::NotEnrolled,
        WindowsVerification::Other => BiometricResult::Failed(String::from_str("Authentication failed")),
    }
}

/// The outcome when macOS cannot evaluate the biometric policy, from its
/// error code (when it gave one): no enrolled finger and no passcode read
/// as not enrolled, everything else as not available.
pub fn macos_policy_error_result(code: Option<i64>) -> (r: BiometricResult)
    ensures
        (code == Some(-7i64) || code == Some(-5i64)) ==> r matches BiometricResult::NotEnrolled,
        !(code == Some(-7i64) || code == Some(-5i64)) ==> r matches BiometricResult::NotAvailable,
{
    match code {
        Some(c) => {
            if c == -7 || c == -5 {
                BiometricResult::NotEnrolled
            } else {
                BiometricResult::NotAvailable
            }
        },
        None => BiometricResult::NotAvailable,
    }
}

/// The outcome of a Touch ID / Face ID evaluation on macOS, from the
/// policy's reply: verified (`Ok`), or its error code. Cancelling (by the
/// user or the system) or choosing the fallback reads as cancelled; no
/// enrolled finger or face and no passcode as not enrolled; no biometry as
/// not available; a failed or locked-out attempt as failed.
pub fn macos_evaluation_result(reply: Result<(), i64>) -> (r: BiometricResult)
    ensures
        match reply {
            Ok(()) => r matches BiometricResult::Success,
            Err(c) => if c == -2 || c == -3 || c == -4 {
                r matches BiometricResult::Cancelled
            } else if c == -5 || c == -7 {
                r matches BiometricResult::NotEnrolled
            } else if c == -6 {
                r matches BiometricResult::NotAvailable
            } else {
                r matches BiometricResult::Failed(m) && m@ == "Authentication failed"@
            },
        },
{
    match reply {
        Ok(()) => BiometricResult::Success,
        Err(c) => {
            if c == -2 || c == -3 || c == -4 {
                BiometricResult::Cancelled
            } else if c == -5 || c == -7 {
                BiometricResult::NotEnrolled
            } else if c == -6 {
                BiometricResult::NotAvailable
            } else {
                BiometricResult::Failed(String::from_str("Authentication failed"))
            }
        },
    }
}

/// The outcome when macOS did not answer within the thirty seconds allowed.
pub fn timeout_result() -> (r: BiometricResult)
    ensures
        r matches BiometricResult::Failed(m) && m@ == "Authentication timeout"@,
{
    BiometricResult::Failed(String::from_str("Authentication timeout"))
}

/// Whether biometric authentication is switched on.
pub struct BiometricService {
    enabled: bool,
}

impl BiometricService {
    pub closed spec fn on(&self) -> bool {
        self.enabled
    }

    /// Switched on by default (it is used only where available).
    pub fn new() -> (s: Self)
        ensures
            s.on(),
    {
        BiometricService { enabled: true }
    }

    pub fn is_enabled(&self) -> (b: bool)
        ensures
            b == self.on(),
    {
        self.enabled
    }

    pub fn set_enabled(&mut self, enabled: bool)
        ensures
            final(self).on() == enabled,
    {
        self.enabled = enabled;
    }

    /// Whether the platform is to be asked: only when switched on and
    /// available; otherwise the answer is `NotAvailable` at once.
    pub fn should_authenticate(&self, available: bool) -> (b: bool)
        ensures
            b == (self.on() && available),
    {
        must_ask_platform(self.enabled, available)
    }
}

} // verus!
