//! Sending bitcoin: the checks before a preview is built, the PIN and
//! subscription gates before signing, signing on this device or with a
//! hardware wallet, and the message shown once sent.
use vstd::prelude::*;
use crate::biometrics::BiometricType;
use crate::hardware_wallet::{QrDisplayState, QrScannerState};
use crate::pin::PinVerificationState;
use crate::recovery::{Fetched, unavailable_message};
use crate::text::concat;

verus! {

/// How far signing with a hardware wallet has come.
#[derive(Debug, Clone, Copy, PartialEq, Eq, Structural)]
pub enum HardwareWalletSigningMode {
    /// No hardware wallet signing under way.
    NotSigning,
    /// The unsigned transaction is shown for the hardware wallet to scan.
    DisplayingQR,
    /// The signed transaction is being scanned from the hardware wallet.
    ScanningQR,
}

/// A transaction built for review before signing.
#[derive(Debug, Clone)]
pub struct TransactionPreview {
    pub recipient: String,
    /// Fee in satoshis.
    pub fee: u64,
    pub description: Option<String>,
    pub network: String,
    pub date: String,
    /// The unsigned transaction (PSBT, base64).
    pub psbt: String,
}

/// What the wallet answered to a request to send: the transaction id and a
/// message, each when given.
pub struct SendResponse {
    pub txid: Option<String>,
    pub message: Option<String>,
}

/// What came of signing and sending on this device.
pub enum SendOutcome {
    Answered(SendResponse),
    Failed(String),
    /// No vault service to sign with.
    NoService,
    /// No runtime to run the request on.
    NoRuntime,
}

/// What happens when "Sign & Broadcast" is pressed.
#[derive(Debug, Clone, Copy, PartialEq, Eq, Structural)]
pub enum SignStart {
    /// The PIN must be verified first; the PIN dialog is opened.
    NeedPin,
    /// The subscription refuses the action; the error says why.
    Refused,
    /// Signing is already under way.
    Busy,
    /// There is no preview to sign.
    NoPreview,
    /// Signing starts.
    Go,
}

pub open spec fn opt_text(o: Option<String>) -> Option<Seq<char>> {
    match o {
        Some(s) => Some(s@),
        None => None,
    }
}

/// The message shown once the wallet has sent the transaction.
pub open spec fn sent_message(r: SendResponse) -> Seq<char> {
    match r.txid {
        Some(t) => "Transaction sent successfully! TXID: "@ + t@,
        None => match r.message {
            Some(m) => m@,
            None => "Transaction sent successfully!"@,
        },
    }
}

/// What checking the form finds wrong before a preview is built, if
/// anything. `amount_ok` says whether the amount typed reads as a positive
/// number of bitcoin.
pub open spec fn preview_error(recipient: Seq<char>, amount: Seq<char>, max: bool, amount_ok: bool) -> Option<Seq<char>> {
    if recipient.len() == 0 {
        Some("Recipient address is required"@)
    } else if !max && amount.len() == 0 {
        Some("Amount is required (or select 'Send Max')"@)
    } else if !max && !amount_ok {
        Some("Invalid amount"@)
    } else {
        None
    }
}

/// The network's number for the service that broadcasts transactions signed
/// by a hardware wallet: 0 for mainnet, 1 for any other network.
pub fn network_id(is_mainnet: bool) -> (id: u8)
    ensures
        id == (if is_mainnet {
            0u8
        } else {
            1u8
        }),
{
    if is_mainnet {
        0
    } else {
        1
    }
}

/// State of the send screen.
pub struct SendTransactionState {
    pub recipient_address: String,
    pub amount_btc: String,
    /// Fee rate in sat/vB.
    pub fee_rate: u64,
    pub description: String,
    pub is_sending_max: bool,
    pub is_recovery: bool,
    pub preview: Option<TransactionPreview>,
    pub error: Option<String>,
    pub success_message: Option<String>,
    pub is_building: bool,
    pub is_signing: bool,
    pub pin_verification: PinVerificationState,
    pub hw_signing_mode: HardwareWalletSigningMode,
    pub hw_qr_display_state: QrDisplayState,
    pub hw_qr_scanner_state: QrScannerState,
}

impl SendTransactionState {
    /// An empty form with the default fee rate of 10 sat/vB.
    pub fn new(biometric_available: bool, biometric_type: BiometricType) -> (s: Self)
        ensures
            s.recipient_address@.len() == 0,
            s.amount_btc@.len() == 0,
            s.fee_rate == 10,
            s.description@.len() == 0,
            !s.is_sending_max,
            !s.is_recovery,
            s.preview is None,
            s.error is None,
            s.success_message is None,
            !s.is_building,
            !s.is_signing,
            !s.pin_verification.is_ok(),
            !s.pin_verification.visible(),
            s.hw_signing_mode == HardwareWalletSigningMode::NotSigning,
    {
        SendTransactionState {
            recipient_address: String::new(),
            amount_btc: String::new(),
            fee_rate: 10,
            description: String::new(),
            is_sending_max: false,
            is_recovery: false,
            preview: None,
            error: None,
            success_message: None,
            is_building: false,
            is_signing: false,
            pin_verification: PinVerificationState::new(biometric_available, biometric_type),
            hw_signing_mode: HardwareWalletSigningMode::NotSigning,
            hw_qr_display_state: QrDisplayState::new(),
            hw_qr_scanner_state: QrScannerState::new(),
        }
    }

    /// The form must wait for the PIN (when one is set) before it is shown.
    pub fn needs_pin(&self, pin_set: bool) -> (b: bool)
        ensures
            b == (pin_set && !self.pin_verification.is_ok()),
    {
        pin_set && !self.pin_verification.is_verified()
    }

    /// The description sent with the transaction: none when empty.
    pub fn description_to_send(&self) -> (d: Option<String>)
        ensures
            self.description@.len() == 0 ==> d is None,
            self.description@.len() > 0 ==> opt_text(d) == Some(self.description@),
    {
        if self.description.unicode_len() == 0 {
            None
        } else {
            Some(self.description.clone())
        }
    }

    /// "Preview Transaction": the checks made before the wallet is asked.
    /// Nothing happens while a preview is being built; otherwise the form is
    /// checked and, when it passes, building starts. `amount_ok` says
    /// whether the amount typed reads as a positive number of bitcoin.
    pub fn begin_preview(&mut self, amount_ok: bool) -> (start: bool)
        ensures
            old(self).is_building ==> !start && final(self).error == old(self).error
                && final(self).is_building,
            !old(self).is_building ==> match preview_error(
                old(self).recipient_address@,
                old(self).amount_btc@,
                old(self).is_sending_max,
                amount_ok,
            ) {
                Some(m) => !start && opt_text(final(self).error) == Some(m) && !final(self).is_building,
                None => start && final(self).error is None && final(self).is_building,
            },
            final(self).preview == old(self).preview,
            final(self).is_signing == old(self).is_signing,
    {
        if self.is_building {
            return false;
        }
        if self.recipient_address.unicode_len() == 0 {
            self.error = Some(String::from_str("Recipient address is required"));
            return false;
        }
        if !self.is_sending_max && self.amount_btc.unicode_len() == 0 {
            self.error = Some(String::from_str("Amount is required (or select 'Send Max')"));
            return false;
        }
        if !self.is_sending_max && !amount_ok {
            self.error = Some(String::from_str("Invalid amount"));
            return false;
        }
        self.is_building = true;
        self.error = None;
        true
    }

    /// The preview built, or why it could not be.
    pub fn finish_preview(&mut self, built: Fetched<TransactionPreview>)
        ensures
            !final(self).is_building,
            match built {
                Fetched::Ready(p) => final(self).preview == Some(p) && final(self).error == old(self).error,
                Fetched::Failed(e) => opt_text(final(self).error) == Some("Failed to build transaction: "@ + e@)
                    && final(self).preview == old(self).preview,
                Fetched::Unavailable => opt_text(final(self).error) == Some(unavailable_message())
                    && final(self).preview == old(self).preview,
            },
    {
        match built {
            Fetched::Ready(p) => {
                self.preview = Some(p);
                self.is_building = false;
            },
            Fetched::Failed(e) => {
                self.error = Some(concat("Failed to build transaction: ", e.as_str()));
                self.is_building = false;
            },
            Fetched::Unavailable => {
                self.error = Some(String::from_str("Vault not loaded or runtime not available"));
                self.is_building = false;
            },
        }
    }

    /// "Sign & Broadcast": the PIN (when one is set) must be verified, the
    /// subscription must allow sending (`subscription`, from
    /// `check_subscription_before_action`), no signing may be under way, and
    /// there must be a preview; then signing starts.
    pub fn begin_sign(&mut self, pin_set: bool, subscription: Result<(), String>) -> (r: SignStart)
        ensures
            pin_set && !old(self).pin_verification.is_ok() ==> r == SignStart::NeedPin
                && final(self).pin_verification.visible() && !final(self).pin_verification.is_ok()
                && final(self).error == old(self).error,
            !(pin_set && !old(self).pin_verification.is_ok()) ==> match subscription {
                Err(m) => r == SignStart::Refused && opt_text(final(self).error) == Some(m@),
                Ok(()) => if old(self).is_signing {
                    r == SignStart::Busy && final(self).error == old(self).error
                } else if old(self).preview is None {
                    r == SignStart::NoPreview && opt_text(final(self).error) == Some(
                        "No transaction preview available"@,
                    )
                } else {
                    r == SignStart::Go && final(self).is_signing && final(self).error is None
                },
            },
            r != SignStart::Go ==> final(self).is_signing == old(self).is_signing,
            final(self).preview == old(self).preview,
            final(self).success_message == old(self).success_message,
    {
        if pin_set && !self.pin_verification.is_verified() {
            self.pin_verification.show();
            return SignStart::NeedPin;
        }
        match subscription {
            Err(m) => {
                self.error = Some(m);
                return SignStart::Refused;
            },
            Ok(()) => {},
        }
        if self.is_signing {
            return SignStart::Busy;
        }
        if self.preview.is_none() {
            self.error = Some(String::from_str("No transaction preview available"));
            return SignStart::NoPreview;
        }
        self.is_signing = true;
        self.error = None;
        SignStart::Go
    }

    /// What came of signing and sending. Once sent, the message says so
    /// (with the transaction id when given); the answer is then the id to
    /// announce in a notification, if any. Signing ends and the PIN must be
    /// verified again.
    pub fn finish_sign(&mut self, outcome: SendOutcome) -> (notify: Option<String>)
        ensures
            !final(self).is_signing,
            !final(self).pin_verification.is_ok(),
            match outcome {
                SendOutcome::Answered(r) => {
                    &&& final(self).error is None
                    &&& opt_text(final(self).success_message) == Some(sent_message(r))
                    &&& notify == r.txid
                },
                SendOutcome::Failed(e) => {
                    &&& opt_text(final(self).error) == Some("Failed to send transaction: "@ + e@)
                    &&& final(self).success_message == old(self).success_message
                    &&& notify is None
                },
                SendOutcome::NoService => {
                    &&& opt_text(final(self).error) == Some("Vault service not available"@)
                    &&& notify is None
                },
                SendOutcome::NoRuntime => {
                    &&& opt_text(final(self).error) == Some("Runtime not available"@)
                    &&& notify is None
                },
            },
            final(self).preview == old(self).preview,
    {
        let notify = match outcome {
            SendOutcome::Answered(r) => {
                self.error = None;
                match r.txid {
                    Some(t) => {
                        self.success_message = Some(concat("Transaction sent successfully! TXID: ", t.as_str()));
                        Some(t)
                    },
                    None => {
                        match r.message {
                            Some(m) => {
                                self.success_message = Some(m);
                            },
                            None => {
                                self.success_message = Some(String::from_str("Transaction sent successfully!"));
                            },
                        }
                        None
                    },
                }
            },
            SendOutcome::Failed(e) => {
                self.error = Some(concat("Failed to send transaction: ", e.as_str()));
                None
            },
            SendOutcome::NoService => {
                self.error = Some(String::from_str("Vault service not available"));
                None
            },
            SendOutcome::NoRuntime => {
                self.error = Some(String::from_str("Runtime not available"));
                None
            },
        };
        self.is_signing = false;
        self.pin_verification.reset();
        notify
    }

    /// "Sign with Hardware Wallet": the unsigned transaction of the preview,
    /// to be encoded in QR parts; without a preview the error says so.
    pub fn begin_hardware_signing(&mut self) -> (psbt: Option<String>)
        ensures
            match old(self).preview {
                Some(p) => opt_text(psbt) == Some(p.psbt@) && final(self).error == old(self).error,
                None => psbt is None && opt_text(final(self).error) == Some(
                    "No transaction preview available. Please build preview first."@,
                ),
            },
            final(self).hw_signing_mode == old(self).hw_signing_mode,
            final(self).preview == old(self).preview,
    {
        match &self.preview {
            Some(p) => Some(p.psbt.clone()),
            None => {
                self.error = Some(String::from_str("No transaction preview available. Please build preview first."));
                None
            },
        }
    }

    /// The QR parts of the unsigned transaction, or why they could not be
    /// made. Once made they are shown from the first.
    pub fn finish_hardware_encoding(&mut self, parts: Fetched<Vec<String>>)
        ensures
            match parts {
                Fetched::Ready(v) => final(self).hw_qr_display_state.ur_parts@ == v@
                    && final(self).hw_qr_display_state.current_part == 0 && final(self).hw_signing_mode
                    == HardwareWalletSigningMode::DisplayingQR && final(self).error is None,
                Fetched::Failed(e) => opt_text(final(self).error) == Some(
                    "Failed to encode PSBT for hardware wallet: "@ + e@,
                ) && final(self).hw_signing_mode == old(self).hw_signing_mode,
                Fetched::Unavailable => opt_text(final(self).error) == Some(unavailable_message())
                    && final(self).hw_signing_mode == old(self).hw_signing_mode,
            },
            final(self).preview == old(self).preview,
    {
        match parts {
            Fetched::Ready(v) => {
                self.hw_qr_display_state.show_parts(v);
                self.hw_signing_mode = HardwareWalletSigningMode::DisplayingQR;
                self.error = None;
            },
            Fetched::Failed(e) => {
                self.error = Some(concat("Failed to encode PSBT for hardware wallet: ", e.as_str()));
            },
            Fetched::Unavailable => {
                self.error = Some(String::from_str("Vault not loaded or runtime not available"));
            },
        }
    }

    /// "Hardware Wallet Signed - Scan QR": scanning the signed transaction
    /// starts afresh.
    pub fn start_scanning_signed(&mut self)
        ensures
            final(self).hw_signing_mode == HardwareWalletSigningMode::ScanningQR,
            final(self).hw_qr_scanner_state.scanned_parts@.len() == 0,
            !final(self).hw_qr_scanner_state.success,
            final(self).hw_qr_scanner_state.is_scanning,
            final(self).preview == old(self).preview,
    {
        self.hw_signing_mode = HardwareWalletSigningMode::ScanningQR;
        self.hw_qr_scanner_state = QrScannerState::new();
    }

    /// Sending the transaction signed by the hardware wallet starts, unless
    /// a signing is already under way.
    pub fn begin_send_signed(&mut self) -> (start: bool)
        ensures
            start == !old(self).is_signing,
            final(self).is_signing,
            start ==> final(self).error is None,
            !start ==> final(self).error == old(self).error,
            final(self).hw_signing_mode == old(self).hw_signing_mode,
    {
        if self.is_signing {
            return false;
        }
        self.is_signing = true;
        self.error = None;
        true
    }

    /// What came of sending the signed transaction: the wallet's message,
    /// if any, or why it failed. Hardware signing ends either way; the
    /// answer is whether to announce the sending in a notification.
    pub fn finish_send_signed(&mut self, sent: Fetched<Option<String>>) -> (notify: bool)
        ensures
            !final(self).is_signing,
            final(self).hw_signing_mode == HardwareWalletSigningMode::NotSigning,
            notify == sent is Ready,
            match sent {
                Fetched::Ready(m) => final(self).error is None && opt_text(final(self).success_message) == Some(
                    match m {
                        Some(t) => t@,
                        None => "Transaction sent successfully!"@,
                    },
                ) && !final(self).pin_verification.is_ok(),
                Fetched::Failed(e) => opt_text(final(self).error) == Some("Failed to send transaction: "@ + e@)
                    && !final(self).pin_verification.is_ok(),
                Fetched::Unavailable => opt_text(final(self).error) == Some(unavailable_message()),
            },
            final(self).preview == old(self).preview,
    {
        match sent {
            Fetched::Ready(m) => {
                self.error = None;
                match m {
                    Some(t) => {
                        self.success_message = Some(t);
                    },
                    None => {
                        self.success_message = Some(String::from_str("Transaction sent successfully!"));
                    },
                }
                self.is_signing = false;
                self.hw_signing_mode = HardwareWalletSigningMode::NotSigning;
                self.pin_verification.reset();
                true
            },
            Fetched::Failed(e) => {
                self.error = Some(concat("Failed to send transaction: ", e.as_str()));
                self.is_signing = false;
                self.hw_signing_mode = HardwareWalletSigningMode::NotSigning;
                self.pin_verification.reset();
                false
            },
            Fetched::Unavailable => {
                self.error = Some(String::from_str("Vault not loaded or runtime not available"));
                self.is_signing = false;
                self.hw_signing_mode = HardwareWalletSigningMode::NotSigning;
                false
            },
        }
    }
}

} // verus!
