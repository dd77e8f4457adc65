use bitvault_app::app_flow::{AppGate, GateScreen};
use bitvault_app::biometrics::{macos_evaluation_result, BiometricResult, BiometricType};
use bitvault_app::navigation::Navigation;
use bitvault_app::hardware_wallet::QrScannerState;
use bitvault_app::notifications::NotificationService;
use bitvault_app::pin::PinEntryState;
use bitvault_app::recovery::{Fetched, RecoveryState, RecoveryStep, UtxoRefreshState, UtxoRefreshStep};
use bitvault_app::secret_notification::SecretNotificationState;
use bitvault_app::send::SendTransactionState;
use bitvault_app::settings::AppTheme;
use bitvault_app::components::BadgeStyle;
use bitvault_app::transactions::{offers_view_all, recent_transactions, status_badge, TransactionDetailState, TransactionInfo, TransactionStatus};
use bitvault_app::vault_creation::{VaultCreationState, VaultCreationStep};
use bitvault_app::vault_data::{AsyncCommand, PendingCommands};

const TXID: &str = "0000000000000000000000000000000000000000000000000000000000000001";

#[test]
fn scanner_file_unreadable_keeps_parts() {
    let mut s = QrScannerState::new();
    s.add_part("ur:a".to_string());
    s.file_unreadable("cannot open".to_string());
    assert_eq!(s.error.clone().unwrap(), "cannot open");
    assert_eq!(s.scanned_parts.len(), 1);
    assert!(!s.success);
}

#[test]
fn subscription_notifications() {
    let mut s = NotificationService::new();
    let n = s.notify_subscription_expired().unwrap();
    assert_eq!(n.title, "Subscription Expired");
    assert_eq!(n.body, "Your subscription has expired. Please renew to continue using mainnet features.");
    let n = s.notify_subscription_renewed().unwrap();
    assert_eq!(n.title, "Subscription Renewed");
    assert_eq!(n.body, "Your subscription has been successfully renewed.");
    s.set_enabled(false);
    assert_eq!(s.notify_subscription_expired().unwrap_err(), "Notifications are disabled");
    assert!(s.notify_subscription_renewed().is_err());
}

#[test]
fn pin_reset_offer_and_outcome() {
    let mut e = PinEntryState::new(false, BiometricType::NoBiometric);
    assert!(!e.offers_reset());
    e.error = Some("Decryption failed: bad key".to_string());
    assert!(e.offers_reset());
    e.pin = "12".to_string();
    assert!(!e.finish_reset(Err("locked".to_string())));
    assert_eq!(e.error.clone().unwrap(), "Failed to reset PIN: locked");
    assert_eq!(e.pin, "12");
    assert!(!e.finish_reset(Ok(())));
    assert_eq!(e.pin, "");
    assert!(e.error.is_none());
}

#[test]
fn pin_entry_biometric_outcomes() {
    let mut e = PinEntryState::new(true, BiometricType::TouchID);
    assert!(e.finish_biometric(BiometricResult::Success));
    assert!(e.error.is_none());
    assert!(!e.finish_biometric(BiometricResult::Cancelled));
    assert!(e.error.is_none());
    assert!(!e.finish_biometric(BiometricResult::Failed("no match".to_string())));
    assert_eq!(e.error.clone().unwrap(), "Biometric authentication failed: no match");
    assert!(!e.finish_biometric(BiometricResult::NotEnrolled));
    assert_eq!(e.error.clone().unwrap(), "Touch ID is not available or not enrolled");
}

fn recovery_with(outpoints: &[&str]) -> RecoveryState {
    let mut r = RecoveryState::new();
    r.on_utxos_loaded(Fetched::Ready(outpoints.iter().map(|s| s.to_string()).collect()));
    r
}

#[test]
fn recovery_continue_needs_a_selection() {
    let mut r = recovery_with(&["a:0", "b:1"]);
    assert_eq!(r.current_step(), RecoveryStep::SelectingUtxos);
    assert!(!r.continue_with_selection());
    assert_eq!(r.current_step(), RecoveryStep::SelectingUtxos);
    r.selection_mut().unwrap().select("b:1");
    assert!(r.continue_with_selection());
    assert_eq!(r.current_step(), RecoveryStep::BuildingPreview);
    assert_eq!(r.selected_utxos().clone(), vec!["b:1".to_string()]);
}

#[test]
fn recovery_preview_checks() {
    let mut r = recovery_with(&["a:0"]);
    assert!(r.request_preview(false, Ok(Some("bc1q".to_string()))).is_none());
    assert_eq!(r.current_step(), RecoveryStep::Error);
    assert_eq!(r.error().unwrap(), "Vault not loaded or runtime not available");

    let mut r = recovery_with(&["a:0"]);
    assert!(r.request_preview(true, Err(())).is_none());
    assert_eq!(r.error().unwrap(), "Error: Mutex poisoned");

    let mut r = recovery_with(&["a:0"]);
    assert!(r.request_preview(true, Ok(Some(String::new()))).is_none());
    assert_eq!(r.error().unwrap(), "No recipient address available");

    let mut r = recovery_with(&["a:0"]);
    assert_eq!(r.request_preview(true, Ok(Some("bc1q".to_string()))), Some("bc1q".to_string()));
    assert_eq!(r.current_step(), RecoveryStep::SelectingUtxos);
}

#[test]
fn recovery_preview_built_and_sign() {
    let mut r = recovery_with(&["a:0"]);
    r.on_preview_built("bc1q".to_string(), Err("fee too low".to_string()));
    assert_eq!(r.error().unwrap(), "Failed to build preview: fee too low");

    let mut r = recovery_with(&["a:0"]);
    r.on_preview_built("bc1q".to_string(), Ok("cHNidP8=".to_string()));
    assert_eq!(r.current_step(), RecoveryStep::PreviewReady);
    r.sign_requested(Ok(None));
    assert_eq!(r.current_step(), RecoveryStep::Signing);

    let mut r = recovery_with(&["a:0"]);
    r.sign_requested(Err(()));
    assert_eq!(r.error().unwrap(), "Error: Mutex poisoned");
}

fn refresh_with(outpoints: Vec<String>) -> UtxoRefreshState {
    let mut r = UtxoRefreshState::new();
    r.on_utxos_loaded(Fetched::Ready(outpoints));
    r
}

#[test]
fn refresh_request_checks() {
    let good = format!("{}:0", TXID);
    let mut r = refresh_with(vec![good.clone()]);
    assert!(r.request_refresh(false, Ok(Some("bc1q".to_string()))).is_none());
    assert_eq!(r.error().unwrap(), "Vault not loaded or runtime not available");

    let mut r = refresh_with(vec![good.clone()]);
    assert!(r.request_refresh(true, Err(())).is_none());
    assert_eq!(r.error().unwrap(), "Failed to get vault address");

    let mut r = refresh_with(vec![good.clone()]);
    assert!(r.request_refresh(true, Ok(None)).is_none());
    assert_eq!(r.error().unwrap(), "Vault address not available");

    let mut r = refresh_with(vec![good.clone()]);
    r.selection_mut().unwrap().select(&good);
    let job = r.request_refresh(true, Ok(Some("bc1q".to_string()))).unwrap();
    assert_eq!(job.address, "bc1q");
    assert_eq!(job.utxos, vec![good.clone()]);

    let mut r = refresh_with(vec!["nocolon".to_string()]);
    r.selection_mut().unwrap().select("nocolon");
    assert!(r.request_refresh(true, Ok(Some("bc1q".to_string()))).is_none());
    assert_eq!(r.current_step(), UtxoRefreshStep::Error);
}

#[test]
fn refresh_built() {
    let mut r = refresh_with(vec![format!("{}:0", TXID)]);
    r.on_refresh_built(Err("no funds".to_string()));
    assert_eq!(r.error().unwrap(), "Failed to build refresh transaction: no funds");
    let mut r = refresh_with(vec![format!("{}:0", TXID)]);
    r.on_refresh_built(Ok("cHNidP8=".to_string()));
    assert_eq!(r.current_step(), UtxoRefreshStep::Signing);
}

#[test]
fn send_waits_for_pin() {
    let s = SendTransactionState::new(false, BiometricType::NoBiometric);
    assert!(s.needs_pin(true));
    assert!(!s.needs_pin(false));
}

#[test]
fn theme_annotations() {
    assert_eq!(AppTheme::Light.annotation(), "Always use light theme");
    assert_eq!(AppTheme::Dark.annotation(), "Always use dark theme");
    assert_eq!(AppTheme::System.annotation(), "Follow system preference");
}

#[test]
fn transaction_refresh_status() {
    let mut d = TransactionDetailState::new(false, BiometricType::NoBiometric);
    assert!(d.open("a"));
    d.refresh_status();
    assert!(d.transaction.is_none());
    assert!(!d.is_loading);
    assert_eq!(d.current_txid.clone().unwrap(), "a");
}

#[test]
fn creation_reports_and_seed_step() {
    let mut s = VaultCreationState::new();
    s.seed_written_down();
    assert_eq!(s.current_step, VaultCreationStep::VerifySeedPhrase);
    assert_eq!(s.step_history.len(), 1);
    s.report_missing_runtime();
    assert_eq!(s.error.clone().unwrap(), "Missing mnemonic or runtime");
    assert!(!s.is_creating);
    s.report_runtime_unavailable();
    assert_eq!(s.error.clone().unwrap(), "Runtime not available");
    assert!(!s.is_importing);
    assert_eq!(s.current_step, VaultCreationStep::VerifySeedPhrase);
}

#[test]
fn telegram_registration_is_queued() {
    let mut q = PendingCommands::new();
    assert!(q.is_empty());
    q.request_telegram_registration();
    assert_eq!(q.take(), vec![AsyncCommand::RequestTelegramRegistration]);
    assert!(q.is_empty());
}

#[test]
fn secret_notification_setup() {
    let mut s = SecretNotificationState::new();
    let mut q = PendingCommands::new();
    s.open_bot(&mut q, false);
    assert!(s.is_loading);
    assert!(q.is_empty());
    s.is_loading = false;
    s.error = Some("timeout".to_string());
    s.retry();
    assert!(s.is_loading && s.error.is_none());
    s.open_bot(&mut q, true);
    assert_eq!(q.take(), vec![AsyncCommand::RequestTelegramRegistration]);
}

#[test]
fn dashboard_transaction_list() {
    assert_eq!(status_badge(TransactionStatus::Pending), ("Pending", BadgeStyle::Warning));
    assert_eq!(status_badge(TransactionStatus::Sent), ("Sent", BadgeStyle::Error));
    assert_eq!(status_badge(TransactionStatus::Received), ("Received", BadgeStyle::Success));
    let tx = |i: i64| TransactionInfo {
        tx_id: format!("t{}", i),
        status: TransactionStatus::Received,
        timestamp: i,
        address: String::new(),
        amount_received_sat: 1,
        amount_sent_sat: 0,
        fee_sat: None,
        outgoing: false,
        locktime: 0,
        execution_date: 0,
        description: None,
    };
    let all: Vec<TransactionInfo> = (0..7).map(tx).collect();
    let recent = recent_transactions(&all);
    assert_eq!(recent.len(), 5);
    assert_eq!(recent[4].tx_id, "t4");
    assert_eq!(recent_transactions(&all[..2].to_vec()).len(), 2);
    assert!(offers_view_all(6));
    assert!(!offers_view_all(5));
}

#[test]
fn macos_touch_id_outcomes() {
    assert!(matches!(macos_evaluation_result(Ok(())), BiometricResult::Success));
    assert!(matches!(macos_evaluation_result(Err(-2)), BiometricResult::Cancelled));
    assert!(matches!(macos_evaluation_result(Err(-4)), BiometricResult::Cancelled));
    assert!(matches!(macos_evaluation_result(Err(-7)), BiometricResult::NotEnrolled));
    assert!(matches!(macos_evaluation_result(Err(-6)), BiometricResult::NotAvailable));
    match macos_evaluation_result(Err(-1)) {
        BiometricResult::Failed(m) => assert_eq!(m, "Authentication failed"),
        _ => panic!("expected a failure"),
    }
}

#[test]
fn gate_shows_only_pin_screens_until_authenticated() {
    let mut nav = Navigation::new();
    let mut g = AppGate::new(false);
    assert_eq!(g.screen(), GateScreen::PinSetup);
    assert_eq!(AppGate::new(true).screen(), GateScreen::PinEntry);
    g.pin_set_up(&mut nav);
    assert_eq!(g.screen(), GateScreen::App);
}
