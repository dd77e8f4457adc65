use bitvault_app::biometrics::{
    biometric_type_for, macos_policy_error_result, timeout_result, windows_unavailable_result,
    windows_verification_result, BiometricResult, BiometricService, BiometricType, Platform,
    WindowsAvailability, WindowsVerification,
};
use bitvault_app::components::{network_badge, BadgeStyle, ButtonStyle};
use bitvault_app::icons::{icon_label, replace_text, Icon};
use bitvault_app::network::{after_load_attempt, initial_network, vault_try_order, LoadStep, Network, VaultCandidate};
use bitvault_app::notifications::{notification_for, sort_newest_first, Notification, NotificationCenterState, NotificationService, NotificationType};
use bitvault_app::qr::{generate_qr_image, qr_cache_key};
use bitvault_app::recovery::Fetched;
use bitvault_app::send::{network_id, HardwareWalletSigningMode, SendOutcome, SendResponse, SendTransactionState, SignStart, TransactionPreview};
use bitvault_app::telegram::TelegramServiceError;
use bitvault_app::transactions::{apply_filter, TransactionDetailState, TransactionFilter, TransactionHistoryState, TransactionInfo, TransactionStatus};

fn tx(id: &str, status: TransactionStatus, ts: i64, received: u64, sent: u64) -> TransactionInfo {
    TransactionInfo {
        tx_id: id.to_string(),
        status,
        timestamp: ts,
        address: "bc1qdest".to_string(),
        amount_received_sat: received,
        amount_sent_sat: sent,
        fee_sat: None,
        outgoing: sent > 0,
        locktime: 0,
        execution_date: 0,
        description: None,
    }
}

#[test]
fn history_filters_by_status() {
    let txs = vec![
        tx("a", TransactionStatus::Pending, 1, 0, 5),
        tx("b", TransactionStatus::Received, 2, 9, 0),
        tx("c", TransactionStatus::Pending, 3, 0, 7),
    ];
    let pending = apply_filter(&txs, TransactionFilter::Pending);
    assert_eq!(pending.iter().map(|t| t.tx_id.clone()).collect::<Vec<_>>(), vec!["a", "c"]);
    assert_eq!(apply_filter(&txs, TransactionFilter::Sent).len(), 0);
    assert_eq!(TransactionFilter::all().len(), 3);
    assert_eq!(TransactionFilter::Received.title(), "Received");
    assert_eq!(TransactionStatus::Pending.as_str(), "pending");
    let mut h = TransactionHistoryState::new();
    assert!(h.needs_refresh(0));
    assert!(h.begin_refresh());
    assert!(!h.begin_refresh());
    h.finish_refresh(Fetched::Ready(txs), 1_000);
    assert_eq!(h.filtered_transactions.len(), 2);
    assert!(!h.needs_refresh(31_000));
    assert!(h.needs_refresh(31_001));
    h.select_filter(TransactionFilter::Received);
    assert_eq!(h.filtered_transactions.len(), 1);
    h.finish_refresh(Fetched::Unavailable, 2_000);
    assert_eq!(h.error.clone().unwrap(), "Vault not loaded or runtime not available");
}

#[test]
fn transaction_detail_and_cancel() {
    let mut d = TransactionDetailState::new(false, BiometricType::NoBiometric);
    assert!(d.open("a"));
    d.finish_load(Fetched::Ready(None));
    assert_eq!(d.error.clone().unwrap(), "Transaction not found");
    d.finish_load(Fetched::Ready(Some(tx("a", TransactionStatus::Pending, 1, 0, 5))));
    assert!(d.can_cancel());
    assert!(!d.open("a"));
    assert!(!d.begin_cancel(true));
    assert!(d.pin_verification.is_visible());
    assert!(d.begin_cancel(false));
    d.finish_cancel(Fetched::Failed("rbf".to_string()));
    assert_eq!(d.cancel_error.clone().unwrap(), "Failed to cancel transaction: rbf");
    d.finish_cancel(Fetched::Ready(()));
    assert!(d.cancel_success);
    assert!(d.transaction.is_none());
    assert!(d.open("b"));
    assert!(!d.cancel_success);
}

#[test]
fn notifications_newest_first() {
    let n = notification_for(&tx("t1", TransactionStatus::Received, 5, 150_000_000, 0), 99);
    assert_eq!(n.title, "Transaction Received");
    assert_eq!(n.body, "Received 1.50000000 BTC - t1");
    let n2 = notification_for(&tx("t2", TransactionStatus::Sent, 5, 0, 1), 99);
    assert_eq!(n2.body, "Sent 0.00000001 BTC - t2");
    let n3 = notification_for(&tx("t3", TransactionStatus::Pending, 5, 0, 0), 99);
    assert_eq!(n3.body, "Amount: 0 BTC - t3");
    let mk = |id: &str, t: i64| Notification {
        id: id.to_string(),
        title: String::new(),
        body: String::new(),
        created_at: t,
        expires_at: None,
        notification_type: NotificationType::Info,
    };
    let sorted = sort_newest_first(vec![mk("a", 1), mk("b", 3), mk("c", 2), mk("d", 3)]);
    assert_eq!(sorted.iter().map(|n| n.id.clone()).collect::<Vec<_>>(), vec!["b", "d", "c", "a"]);
    let mut c = NotificationCenterState::new();
    c.finish_fetch(
        Fetched::Ready(vec![tx("x", TransactionStatus::Sent, 10, 0, 3), tx("y", TransactionStatus::Received, 20, 4, 0)]),
        99,
    );
    assert_eq!(c.notifications[0].id, "y");
    assert_eq!(c.last_fetch, Some(99));
    c.finish_fetch(Fetched::Failed("x".to_string()), 100);
    assert_eq!(c.error.clone().unwrap(), "Failed to fetch notifications: x");
    c.reset();
    assert!(c.notifications.is_empty());
}

#[test]
fn desktop_notification_switch() {
    let mut s = NotificationService::new();
    assert!(s.is_enabled());
    let n = s.notify_vault_created("Family").unwrap();
    assert_eq!(n.title, "Vault Created");
    assert_eq!(n.body, "Vault 'Family' has been created successfully.");
    s.set_enabled(false);
    assert_eq!(s.notify_error("x").unwrap_err(), "Notifications are disabled");
}

fn preview() -> TransactionPreview {
    TransactionPreview {
        recipient: "bc1q".to_string(),
        fee: 200,
        description: None,
        network: "testnet".to_string(),
        date: "today".to_string(),
        psbt: "cHNidP8=".to_string(),
    }
}

#[test]
fn send_form_checks() {
    let mut s = SendTransactionState::new(false, BiometricType::NoBiometric);
    assert_eq!(s.fee_rate, 10);
    assert!(!s.begin_preview(true));
    assert_eq!(s.error.clone().unwrap(), "Recipient address is required");
    s.recipient_address = "bc1q".to_string();
    assert!(!s.begin_preview(true));
    assert_eq!(s.error.clone().unwrap(), "Amount is required (or select 'Send Max')");
    s.amount_btc = "abc".to_string();
    assert!(!s.begin_preview(false));
    assert_eq!(s.error.clone().unwrap(), "Invalid amount");
    assert!(s.begin_preview(true));
    assert!(!s.begin_preview(true));
    s.finish_preview(Fetched::Failed("insufficient funds".to_string()));
    assert_eq!(s.error.clone().unwrap(), "Failed to build transaction: insufficient funds");
    s.is_sending_max = true;
    s.amount_btc.clear();
    assert!(s.begin_preview(false));
    s.finish_preview(Fetched::Ready(preview()));
    assert!(s.preview.is_some());
    assert_eq!(s.description_to_send(), None);
}

#[test]
fn signing_gates_and_messages() {
    let mut s = SendTransactionState::new(false, BiometricType::NoBiometric);
    assert_eq!(s.begin_sign(true, Ok(())), SignStart::NeedPin);
    assert!(s.pin_verification.is_visible());
    assert_eq!(s.begin_sign(false, Err("expired".to_string())), SignStart::Refused);
    assert_eq!(s.error.clone().unwrap(), "expired");
    assert_eq!(s.begin_sign(false, Ok(())), SignStart::NoPreview);
    assert_eq!(s.error.clone().unwrap(), "No transaction preview available");
    s.preview = Some(preview());
    assert_eq!(s.begin_sign(false, Ok(())), SignStart::Go);
    assert_eq!(s.begin_sign(false, Ok(())), SignStart::Busy);
    let notify = s.finish_sign(SendOutcome::Answered(SendResponse { txid: Some("abcd".to_string()), message: None }));
    assert_eq!(notify, Some("abcd".to_string()));
    assert_eq!(s.success_message.clone().unwrap(), "Transaction sent successfully! TXID: abcd");
    s.finish_sign(SendOutcome::Answered(SendResponse { txid: None, message: Some("queued".to_string()) }));
    assert_eq!(s.success_message.clone().unwrap(), "queued");
    s.finish_sign(SendOutcome::Answered(SendResponse { txid: None, message: None }));
    assert_eq!(s.success_message.clone().unwrap(), "Transaction sent successfully!");
    s.finish_sign(SendOutcome::NoRuntime);
    assert_eq!(s.error.clone().unwrap(), "Runtime not available");
    assert!(!s.is_signing);
}

#[test]
fn hardware_signing_flow() {
    let mut s = SendTransactionState::new(false, BiometricType::NoBiometric);
    assert!(s.begin_hardware_signing().is_none());
    assert_eq!(s.error.clone().unwrap(), "No transaction preview available. Please build preview first.");
    s.preview = Some(preview());
    assert_eq!(s.begin_hardware_signing(), Some("cHNidP8=".to_string()));
    s.finish_hardware_encoding(Fetched::Ready(vec!["ur:1".to_string(), "ur:2".to_string()]));
    assert_eq!(s.hw_signing_mode, HardwareWalletSigningMode::DisplayingQR);
    assert_eq!(s.hw_qr_display_state.ur_parts.len(), 2);
    s.start_scanning_signed();
    assert_eq!(s.hw_signing_mode, HardwareWalletSigningMode::ScanningQR);
    assert!(s.begin_send_signed());
    assert!(!s.begin_send_signed());
    assert!(s.finish_send_signed(Fetched::Ready(None)));
    assert_eq!(s.success_message.clone().unwrap(), "Transaction sent successfully!");
    assert_eq!(s.hw_signing_mode, HardwareWalletSigningMode::NotSigning);
    assert_eq!(network_id(true), 0);
    assert_eq!(network_id(false), 1);
}

fn cand(a: &str, net: &str, db: bool, valid: bool) -> VaultCandidate {
    VaultCandidate { address: a.to_string(), network: net.to_string(), database_exists: db, valid }
}

#[test]
fn networks_and_vault_order() {
    for n in [Network::Bitcoin, Network::Testnet, Network::Signet, Network::Regtest] {
        assert_eq!(Network::from_name(n.name()), Some(n));
    }
    assert_eq!(Network::Bitcoin.name(), "mainnet");
    assert_eq!(Network::from_name("bitcoin"), None);
    assert_eq!(initial_network(&Some("signet".to_string())), Network::Signet);
    assert_eq!(initial_network(&Some("nonsense".to_string())), Network::Testnet);
    assert_eq!(initial_network(&None), Network::Testnet);
    assert!(Network::Bitcoin.is_mainnet());
    let cands = vec![
        cand("a", "testnet", true, true),
        cand("b", "mainnet", true, true),
        cand("c", "testnet", false, true),
        cand("d", "testnet", true, false),
        cand("e", "testnet", true, true),
    ];
    let order = vault_try_order(&cands, Network::Testnet, &Some("e".to_string()));
    assert_eq!(order.iter().map(|c| c.address.clone()).collect::<Vec<_>>(), vec!["e", "a"]);
    let order = vault_try_order(&cands, Network::Testnet, &Some("zzz".to_string()));
    assert_eq!(order.iter().map(|c| c.address.clone()).collect::<Vec<_>>(), vec!["a", "e"]);
    let order = vault_try_order(&cands, Network::Bitcoin, &None);
    assert_eq!(order.len(), 1);
}

#[test]
fn icons_and_badges() {
    assert_eq!(Icon::Back.as_text(), "<-");
    assert_eq!(Icon::Users.as_text(), "[Join]");
    assert_eq!(Icon::Copy.cache_key(255, 0, 16), "Copy_ff0010");
    assert_eq!(icon_label(Icon::Save, "Save file"), "[Save] Save file");
    let svg = Icon::Plus.colored_svg(0x12, 0x34, 0x56);
    assert!(svg.contains("stroke=\"#123456\""));
    assert!(!svg.contains("currentColor"));
    assert_eq!(svg, Icon::Plus.svg_data().replace("stroke=\"currentColor\"", "stroke=\"#123456\""));
    assert_eq!(replace_text("aaa", "aa", "b"), "ba");
    assert_eq!(replace_text("abcabc", "bc", "XY"), "aXYaXY");
    assert_eq!(network_badge("mainnet"), BadgeStyle::Success);
    assert_eq!(network_badge("testnet"), BadgeStyle::Warning);
    assert_eq!(network_badge("signet"), BadgeStyle::Info);
    assert_eq!(network_badge("regtest"), BadgeStyle::Neutral);
    assert!(ButtonStyle::Primary.is_large());
    assert!(ButtonStyle::Text.highlights_on_hover());
}

#[test]
fn qr_images_scale_modules() {
    let (side, pixels) = generate_qr_image("bc1qar0srrr7xfkvy5l643lydnw9re59gtzzwf5mdq").unwrap();
    let code = qrcode::QrCode::with_error_correction_level("bc1qar0srrr7xfkvy5l643lydnw9re59gtzzwf5mdq".as_bytes(), qrcode::EcLevel::M).unwrap();
    let w = code.width();
    assert_eq!(side, w * 8);
    assert_eq!(pixels.len(), side * side);
    for y in 0..side {
        for x in 0..side {
            let dark = code[(x / 8, y / 8)] == qrcode::Color::Dark;
            assert_eq!(pixels[y * side + x], if dark { 0 } else { 255 });
        }
    }
    assert_eq!(qr_cache_key("abc"), "qr_abc");
    let too_long = "x".repeat(5000);
    assert!(generate_qr_image(&too_long).is_none());
}

#[test]
fn biometric_outcomes() {
    assert_eq!(biometric_type_for(Platform::Windows), BiometricType::WindowsHello);
    assert_eq!(biometric_type_for(Platform::MacOs), BiometricType::TouchID);
    assert_eq!(biometric_type_for(Platform::Other), BiometricType::NoBiometric);
    assert_eq!(BiometricType::NoBiometric.display_name(), "None");
    assert!(windows_unavailable_result(WindowsAvailability::Available).is_none());
    assert!(matches!(windows_unavailable_result(WindowsAvailability::NotConfiguredForUser), Some(BiometricResult::NotEnrolled)));
    assert!(matches!(windows_verification_result(WindowsVerification::Verified), BiometricResult::Success));
    assert!(matches!(windows_verification_result(WindowsVerification::Other), BiometricResult::Failed(m) if m == "Authentication failed"));
    assert!(matches!(macos_policy_error_result(Some(-7)), BiometricResult::NotEnrolled));
    assert!(matches!(macos_policy_error_result(Some(-5)), BiometricResult::NotEnrolled));
    assert!(matches!(macos_policy_error_result(Some(-6)), BiometricResult::NotAvailable));
    assert!(matches!(macos_policy_error_result(None), BiometricResult::NotAvailable));
    assert!(matches!(timeout_result(), BiometricResult::Failed(m) if m == "Authentication timeout"));
    let mut b = BiometricService::new();
    assert!(b.should_authenticate(true));
    b.set_enabled(false);
    assert!(!b.should_authenticate(true));
}

#[test]
fn telegram_error_texts() {
    assert_eq!(TelegramServiceError::NetworkError("down".to_string()).message(), "Network error: down");
    assert_eq!(
        TelegramServiceError::ServerError { message: "bad".to_string(), status_code: 503 }.message(),
        "Server error (503): bad"
    );
    assert_eq!(TelegramServiceError::ParseError("json".to_string()).message(), "Parse error: json");
}

#[test]
fn vault_load_attempts() {
    let c = |a: &str| VaultCandidate {
        address: a.to_string(),
        network: "testnet".to_string(),
        database_exists: true,
        valid: true,
    };
    let order = vec![c("tb1qa"), c("tb1qb")];
    assert_eq!(after_load_attempt(&order, 0, true), LoadStep::Loaded("tb1qa".to_string()));
    assert_eq!(after_load_attempt(&order, 0, false), LoadStep::TryNext(1));
    assert_eq!(after_load_attempt(&order, 1, false), LoadStep::AllFailed);
    assert_eq!(after_load_attempt(&order, 1, true), LoadStep::Loaded("tb1qb".to_string()));
}
