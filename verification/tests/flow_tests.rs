use bitvault_app::app_flow::{guard_dashboard, handle_back, show_home, AddressSource, AppGate, ReceiveState};
use bitvault_app::biometrics::BiometricType;
use bitvault_app::navigation::{Navigation, View};
use bitvault_app::pin::{
    is_valid_pin, validation_error_message, PinCheck, PinEntryState, PinKey, PinSetupAction, PinSetupState,
    PinSetupStep, PinValidationError, PinVerificationState,
};
use bitvault_app::recovery::{
    can_go_back_in_recovery_workflow, can_go_back_in_utxo_refresh_workflow, check_outpoint,
    go_back_in_recovery_workflow, go_back_in_utxo_refresh_workflow, Fetched, RecoveryState, RecoveryStep,
    UtxoSelectionState, UtxoRefreshState,
};
use bitvault_app::vault_creation::{DeviceRole, VaultCreationState, VaultCreationStep};

fn type_pin(s: &mut PinSetupState, digits: &str) {
    for c in digits.chars() {
        s.press(PinKey::Digit(c.to_digit(10).unwrap() as u8));
    }
}

#[test]
fn pin_strength() {
    assert!(is_valid_pin("123456"));
    assert!(is_valid_pin("112345"));
    assert!(!is_valid_pin("111111"));
    assert!(!is_valid_pin("121212"));
    assert!(!is_valid_pin("12345"));
    assert!(!is_valid_pin("1234567"));
}

#[test]
fn pin_setup_confirms_same_pin() {
    let mut s = PinSetupState::new();
    type_pin(&mut s, "135790");
    assert!(matches!(s.check(), PinSetupAction::Wait));
    assert_eq!(s.step(), PinSetupStep::ConfirmPin);
    type_pin(&mut s, "135790");
    match s.check() {
        PinSetupAction::SavePin(p) => assert_eq!(p, "135790"),
        other => panic!("unexpected {:?}", other),
    }
    assert!(s.finish_save(Ok(())));
    assert_eq!(s.step(), PinSetupStep::EnterPin);
    assert_eq!(s.typed_len(), 0);
}

#[test]
fn pin_setup_mismatch_and_weak_pin() {
    let mut s = PinSetupState::new();
    type_pin(&mut s, "111111");
    s.check();
    assert_eq!(s.error().unwrap(), "PIN must contain at least 4 different digits");
    assert_eq!(s.typed_len(), 0);
    type_pin(&mut s, "123456");
    s.check();
    type_pin(&mut s, "654321");
    assert!(matches!(s.check(), PinSetupAction::Wait));
    assert_eq!(s.error().unwrap(), "PINs do not match. Please try again.");
    assert_eq!(s.step(), PinSetupStep::EnterPin);
}

#[test]
fn pin_setup_save_failure_keeps_pin() {
    let mut s = PinSetupState::new();
    type_pin(&mut s, "246801");
    s.check();
    type_pin(&mut s, "246801");
    assert!(matches!(s.check(), PinSetupAction::SavePin(_)));
    assert!(!s.finish_save(Err("keychain locked".to_string())));
    assert_eq!(s.error().unwrap(), "Failed to save PIN: keychain locked");
    assert_eq!(s.step(), PinSetupStep::ConfirmPin);
}

#[test]
fn pin_keypad_edits() {
    let mut s = PinSetupState::new();
    type_pin(&mut s, "1234567");
    assert_eq!(s.typed_len(), 6);
    s.press(PinKey::Delete);
    assert_eq!(s.typed_len(), 5);
}

#[test]
fn pin_entry_messages() {
    let mut e = PinEntryState::new(false, BiometricType::NoBiometric);
    for d in [1u8, 2, 3, 4, 5, 6] {
        e.press(PinKey::Digit(d));
    }
    assert_eq!(e.begin_validation(), Some("123456".to_string()));
    assert!(!e.finish_validation(PinCheck::Invalid));
    assert_eq!(e.error.clone().unwrap(), "Invalid PIN. Please try again.");
    assert_eq!(
        validation_error_message(&PinValidationError::RateLimited(300)),
        "Too many failed attempts. Please try again in 5 minute(s)."
    );
    assert_eq!(
        validation_error_message(&PinValidationError::Other("x".to_string())),
        "Error validating PIN: x"
    );
    assert!(e.begin_biometric(true).is_none());
}

#[test]
fn pin_verification_dialog() {
    let mut v = PinVerificationState::new(false, BiometricType::NoBiometric);
    assert!(!v.is_visible());
    v.show();
    assert!(v.is_visible());
    assert!(!v.is_verified());
    v.close();
    assert!(!v.is_visible());
}

#[test]
fn utxo_choice_selection() {
    let mut c = UtxoSelectionState::new(vec!["a:0".to_string(), "b:1".to_string()]);
    assert!(!c.has_selection());
    c.select("a:0");
    c.select("a:0");
    assert!(c.is_selected("a:0"));
    assert_eq!(c.selected_outpoints(), vec!["a:0".to_string()]);
    c.select_all();
    assert_eq!(c.selected_outpoints().len(), 2);
    c.deselect("a:0");
    assert!(!c.is_selected("a:0"));
    c.deselect_all();
    assert!(!c.has_selection());
}

#[test]
fn recovery_back_undoes_advance() {
    let mut r = RecoveryState::new();
    assert!(!can_go_back_in_recovery_workflow(&r));
    r.advance_to_step(RecoveryStep::SelectingUtxos);
    r.advance_to_step(RecoveryStep::BuildingPreview);
    assert!(go_back_in_recovery_workflow(&mut r));
    assert_eq!(r.current_step(), RecoveryStep::SelectingUtxos);
    assert!(go_back_in_recovery_workflow(&mut r));
    assert!(!go_back_in_recovery_workflow(&mut r));
}

#[test]
fn recovery_failure_is_shown_and_undoable() {
    let mut r = RecoveryState::new();
    r.on_utxos_loaded(Fetched::Failed("timeout".to_string()));
    assert_eq!(r.current_step(), RecoveryStep::Error);
    assert_eq!(r.error().unwrap(), "Failed to load UTXOs: timeout");
    assert!(go_back_in_recovery_workflow(&mut r));
    assert_eq!(r.current_step(), RecoveryStep::LoadingUtxos);
}

#[test]
fn refresh_flow_back() {
    let mut r = UtxoRefreshState::new();
    assert!(!can_go_back_in_utxo_refresh_workflow(&r));
    assert!(!go_back_in_utxo_refresh_workflow(&mut r));
}

#[test]
fn outpoint_checks() {
    let txid = "0000000000000000000000000000000000000000000000000000000000000001";
    assert_eq!(check_outpoint(&format!("{}:0", txid)), None);
    assert!(check_outpoint("nocolon").is_some());
    assert!(check_outpoint(&format!("{}:x", txid)).is_some());
    assert!(check_outpoint("zz:1").is_some());
}

#[test]
fn pin_gate_and_home() {
    let mut nav = Navigation::new();
    let mut gate = AppGate::new(false);
    assert!(!gate.is_authenticated);
    assert!(gate.needs_pin_setup);
    gate.pin_set_up(&mut nav);
    assert!(gate.is_authenticated);
    assert_eq!(nav.current_view, View::VaultSelection);
    let mut gate = AppGate::new(true);
    assert!(!gate.needs_pin_setup);
    gate.pin_entered(&mut nav, true);
    assert_eq!(nav.current_view, View::Dashboard { tab: 0 });
    show_home(&mut nav, false);
    assert_eq!(nav.current_view, View::VaultSelection);
}

#[test]
fn back_button_walks_flows_first() {
    let mut nav = Navigation::new();
    nav.navigate_to(View::VaultCreation);
    let mut creation = VaultCreationState::new();
    let mut recovery = RecoveryState::new();
    let mut refresh = UtxoRefreshState::new();
    creation.select_role(DeviceRole::ViewOnly);
    assert_eq!(creation.current_step, VaultCreationStep::NameVault);
    assert!(!handle_back(&mut nav, &mut creation, &mut recovery, &mut refresh));
    assert_eq!(creation.current_step, VaultCreationStep::RoleSelection);
    assert_eq!(nav.current_view, View::VaultCreation);
    assert!(handle_back(&mut nav, &mut creation, &mut recovery, &mut refresh));
    assert_eq!(nav.current_view, View::VaultSelection);
}

#[test]
fn dashboard_guard() {
    let mut nav = Navigation::new();
    nav.navigate_to(View::Dashboard { tab: 0 });
    assert!(guard_dashboard(&mut nav, true, Some(true)));
    assert!(!guard_dashboard(&mut nav, true, Some(false)));
    assert_eq!(nav.current_view, View::VaultSelection);
    assert!(!guard_dashboard(&mut nav, false, None));
}

#[test]
fn receive_address_sources() {
    let mut r = ReceiveState::new();
    assert_eq!(r.finish_load(AddressSource::Cached("bc1qcached".to_string())), None);
    assert_eq!(r.address.clone().unwrap(), "bc1qcached");
    let mut r = ReceiveState::new();
    assert_eq!(
        r.finish_load(AddressSource::Fetched(Fetched::Ready("tb1qnew".to_string()))),
        Some("tb1qnew".to_string())
    );
    let mut r = ReceiveState::new();
    r.finish_load(AddressSource::Fetched(Fetched::Failed("offline".to_string())));
    assert_eq!(r.error.clone().unwrap(), "Failed to load address: offline");
    let mut r = ReceiveState::new();
    r.finish_load(AddressSource::Fetched(Fetched::Unavailable));
    assert_eq!(r.error.clone().unwrap(), "Vault not loaded or runtime not available");
}
