use bitvault_app::biometrics::BiometricType;
use bitvault_app::components::BadgeStyle;
use bitvault_app::navigation::{Navigation, View};
use bitvault_app::recovery::Fetched;
use bitvault_app::vault_selection::{address_display, created_line, status_of, VaultRecord, VaultSelectionState};

fn record(name: &str, address: &str, db: bool, problem: Option<&str>) -> VaultRecord {
    VaultRecord {
        name: name.to_string(),
        address: address.to_string(),
        network: "testnet".to_string(),
        created_at: "2024-05-01T10:00:00Z".to_string(),
        database_path: format!("/data/{}.db", name),
        problem: problem.map(|p| p.to_string()),
        database_exists: db,
    }
}

fn screen() -> VaultSelectionState {
    VaultSelectionState::new(false, BiometricType::NoBiometric)
}

#[test]
fn vault_list_drops_missing_databases() {
    let mut s = screen();
    assert!(s.needs_load());
    s.begin_load();
    assert!(!s.needs_load());
    let orphans = s.finish_load(Ok(vec![
        record("a", "tb1qa", true, None),
        record("b", "tb1qb", false, None),
        record("c", "tb1qc", true, Some("bad descriptor")),
    ]));
    assert_eq!(orphans, vec!["tb1qb".to_string()]);
    assert_eq!(s.vaults.len(), 2);
    assert_eq!(s.vaults[1].name, "c");
    assert!(!s.loading);
    assert_eq!(s.summary(), "⚠ 1 of 2 vault(s) valid");
    s.vaults.pop();
    assert_eq!(s.summary(), "✓ 1 vault(s) available");
}

#[test]
fn vault_list_load_error() {
    let mut s = screen();
    s.refresh();
    let orphans = s.finish_load(Err("disk".to_string()));
    assert!(orphans.is_empty());
    assert_eq!(s.error.clone().unwrap(), "Failed to load vaults: disk");
}

#[test]
fn vault_card_texts() {
    assert_eq!(status_of(&record("a", "x", true, None)), ("Valid", BadgeStyle::Success));
    assert_eq!(status_of(&record("a", "x", true, Some("p"))), ("Warning", BadgeStyle::Warning));
    assert_eq!(status_of(&record("a", "x", false, Some("p"))), ("Error", BadgeStyle::Error));
    let long = "tb1qxxxxxxxxxxxxxxxxxxxxxxxxxxxxxxxxxxxxxx";
    assert_eq!(address_display(long), format!("{}...", &long[..30]));
    assert_eq!(address_display("tb1qshort"), "tb1qshort");
    assert_eq!(created_line("2024-05-01T10:00:00Z"), Some("Created: 2024-05-01".to_string()));
    assert_eq!(created_line("2024"), None);
}

#[test]
fn load_selected_vault() {
    let mut s = screen();
    s.finish_load(Ok(vec![record("a", "tb1qa", true, None), record("b", "tb1qb", true, Some("no keys"))]));
    assert_eq!(s.load_selected(), None);
    assert_eq!(s.error.clone().unwrap(), "Please select a vault");
    s.select(1);
    assert_eq!(s.load_selected(), None);
    assert_eq!(s.error.clone().unwrap(), "Cannot load vault: no keys");
    s.select(0);
    assert_eq!(s.load_selected(), Some(0));
    let mut nav = Navigation::new();
    s.finish_vault_load(&mut nav, Fetched::Failed("locked".to_string()));
    assert_eq!(s.error.clone().unwrap(), "Failed to load vault: locked");
    s.finish_vault_load(&mut nav, Fetched::Unavailable);
    assert_eq!(s.error.clone().unwrap(), "Runtime not available");
    s.finish_vault_load(&mut nav, Fetched::Ready(()));
    assert_eq!(nav.current_view, View::Dashboard { tab: 0 });
}

#[test]
fn import_checks() {
    let mut s = screen();
    s.finish_load(Ok(vec![record("a", "tb1qa", true, None)]));
    s.open_import();
    assert!(s.import_dialog_open);
    assert!(s.check_import(Err("expected value".to_string())).is_none());
    assert_eq!(s.error.clone().unwrap(), "Invalid JSON: expected value");
    assert!(s.check_import(Ok(record("n", "", true, None))).is_none());
    assert_eq!(s.error.clone().unwrap(), "Vault metadata missing address");
    let mut no_path = record("n", "tb1qn", true, None);
    no_path.database_path = String::new();
    assert!(s.check_import(Ok(no_path)).is_none());
    assert_eq!(s.error.clone().unwrap(), "Vault metadata missing database path");
    assert!(s.check_import(Ok(record("n", "tb1qa", true, None))).is_none());
    assert_eq!(s.error.clone().unwrap(), "Vault with this address already exists");
    let new = s.check_import(Ok(record("n", "tb1qn", true, None))).unwrap();
    s.finish_import(new.clone(), Err("read-only".to_string()));
    assert_eq!(s.error.clone().unwrap(), "Failed to save vault metadata: read-only");
    s.finish_import(new, Ok(()));
    assert_eq!(s.vaults.len(), 2);
    assert!(!s.import_dialog_open);
    assert!(s.error.is_none());
}

#[test]
fn rename_and_export() {
    let mut s = screen();
    s.finish_load(Ok(vec![record("a", "tb1qa", true, None)]));
    assert!(!s.start_rename());
    s.select(0);
    assert!(s.start_rename());
    assert_eq!(s.rename_text, "a");
    s.finish_rename(Err("taken".to_string()));
    assert_eq!(s.error.clone().unwrap(), "Failed to rename vault: taken");
    s.finish_rename(Ok(record("family", "tb1qa", true, None)));
    assert_eq!(s.vaults[0].name, "family");
    assert!(s.rename_dialog.is_none());
    s.finish_export(Err("clipboard".to_string()));
    assert_eq!(s.error.clone().unwrap(), "Failed to export vault: clipboard");
    s.finish_export(Ok(()));
    assert!(s.error.is_none());
}

#[test]
fn delete_with_and_without_pin() {
    let mut s = screen();
    s.finish_load(Ok(vec![record("a", "tb1qa", true, None), record("b", "tb1qb", true, None)]));
    s.select(1);
    assert_eq!(s.request_delete(false), Some(1));
    s.finish_delete(1, Err("busy".to_string()));
    assert_eq!(s.error.clone().unwrap(), "Failed to delete vault: busy");
    s.finish_delete(1, Ok(()));
    assert_eq!(s.vaults.len(), 1);
    assert!(s.selected_index.is_none());

    s.select(0);
    assert_eq!(s.request_delete(true), None);
    assert_eq!(s.pending_delete_index, Some(0));
    assert!(s.pin_verification.is_visible());
    s.pin_verification.close();
    assert_eq!(s.delete_after_pin(), None);
    assert!(s.pin_verification.is_visible());
    assert_eq!(s.pending_delete_index, Some(0));
}
