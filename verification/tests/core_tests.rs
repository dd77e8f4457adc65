use bitvault_app::keys::{KeyService, KeyServiceError};
use bitvault_app::navigation::{Navigation, View};
use bitvault_app::settings::{AppSettings, AppTheme, Currency, SettingsManager};
use bitvault_app::text::{
    contains_str, decimal_string, parse_u32, parse_u64, split_whitespace, starts_with,
    trimmed, IntParseError,
};
use bitvault_app::vault_data::{
    format_btc, result_for_command, AsyncCommand, AsyncResult, PendingCommands, VaultData, WalletReply,
};

#[test]
fn decimal_and_parse_roundtrip() {
    assert_eq!(decimal_string(0), "0");
    assert_eq!(decimal_string(1234567890), "1234567890");
    assert_eq!(parse_u64("18446744073709551615"), Ok(u64::MAX));
    assert_eq!(parse_u64(&decimal_string(987654321)), Ok(987654321));
}

#[test]
fn parse_errors_follow_std() {
    assert_eq!(parse_u64(""), Err(IntParseError::Empty));
    assert_eq!(parse_u64("12a"), Err(IntParseError::InvalidDigit));
    assert_eq!(parse_u64("18446744073709551616"), Err(IntParseError::PosOverflow));
    assert_eq!(parse_u32("4294967296"), Err(IntParseError::PosOverflow));
    assert_eq!(parse_u32("+7"), Ok(7));
    assert_eq!("12a".parse::<u64>().is_err(), parse_u64("12a").is_err());
}

#[test]
fn trim_prefix_contains_and_words() {
    assert_eq!(trimmed("  hello world \n"), "hello world");
    assert!(starts_with("bc1qxyz", "bc1"));
    assert!(!starts_with("b", "bc1"));
    assert!(contains_str("abcdef", "cde"));
    assert!(!contains_str("abcdef", "xyz"));
    assert!(contains_str("abc", ""));
    let w = split_whitespace("  one two\tthree\n");
    assert_eq!(w, vec!["one".to_string(), "two".to_string(), "three".to_string()]);
    assert!(split_whitespace("   ").is_empty());
}

#[test]
fn currencies_and_themes() {
    assert_eq!(Currency::USD.code(), "USD");
    assert_eq!(Currency::BTC.name(), "Bitcoin");
    assert_eq!(Currency::all().len(), 8);
    assert_eq!(AppTheme::System.display_name(), "System");
    assert_eq!(AppTheme::all(), vec![AppTheme::Light, AppTheme::Dark, AppTheme::System]);
}

#[test]
fn settings_read_after_write() {
    let m = SettingsManager::new("settings.json".to_string());
    let written = m.set_currency(Ok(AppSettings::default()), Currency::EUR).unwrap();
    assert_eq!(m.get_currency(Ok(written.clone())), Ok(Currency::EUR));
    let written = m.set_theme(Ok(written), AppTheme::Dark).unwrap();
    assert_eq!(m.get_theme(Ok(written.clone())), Ok(AppTheme::Dark));
    assert_eq!(m.get_currency(Ok(written.clone())), Ok(Currency::EUR));
    let written = m.set_network(Ok(written), "testnet".to_string()).unwrap();
    assert_eq!(m.get_network(Ok(written.clone())), Ok(Some("testnet".to_string())));
    let written = m.set_biometrics_enabled(Ok(written), false).unwrap();
    assert_eq!(m.get_biometrics_enabled(Ok(written)), Ok(false));
}

#[test]
fn settings_defaults_and_errors() {
    let m = SettingsManager::new("s.json".to_string());
    assert_eq!(m.get_currency(Ok(AppSettings::default())), Ok(Currency::USD));
    assert_eq!(m.get_theme(Ok(AppSettings::default())), Ok(AppTheme::System));
    assert_eq!(m.get_network(Ok(AppSettings::default())), Ok(None));
    assert!(m.get_currency(Err("unreadable".to_string())).is_err());
    assert!(m.set_theme(Err("unreadable".to_string()), AppTheme::Light).is_err());
}

#[test]
fn navigation_back_undoes_navigate() {
    let mut n = Navigation::new();
    assert!(!n.can_go_back());
    assert!(!n.go_back());
    n.navigate_to(View::Settings);
    n.navigate_to(View::TransactionDetail { txid: "abc".to_string() });
    assert!(n.go_back());
    assert_eq!(n.current_view, View::Settings);
    assert!(n.go_back());
    assert_eq!(n.current_view, View::VaultSelection);
    assert!(!n.can_go_back());
}

#[test]
fn navigation_tabs_and_set_view() {
    let mut n = Navigation::new();
    n.navigate_to(View::Dashboard { tab: 0 });
    n.set_dashboard_tab(2);
    assert_eq!(n.current_view, View::Dashboard { tab: 2 });
    n.set_dashboard_tab(3);
    assert_eq!(n.current_view, View::Dashboard { tab: 2 });
    assert_eq!(n.history.len(), 1);
    n.set_view(View::PinEntry);
    assert_eq!(n.history.len(), 1);
}

#[test]
fn btc_formatting() {
    assert_eq!(format_btc(0), "0.00000000 BTC");
    assert_eq!(format_btc(1), "0.00000001 BTC");
    assert_eq!(format_btc(150_000_000), "1.50000000 BTC");
    assert_eq!(format_btc(2_100_000_000_000_000), "21000000.00000000 BTC");
}

#[test]
fn vault_data_staleness() {
    let mut d = VaultData::new();
    assert!(d.needs_refresh(0));
    assert_eq!(d.format_balance_btc(), "Loading...");
    d.update_balance(100_000, 50_000, 1_000);
    assert_eq!(d.format_balance_btc(), "0.00100000 BTC");
    assert_eq!(d.format_available_btc(), "0.00050000 BTC");
    assert!(!d.needs_refresh(31_000));
    assert!(d.needs_refresh(31_001 + 999));
    d.set_loading(true);
    assert!(!d.needs_refresh(100_000));
}

#[test]
fn vault_data_results() {
    let mut d = VaultData::new();
    assert!(d.apply_result(AsyncResult::Address("bc1qaddr".to_string()), 5));
    assert_eq!(d.receive_address, Some("bc1qaddr".to_string()));
    assert!(d.apply_result(AsyncResult::Balance { confirmed: 7, available: 3 }, 6));
    assert_eq!(d.confirmed_balance, Some(7));
    assert_eq!(d.available_balance, Some(3));
}

#[test]
fn pending_commands_and_replies() {
    let mut p = PendingCommands::new();
    assert!(p.is_empty());
    p.fetch_balance();
    p.fetch_address();
    assert!(!p.is_empty());
    let taken = p.take();
    assert_eq!(taken.len(), 2);
    assert!(p.is_empty());
    match result_for_command(AsyncCommand::FetchBalance, Some(WalletReply::Balance(Err("down".to_string())))) {
        Some(AsyncResult::Error(m)) => assert_eq!(m, "Failed to fetch balance: down"),
        other => panic!("unexpected {:?}", other),
    }
    match result_for_command(AsyncCommand::FetchAddress, Some(WalletReply::Address(Ok("tb1q".to_string())))) {
        Some(AsyncResult::Address(a)) => assert_eq!(a, "tb1q"),
        other => panic!("unexpected {:?}", other),
    }
}

#[test]
fn key_service_names() {
    let k = KeyService::new();
    assert_eq!(k.service_name(), "com.BitVault");
    assert_eq!(KeyService::with_service_name("test".to_string()).service_name(), "test");
    assert_eq!(KeyService::backup_info_key("vault1", "testnet"), "backupInfo_testnet_vault1");
    assert_eq!(KeyService::lock_time_key(), "locktime");
    assert_eq!(KeyService::network_key(), "SelectedNetwork");
    assert_eq!(KeyService::email_key(), "email");
    assert_eq!(
        KeyService::backup_info_keys(&vec!["a".to_string(), "b".to_string()], "mainnet"),
        vec!["backupInfo_mainnet_a".to_string(), "backupInfo_mainnet_b".to_string()]
    );
    assert!(k.get_all_vaults_info(vec![None]).unwrap().is_empty());
    let backup = |id: &str| bitvault_app::keys::BackupInfo {
        descriptor_mainnet: String::new(),
        descriptor_testnet: String::new(),
        mnemonic: String::new(),
        name: id.to_string(),
        vault_id: id.to_string(),
        is_coowner: false,
        hardware_wallet_types: vec![],
        is_single_device: false,
        email: None,
    };
    let all = k.get_all_vaults_info(vec![Some(backup("a")), None, Some(backup("c"))]).unwrap();
    assert_eq!(all.len(), 2);
    assert_eq!(all[0].vault_id, "a");
    assert_eq!(all[1].vault_id, "c");
    assert_eq!(
        k.clear_all_keychain_data().unwrap(),
        vec!["locktime".to_string(), "SelectedNetwork".to_string(), "email".to_string(), "pinCode".to_string()]
    );
}

#[test]
fn lock_time_roundtrip_and_errors() {
    let t = KeyService::lock_time_text(52560);
    assert_eq!(t, "52560");
    assert_eq!(KeyService::lock_time_from_stored(Some(t)).unwrap(), Some(52560));
    assert_eq!(KeyService::lock_time_from_stored(None).unwrap(), None);
    assert!(matches!(
        KeyService::lock_time_from_stored(Some("soon".to_string())),
        Err(KeyServiceError::ParseError)
    ));
}

#[test]
fn seed_phrases_have_the_right_length() {
    let k = KeyService::new();
    let short = k.generate_seed_phrase(false).unwrap();
    assert_eq!(short.split_whitespace().count(), 12);
    let long = k.generate_seed_phrase(true).unwrap();
    assert_eq!(long.split_whitespace().count(), 24);
    assert!(bip39::Mnemonic::parse(&long).is_ok());
    assert_ne!(short, k.generate_seed_phrase(false).unwrap());
}
