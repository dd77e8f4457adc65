use bitvault_app::navigation::{Navigation, View};
use bitvault_app::vault_data::{AsyncCommand, PendingCommands};
use bitvault_app::seed_verification::{generate_distractor_words, ordinal_number};
use bitvault_app::vault_creation::{
    time_delay_too_short, CreationResult, DeviceRole, VaultCreationState, VaultCreationStep,
};

const PHRASE: &str = "abandon ability able about above absent absorb abstract absurd abuse access accident";

fn walk(role: DeviceRole) -> Vec<VaultCreationStep> {
    let mut s = VaultCreationState::new();
    s.device_role = role;
    let mut steps = vec![s.current_step];
    while let Some(next) = s.next_step_for_role() {
        s.advance_to_step(next);
        steps.push(s.current_step);
    }
    steps
}

#[test]
fn every_role_reaches_completed() {
    for role in [DeviceRole::Main, DeviceRole::Coowner, DeviceRole::ViewOnly, DeviceRole::Restore] {
        let steps = walk(role);
        assert_eq!(steps[0], VaultCreationStep::RoleSelection);
        assert_eq!(*steps.last().unwrap(), VaultCreationStep::Completed);
    }
    assert_eq!(walk(DeviceRole::Main).len(), 12);
    assert_eq!(walk(DeviceRole::Coowner).len(), 11);
    assert_eq!(
        walk(DeviceRole::ViewOnly),
        vec![
            VaultCreationStep::RoleSelection,
            VaultCreationStep::NameVault,
            VaultCreationStep::ScanDescriptorViewOnly,
            VaultCreationStep::ViewOnlyComplete,
            VaultCreationStep::Completed
        ]
    );
    assert_eq!(
        walk(DeviceRole::Restore),
        vec![
            VaultCreationStep::RoleSelection,
            VaultCreationStep::NameVault,
            VaultCreationStep::EnterSeedPhrase,
            VaultCreationStep::ScanDescriptorRestore,
            VaultCreationStep::SetPin,
            VaultCreationStep::Completed
        ]
    );
}

#[test]
fn back_undoes_advance() {
    let mut s = VaultCreationState::new();
    assert!(!s.can_go_back_in_workflow());
    assert!(!s.go_to_previous_step());
    s.advance_to_step(VaultCreationStep::NameVault);
    s.advance_to_step(VaultCreationStep::NameVault);
    assert_eq!(s.step_history.len(), 1);
    assert!(s.go_to_previous_step());
    assert_eq!(s.current_step, VaultCreationStep::RoleSelection);
    assert_eq!(s.previous_step, Some(VaultCreationStep::NameVault));
    assert!(s.step_history.is_empty());
}

#[test]
fn step_change_noticed_once() {
    let mut s = VaultCreationState::new();
    assert!(s.step_just_changed(VaultCreationStep::RoleSelection));
    assert!(!s.step_just_changed(VaultCreationStep::RoleSelection));
    assert!(s.step_just_changed(VaultCreationStep::NameVault));
}

#[test]
fn role_selection_starts_fresh() {
    let mut s = VaultCreationState::new();
    s.vault_name = "old".to_string();
    s.email = "a@b.c".to_string();
    s.select_role(DeviceRole::Coowner);
    assert_eq!(s.device_role, DeviceRole::Coowner);
    assert_eq!(s.current_step, VaultCreationStep::NameVault);
    assert!(s.vault_name.is_empty());
    assert!(s.email.is_empty());
    assert_eq!(s.time_delay_hours, 24);
    s.reset();
    assert_eq!(s.current_step, VaultCreationStep::RoleSelection);
    assert_eq!(s.device_role, DeviceRole::Main);
}

#[test]
fn vault_name_required() {
    let mut s = VaultCreationState::new();
    s.select_role(DeviceRole::Main);
    s.vault_name = "   ".to_string();
    assert!(!s.submit_vault_name());
    assert_eq!(s.error.clone().unwrap(), "Please enter a vault name");
    assert_eq!(s.current_step, VaultCreationStep::NameVault);
    s.vault_name = "Family".to_string();
    assert!(s.submit_vault_name());
    assert_eq!(s.error, None);
    assert_eq!(s.current_step, VaultCreationStep::SetTimeDelay);
}

#[test]
fn time_delay_warning() {
    assert!(time_delay_too_short(0, 23));
    assert!(!time_delay_too_short(0, 24));
    assert!(!time_delay_too_short(1, 0));
}

#[test]
fn mnemonic_generation_outcomes() {
    let mut s = VaultCreationState::new();
    s.select_role(DeviceRole::Main);
    assert!(!s.finish_mnemonic_generation(Err("no entropy".to_string())));
    assert_eq!(s.error.clone().unwrap(), "Failed to generate mnemonic: no entropy");
    assert!(s.generate_mnemonic());
    assert_eq!(s.mnemonic.clone().unwrap().split_whitespace().count(), 12);
    assert_eq!(s.current_step, VaultCreationStep::DisplaySeedPhrase);
    s.mnemonic_word_count = 24;
    assert!(s.generate_mnemonic());
    assert_eq!(s.mnemonic.clone().unwrap().split_whitespace().count(), 24);
    assert!(bip39::Mnemonic::parse_in(bip39::Language::English, s.mnemonic.clone().unwrap().as_str()).is_ok());
    assert!(s.error.is_none());
}

#[test]
fn coowner_keys_submission() {
    let mut s = VaultCreationState::new();
    s.current_step = VaultCreationStep::ScanCoownerKeys;
    s.coowner_pubkeys = "  ".to_string();
    assert!(!s.submit_coowner_keys(None));
    assert_eq!(s.error.clone().unwrap(), "Please scan, paste, or load the co-owner's key data");
    s.coowner_pubkeys = "garbage".to_string();
    assert!(!s.submit_coowner_keys(None));
    assert_eq!(
        s.error.clone().unwrap(),
        "Invalid key data format. Expected CoownerKeys JSON or Hardware Wallet UR format."
    );
    s.coowner_pubkeys = " ur:crypto-account/abc".to_string();
    assert!(s.submit_coowner_keys(None));
    assert_eq!(s.current_step, VaultCreationStep::EmailAuth);
    assert_eq!(s.coowner_keys, None);
}

#[test]
fn exchange_data_submission() {
    let mut s = VaultCreationState::new();
    s.device_role = DeviceRole::Coowner;
    s.current_step = VaultCreationStep::EnterExchangeData;
    assert!(!s.submit_exchange_data(Ok(("k".to_string(), 1, 2))));
    assert_eq!(s.error.clone().unwrap(), "Please paste or load the vault configuration");
    s.exchange_data_input = "data".to_string();
    assert!(!s.submit_exchange_data(Err("bad json".to_string())));
    assert_eq!(s.error.clone().unwrap(), "Invalid configuration data: bad json");
    assert!(s.submit_exchange_data(Ok(("keys".to_string(), 7, 3))));
    assert_eq!((s.time_delay_days, s.time_delay_hours), (7, 3));
    assert_eq!(s.coowner_keys, Some("keys".to_string()));
    assert_eq!(s.current_step, VaultCreationStep::EmailAuth);
}

#[test]
fn email_code_flow() {
    let mut s = VaultCreationState::new();
    s.current_step = VaultCreationStep::EmailAuth;
    s.email = "nobody".to_string();
    assert!(!s.check_email_for_code());
    assert_eq!(s.error.clone().unwrap(), "Please enter a valid email address");
    s.email = "me@example.com".to_string();
    assert!(s.check_email_for_code());
    s.begin_sending_code();
    assert!(s.is_sending_code);
    s.finish_sending_code(Err("smtp".to_string()));
    assert_eq!(s.error.clone().unwrap(), "Failed to send code: smtp");
    assert!(!s.code_sent);
    s.finish_sending_code(Ok(()));
    assert!(s.code_sent);
    assert!(!s.submit_auth_code());
    assert_eq!(s.error.clone().unwrap(), "Please enter the verification code");
    s.report_offline();
    assert_eq!(s.error.clone().unwrap(), "No internet connection. Please check your network and try again.");
}

#[test]
fn creation_checks_in_order() {
    let mut s = VaultCreationState::new();
    assert!(!s.check_creation_inputs());
    assert_eq!(s.error.clone().unwrap(), "Vault name cannot be empty");
    s.vault_name = "V".to_string();
    assert!(!s.check_creation_inputs());
    assert_eq!(s.error.clone().unwrap(), "Please enter an email address");
    s.email = "a@b".to_string();
    assert!(!s.check_creation_inputs());
    assert_eq!(s.error.clone().unwrap(), "Please enter a valid email address (e.g., name@example.com)");
    s.email = "@bc.de".to_string();
    assert!(!s.check_creation_inputs());
    assert_eq!(s.error.clone().unwrap(), "Please enter a valid email address");
    s.email = "ab.cd@".to_string();
    assert!(!s.check_creation_inputs());
    assert_eq!(s.error.clone().unwrap(), "Please enter a valid email address");
    s.email = " me@ex.com ".to_string();
    assert!(!s.check_creation_inputs());
    assert_eq!(s.error.clone().unwrap(), "Please enter an authentication code");
    s.auth_code = "123456".to_string();
    assert!(!s.check_creation_inputs());
    assert_eq!(s.error.clone().unwrap(), "Co-owner keys are required");
    s.coowner_pubkeys = "keys".to_string();
    assert!(s.check_creation_inputs());
    assert_eq!(s.error, None);
}

#[test]
fn creation_outcomes() {
    let mut nav = Navigation::new();
    let mut q = PendingCommands::new();
    let mut s = VaultCreationState::new();
    s.device_role = DeviceRole::Main;
    s.current_step = VaultCreationStep::CreateVault;
    s.mnemonic = Some(PHRASE.to_string());
    s.begin_creating();
    assert!(!s.finish_creation(&mut nav, &mut q, CreationResult::SetupFailed("busy".to_string())));
    assert_eq!(s.error.clone().unwrap(), "Failed to create vault: busy");
    assert!(!s.is_creating);
    assert!(!s.finish_creation(&mut nav, &mut q, CreationResult::Done(Some("exchange".to_string()))));
    assert_eq!(s.current_step, VaultCreationStep::DisplayExchangeData);
    assert_eq!(s.exchange_data_output, Some("exchange".to_string()));
    assert_eq!(s.mnemonic, None);
    assert_eq!(nav.current_view, View::VaultSelection);
    assert_eq!(q.take(), vec![AsyncCommand::FetchBalance, AsyncCommand::FetchAddress]);

    let mut c = VaultCreationState::new();
    c.device_role = DeviceRole::Coowner;
    c.current_step = VaultCreationStep::CreateVault;
    assert!(c.finish_creation(&mut nav, &mut q, CreationResult::Done(None)));
    assert_eq!(c.current_step, VaultCreationStep::Completed);
    assert_eq!(nav.current_view, View::Dashboard { tab: 0 });
    assert_eq!(q.take(), vec![AsyncCommand::FetchBalance, AsyncCommand::FetchAddress]);
    let mut d = VaultCreationState::new();
    d.finish_creation(&mut nav, &mut q, CreationResult::InitFailed(None, "db".to_string()));
    assert!(q.is_empty());
    assert_eq!(d.error.clone().unwrap(), "Failed to initialize vault: db");
}

#[test]
fn paper_backup_checks() {
    let mut s = VaultCreationState::new();
    s.device_role = DeviceRole::Restore;
    s.current_step = VaultCreationStep::EnterSeedPhrase;
    assert!(!s.submit_backup_words());
    assert_eq!(s.error.clone().unwrap(), "Please enter your seed phrase");
    s.import_mnemonic_text = "abandon ability".to_string();
    assert!(!s.submit_backup_words());
    assert_eq!(s.error.clone().unwrap(), "Seed phrase should be 12 words (you entered 2)");
    s.import_mnemonic_text = "abandon abandon abandon abandon abandon abandon abandon abandon abandon abandon abandon abandon".to_string();
    assert!(!s.submit_backup_words());
    assert!(s.error.clone().unwrap().starts_with("Invalid seed phrase: "));
    s.import_mnemonic_text = " abandon abandon abandon abandon abandon abandon abandon abandon abandon abandon abandon about ".to_string();
    assert!(s.submit_backup_words());
    assert_eq!(s.current_step, VaultCreationStep::ScanDescriptorRestore);
}

#[test]
fn restore_and_view_only_imports() {
    let mut s = VaultCreationState::new();
    s.device_role = DeviceRole::Restore;
    s.current_step = VaultCreationStep::ScanDescriptorRestore;
    assert!(!s.begin_restore());
    assert_eq!(s.error.clone().unwrap(), "Please enter the descriptor configuration");
    s.import_descriptors_qr = "wsh(...)".to_string();
    s.import_mnemonic_text = "abandon abandon abandon abandon abandon abandon abandon abandon abandon abandon abandon about".to_string();
    assert!(s.begin_restore());
    assert!(s.is_importing);
    let mut rq = PendingCommands::new();
    s.finish_restore(&mut rq, Ok("bc1qvault".to_string()));
    assert_eq!(rq.take(), vec![AsyncCommand::FetchBalance, AsyncCommand::FetchAddress]);
    assert!(!s.is_importing);
    assert_eq!(s.vault_address, Some("bc1qvault".to_string()));
    assert!(s.import_mnemonic_text.is_empty());
    assert_eq!(s.current_step, VaultCreationStep::SetPin);

    let mut v = VaultCreationState::new();
    v.device_role = DeviceRole::ViewOnly;
    v.current_step = VaultCreationStep::ScanDescriptorViewOnly;
    assert!(!v.submit_descriptor());
    v.import_descriptors_qr = "desc".to_string();
    assert!(v.submit_descriptor());
    assert_eq!(v.current_step, VaultCreationStep::ViewOnlyComplete);
    v.begin_view_only_import();
    let mut vq = PendingCommands::new();
    assert!(!v.finish_view_only_import(&mut vq, Err("Setup failed: x".to_string())));
    assert!(vq.is_empty());
    assert_eq!(v.error.clone().unwrap(), "Setup failed: x");
    assert!(v.finish_view_only_import(&mut vq, Ok("tb1q".to_string())));
    assert_eq!(vq.take(), vec![AsyncCommand::FetchBalance, AsyncCommand::FetchAddress]);
    assert_eq!(v.current_step, VaultCreationStep::Completed);
}

#[test]
fn email_back_forgets_code() {
    let mut s = VaultCreationState::new();
    s.advance_to_step(VaultCreationStep::EmailAuth);
    s.code_sent = true;
    s.auth_code = "1".to_string();
    assert!(s.leave_email_auth());
    assert!(!s.code_sent);
    assert!(s.auth_code.is_empty());
    assert_eq!(s.current_step, VaultCreationStep::RoleSelection);
}

#[test]
fn ordinals() {
    let expected = [
        (1, "1st"), (2, "2nd"), (3, "3rd"), (4, "4th"), (11, "11th"), (12, "12th"), (13, "13th"),
        (21, "21st"), (22, "22nd"), (23, "23rd"), (101, "101st"), (111, "111th"), (112, "112th"),
    ];
    for (n, s) in expected {
        assert_eq!(ordinal_number(n), s);
    }
}

#[test]
fn distractors_avoid_the_phrase() {
    let exclude: Vec<String> = PHRASE.split_whitespace().map(|w| w.to_string()).collect();
    let d = generate_distractor_words(&exclude, 5);
    assert_eq!(d.len(), 5);
    for w in &d {
        assert!(!exclude.contains(w));
        assert!(bip39::Language::English.find_word(w).is_some());
    }
    let mut sorted = d.clone();
    sorted.sort();
    sorted.dedup();
    assert_eq!(sorted.len(), 5);
}
