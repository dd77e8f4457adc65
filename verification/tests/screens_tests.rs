use bitvault_app::address_book::{filter_entries, label_to_save, AddressBookState, AddressEntry, AddressEntryState};
use bitvault_app::advanced_settings::{pin_reset_message, AdvancedSettingsState, AdvancedSettingsTab, OldUtxo, UtxoSelectionViewState};
use bitvault_app::hardware_wallet::{QrDisplayState, QrScannerState};
use bitvault_app::help::{filter_questions, HelpAndSupportState, QuestionAndAnswer};
use bitvault_app::recovery::Fetched;
use bitvault_app::subscription::{
    check_subscription_before_action, days_line, get_subscription_renewal_url, renewal_warning,
    should_show_renewal, SubscriptionInfo, SubscriptionStatusState,
};

fn qa(q: &str, a: &str) -> QuestionAndAnswer {
    QuestionAndAnswer { question: q.to_string(), answer: a.to_string() }
}

#[test]
fn help_search_ignores_case() {
    let qs = vec![
        qa("What is a vault?", "A shared wallet."),
        qa("How do I recover?", "Use your PAPER backup."),
        qa("Fees?", "Set per transaction."),
    ];
    let mut h = HelpAndSupportState::new(qs.clone());
    assert_eq!(h.filtered_questions().len(), 3);
    h.set_search_text("paper".to_string());
    h.apply_search();
    assert_eq!(h.filtered_questions().len(), 1);
    assert_eq!(h.filtered_questions()[0].question, "How do I recover?");
    h.set_search_text("VAULT".to_string());
    h.apply_search();
    assert_eq!(h.filtered_questions().len(), 1);
    h.set_search_text("nothing matches".to_string());
    h.apply_search();
    assert!(h.filtered_questions().is_empty());
    h.set_search_text(String::new());
    h.apply_search();
    assert_eq!(h.filtered_questions().len(), 3);
    assert_eq!(filter_questions(&qs, "E").len(), 3);
}

#[test]
fn help_question_selection() {
    let mut h = HelpAndSupportState::new(vec![qa("Q1", "A1"), qa("Q2", "A2")]);
    h.select_question(1);
    assert_eq!(h.selected_question().as_ref().unwrap().answer, "A2");
    h.select_question(9);
    assert_eq!(h.selected_question().as_ref().unwrap().answer, "A2");
    h.close_question();
    assert!(h.selected_question().is_none());
}

fn entry(a: &str, l: Option<&str>) -> AddressEntry {
    AddressEntry { address: a.to_string(), label: l.map(|x| x.to_string()), last_used: 0 }
}

#[test]
fn address_book_search() {
    let entries = vec![entry("bc1qalice", Some("Alice")), entry("3Bob", None), entry("tb1qcarol", Some("Work"))];
    assert_eq!(filter_entries(&entries, "").len(), 3);
    let found = filter_entries(&entries, "ALICE");
    assert_eq!(found.len(), 1);
    assert_eq!(found[0].address, "bc1qalice");
    assert_eq!(filter_entries(&entries, "work").len(), 1);
    assert_eq!(filter_entries(&entries, "bob").len(), 1);
    let mut b = AddressBookState::new();
    assert!(b.needs_load());
    b.refresh(Ok(entries));
    assert!(!b.needs_load());
    b.set_search_text("q".to_string());
    assert_eq!(b.filtered_addresses().len(), 2);
    b.clear_search();
    assert_eq!(b.filtered_addresses().len(), 3);
}

#[test]
fn address_book_errors() {
    let mut b = AddressBookState::new();
    b.refresh(Err("disk".to_string()));
    let mut e = b.filtered_addresses();
    assert!(e.is_empty());
    b.finish_delete(Err("locked".to_string()), Ok(vec![]));
    b.finish_edit(Err("nope".to_string()), Ok(vec![]));
    b.start_edit(0, &Some("Alice".to_string()));
    b.set_edit_label("  ".to_string());
    assert_eq!(b.edited_label(), None);
    b.set_edit_label(" Bob ".to_string());
    assert_eq!(b.edited_label(), Some("Bob".to_string()));
    b.finish_edit(Ok(()), Ok(vec![entry("1abc", None)]));
    e = b.filtered_addresses();
    assert_eq!(e.len(), 1);
    b.cancel_edit();
}

#[test]
fn new_address_checks() {
    let mut d = AddressEntryState::new();
    assert!(d.prepare_save("   ", "x").is_none());
    assert_eq!(d.error().unwrap(), "Address cannot be empty");
    assert!(d.prepare_save("xyz", "x").is_none());
    assert_eq!(d.error().unwrap(), "Invalid Bitcoin address format");
    for a in ["bc1qabc", "1abc", "3abc", "tb1qabc", "bcrt1qabc"] {
        assert!(d.prepare_save(a, "").is_some());
    }
    let (a, l) = d.prepare_save("  bc1qxyz ", "  Savings ").unwrap();
    assert_eq!(a, "bc1qxyz");
    assert_eq!(l, Some("Savings".to_string()));
    assert!(!d.finish_save(Err("full".to_string()), a.clone(), "x".to_string()));
    assert_eq!(d.error().unwrap(), "Failed to save: full");
    assert!(d.finish_save(Ok(()), a, "  Savings ".to_string()));
    assert_eq!(d.address(), "bc1qxyz");
    assert_eq!(AddressEntryState::with_address("1x".to_string()).address(), "1x");
    assert_eq!(label_to_save(""), None);
}

fn info(valid: bool, grace: bool, days: Option<i64>) -> SubscriptionInfo {
    SubscriptionInfo {
        valid,
        in_grace_period: grace,
        lifetime: false,
        is_active: valid,
        days_remaining: days,
        paid_until: None,
        status: "active".to_string(),
    }
}

#[test]
fn subscription_check_only_on_mainnet() {
    assert_eq!(get_subscription_renewal_url(), "https://pay.zaprite.com/pl_81YcHRehEj");
    assert_eq!(check_subscription_before_action(false, Some(Err("x".to_string())), "send transactions"), Ok(()));
    assert_eq!(check_subscription_before_action(true, None, "send transactions"), Ok(()));
    assert_eq!(check_subscription_before_action(true, Some(Ok(())), "send transactions"), Ok(()));
    assert_eq!(
        check_subscription_before_action(true, Some(Err("expired".to_string())), "send transactions"),
        Err("Subscription expired. Please renew your subscription to send transactions.\n\nError: expired".to_string())
    );
}

#[test]
fn subscription_warnings() {
    assert_eq!(
        renewal_warning(&info(false, false, None)).unwrap(),
        "⚠ Subscription expired. Please renew to continue using the service."
    );
    assert_eq!(
        renewal_warning(&info(true, true, None)).unwrap(),
        "⚠ Subscription in grace period. Consider renewing to avoid service interruption."
    );
    assert_eq!(
        renewal_warning(&info(true, false, Some(5))).unwrap(),
        "⚠ Subscription expires in 5 days. Consider renewing soon."
    );
    assert!(renewal_warning(&info(true, false, Some(8))).is_none());
    assert!(renewal_warning(&info(true, false, Some(0))).is_none());
    assert_eq!(days_line(Some(12)).unwrap(), "Days remaining: 12");
    assert_eq!(days_line(Some(0)).unwrap(), "Subscription expires today");
    assert!(days_line(Some(-1)).is_none());
    assert!(should_show_renewal(&info(true, false, Some(7))));
    assert!(!should_show_renewal(&info(true, false, Some(8))));
    assert!(should_show_renewal(&info(true, false, Some(-3))));
    assert!(!should_show_renewal(&info(true, false, None)));
}

#[test]
fn subscription_status_reloads_after_a_minute() {
    let mut s = SubscriptionStatusState::new();
    assert!(s.needs_load(0));
    s.finish_load(Fetched::Ready(info(true, false, None)), 1_000);
    assert!(!s.needs_load(61_000));
    assert!(s.needs_load(61_001));
    s.finish_load(Fetched::Failed("http 500".to_string()), 70_000);
    assert_eq!(s.error.clone().unwrap(), "Failed to load subscription: http 500");
    s.forget(true);
    assert!(s.error.is_none());
}

#[test]
fn qr_display_parts() {
    let mut d = QrDisplayState::new();
    d.show_parts(vec!["ur:a/1".to_string(), "ur:a/2".to_string(), "ur:a/3".to_string()]);
    assert_eq!(d.part_label(), "Part 1 of 3");
    d.previous_part();
    assert_eq!(d.current_part, 0);
    d.next_part();
    d.next_part();
    d.next_part();
    assert_eq!(d.current_part, 2);
    assert_eq!(d.current_ur(), "ur:a/3");
    assert_eq!(d.part_label(), "Part 3 of 3");
}

#[test]
fn qr_scanner_collects_parts() {
    let mut s = QrScannerState::new();
    assert!(s.is_scanning);
    assert!(!s.add_part(String::new()));
    assert!(s.add_part("ur:crypto-psbt/1".to_string()));
    s.finish_decode(Fetched::Failed("incomplete".to_string()));
    assert_eq!(s.error.clone().unwrap(), "Failed to decode UR: incomplete");
    s.finish_decode(Fetched::Ready("cHNidP8=".to_string()));
    assert!(s.success);
    assert!(!s.is_scanning);
    assert_eq!(s.decoded_psbt.clone().unwrap(), "cHNidP8=");
    s.request_file();
    s.file_chosen(Some("/tmp/qr.png".to_string()));
    assert!(!s.pending_file_selection);
    assert_eq!(s.selected_file.clone().unwrap(), "/tmp/qr.png");
}

#[test]
fn utxo_selection_totals() {
    let mut v = UtxoSelectionViewState::new();
    v.refresh(Fetched::Ready(vec![
        OldUtxo { outpoint: "a:0".to_string(), amount_sat: 100_000 },
        OldUtxo { outpoint: "b:1".to_string(), amount_sat: 250_000 },
    ]));
    assert_eq!(v.total_selected_amount(), 0);
    v.set_selected("b:1", true);
    assert_eq!(v.total_selected_amount(), 250_000);
    v.select_all();
    assert_eq!(v.total_selected_amount(), 350_000);
    assert!(v.has_selection());
    v.set_selected("a:0", false);
    assert_eq!(v.total_selected_amount(), 250_000);
    v.refresh(Fetched::Failed("x".to_string()));
    assert!(!v.has_selection());
    assert_eq!(v.error().unwrap(), "Failed to load UTXOs: x");
    assert_eq!(v.empty_message(), "All UTXOs are less than 6 months old");
    v.set_mode(true);
    assert_eq!(v.empty_message(), "All UTXOs are less than 1 year old");
    let mut a = AdvancedSettingsState::new();
    a.select_tab(AdvancedSettingsTab::Security);
    assert_eq!(a.current_tab, AdvancedSettingsTab::Security);
    assert_eq!(pin_reset_message(Err("busy".to_string())), "Failed to reset PIN: busy");
}
