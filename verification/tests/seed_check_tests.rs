use bitvault_app::vault_creation::{DeviceRole, VaultCreationState, VaultCreationStep};

const PHRASE: &str = "abandon ability able about above absent absorb abstract absurd abuse access accident";

fn words() -> Vec<String> {
    PHRASE.split_whitespace().map(|w| w.to_string()).collect()
}

fn at_verification(phrase: &str) -> VaultCreationState {
    let mut s = VaultCreationState::new();
    s.device_role = DeviceRole::Main;
    s.current_step = VaultCreationStep::VerifySeedPhrase;
    s.mnemonic = Some(phrase.to_string());
    s
}

fn page_positions(s: &VaultCreationState) -> Vec<usize> {
    let p = s.seed_verification_state.current_page;
    s.seed_verification_state.verification_indices[p * 6..(p * 6 + 6).min(12)].to_vec()
}

#[test]
fn initialization_shuffles_all_positions() {
    let mut s = at_verification(PHRASE);
    assert_eq!(s.initialize_verification_state(), Ok(()));
    let sv = &s.seed_verification_state;
    assert!(sv.initialized);
    assert_eq!(sv.current_page, 0);
    let mut idx = sv.verification_indices.clone();
    idx.sort();
    assert_eq!(idx, (0..12).collect::<Vec<usize>>());
    let w = words();
    for p in 0..12 {
        let c = &sv.word_choices[p];
        assert!(c.contains(&w[p]));
        assert!(!c.is_empty() && c.len() <= 3);
        for x in c {
            assert!(x == &w[p] || !w.contains(x));
        }
    }
}

#[test]
fn initialization_errors() {
    let mut s = VaultCreationState::new();
    assert_eq!(s.initialize_verification_state(), Err("No mnemonic available".to_string()));
    let mut s = at_verification("one two three");
    assert_eq!(s.initialize_verification_state(), Err("Expected 12 or 24 words, got 3".to_string()));
    assert!(!s.seed_verification_state.initialized);
    s.ensure_verification_initialized();
    assert_eq!(s.error, Some("Expected 12 or 24 words, got 3".to_string()));
}

#[test]
fn toggling_picks() {
    let mut s = at_verification(PHRASE);
    s.toggle_word(3, "about".to_string());
    assert_eq!(s.seed_verification_state.selected_words[3], Some("about".to_string()));
    s.toggle_word(3, "zoo".to_string());
    assert_eq!(s.seed_verification_state.selected_words[3], Some("zoo".to_string()));
    s.toggle_word(3, "zoo".to_string());
    assert_eq!(s.seed_verification_state.selected_words[3], None);
}

#[test]
fn correct_picks_pass_both_pages() {
    let mut s = at_verification(PHRASE);
    s.ensure_verification_initialized();
    let w = words();
    for p in page_positions(&s) {
        s.toggle_word(p, w[p].clone());
    }
    assert!(!s.verify_continue());
    assert_eq!(s.error, None);
    assert_eq!(s.seed_verification_state.current_page, 1);
    for p in page_positions(&s) {
        s.toggle_word(p, w[p].clone());
    }
    assert_eq!(s.validate_all_words(), Ok(()));
    assert!(s.verify_continue());
    assert_eq!(s.current_step, VaultCreationStep::SetPin);
}

#[test]
fn unpicked_and_wrong_pages_are_refused() {
    let mut s = at_verification(PHRASE);
    s.ensure_verification_initialized();
    assert_eq!(s.validate_current_page(), Err("Please select all 6 words on this page".to_string()));
    assert!(!s.verify_continue());
    assert_eq!(s.error, Some("Please select all 6 words on this page".to_string()));
    let w = words();
    let positions = page_positions(&s);
    for (k, p) in positions.iter().enumerate() {
        let word = if k == 0 { "zoo".to_string() } else { w[*p].clone() };
        s.toggle_word(*p, word);
    }
    assert!(!s.verify_continue());
    assert_eq!(s.error, Some("One or more words are incorrect. Please try again.".to_string()));
    for p in positions {
        assert!(s.seed_verification_state.selected_words.get(p).cloned().flatten().is_none());
    }
    assert_eq!(s.seed_verification_state.current_page, 0);
}

#[test]
fn final_check_messages() {
    let mut s = at_verification(PHRASE);
    assert_eq!(s.validate_all_words(), Err("Please select all 12 words".to_string()));
    let w = words();
    for p in 0..12 {
        s.toggle_word(p, w[p].clone());
    }
    assert_eq!(s.validate_all_words(), Ok(()));
    s.toggle_word(5, "zoo".to_string());
    assert_eq!(s.validate_all_words(), Err("One or more words are incorrect. Please try again.".to_string()));
    let mut n = VaultCreationState::new();
    n.mnemonic_word_count = 24;
    assert_eq!(n.validate_all_words(), Err("Please select all 24 words".to_string()));
}
