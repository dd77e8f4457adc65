//! The vault set-up flow: its four ways of setting up (main device,
//! co-owner, view-only, restore from a paper backup), the steps each one
//! walks through, the history the back button walks, and the checks made
//! before each step is left.
use vstd::prelude::*;
use crate::keys::bip39_phrase;
use crate::navigation::{after_navigate, Navigation};
use crate::vault_data::{AsyncCommand, PendingCommands};
use crate::pin::{setup_start, PinSetupState};
use crate::seed_verification::SeedVerificationState;
use crate::text::{
    clear_string, concat, decimal, has_prefix, split_whitespace, split_ws,
    starts_with, string_texts, trim, trimmed,
};

verus! {

/// How this device takes part in the vault.
#[derive(Debug, Clone, Copy, PartialEq, Eq, Structural)]
pub enum DeviceRole {
    /// Creates the vault; holds one key and the time delay.
    Main,
    /// Joins a vault that a main device creates.
    Coowner,
    /// Watches a vault without any key.
    ViewOnly,
    /// Restores a vault from a paper backup.
    Restore,
}

impl Default for DeviceRole {
    fn default() -> (r: Self)
        ensures
            r == DeviceRole::Main,
    {
        DeviceRole::Main
    }
}

/// The steps of the set-up flow.
#[derive(Debug, Clone, Copy, PartialEq, Eq, Structural)]
pub enum VaultCreationStep {
    RoleSelection,
    NameVault,
    SetTimeDelay,
    MnemonicGeneration,
    DisplaySeedPhrase,
    VerifySeedPhrase,
    SetPin,
    ScanCoownerKeys,
    DisplayOwnKeys,
    EnterExchangeData,
    EmailAuth,
    CreateVault,
    DisplayExchangeData,
    Completed,
    ScanDescriptorViewOnly,
    ViewOnlyComplete,
    EnterSeedPhrase,
    ScanDescriptorRestore,
}

/// The step that follows `step` for a device of role `role`, if any.
pub open spec fn next_step(role: DeviceRole, step: VaultCreationStep) -> Option<VaultCreationStep> {
    match role {
        DeviceRole::Main => match step {
            VaultCreationStep::RoleSelection => Some(VaultCreationStep::NameVault),
            VaultCreationStep::NameVault => Some(VaultCreationStep::SetTimeDelay),
            VaultCreationStep::SetTimeDelay => Some(VaultCreationStep::MnemonicGeneration),
            VaultCreationStep::MnemonicGeneration => Some(VaultCreationStep::DisplaySeedPhrase),
            VaultCreationStep::DisplaySeedPhrase => Some(VaultCreationStep::VerifySeedPhrase),
            VaultCreationStep::VerifySeedPhrase => Some(VaultCreationStep::SetPin),
            VaultCreationStep::SetPin => Some(VaultCreationStep::ScanCoownerKeys),
            VaultCreationStep::ScanCoownerKeys => Some(VaultCreationStep::EmailAuth),
            VaultCreationStep::EmailAuth => Some(VaultCreationStep::CreateVault),
            VaultCreationStep::CreateVault => Some(VaultCreationStep::DisplayExchangeData),
            VaultCreationStep::DisplayExchangeData => Some(VaultCreationStep::Completed),
            _ => None,
        },
        DeviceRole::Coowner => match step {
            VaultCreationStep::RoleSelection => Some(VaultCreationStep::NameVault),
            VaultCreationStep::NameVault => Some(VaultCreationStep::MnemonicGeneration),
            VaultCreationStep::MnemonicGeneration => Some(VaultCreationStep::DisplaySeedPhrase),
            VaultCreationStep::DisplaySeedPhrase => Some(VaultCreationStep::VerifySeedPhrase),
            VaultCreationStep::VerifySeedPhrase => Some(VaultCreationStep::SetPin),
            VaultCreationStep::SetPin => Some(VaultCreationStep::DisplayOwnKeys),
            VaultCreationStep::DisplayOwnKeys => Some(VaultCreationStep::EnterExchangeData),
            VaultCreationStep::EnterExchangeData => Some(VaultCreationStep::EmailAuth),
            VaultCreationStep::EmailAuth => Some(VaultCreationStep::CreateVault),
            VaultCreationStep::CreateVault => Some(VaultCreationStep::Completed),
            _ => None,
        },
        DeviceRole::ViewOnly => match step {
            VaultCreationStep::RoleSelection => Some(VaultCreationStep::NameVault),
            VaultCreationStep::NameVault => Some(VaultCreationStep::ScanDescriptorViewOnly),
            VaultCreationStep::ScanDescriptorViewOnly => Some(VaultCreationStep::ViewOnlyComplete),
            VaultCreationStep::ViewOnlyComplete => Some(VaultCreationStep::Completed),
            _ => None,
        },
        DeviceRole::Restore => match step {
            VaultCreationStep::RoleSelection => Some(VaultCreationStep::NameVault),
            VaultCreationStep::NameVault => Some(VaultCreationStep::EnterSeedPhrase),
            VaultCreationStep::EnterSeedPhrase => Some(VaultCreationStep::ScanDescriptorRestore),
            VaultCreationStep::ScanDescriptorRestore => Some(VaultCreationStep::SetPin),
            VaultCreationStep::SetPin => Some(VaultCreationStep::Completed),
            _ => None,
        },
    }
}

/// The whole flow of a role, from role selection to the end.
pub open spec fn flow(role: DeviceRole) -> Seq<VaultCreationStep> {
    match role {
        DeviceRole::Main => seq![
            VaultCreationStep::RoleSelection,
            VaultCreationStep::NameVault,
            VaultCreationStep::SetTimeDelay,
            VaultCreationStep::MnemonicGeneration,
            VaultCreationStep::DisplaySeedPhrase,
            VaultCreationStep::VerifySeedPhrase,
            VaultCreationStep::SetPin,
            VaultCreationStep::ScanCoownerKeys,
            VaultCreationStep::EmailAuth,
            VaultCreationStep::CreateVault,
            VaultCreationStep::DisplayExchangeData,
            VaultCreationStep::Completed,
        ],
        DeviceRole::Coowner => seq![
            VaultCreationStep::RoleSelection,
            VaultCreationStep::NameVault,
            VaultCreationStep::MnemonicGeneration,
            VaultCreationStep::DisplaySeedPhrase,
            VaultCreationStep::VerifySeedPhrase,
            VaultCreationStep::SetPin,
            VaultCreationStep::DisplayOwnKeys,
            VaultCreationStep::EnterExchangeData,
            VaultCreationStep::EmailAuth,
            VaultCreationStep::CreateVault,
            VaultCreationStep::Completed,
        ],
        DeviceRole::ViewOnly => seq![
            VaultCreationStep::RoleSelection,
            VaultCreationStep::NameVault,
            VaultCreationStep::ScanDescriptorViewOnly,
            VaultCreationStep::ViewOnlyComplete,
            VaultCreationStep::Completed,
        ],
        DeviceRole::Restore => seq![
            VaultCreationStep::RoleSelection,
            VaultCreationStep::NameVault,
            VaultCreationStep::EnterSeedPhrase,
            VaultCreationStep::ScanDescriptorRestore,
            VaultCreationStep::SetPin,
            VaultCreationStep::Completed,
        ],
    }
}

/// Each role's flow starts at role selection, ends at `Completed`, and
/// "next step" walks it one step at a time: from every step of the flow but
/// the last, the next step is the following one, and `Completed` has none.
pub proof fn lemma_flow_reaches_completed(role: DeviceRole)
    ensures
        flow(role).len() >= 2,
        flow(role)[0] == VaultCreationStep::RoleSelection,
        flow(role).last() == VaultCreationStep::Completed,
        forall|i: int|
            0 <= i < flow(role).len() - 1 ==> next_step(role, #[trigger] flow(role)[i]) == Some(
                flow(role)[i + 1],
            ),
        next_step(role, VaultCreationStep::Completed) is None,
{
    let f = flow(role);
    assert forall|i: int| 0 <= i < f.len() - 1 implies next_step(role, #[trigger] f[i]) == Some(f[i + 1]) by {
        match role {
            DeviceRole::Main => {
                assert(0 <= i < 11);
                if i == 0 {} else if i == 1 {} else if i == 2 {} else if i == 3 {} else if i == 4 {}
                else if i == 5 {} else if i == 6 {} else if i == 7 {} else if i == 8 {} else if i == 9 {}
                else {}
            },
            DeviceRole::Coowner => {
                if i == 0 {} else if i == 1 {} else if i == 2 {} else if i == 3 {} else if i == 4 {}
                else if i == 5 {} else if i == 6 {} else if i == 7 {} else if i == 8 {} else {}
            },
            DeviceRole::ViewOnly => {
                if i == 0 {} else if i == 1 {} else {}
            },
            DeviceRole::Restore => {
                if i == 0 {} else if i == 1 {} else if i == 2 {} else if i == 3 {} else {}
            },
        }
    }
}

/// State of the set-up flow.
pub struct VaultCreationState {
    pub current_step: VaultCreationStep,
    /// The step shown before the current one, for noticing step changes.
    pub previous_step: Option<VaultCreationStep>,
    /// The steps left behind, for the back button.
    pub step_history: Vec<VaultCreationStep>,
    pub device_role: DeviceRole,
    /// The generated seed phrase, words separated by single spaces.
    pub mnemonic: Option<String>,
    /// Number of words of the phrase to generate (12 or 24).
    pub mnemonic_word_count: u32,
    pub verified_seed_phrase: bool,
    pub time_delay_days: u32,
    pub time_delay_hours: u32,
    /// The co-owner's key data as typed, pasted or scanned.
    pub coowner_pubkeys: String,
    /// The co-owner's keys once decoded (their serialized form).
    pub coowner_keys: Option<String>,
    pub my_keys_text: Option<String>,
    pub exchange_data_input: String,
    pub vault_name: String,
    pub vault_address: Option<String>,
    pub exchange_data_output: Option<String>,
    pub email: String,
    pub auth_code: String,
    pub code_sent: bool,
    pub is_sending_code: bool,
    pub error: Option<String>,
    pub is_creating: bool,
    pub pin_setup_state: PinSetupState,
    pub import_mnemonic_text: String,
    /// Number of words of the paper backup, when chosen.
    pub import_seed_phrase_size: Option<u32>,
    pub import_descriptors_qr: String,
    pub is_importing: bool,
    pub is_scanning_qr: bool,
    pub seed_verification_state: SeedVerificationState,
}

/// Text of an optional string.
pub open spec fn opt_seq(o: Option<String>) -> Option<Seq<char>> {
    match o {
        Some(s) => Some(s@),
        None => None,
    }
}

impl VaultCreationState {
    pub open spec fn wf(&self) -> bool {
        &&& self.pin_setup_state.wf()
    }

    /// Every field but the step, the previous step and the history is the
    /// same in both states.
    pub open spec fn same_inputs(&self, other: &Self) -> bool {
        &&& self.device_role == other.device_role
        &&& self.mnemonic == other.mnemonic
        &&& self.mnemonic_word_count == other.mnemonic_word_count
        &&& self.verified_seed_phrase == other.verified_seed_phrase
        &&& self.time_delay_days == other.time_delay_days
        &&& self.time_delay_hours == other.time_delay_hours
        &&& self.coowner_pubkeys == other.coowner_pubkeys
        &&& self.coowner_keys == other.coowner_keys
        &&& self.my_keys_text == other.my_keys_text
        &&& self.exchange_data_input == other.exchange_data_input
        &&& self.vault_name == other.vault_name
        &&& self.vault_address == other.vault_address
        &&& self.exchange_data_output == other.exchange_data_output
        &&& self.email == other.email
        &&& self.auth_code == other.auth_code
        &&& self.code_sent == other.code_sent
        &&& self.is_sending_code == other.is_sending_code
        &&& self.error == other.error
        &&& self.is_creating == other.is_creating
        &&& self.pin_setup_state == other.pin_setup_state
        &&& self.import_mnemonic_text == other.import_mnemonic_text
        &&& self.import_seed_phrase_size == other.import_seed_phrase_size
        &&& self.import_descriptors_qr == other.import_descriptors_qr
        &&& self.is_importing == other.is_importing
        &&& self.is_scanning_qr == other.is_scanning_qr
        &&& self.seed_verification_state == other.seed_verification_state
    }

    /// Every field but the error agrees, the steps included.
    pub open spec fn same_inputs_but_error(&self, other: &Self) -> bool {
        &&& same_data(self, other)
        &&& self.code_sent == other.code_sent
        &&& self.is_sending_code == other.is_sending_code
        &&& self.is_creating == other.is_creating
        &&& self.is_importing == other.is_importing
        &&& self.previous_step == other.previous_step
    }

    /// Every input of the flow is empty or at its initial value.
    pub open spec fn inputs_cleared(&self) -> bool {
        &&& self.mnemonic is None
        &&& !self.verified_seed_phrase
        &&& self.time_delay_days == 0
        &&& self.time_delay_hours == 24
        &&& self.coowner_pubkeys@.len() == 0
        &&& self.coowner_keys is None
        &&& self.my_keys_text is None
        &&& self.exchange_data_input@.len() == 0
        &&& self.vault_name@.len() == 0
        &&& self.vault_address is None
        &&& self.exchange_data_output is None
        &&& self.email@.len() == 0
        &&& self.auth_code@.len() == 0
        &&& !self.code_sent
        &&& !self.is_sending_code
        &&& self.error is None
        &&& !self.is_creating
        &&& self.pin_setup_state.model() == setup_start()
        &&& self.import_mnemonic_text@.len() == 0
        &&& self.import_descriptors_qr@.len() == 0
        &&& !self.is_importing
        &&& !self.is_scanning_qr
    }

    /// A flow that has not started: at role selection, no history, role
    /// `Main`, every input cleared.
    pub fn new() -> (s: Self)
        ensures
            s.wf(),
            s.current_step == VaultCreationStep::RoleSelection,
            s.previous_step is None,
            s.step_history@.len() == 0,
            s.device_role == DeviceRole::Main,
            s.inputs_cleared(),
            s.mnemonic_word_count == 12,
            s.import_seed_phrase_size is None,
            !s.seed_verification_state.initialized,
            s.seed_verification_state.selected_words@.len() == 0,
    {
        VaultCreationState {
            current_step: VaultCreationStep::RoleSelection,
            previous_step: None,
            step_history: Vec::new(),
            device_role: DeviceRole::Main,
            mnemonic: None,
            mnemonic_word_count: 12,
            verified_seed_phrase: false,
            time_delay_days: 0,
            time_delay_hours: 24,
            coowner_pubkeys: String::new(),
            coowner_keys: None,
            my_keys_text: None,
            exchange_data_input: String::new(),
            vault_name: String::new(),
            vault_address: None,
            exchange_data_output: None,
            email: String::new(),
            auth_code: String::new(),
            code_sent: false,
            is_sending_code: false,
            error: None,
            is_creating: false,
            pin_setup_state: PinSetupState::new(),
            import_mnemonic_text: String::new(),
            import_seed_phrase_size: None,
            import_descriptors_qr: String::new(),
            is_importing: false,
            is_scanning_qr: false,
            seed_verification_state: SeedVerificationState::new(),
        }
    }

    /// Moves forward to `step`, remembering the current step for the back
    /// button; moving to the step already shown changes nothing.
    pub fn advance_to_step(&mut self, step: VaultCreationStep)
        ensures
            step != old(self).current_step ==> {
                &&& final(self).current_step == step
                &&& final(self).previous_step == Some(old(self).current_step)
                &&& final(self).step_history@ == old(self).step_history@.push(old(self).current_step)
            },
            step == old(self).current_step ==> {
                &&& final(self).current_step == old(self).current_step
                &&& final(self).previous_step == old(self).previous_step
                &&& final(self).step_history@ == old(self).step_history@
            },
            final(self).same_inputs(old(self)),
    {
        if step != self.current_step {
            self.previous_step = Some(self.current_step);
            self.step_history.push(self.current_step);
            self.current_step = step;
        }
    }

    /// Goes back to the step left last; `false` at the first step.
    pub fn go_to_previous_step(&mut self) -> (moved: bool)
        ensures
            moved == (old(self).step_history@.len() > 0),
            moved ==> {
                &&& final(self).current_step == old(self).step_history@.last()
                &&& final(self).previous_step == Some(old(self).current_step)
                &&& final(self).step_history@ == old(self).step_history@.drop_last()
            },
            !moved ==> {
                &&& final(self).current_step == old(self).current_step
                &&& final(self).previous_step == old(self).previous_step
                &&& final(self).step_history@ == old(self).step_history@
            },
            final(self).same_inputs(old(self)),
    {
        match self.step_history.pop() {
            Some(previous) => {
                self.previous_step = Some(self.current_step);
                self.current_step = previous;
                true
            },
            None => false,
        }
    }

    /// Whether the back button has a step to go back to.
    pub fn can_go_back_in_workflow(&self) -> (b: bool)
        ensures
            b == (self.step_history@.len() > 0),
    {
        self.step_history.len() > 0
    }

    /// Whether `current` is newly shown (it differs from the step last
    /// noted); notes it, so that only the first call after a change answers
    /// `true`.
    pub fn step_just_changed(&mut self, current: VaultCreationStep) -> (changed: bool)
        ensures
            changed == (old(self).previous_step != Some(current)),
            final(self).previous_step == Some(current),
            final(self).current_step == old(self).current_step,
            final(self).step_history@ == old(self).step_history@,
            final(self).same_inputs(old(self)),
    {
        let changed = match self.previous_step {
            Some(p) => p != current,
            None => true,
        };
        if changed {
            self.previous_step = Some(current);
        }
        changed
    }

    /// Leaves the flow: back to role selection with no history and role
    /// `Main`; the inputs stay, for resuming.
    pub fn reset(&mut self)
        ensures
            final(self).current_step == VaultCreationStep::RoleSelection,
            final(self).step_history@.len() == 0,
            final(self).device_role == DeviceRole::Main,
            final(self).vault_name == old(self).vault_name,
            final(self).mnemonic == old(self).mnemonic,
            final(self).email == old(self).email,
            final(self).previous_step == old(self).previous_step,
    {
        self.current_step = VaultCreationStep::RoleSelection;
        self.step_history = Vec::new();
        self.device_role = DeviceRole::Main;
    }

    /// Starts a new flow: forgets the history and every input.
    pub fn reset_for_new_flow(&mut self)
        requires
            old(self).wf(),
        ensures
            final(self).wf(),
            final(self).step_history@.len() == 0,
            final(self).inputs_cleared(),
            final(self).current_step == old(self).current_step,
            final(self).previous_step == old(self).previous_step,
            final(self).device_role == old(self).device_role,
    {
        self.step_history = Vec::new();
        self.mnemonic = None;
        self.verified_seed_phrase = false;
        self.time_delay_days = 0;
        self.time_delay_hours = 24;
        clear_string(&mut self.coowner_pubkeys);
        self.coowner_keys = None;
        self.my_keys_text = None;
        clear_string(&mut self.exchange_data_input);
        clear_string(&mut self.vault_name);
        self.vault_address = None;
        self.exchange_data_output = None;
        clear_string(&mut self.email);
        clear_string(&mut self.auth_code);
        self.code_sent = false;
        self.is_sending_code = false;
        self.error = None;
        self.is_creating = false;
        self.pin_setup_state = PinSetupState::new();
        clear_string(&mut self.import_mnemonic_text);
        clear_string(&mut self.import_descriptors_qr);
        self.is_importing = false;
        self.is_scanning_qr = false;
    }

    /// Forgets the seed phrases (generated and typed) and the PINs typed.
    pub fn clear_sensitive_data(&mut self)
        requires
            old(self).wf(),
        ensures
            final(self).wf(),
            final(self).mnemonic is None,
            final(self).import_mnemonic_text@.len() == 0,
            final(self).pin_setup_state.model() == setup_start(),
            *final(self) == (VaultCreationState {
                mnemonic: None,
                import_mnemonic_text: final(self).import_mnemonic_text,
                pin_setup_state: final(self).pin_setup_state,
                ..*old(self)
            }),
    {
        self.mnemonic = None;
        clear_string(&mut self.import_mnemonic_text);
        self.pin_setup_state = PinSetupState::new();
    }

    /// The step after the current one for this device's role.
    pub fn next_step_for_role(&self) -> (r: Option<VaultCreationStep>)
        ensures
            r == next_step(self.device_role, self.current_step),
    {
        match self.device_role {
            DeviceRole::Main => self.next_step_main(),
            DeviceRole::Coowner => self.next_step_coowner(),
            DeviceRole::ViewOnly => self.next_step_view_only(),
            DeviceRole::Restore => self.next_step_restore(),
        }
    }

    fn next_step_main(&self) -> (r: Option<VaultCreationStep>)
        ensures
            r == next_step(DeviceRole::Main, self.current_step),
    {
        match self.current_step {
            VaultCreationStep::RoleSelection => Some(VaultCreationStep::NameVault),
            VaultCreationStep::NameVault => Some(VaultCreationStep::SetTimeDelay),
            VaultCreationStep::SetTimeDelay => Some(VaultCreationStep::MnemonicGeneration),
            VaultCreationStep::MnemonicGeneration => Some(VaultCreationStep::DisplaySeedPhrase),
            VaultCreationStep::DisplaySeedPhrase => Some(VaultCreationStep::VerifySeedPhrase),
            VaultCreationStep::VerifySeedPhrase => Some(VaultCreationStep::SetPin),
            VaultCreationStep::SetPin => Some(VaultCreationStep::ScanCoownerKeys),
            VaultCreationStep::ScanCoownerKeys => Some(VaultCreationStep::EmailAuth),
            VaultCreationStep::EmailAuth => Some(VaultCreationStep::CreateVault),
            VaultCreationStep::CreateVault => Some(VaultCreationStep::DisplayExchangeData),
            VaultCreationStep::DisplayExchangeData => Some(VaultCreationStep::Completed),
            _ => None,
        }
    }

    fn next_step_coowner(&self) -> (r: Option<VaultCreationStep>)
        ensures
            r == next_step(DeviceRole::Coowner, self.current_step),
    {
        match self.current_step {
            VaultCreationStep::RoleSelection => Some(VaultCreationStep::NameVault),
            VaultCreationStep::NameVault => Some(VaultCreationStep::MnemonicGeneration),
            VaultCreationStep::MnemonicGeneration => Some(VaultCreationStep::DisplaySeedPhrase),
            VaultCreationStep::DisplaySeedPhrase => Some(VaultCreationStep::VerifySeedPhrase),
            VaultCreationStep::VerifySeedPhrase => Some(VaultCreationStep::SetPin),
            VaultCreationStep::SetPin => Some(VaultCreationStep::DisplayOwnKeys),
            VaultCreationStep::DisplayOwnKeys => Some(VaultCreationStep::EnterExchangeData),
            VaultCreationStep::EnterExchangeData => Some(VaultCreationStep::EmailAuth),
            VaultCreationStep::EmailAuth => Some(VaultCreationStep::CreateVault),
            VaultCreationStep::CreateVault => Some(VaultCreationStep::Completed),
            _ => None,
        }
    }

    fn next_step_view_only(&self) -> (r: Option<VaultCreationStep>)
        ensures
            r == next_step(DeviceRole::ViewOnly, self.current_step),
    {
        match self.current_step {
            VaultCreationStep::RoleSelection => Some(VaultCreationStep::NameVault),
            VaultCreationStep::NameVault => Some(VaultCreationStep::ScanDescriptorViewOnly),
            VaultCreationStep::ScanDescriptorViewOnly => Some(VaultCreationStep::ViewOnlyComplete),
            VaultCreationStep::ViewOnlyComplete => Some(VaultCreationStep::Completed),
            _ => None,
        }
    }

    fn next_step_restore(&self) -> (r: Option<VaultCreationStep>)
        ensures
            r == next_step(DeviceRole::Restore, self.current_step),
    {
        match self.current_step {
            VaultCreationStep::RoleSelection => Some(VaultCreationStep::NameVault),
            VaultCreationStep::NameVault => Some(VaultCreationStep::EnterSeedPhrase),
            VaultCreationStep::EnterSeedPhrase => Some(VaultCreationStep::ScanDescriptorRestore),
            VaultCreationStep::ScanDescriptorRestore => Some(VaultCreationStep::SetPin),
            VaultCreationStep::SetPin => Some(VaultCreationStep::Completed),
            _ => None,
        }
    }

    /// Moves to the next step of the role's flow, when there is one.
    pub fn advance_for_role(&mut self)
        ensures
            next_step(old(self).device_role, old(self).current_step) matches Some(n) ==> {
                &&& final(self).current_step == n
                &&& final(self).step_history@ == old(self).step_history@.push(old(self).current_step)
                &&& final(self).previous_step == Some(old(self).current_step)
            },
            next_step(old(self).device_role, old(self).current_step) is None ==> {
                &&& final(self).current_step == old(self).current_step
                &&& final(self).step_history@ == old(self).step_history@
                &&& final(self).previous_step == old(self).previous_step
            },
            final(self).same_inputs(old(self)),
    {
        proof {
            lemma_next_step_moves(old(self).device_role, old(self).current_step);
        }
        if let Some(next) = self.next_step_for_role() {
            self.advance_to_step(next);
        }
    }
}

/// The next step is never the step itself.
pub proof fn lemma_next_step_moves(role: DeviceRole, step: VaultCreationStep)
    ensures
        next_step(role, step) matches Some(n) ==> n != step,
{
}

/// Going back right after moving forward to another step shows the step
/// left and restores the history.
pub proof fn lemma_back_undoes_advance(
    before: VaultCreationState,
    moved: VaultCreationState,
    back: VaultCreationState,
    step: VaultCreationStep,
)
    requires
        step != before.current_step,
        moved.current_step == step,
        moved.step_history@ == before.step_history@.push(before.current_step),
        back.current_step == moved.step_history@.last(),
        back.step_history@ == moved.step_history@.drop_last(),
    ensures
        back.current_step == before.current_step,
        back.step_history@ == before.step_history@,
{
    assert(before.step_history@.push(before.current_step).drop_last() =~= before.step_history@);
}

/// Position of the first occurrence of `c` in `s`, if any.
pub open spec fn first_index(s: Seq<char>, c: char) -> Option<int> {
    if s.contains(c) {
        Some(choose|i: int| 0 <= i < s.len() && s[i] == c && forall|k: int| 0 <= k < i ==> s[k] != c)
    } else {
        None
    }
}

fn find_char(s: &str, c: char) -> (r: Option<usize>)
    ensures
        match r {
            Some(i) => i < s@.len() && s@[i as int] == c && forall|k: int| 0 <= k < i ==> s@[k] != c,
            None => !s@.contains(c),
        },
        r matches Some(i) ==> first_index(s@, c) == Some(i as int),
        r is None ==> first_index(s@, c) is None,
{
    let n = s.unicode_len();
    let mut i: usize = 0;
    while i < n
        invariant
            n == s@.len(),
            i <= n,
            forall|k: int| 0 <= k < i ==> s@[k] != c,
        decreases n - i,
    {
        if s.get_char(i) == c {
            proof {
                let j = choose|j: int| 0 <= j < s@.len() && s@[j] == c && forall|k: int| 0 <= k < j ==> s@[k] != c;
                assert(s@[i as int] == c);
                if j < i {
                    assert(s@[j] != c);
                }
                if j > i {
                    assert(s@[i as int] != c);
                }
            }
            return Some(i);
        }
        i = i + 1;
    }
    None
}

/// Error shown when the vault name is left empty.
pub open spec fn empty_name_message() -> Seq<char> {
    "Please enter a vault name"@
}

/// What checking an e-mail address before sending a code finds wrong, if
/// anything.
pub open spec fn code_email_error(email: Seq<char>) -> Option<Seq<char>> {
    if trim(email).len() == 0 || !email.contains('@') {
        Some("Please enter a valid email address"@)
    } else {
        None
    }
}

/// What the checks made before creating or joining a vault find wrong, in
/// the order they are made: the name, the e-mail address, the code, and the
/// co-owner's keys.
pub open spec fn creation_error(
    name: Seq<char>,
    email: Seq<char>,
    auth_code: Seq<char>,
    coowner_text: Seq<char>,
    has_coowner_keys: bool,
) -> Option<Seq<char>> {
    let e = trim(email);
    if trim(name).len() == 0 {
        Some("Vault name cannot be empty"@)
    } else if e.len() == 0 {
        Some("Please enter an email address"@)
    } else if !e.contains('@') || !e.contains('.') || vstd::utf8::encode_utf8(e).len() < 5 {
        Some("Please enter a valid email address (e.g., name@example.com)"@)
    } else if first_index(e, '@') == Some(0int) || first_index(e, '@') == Some(e.len() - 1) {
        Some("Please enter a valid email address"@)
    } else if trim(auth_code).len() == 0 {
        Some("Please enter an authentication code"@)
    } else if trim(coowner_text).len() == 0 && !has_coowner_keys {
        Some("Co-owner keys are required"@)
    } else {
        None
    }
}

/// An e-mail address without a dot (such as `alice@example`) is refused
/// with the message asking for a valid address like `name@example.com`,
/// whatever the code and the keys, once a vault name is given; and no
/// accepted address lacks a dot or an `@`.
pub proof fn lemma_email_needs_dot_and_at(
    name: Seq<char>,
    email: Seq<char>,
    auth_code: Seq<char>,
    coowner_text: Seq<char>,
    has_coowner_keys: bool,
)
    ensures
        (trim(name).len() > 0 && trim(email).len() > 0 && forall|i: int| 0 <= i < trim(email).len() ==> trim(email)[i]
            != '.') ==> creation_error(name, email, auth_code, coowner_text, has_coowner_keys) == Some(
            "Please enter a valid email address (e.g., name@example.com)"@,
        ),
        creation_error(name, email, auth_code, coowner_text, has_coowner_keys) is None ==> (exists|i: int|
            0 <= i < trim(email).len() && trim(email)[i] == '.') && (exists|i: int|
            0 <= i < trim(email).len() && trim(email)[i] == '@'),
{
}

/// What checking a typed paper backup finds wrong before it is parsed:
/// nothing typed, or not the number of words chosen.
pub open spec fn backup_words_error(text: Seq<char>, expected: u32) -> Option<Seq<char>> {
    let n = split_ws(text).len();
    if n == 0 {
        Some("Please enter your seed phrase"@)
    } else if n != expected {
        Some("Seed phrase should be "@ + decimal(expected as nat) + " words (you entered "@ + decimal(n) + ")"@)
    } else {
        None
    }
}

/// The last step of the set-up: what came of creating or joining the vault.
pub enum CreationResult {
    /// The vault service refused to set the vault up.
    SetupFailed(String),
    /// The vault was set up (with the exchange data for the co-owner, if
    /// any) but could not be opened.
    InitFailed(Option<String>, String),
    /// The vault was set up and opened.
    Done(Option<String>),
}

/// Whether the time delay is shorter than the recommended day.
pub fn time_delay_too_short(days: u32, hours: u32) -> (b: bool)
    requires
        days * 24 + hours <= u32::MAX,
    ensures
        b == (days * 24 + hours < 24),
{
    days * 24 + hours < 24
}

impl VaultCreationState {
    /// A role was picked on the first screen: a new flow starts for it.
    pub fn select_role(&mut self, role: DeviceRole)
        requires
            old(self).wf(),
        ensures
            final(self).wf(),
            final(self).device_role == role,
            final(self).inputs_cleared(),
            old(self).current_step != VaultCreationStep::NameVault ==> {
                &&& final(self).current_step == VaultCreationStep::NameVault
                &&& final(self).step_history@ == seq![old(self).current_step]
            },
    {
        self.reset_for_new_flow();
        self.device_role = role;
        self.advance_to_step(VaultCreationStep::NameVault);
    }

    /// "Continue" on the name screen: refused while the name is blank.
    pub fn submit_vault_name(&mut self) -> (ok: bool)
        ensures
            ok == (trim(old(self).vault_name@).len() > 0),
            !ok ==> {
                &&& opt_seq(final(self).error) == Some(empty_name_message())
                &&& final(self).current_step == old(self).current_step
                &&& final(self).step_history@ == old(self).step_history@
            },
            ok ==> {
                &&& final(self).error is None
                &&& next_step(old(self).device_role, old(self).current_step) matches Some(n)
                    ==> final(self).current_step == n
            },
            final(self).vault_name == old(self).vault_name,
            final(self).device_role == old(self).device_role,
    {
        let t = trimmed(self.vault_name.as_str());
        if t.unicode_len() == 0 {
            self.error = Some(String::from_str("Please enter a vault name"));
            false
        } else {
            self.error = None;
            self.advance_for_role();
            true
        }
    }
}

/// Fields that only the last check of a step changes: the step and its
/// history, the error and the work flags. All the others agree.
pub open spec fn same_data(a: &VaultCreationState, b: &VaultCreationState) -> bool {
    &&& a.device_role == b.device_role
    &&& a.mnemonic == b.mnemonic
    &&& a.vault_name == b.vault_name
    &&& a.email == b.email
    &&& a.auth_code == b.auth_code
    &&& a.coowner_pubkeys == b.coowner_pubkeys
    &&& a.coowner_keys == b.coowner_keys
    &&& a.exchange_data_input == b.exchange_data_input
    &&& a.exchange_data_output == b.exchange_data_output
    &&& a.import_mnemonic_text == b.import_mnemonic_text
    &&& a.import_descriptors_qr == b.import_descriptors_qr
    &&& a.time_delay_days == b.time_delay_days
    &&& a.time_delay_hours == b.time_delay_hours
    &&& a.vault_address == b.vault_address
    &&& a.pin_setup_state == b.pin_setup_state
    &&& a.seed_verification_state == b.seed_verification_state
}

/// `next` moved the flow one step forward for the role, from `prev`.
pub open spec fn moved_on(prev: &VaultCreationState, next: &VaultCreationState) -> bool {
    match next_step(prev.device_role, prev.current_step) {
        Some(n) => next.current_step == n && next.step_history@ == prev.step_history@.push(
            prev.current_step,
        ),
        None => next.current_step == prev.current_step && next.step_history@
            == prev.step_history@,
    }
}

/// `next` shows the same step as `prev`, with the same history.
pub open spec fn stayed(prev: &VaultCreationState, next: &VaultCreationState) -> bool {
    next.current_step == prev.current_step && next.step_history@ == prev.step_history@
}

impl VaultCreationState {
    /// The generation of the seed phrase ended: on success the phrase is kept
    /// and the phrase is shown; on failure the error is.
    pub fn finish_mnemonic_generation(&mut self, generated: Result<String, String>) -> (ok: bool)
        ensures
            ok == generated is Ok,
            generated matches Ok(p) ==> {
                &&& opt_seq(final(self).mnemonic) == Some(p@)
                &&& final(self).error is None
                &&& (old(self).current_step != VaultCreationStep::DisplaySeedPhrase ==> {
                    &&& final(self).current_step == VaultCreationStep::DisplaySeedPhrase
                    &&& final(self).step_history@ == old(self).step_history@.push(old(self).current_step)
                })
            },
            generated matches Err(e) ==> {
                &&& opt_seq(final(self).error) == Some("Failed to generate mnemonic: "@ + e@)
                &&& final(self).mnemonic == old(self).mnemonic
                &&& stayed(old(self), final(self))
            },
            final(self).device_role == old(self).device_role,
            final(self).vault_name == old(self).vault_name,
            final(self).mnemonic_word_count == old(self).mnemonic_word_count,
            final(self).wf() == old(self).wf(),
    {
        match generated {
            Ok(p) => {
                self.mnemonic = Some(p);
                self.error = None;
                self.advance_to_step(VaultCreationStep::DisplaySeedPhrase);
                true
            },
            Err(e) => {
                self.error = Some(concat("Failed to generate mnemonic: ", e.as_str()));
                false
            },
        }
    }

    /// "Generate Seed Phrase": a fresh phrase of the chosen length (the
    /// phrase of 32 random bytes, 24 words, when 24 are chosen, else of 16
    /// bytes, 12 words); it is kept and shown, as in
    /// `finish_mnemonic_generation`. Generation always succeeds.
    pub fn generate_mnemonic(&mut self) -> (ok: bool)
        ensures
            ok,
            exists|e: Seq<u8>| #![trigger bip39_phrase(e)]
                e.len() == (if old(self).mnemonic_word_count == 24 {
                    32nat
                } else {
                    16nat
                }) && opt_seq(final(self).mnemonic) == Some(bip39_phrase(e)),
            final(self).error is None,
            old(self).current_step != VaultCreationStep::DisplaySeedPhrase ==> {
                &&& final(self).current_step == VaultCreationStep::DisplaySeedPhrase
                &&& final(self).step_history@ == old(self).step_history@.push(old(self).current_step)
            },
            final(self).device_role == old(self).device_role,
            final(self).vault_name == old(self).vault_name,
            final(self).mnemonic_word_count == old(self).mnemonic_word_count,
            final(self).wf() == old(self).wf(),
    {
        let long = self.mnemonic_word_count == 24;
        let generated = match crate::keys::KeyService::new().generate_seed_phrase(long) {
            Ok(p) => Ok(p),
            Err(crate::keys::KeyServiceError::GenerationError(e)) => Err(e),
            Err(_) => Err(String::new()),
        };
        self.finish_mnemonic_generation(generated)
    }

    /// "I've Written It Down": on to the check of the phrase.
    pub fn seed_written_down(&mut self)
        ensures
            old(self).current_step != VaultCreationStep::VerifySeedPhrase ==> {
                &&& final(self).current_step == VaultCreationStep::VerifySeedPhrase
                &&& final(self).step_history@ == old(self).step_history@.push(old(self).current_step)
            },
            final(self).same_inputs(old(self)),
    {
        self.advance_to_step(VaultCreationStep::VerifySeedPhrase);
    }

    /// "Continue" on the co-owner keys screen (main device). `decoded` is
    /// the key data decoded as the co-owner's keys, when it decodes. Blank
    /// data is refused; keys that decode are kept; data in the hardware
    /// wallet format (starting with `ur:`) is passed on undecoded; anything
    /// else is refused.
    pub fn submit_coowner_keys(&mut self, decoded: Option<String>) -> (ok: bool)
        ensures
            ok == (trim(old(self).coowner_pubkeys@).len() > 0 && (decoded is Some || has_prefix(
                trim(old(self).coowner_pubkeys@),
                "ur:"@,
            ))),
            trim(old(self).coowner_pubkeys@).len() == 0 ==> opt_seq(final(self).error) == Some(
                "Please scan, paste, or load the co-owner's key data"@,
            ),
            !ok && trim(old(self).coowner_pubkeys@).len() > 0 ==> opt_seq(final(self).error) == Some(
                "Invalid key data format. Expected CoownerKeys JSON or Hardware Wallet UR format."@,
            ),
            !ok ==> stayed(old(self), final(self)) && final(self).coowner_keys == old(self).coowner_keys,
            ok ==> final(self).error is None && moved_on(old(self), final(self)) && final(self).coowner_keys == decoded,
            final(self).device_role == old(self).device_role,
            final(self).coowner_pubkeys == old(self).coowner_pubkeys,
            final(self).wf() == old(self).wf(),
    {
        let t = trimmed(self.coowner_pubkeys.as_str());
        if t.unicode_len() == 0 {
            self.error = Some(String::from_str("Please scan, paste, or load the co-owner's key data"));
            return false;
        }
        let is_ur = starts_with(t.as_str(), "ur:");
        match decoded {
            Some(keys) => {
                self.coowner_keys = Some(keys);
                self.error = None;
                self.advance_for_role();
                true
            },
            None => {
                if is_ur {
                    self.coowner_keys = None;
                    self.error = None;
                    self.advance_for_role();
                    true
                } else {
                    self.error = Some(
                        String::from_str(
                            "Invalid key data format. Expected CoownerKeys JSON or Hardware Wallet UR format.",
                        ),
                    );
                    false
                }
            },
        }
    }

    /// "Continue" on the exchange data screen (co-owner). `decoded` is the
    /// pasted data decoded: the main device's keys and the time delay it
    /// carries (days, hours), or the decoding error.
    pub fn submit_exchange_data(&mut self, decoded: Result<(String, u32, u32), String>) -> (ok: bool)
        ensures
            ok == (trim(old(self).exchange_data_input@).len() > 0 && decoded is Ok),
            trim(old(self).exchange_data_input@).len() == 0 ==> opt_seq(final(self).error) == Some(
                "Please paste or load the vault configuration"@,
            ),
            trim(old(self).exchange_data_input@).len() > 0 ==> match decoded {
                Ok((keys, days, hours)) => {
                    &&& opt_seq(final(self).coowner_keys) == Some(keys@)
                    &&& final(self).time_delay_days == days
                    &&& final(self).time_delay_hours == hours
                    &&& final(self).error is None
                    &&& moved_on(old(self), final(self))
                },
                Err(e) => opt_seq(final(self).error) == Some("Invalid configuration data: "@ + e@),
            },
            !ok ==> stayed(old(self), final(self)) && final(self).coowner_keys == old(self).coowner_keys,
            final(self).device_role == old(self).device_role,
            final(self).wf() == old(self).wf(),
    {
        let t = trimmed(self.exchange_data_input.as_str());
        if t.unicode_len() == 0 {
            self.error = Some(String::from_str("Please paste or load the vault configuration"));
            return false;
        }
        match decoded {
            Ok((keys, days, hours)) => {
                self.coowner_keys = Some(keys);
                self.time_delay_days = days;
                self.time_delay_hours = hours;
                self.error = None;
                self.advance_for_role();
                true
            },
            Err(e) => {
                self.error = Some(concat("Invalid configuration data: ", e.as_str()));
                false
            },
        }
    }

    /// "Send Verification Code": whether the address may be sent a code;
    /// when not, the error says so.
    pub fn check_email_for_code(&mut self) -> (ok: bool)
        ensures
            ok == code_email_error(old(self).email@) is None,
            !ok ==> opt_seq(final(self).error) == code_email_error(old(self).email@),
            ok ==> final(self).error == old(self).error,
            final(self).same_inputs_but_error(old(self)),
            stayed(old(self), final(self)),
    {
        let t = trimmed(self.email.as_str());
        let at = find_char(self.email.as_str(), '@');
        if t.unicode_len() == 0 || at.is_none() {
            self.error = Some(String::from_str("Please enter a valid email address"));
            false
        } else {
            true
        }
    }

    /// No network: the code cannot be sent, nor the vault created.
    pub fn report_offline(&mut self)
        ensures
            opt_seq(final(self).error) == Some(
                "No internet connection. Please check your network and try again."@,
            ),
            final(self).same_inputs_but_error(old(self)),
            stayed(old(self), final(self)),
    {
        self.error = Some(
            String::from_str("No internet connection. Please check your network and try again."),
        );
    }

    /// The code is being sent.
    pub fn begin_sending_code(&mut self)
        ensures
            final(self).is_sending_code,
            final(self).error is None,
            final(self).code_sent == old(self).code_sent,
            stayed(old(self), final(self)),
            same_data(old(self), final(self)),
    {
        self.is_sending_code = true;
        self.error = None;
    }

    /// The code was sent, or sending it failed.
    pub fn finish_sending_code(&mut self, sent: Result<(), String>)
        ensures
            !final(self).is_sending_code,
            final(self).code_sent == (sent is Ok || old(self).code_sent),
            sent matches Err(e) ==> opt_seq(final(self).error) == Some("Failed to send code: "@ + e@),
            sent is Ok ==> final(self).error == old(self).error,
            stayed(old(self), final(self)),
            same_data(old(self), final(self)),
    {
        match sent {
            Ok(()) => {
                self.code_sent = true;
                self.is_sending_code = false;
            },
            Err(e) => {
                self.error = Some(concat("Failed to send code: ", e.as_str()));
                self.is_sending_code = false;
            },
        }
    }

    /// "Verify & Continue": refused while the code is blank.
    pub fn submit_auth_code(&mut self) -> (ok: bool)
        ensures
            ok == (trim(old(self).auth_code@).len() > 0),
            !ok ==> opt_seq(final(self).error) == Some("Please enter the verification code"@) && stayed(
                old(self),
                final(self),
            ),
            ok ==> final(self).error is None && moved_on(old(self), final(self)),
            same_data(old(self), final(self)),
    {
        let t = trimmed(self.auth_code.as_str());
        if t.unicode_len() == 0 {
            self.error = Some(String::from_str("Please enter the verification code"));
            false
        } else {
            self.error = None;
            self.advance_for_role();
            true
        }
    }

    /// "Back" on the e-mail screen: the code sent and typed are forgotten.
    pub fn leave_email_auth(&mut self) -> (moved: bool)
        ensures
            !final(self).code_sent,
            final(self).auth_code@.len() == 0,
            moved == (old(self).step_history@.len() > 0),
            moved ==> final(self).current_step == old(self).step_history@.last()
                && final(self).step_history@ == old(self).step_history@.drop_last(),
            !moved ==> stayed(old(self), final(self)),
            final(self).email == old(self).email,
            final(self).device_role == old(self).device_role,
    {
        self.code_sent = false;
        clear_string(&mut self.auth_code);
        self.go_to_previous_step()
    }

    /// "Create Vault" / "Join Vault": the checks made before the vault
    /// service is asked. On failure the error says what is wrong and nothing
    /// is being created.
    pub fn check_creation_inputs(&mut self) -> (ok: bool)
        ensures
            ok == creation_error(
                old(self).vault_name@,
                old(self).email@,
                old(self).auth_code@,
                old(self).coowner_pubkeys@,
                old(self).coowner_keys is Some,
            ) is None,
            ok ==> final(self).error is None && final(self).is_creating == old(self).is_creating,
            !ok ==> !final(self).is_creating && opt_seq(final(self).error) == creation_error(
                old(self).vault_name@,
                old(self).email@,
                old(self).auth_code@,
                old(self).coowner_pubkeys@,
                old(self).coowner_keys is Some,
            ),
            ok ==> (exists|i: int| 0 <= i < trim(old(self).email@).len() && trim(old(self).email@)[i] == '.'),
            ok ==> (exists|i: int| 0 <= i < trim(old(self).email@).len() && trim(old(self).email@)[i] == '@'),
            (trim(old(self).vault_name@).len() > 0 && trim(old(self).email@).len() > 0 && forall|i: int|
                0 <= i < trim(old(self).email@).len() ==> trim(old(self).email@)[i] != '.') ==> (!ok && opt_seq(
                final(self).error,
            ) == Some("Please enter a valid email address (e.g., name@example.com)"@)),
            stayed(old(self), final(self)),
            same_data(old(self), final(self)),
    {
        self.error = None;
        let name = trimmed(self.vault_name.as_str());
        if name.unicode_len() == 0 {
            self.error = Some(String::from_str("Vault name cannot be empty"));
            self.is_creating = false;
            return false;
        }
        let email = trimmed(self.email.as_str());
        let n = email.unicode_len();
        if n == 0 {
            self.error = Some(String::from_str("Please enter an email address"));
            self.is_creating = false;
            return false;
        }
        let at = find_char(email.as_str(), '@');
        let dot = find_char(email.as_str(), '.');
        if at.is_none() || dot.is_none() || email.as_str().as_bytes().len() < 5 {
            self.error = Some(
                String::from_str("Please enter a valid email address (e.g., name@example.com)"),
            );
            self.is_creating = false;
            return false;
        }
        let at_pos = match at {
            Some(p) => p,
            None => 0,
        };
        if at_pos == 0 || at_pos == n - 1 {
            self.error = Some(String::from_str("Please enter a valid email address"));
            self.is_creating = false;
            return false;
        }
        let code = trimmed(self.auth_code.as_str());
        if code.unicode_len() == 0 {
            self.error = Some(String::from_str("Please enter an authentication code"));
            self.is_creating = false;
            return false;
        }
        let keys = trimmed(self.coowner_pubkeys.as_str());
        if keys.unicode_len() == 0 && self.coowner_keys.is_none() {
            self.error = Some(String::from_str("Co-owner keys are required"));
            self.is_creating = false;
            return false;
        }
        true
    }

    /// The vault service is being asked to create or join the vault.
    pub fn begin_creating(&mut self)
        ensures
            final(self).is_creating,
            final(self).error == old(self).error,
            stayed(old(self), final(self)),
            same_data(old(self), final(self)),
    {
        self.is_creating = true;
    }

    /// The runtime (or the seed phrase) needed to create the vault is
    /// missing.
    pub fn report_missing_runtime(&mut self)
        ensures
            opt_seq(final(self).error) == Some("Missing mnemonic or runtime"@),
            !final(self).is_creating,
            stayed(old(self), final(self)),
            same_data(old(self), final(self)),
    {
        self.error = Some(String::from_str("Missing mnemonic or runtime"));
        self.is_creating = false;
    }

    /// What came of creating or joining the vault. Once created, for every
    /// role, the vault's balance and address are to be fetched (queued in
    /// that order), the exchange data (if any) is kept and the seed phrase
    /// forgotten; the main device then shows the exchange data, a co-owner is
    /// done and the dashboard opens. The answer is whether the dashboard was
    /// opened.
    pub fn finish_creation(
        &mut self,
        navigation: &mut Navigation,
        commands: &mut PendingCommands,
        result: CreationResult,
    ) -> (open_wallet: bool)
        requires
            old(self).wf(),
        ensures
            result is Done ==> final(commands).queued() == old(commands).queued().push(AsyncCommand::FetchBalance).push(
                AsyncCommand::FetchAddress,
            ),
            !(result is Done) ==> final(commands).queued() == old(commands).queued(),
            final(self).wf(),
            !final(self).is_creating,
            open_wallet == (result is Done && old(self).device_role != DeviceRole::Main),
            open_wallet ==> final(navigation).state() == after_navigate(
                old(navigation).state(),
                crate::navigation::View::Dashboard { tab: 0 },
            ),
            !open_wallet ==> final(navigation).state() == old(navigation).state(),
            match result {
                CreationResult::SetupFailed(e) => {
                    &&& opt_seq(final(self).error) == Some("Failed to create vault: "@ + e@)
                    &&& stayed(old(self), final(self))
                    &&& final(self).mnemonic == old(self).mnemonic
                },
                CreationResult::InitFailed(x, e) => {
                    &&& opt_seq(final(self).error) == Some("Failed to initialize vault: "@ + e@)
                    &&& stayed(old(self), final(self))
                    &&& final(self).mnemonic == old(self).mnemonic
                    &&& (x is Some ==> opt_seq(final(self).exchange_data_output) == opt_seq(x))
                    &&& (x is None ==> opt_seq(final(self).exchange_data_output) == opt_seq(old(self).exchange_data_output))
                },
                CreationResult::Done(x) => {
                    &&& final(self).mnemonic is None
                    &&& final(self).import_mnemonic_text@.len() == 0
                    &&& final(self).error == old(self).error
                    &&& (x is Some ==> opt_seq(final(self).exchange_data_output) == opt_seq(x))
                    &&& (x is None ==> opt_seq(final(self).exchange_data_output) == opt_seq(old(self).exchange_data_output))
                    &&& final(self).current_step == (if old(self).device_role == DeviceRole::Main {
                        VaultCreationStep::DisplayExchangeData
                    } else {
                        VaultCreationStep::Completed
                    })
                    &&& (old(self).current_step != VaultCreationStep::DisplayExchangeData
                        && old(self).current_step != VaultCreationStep::Completed ==> final(self).step_history@
                        == old(self).step_history@.push(old(self).current_step))
                },
            },
            final(self).device_role == old(self).device_role,
            final(self).vault_name == old(self).vault_name,
    {
        match result {
            CreationResult::SetupFailed(e) => {
                self.error = Some(concat("Failed to create vault: ", e.as_str()));
                self.is_creating = false;
                false
            },
            CreationResult::InitFailed(x, e) => {
                match x {
                    Some(d) => {
                        self.exchange_data_output = Some(d);
                    },
                    None => {},
                }
                self.error = Some(concat("Failed to initialize vault: ", e.as_str()));
                self.is_creating = false;
                false
            },
            CreationResult::Done(x) => {
                match x {
                    Some(d) => {
                        self.exchange_data_output = Some(d);
                    },
                    None => {},
                }
                commands.fetch_balance();
                commands.fetch_address();
                self.clear_sensitive_data();
                self.is_creating = false;
                match self.device_role {
                    DeviceRole::Main => {
                        self.advance_to_step(VaultCreationStep::DisplayExchangeData);
                        false
                    },
                    _ => {
                        self.advance_to_step(VaultCreationStep::Completed);
                        navigation.navigate_to(crate::navigation::View::Dashboard { tab: 0 });
                        true
                    },
                }
            },
        }
    }
}

impl VaultCreationState {
    /// "Continue" on a descriptor screen: refused while nothing is entered.
    pub fn submit_descriptor(&mut self) -> (ok: bool)
        ensures
            ok == (trim(old(self).import_descriptors_qr@).len() > 0),
            !ok ==> opt_seq(final(self).error) == Some("Please enter the descriptor configuration"@)
                && stayed(old(self), final(self)),
            ok ==> final(self).error is None && moved_on(old(self), final(self)),
            same_data(old(self), final(self)),
    {
        let t = trimmed(self.import_descriptors_qr.as_str());
        if t.unicode_len() == 0 {
            self.error = Some(String::from_str("Please enter the descriptor configuration"));
            false
        } else {
            self.error = None;
            self.advance_for_role();
            true
        }
    }

    /// A view-only wallet is being set up.
    pub fn begin_view_only_import(&mut self)
        ensures
            final(self).is_importing,
            final(self).error is None,
            stayed(old(self), final(self)),
            same_data(old(self), final(self)),
    {
        self.is_importing = true;
        self.error = None;
    }

    /// No runtime to import with.
    pub fn report_runtime_unavailable(&mut self)
        ensures
            opt_seq(final(self).error) == Some("Runtime not available"@),
            !final(self).is_importing,
            stayed(old(self), final(self)),
            same_data(old(self), final(self)),
    {
        self.error = Some(String::from_str("Runtime not available"));
        self.is_importing = false;
    }

    /// What came of setting up the view-only wallet: its address, or the
    /// error. On success the vault's balance and address are to be fetched
    /// (queued in that order), the secrets are forgotten and the flow is
    /// done; the answer is whether to open the wallet.
    pub fn finish_view_only_import(
        &mut self,
        commands: &mut PendingCommands,
        result: Result<String, String>,
    ) -> (open_wallet: bool)
        requires
            old(self).wf(),
        ensures
            result is Ok ==> final(commands).queued() == old(commands).queued().push(AsyncCommand::FetchBalance).push(
                AsyncCommand::FetchAddress,
            ),
            result is Err ==> final(commands).queued() == old(commands).queued(),
            final(self).wf(),
            open_wallet == result is Ok,
            !final(self).is_importing,
            result matches Ok(a) ==> {
                &&& opt_seq(final(self).vault_address) == Some(a@)
                &&& final(self).mnemonic is None
                &&& final(self).import_mnemonic_text@.len() == 0
                &&& final(self).current_step == VaultCreationStep::Completed
            },
            result matches Err(e) ==> {
                &&& opt_seq(final(self).error) == Some(e@)
                &&& stayed(old(self), final(self))
                &&& final(self).vault_address == old(self).vault_address
            },
            final(self).device_role == old(self).device_role,
    {
        match result {
            Ok(address) => {
                commands.fetch_balance();
                commands.fetch_address();
                self.clear_sensitive_data();
                self.vault_address = Some(address);
                self.is_importing = false;
                self.advance_to_step(VaultCreationStep::Completed);
                true
            },
            Err(e) => {
                self.error = Some(e);
                self.is_importing = false;
                false
            },
        }
    }

    /// "Continue" on the paper backup screen: the number of words must be
    /// the one chosen (12 unless chosen otherwise), and the trimmed text must
    /// be a valid English phrase.
    pub fn submit_backup_words(&mut self) -> (ok: bool)
        ensures
            ({
                let expected = match old(self).import_seed_phrase_size {
                    Some(n) => n,
                    None => 12u32,
                };
                let text = old(self).import_mnemonic_text@;
                match backup_words_error(text, expected) {
                    Some(m) => !ok && opt_seq(final(self).error) == Some(m),
                    None => match crate::keys::bip39_parse_failure(trim(text)) {
                        Some(m) => !ok && opt_seq(final(self).error) == Some("Invalid seed phrase: "@ + m),
                        None => ok && final(self).error is None,
                    },
                }
            }),
            !ok ==> stayed(old(self), final(self)),
            ok ==> moved_on(old(self), final(self)),
            same_data(old(self), final(self)),
    {
        let words = split_whitespace(self.import_mnemonic_text.as_str());
        let n = words.len();
        proof {
            assert(string_texts(words@).len() == words@.len());
        }
        if n == 0 {
            self.error = Some(String::from_str("Please enter your seed phrase"));
            return false;
        }
        let expected: u32 = match self.import_seed_phrase_size {
            Some(k) => k,
            None => 12,
        };
        if n as u64 != expected as u64 {
            let mut m = String::from_str("Seed phrase should be ");
            crate::text::push_decimal(&mut m, expected as u64);
            m.append(" words (you entered ");
            crate::text::push_decimal(&mut m, n as u64);
            m.append(")");
            self.error = Some(m);
            return false;
        }
        let t = trimmed(self.import_mnemonic_text.as_str());
        match crate::keys::check_phrase(t.as_str()) {
            Ok(()) => {
                self.error = None;
                self.advance_for_role();
                true
            },
            Err(e) => {
                self.error = Some(concat("Invalid seed phrase: ", e.as_str()));
                false
            },
        }
    }

    /// "Restore Vault": the descriptor must be entered and the typed phrase
    /// valid; then the restore starts.
    pub fn begin_restore(&mut self) -> (ok: bool)
        ensures
            ok == (trim(old(self).import_descriptors_qr@).len() > 0 && crate::keys::bip39_parse_failure(
                trim(old(self).import_mnemonic_text@),
            ) is None),
            trim(old(self).import_descriptors_qr@).len() == 0 ==> opt_seq(final(self).error) == Some(
                "Please enter the descriptor configuration"@,
            ),
            trim(old(self).import_descriptors_qr@).len() > 0 ==> match crate::keys::bip39_parse_failure(
                trim(old(self).import_mnemonic_text@),
            ) {
                Some(m) => opt_seq(final(self).error) == Some("Invalid seed phrase: "@ + m),
                None => final(self).error is None && final(self).is_importing,
            },
            !ok ==> final(self).is_importing == old(self).is_importing,
            stayed(old(self), final(self)),
            same_data(old(self), final(self)),
    {
        let d = trimmed(self.import_descriptors_qr.as_str());
        if d.unicode_len() == 0 {
            self.error = Some(String::from_str("Please enter the descriptor configuration"));
            return false;
        }
        let t = trimmed(self.import_mnemonic_text.as_str());
        match crate::keys::check_phrase(t.as_str()) {
            Ok(()) => {
                self.is_importing = true;
                self.error = None;
                true
            },
            Err(e) => {
                self.error = Some(concat("Invalid seed phrase: ", e.as_str()));
                false
            },
        }
    }

    /// What came of restoring the vault: its address, or the error. On
    /// success the vault's balance and address are to be fetched (queued in
    /// that order), the secrets are forgotten and the flow moves on (to the
    /// PIN).
    pub fn finish_restore(&mut self, commands: &mut PendingCommands, result: Result<String, String>)
        requires
            old(self).wf(),
        ensures
            result is Ok ==> final(commands).queued() == old(commands).queued().push(AsyncCommand::FetchBalance).push(
                AsyncCommand::FetchAddress,
            ),
            result is Err ==> final(commands).queued() == old(commands).queued(),
            final(self).wf(),
            !final(self).is_importing,
            result matches Ok(a) ==> {
                &&& opt_seq(final(self).vault_address) == Some(a@)
                &&& final(self).mnemonic is None
                &&& final(self).import_mnemonic_text@.len() == 0
                &&& moved_on(old(self), final(self))
            },
            result matches Err(e) ==> {
                &&& opt_seq(final(self).error) == Some(e@)
                &&& stayed(old(self), final(self))
            },
            final(self).device_role == old(self).device_role,
    {
        match result {
            Ok(address) => {
                commands.fetch_balance();
                commands.fetch_address();
                self.clear_sensitive_data();
                self.vault_address = Some(address);
                self.is_importing = false;
                self.advance_for_role();
            },
            Err(e) => {
                self.error = Some(e);
                self.is_importing = false;
            },
        }
    }
}

} // verus!
