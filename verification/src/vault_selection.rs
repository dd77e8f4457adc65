//! The vault selection screen: the vaults stored on this device, the one
//! selected, and what loading, renaming, importing and deleting do to the
//! list.
use vstd::prelude::*;
use crate::biometrics::BiometricType;
use crate::components::BadgeStyle;
use crate::navigation::{after_navigate, Navigation};
use crate::pin::PinVerificationState;
use crate::recovery::Fetched;
use crate::text::{concat, decimal, push_decimal, str_eq};

verus! {

/// What the screen shows of a vault's stored record.
#[derive(Debug, Clone)]
pub struct VaultRecord {
    pub name: String,
    pub address: String,
    /// The network's name, such as `mainnet`.
    pub network: String,
    /// When the vault was made, as stored (an RFC 3339 text).
    pub created_at: String,
    pub database_path: String,
    /// Why the record cannot be used, when it cannot.
    pub problem: Option<String>,
    /// The vault's wallet database is on disk.
    pub database_exists: bool,
}

pub open spec fn opt_text(o: Option<String>) -> Option<Seq<char>> {
    match o {
        Some(s) => Some(s@),
        None => None,
    }
}

/// The records whose database exists, in order.
pub open spec fn with_database(s: Seq<VaultRecord>) -> Seq<VaultRecord>
    decreases s.len(),
{
    if s.len() == 0 {
        s
    } else {
        let rest = with_database(s.drop_last());
        if s.last().database_exists {
            rest.push(s.last())
        } else {
            rest
        }
    }
}

/// The addresses of the records whose database is gone, in order.
pub open spec fn orphan_addresses(s: Seq<VaultRecord>) -> Seq<Seq<char>>
    decreases s.len(),
{
    if s.len() == 0 {
        Seq::empty()
    } else {
        let rest = orphan_addresses(s.drop_last());
        if s.last().database_exists {
            rest
        } else {
            rest.push(s.last().address@)
        }
    }
}

/// How many records can be used.
pub open spec fn valid_count(s: Seq<VaultRecord>) -> nat
    decreases s.len(),
{
    if s.len() == 0 {
        0
    } else {
        valid_count(s.drop_last()) + if s.last().problem is None {
            1nat
        } else {
            0nat
        }
    }
}

/// The line above the list: all usable, or how many of them are.
pub open spec fn summary_text(s: Seq<VaultRecord>) -> Seq<char> {
    let v = valid_count(s);
    if v == s.len() {
        "✓ "@ + decimal(v) + " vault(s) available"@
    } else {
        "⚠ "@ + decimal(v) + " of "@ + decimal(s.len()) + " vault(s) valid"@
    }
}

/// The status badge of a vault: usable, unusable with its database on
/// disk, or unusable without it.
pub open spec fn vault_status(r: VaultRecord) -> (Seq<char>, BadgeStyle) {
    if r.problem is None {
        ("Valid"@, BadgeStyle::Success)
    } else if r.database_exists {
        ("Warning"@, BadgeStyle::Warning)
    } else {
        ("Error"@, BadgeStyle::Error)
    }
}

/// An address as listed: its first thirty characters and an ellipsis when
/// it is longer.
pub open spec fn short_address(a: Seq<char>) -> Seq<char> {
    if a.len() > 30 {
        a.take(30) + "..."@
    } else {
        a
    }
}

/// The creation line: the first ten characters (the date) of the stored
/// time, when there are ten.
pub open spec fn created_text(c: Seq<char>) -> Option<Seq<char>> {
    if c.len() >= 10 {
        Some("Created: "@ + c.take(10))
    } else {
        None
    }
}

proof fn lemma_valid_count_le(s: Seq<VaultRecord>)
    ensures
        valid_count(s) <= s.len(),
    decreases s.len(),
{
    if s.len() > 0 {
        lemma_valid_count_le(s.drop_last());
    }
}

/// The status badge of a vault.
pub fn status_of(r: &VaultRecord) -> (st: (&'static str, BadgeStyle))
    ensures
        (st.0@, st.1) == vault_status(*r),
{
    if r.problem.is_none() {
        ("Valid", BadgeStyle::Success)
    } else if r.database_exists {
        ("Warning", BadgeStyle::Warning)
    } else {
        ("Error", BadgeStyle::Error)
    }
}

/// An address as listed.
pub fn address_display(address: &str) -> (s: String)
    ensures
        s@ == short_address(address@),
{
    let n = address.unicode_len();
    if n > 30 {
        let head = address.substring_char(0, 30);
        concat(head, "...")
    } else {
        String::from_str(address)
    }
}

/// The creation line of a vault.
pub fn created_line(created_at: &str) -> (s: Option<String>)
    ensures
        opt_text(s) == created_text(created_at@),
{
    if created_at.unicode_len() >= 10 {
        Some(concat("Created: ", created_at.substring_char(0, 10)))
    } else {
        None
    }
}

/// The state of the vault selection screen.
pub struct VaultSelectionState {
    pub vaults: Vec<VaultRecord>,
    pub loading: bool,
    pub error: Option<String>,
    pub selected_index: Option<usize>,
    /// The vault being renamed, while the dialog is open.
    pub rename_dialog: Option<usize>,
    pub rename_text: String,
    pub import_dialog_open: bool,
    /// The record to import, as JSON.
    pub import_text: String,
    pub pin_verification: PinVerificationState,
    /// The vault to delete once the PIN is verified.
    pub pending_delete_index: Option<usize>,
}

impl VaultSelectionState {
    /// An empty screen; the platform's biometric support is given for the
    /// PIN dialog.
    pub fn new(biometric_available: bool, biometric_type: BiometricType) -> (s: Self)
        ensures
            s.vaults@.len() == 0,
            !s.loading,
            s.error is None,
            s.selected_index is None,
            s.rename_dialog is None,
            s.rename_text@.len() == 0,
            !s.import_dialog_open,
            s.import_text@.len() == 0,
            !s.pin_verification.visible(),
            s.pending_delete_index is None,
    {
        VaultSelectionState {
            vaults: Vec::new(),
            loading: false,
            error: None,
            selected_index: None,
            rename_dialog: None,
            rename_text: String::new(),
            import_dialog_open: false,
            import_text: String::new(),
            pin_verification: PinVerificationState::new(biometric_available, biometric_type),
            pending_delete_index: None,
        }
    }

    /// The list is loaded when it is empty and not being loaded.
    pub fn needs_load(&self) -> (b: bool)
        ensures
            b == (self.vaults@.len() == 0 && !self.loading),
    {
        self.vaults.len() == 0 && !self.loading
    }

    /// Loading starts (on first showing the screen).
    pub fn begin_load(&mut self)
        ensures
            *final(self) == (VaultSelectionState { loading: true, ..*old(self) }),
    {
        self.loading = true;
    }

    /// "Refresh": loading starts again and the error is cleared.
    pub fn refresh(&mut self)
        ensures
            *final(self) == (VaultSelectionState { loading: true, error: None, ..*old(self) }),
    {
        self.loading = true;
        self.error = None;
    }

    /// The stored records, or why they could not be listed. Records whose
    /// database is gone are dropped from the list; their addresses are
    /// handed back so that their records can be deleted.
    pub fn finish_load(&mut self, listed: Result<Vec<VaultRecord>, String>) -> (orphans: Vec<String>)
        ensures
            !final(self).loading,
            match listed {
                Ok(v) => {
                    &&& final(self).vaults@ == with_database(v@)
                    &&& orphans@.map_values(|a: String| a@) == orphan_addresses(v@)
                    &&& final(self).error == old(self).error
                },
                Err(e) => {
                    &&& opt_text(final(self).error) == Some("Failed to load vaults: "@ + e@)
                    &&& final(self).vaults@ == old(self).vaults@
                    &&& orphans@.len() == 0
                },
            },
            final(self).selected_index == old(self).selected_index,
    {
        let mut orphans: Vec<String> = Vec::new();
        match listed {
            Ok(v) => {
                let ghost all = v@;
                let mut rest = v;
                let mut kept: Vec<VaultRecord> = Vec::new();
                let n = rest.len();
                let mut i: usize = 0;
                assert(all.take(0) =~= Seq::<VaultRecord>::empty());
                assert(all.skip(0) =~= all);
                while i < n
                    invariant
                        n == all.len(),
                        i <= n,
                        rest@ == all.skip(i as int),
                        kept@ == with_database(all.take(i as int)),
                        orphans@.map_values(|a: String| a@) == orphan_addresses(all.take(i as int)),
                    decreases n - i,
                {
                    let ghost before = orphans@;
                    assert(all.take(i + 1).drop_last() =~= all.take(i as int));
                    assert(all.take(i + 1).last() == all[i as int]);
                    let x = rest.remove(0);
                    assert(rest@ =~= all.skip(i + 1));
                    if x.database_exists {
                        kept.push(x);
                    } else {
                        orphans.push(x.address);
                        assert(orphans@.map_values(|a: String| a@) =~= before.map_values(|a: String| a@).push(all[i as int].address@));
                    }
                    i = i + 1;
                }
                assert(all.take(n as int) =~= all);
                self.vaults = kept;
            },
            Err(e) => {
                self.error = Some(concat("Failed to load vaults: ", e.as_str()));
                assert(orphans@.map_values(|a: String| a@) =~= Seq::<Seq<char>>::empty());
            },
        }
        self.loading = false;
        orphans
    }

    /// The line above the list.
    pub fn summary(&self) -> (s: String)
        ensures
            s@ == summary_text(self.vaults@),
    {
        let n = self.vaults.len();
        let mut valid: usize = 0;
        let mut i: usize = 0;
        assert(self.vaults@.take(0) =~= Seq::<VaultRecord>::empty());
        while i < n
            invariant
                n == self.vaults@.len(),
                i <= n,
                valid == valid_count(self.vaults@.take(i as int)),
                valid <= i,
            decreases n - i,
        {
            assert(self.vaults@.take(i + 1).drop_last() =~= self.vaults@.take(i as int));
            if self.vaults[i].problem.is_none() {
                valid = valid + 1;
            }
            i = i + 1;
        }
        assert(self.vaults@.take(n as int) =~= self.vaults@);
        if valid == n {
            let mut s = String::from_str("✓ ");
            push_decimal(&mut s, valid as u64);
            s.append(" vault(s) available");
            proof {
                reveal_strlit("✓ ");
                reveal_strlit(" vault(s) available");
            }
            assert(s@ =~= summary_text(self.vaults@));
            s
        } else {
            let mut s = String::from_str("⚠ ");
            push_decimal(&mut s, valid as u64);
            s.append(" of ");
            push_decimal(&mut s, n as u64);
            s.append(" vault(s) valid");
            proof {
                reveal_strlit("⚠ ");
                reveal_strlit(" of ");
                reveal_strlit(" vault(s) valid");
            }
            assert(s@ =~= summary_text(self.vaults@));
            s
        }
    }

    /// A click on a vault's card selects it.
    pub fn select(&mut self, index: usize)
        ensures
            *final(self) == (VaultSelectionState { selected_index: Some(index), ..*old(self) }),
    {
        self.selected_index = Some(index);
    }

    /// "Load Selected Vault": the index of the vault to load when the
    /// selected one can be used. Without a selection, or with an unusable
    /// vault, the error says why and nothing is loaded.
    pub fn load_selected(&mut self) -> (load: Option<usize>)
        ensures
            final(self).vaults@ == old(self).vaults@,
            final(self).selected_index == old(self).selected_index,
            match old(self).selected_index {
                None => load is None && opt_text(final(self).error) == Some("Please select a vault"@),
                Some(i) => if i < old(self).vaults@.len() {
                    match old(self).vaults@[i as int].problem {
                        None => load == Some(i) && final(self).error == old(self).error,
                        Some(p) => load is None && opt_text(final(self).error) == Some(
                            "Cannot load vault: "@ + p@,
                        ),
                    }
                } else {
                    load is None && final(self).error == old(self).error
                },
            },
    {
        match self.selected_index {
            None => {
                self.error = Some(String::from_str("Please select a vault"));
                None
            },
            Some(i) => {
                if i < self.vaults.len() {
                    let message = match &self.vaults[i].problem {
                        None => None,
                        Some(p) => Some(concat("Cannot load vault: ", p.as_str())),
                    };
                    match message {
                        None => Some(i),
                        Some(m) => {
                            self.error = Some(m);
                            None
                        },
                    }
                } else {
                    None
                }
            },
        }
    }

    /// What came of loading the vault: the dashboard opens, or the error
    /// says why not.
    pub fn finish_vault_load(&mut self, navigation: &mut Navigation, loaded: Fetched<()>)
        ensures
            final(self).vaults@ == old(self).vaults@,
            match loaded {
                Fetched::Ready(_) => final(navigation).state() == after_navigate(
                    old(navigation).state(),
                    crate::navigation::View::Dashboard { tab: 0 },
                ) && final(self).error == old(self).error,
                Fetched::Failed(e) => opt_text(final(self).error) == Some("Failed to load vault: "@ + e@)
                    && final(navigation).state() == old(navigation).state(),
                Fetched::Unavailable => opt_text(final(self).error) == Some("Runtime not available"@)
                    && final(navigation).state() == old(navigation).state(),
            },
    {
        match loaded {
            Fetched::Ready(_) => navigation.navigate_to(crate::navigation::View::Dashboard { tab: 0 }),
            Fetched::Failed(e) => self.error = Some(concat("Failed to load vault: ", e.as_str())),
            Fetched::Unavailable => self.error = Some(String::from_str("Runtime not available")),
        }
    }

    /// "Import Vault": the dialog opens with an empty text.
    pub fn open_import(&mut self)
        ensures
            *final(self) == (VaultSelectionState {
                import_dialog_open: true,
                import_text: final(self).import_text,
                ..*old(self)
            }),
            final(self).import_text@.len() == 0,
    {
        self.import_dialog_open = true;
        self.import_text = String::new();
    }

    /// "Cancel" in the import dialog.
    pub fn cancel_import(&mut self)
        ensures
            *final(self) == (VaultSelectionState {
                import_dialog_open: false,
                import_text: final(self).import_text,
                ..*old(self)
            }),
            final(self).import_text@.len() == 0,
    {
        self.import_dialog_open = false;
        self.import_text = String::new();
    }

    /// "Import" in the dialog, with the text read as a record (or the
    /// reason it is no record). A record with an address and a database
    /// path that no listed vault has is handed back to be saved; otherwise
    /// the error says what is wrong.
    pub fn check_import(&mut self, parsed: Result<VaultRecord, String>) -> (save: Option<VaultRecord>)
        ensures
            final(self).vaults@ == old(self).vaults@,
            final(self).import_dialog_open == old(self).import_dialog_open,
            match parsed {
                Err(e) => save is None && opt_text(final(self).error) == Some("Invalid JSON: "@ + e@),
                Ok(m) => if m.address@.len() == 0 {
                    save is None && opt_text(final(self).error) == Some("Vault metadata missing address"@)
                } else if m.database_path@.len() == 0 {
                    save is None && opt_text(final(self).error) == Some(
                        "Vault metadata missing database path"@,
                    )
                } else if exists|k: int| 0 <= k < old(self).vaults@.len() && #[trigger] old(self).vaults@[k].address@
                    == m.address@ {
                    save is None && opt_text(final(self).error) == Some(
                        "Vault with this address already exists"@,
                    )
                } else {
                    save == Some(m) && final(self).error == old(self).error
                },
            },
    {
        match parsed {
            Err(e) => {
                self.error = Some(concat("Invalid JSON: ", e.as_str()));
                None
            },
            Ok(m) => {
                if m.address.unicode_len() == 0 {
                    self.error = Some(String::from_str("Vault metadata missing address"));
                    return None;
                }
                if m.database_path.unicode_len() == 0 {
                    self.error = Some(String::from_str("Vault metadata missing database path"));
                    return None;
                }
                let mut k: usize = 0;
                while k < self.vaults.len()
                    invariant
                        k <= self.vaults@.len(),
                        self.vaults@ == old(self).vaults@,
                        self.import_dialog_open == old(self).import_dialog_open,
                        self.error == old(self).error,
                        parsed == Ok::<VaultRecord, String>(m),
                        m.address@.len() > 0,
                        m.database_path@.len() > 0,
                        forall|j: int| 0 <= j < k ==> #[trigger] self.vaults@[j].address@ != m.address@,
                    decreases self.vaults@.len() - k,
                {
                    if str_eq(self.vaults[k].address.as_str(), m.address.as_str()) {
                        assert(old(self).vaults@[k as int].address@ == m.address@);
                        self.error = Some(String::from_str("Vault with this address already exists"));
                        return None;
                    }
                    k = k + 1;
                }
                Some(m)
            },
        }
    }

    /// What came of saving an imported record: it joins the list and the
    /// dialog closes, or the error says why not.
    pub fn finish_import(&mut self, record: VaultRecord, saved: Result<(), String>)
        ensures
            match saved {
                Ok(_) => {
                    &&& final(self).vaults@ == old(self).vaults@.push(record)
                    &&& !final(self).import_dialog_open
                    &&& final(self).import_text@.len() == 0
                    &&& final(self).error is None
                },
                Err(e) => {
                    &&& opt_text(final(self).error) == Some("Failed to save vault metadata: "@ + e@)
                    &&& final(self).vaults@ == old(self).vaults@
                    &&& final(self).import_dialog_open == old(self).import_dialog_open
                },
            },
    {
        match saved {
            Ok(_) => {
                self.vaults.push(record);
                self.import_dialog_open = false;
                self.import_text = String::new();
                self.error = None;
            },
            Err(e) => {
                self.error = Some(concat("Failed to save vault metadata: ", e.as_str()));
            },
        }
    }

    /// "Rename" on the selected vault: the dialog opens with its name.
    /// False (nothing changes) without a listed vault selected.
    pub fn start_rename(&mut self) -> (opened: bool)
        ensures
            opened == (old(self).selected_index matches Some(i) && i < old(self).vaults@.len()),
            opened ==> {
                &&& final(self).rename_dialog == old(self).selected_index
                &&& final(self).rename_text@ == old(self).vaults@[old(self).selected_index->Some_0 as int].name@
            },
            !opened ==> final(self).rename_dialog == old(self).rename_dialog,
            final(self).vaults@ == old(self).vaults@,
    {
        match self.selected_index {
            Some(i) => {
                if i < self.vaults.len() {
                    self.rename_text = self.vaults[i].name.clone();
                    self.rename_dialog = Some(i);
                    true
                } else {
                    false
                }
            },
            None => false,
        }
    }

    /// "Cancel" in the rename dialog.
    pub fn cancel_rename(&mut self)
        ensures
            final(self).rename_dialog is None,
            final(self).rename_text@.len() == 0,
            final(self).vaults@ == old(self).vaults@,
    {
        self.rename_dialog = None;
        self.rename_text = String::new();
    }

    /// What came of renaming the vault of the open dialog: its updated
    /// record takes its place and the dialog closes, or the error says why
    /// not. Nothing happens without an open dialog on a listed vault.
    pub fn finish_rename(&mut self, renamed: Result<VaultRecord, String>)
        ensures
            match old(self).rename_dialog {
                Some(i) if i < old(self).vaults@.len() => match renamed {
                    Ok(m) => {
                        &&& final(self).vaults@ == old(self).vaults@.update(i as int, m)
                        &&& final(self).rename_dialog is None
                        &&& final(self).rename_text@.len() == 0
                        &&& final(self).error is None
                    },
                    Err(e) => {
                        &&& opt_text(final(self).error) == Some("Failed to rename vault: "@ + e@)
                        &&& final(self).vaults@ == old(self).vaults@
                        &&& final(self).rename_dialog == old(self).rename_dialog
                    },
                },
                _ => final(self).vaults@ == old(self).vaults@ && final(self).rename_dialog == old(
                    self,
                ).rename_dialog && final(self).error == old(self).error,
            },
    {
        match self.rename_dialog {
            Some(i) => {
                if i < self.vaults.len() {
                    match renamed {
                        Ok(m) => {
                            self.vaults.set(i, m);
                            self.rename_dialog = None;
                            self.rename_text = String::new();
                            self.error = None;
                        },
                        Err(e) => {
                            self.error = Some(concat("Failed to rename vault: ", e.as_str()));
                        },
                    }
                }
            },
            None => {},
        }
    }

    /// What came of copying the selected record (as JSON) for export.
    pub fn finish_export(&mut self, exported: Result<(), String>)
        ensures
            final(self).vaults@ == old(self).vaults@,
            match exported {
                Ok(_) => final(self).error is None,
                Err(e) => opt_text(final(self).error) == Some("Failed to export vault: "@ + e@),
            },
    {
        match exported {
            Ok(_) => self.error = None,
            Err(e) => self.error = Some(concat("Failed to export vault: ", e.as_str())),
        }
    }

    /// "Delete" on the selected vault. With a PIN set, the PIN is asked
    /// first and nothing is deleted yet; without one, the index of the
    /// vault to delete now is handed back. Nothing happens without a listed
    /// vault selected.
    pub fn request_delete(&mut self, has_pin: bool) -> (delete_now: Option<usize>)
        ensures
            final(self).vaults@ == old(self).vaults@,
            match old(self).selected_index {
                Some(i) if i < old(self).vaults@.len() => if has_pin {
                    &&& delete_now is None
                    &&& final(self).pending_delete_index == Some(i)
                    &&& final(self).pin_verification.visible()
                    &&& !final(self).pin_verification.is_ok()
                } else {
                    delete_now == Some(i) && final(self).pending_delete_index == old(self).pending_delete_index
                },
                _ => delete_now is None && final(self).pending_delete_index == old(self).pending_delete_index,
            },
    {
        match self.selected_index {
            Some(i) => {
                if i < self.vaults.len() {
                    if has_pin {
                        self.pending_delete_index = Some(i);
                        self.pin_verification.show();
                        None
                    } else {
                        Some(i)
                    }
                } else {
                    None
                }
            },
            None => None,
        }
    }

    /// While a deletion waits for the PIN: once it is verified, the pending
    /// deletion ends, the dialog is reset and the index to delete is handed
    /// back (when it is still listed); until then the dialog is kept shown.
    pub fn delete_after_pin(&mut self) -> (delete_now: Option<usize>)
        ensures
            final(self).vaults@ == old(self).vaults@,
            match old(self).pending_delete_index {
                None => delete_now is None && final(self).pending_delete_index is None,
                Some(i) => if old(self).pin_verification.is_ok() {
                    &&& final(self).pending_delete_index is None
                    &&& !final(self).pin_verification.is_ok()
                    &&& delete_now == (if i < old(self).vaults@.len() {
                        Some(i)
                    } else {
                        None
                    })
                } else {
                    &&& delete_now is None
                    &&& final(self).pending_delete_index == Some(i)
                    &&& final(self).pin_verification.visible()
                },
            },
    {
        match self.pending_delete_index {
            None => None,
            Some(i) => {
                if self.pin_verification.is_verified() {
                    self.pending_delete_index = None;
                    self.pin_verification.reset();
                    if i < self.vaults.len() {
                        Some(i)
                    } else {
                        None
                    }
                } else {
                    if !self.pin_verification.is_visible() {
                        self.pin_verification.show();
                    }
                    None
                }
            },
        }
    }

    /// What came of deleting the vault at `index` (its record and its
    /// database): it leaves the list and the selection is cleared, or the
    /// error says why not.
    pub fn finish_delete(&mut self, index: usize, deleted: Result<(), String>)
        ensures
            match deleted {
                Ok(_) => if index < old(self).vaults@.len() {
                    &&& final(self).vaults@ == old(self).vaults@.remove(index as int)
                    &&& final(self).selected_index is None
                    &&& final(self).error is None
                } else {
                    final(self).vaults@ == old(self).vaults@
                },
                Err(e) => opt_text(final(self).error) == Some("Failed to delete vault: "@ + e@)
                    && final(self).vaults@ == old(self).vaults@,
            },
    {
        match deleted {
            Ok(_) => {
                if index < self.vaults.len() {
                    self.vaults.remove(index);
                    self.selected_index = None;
                    self.error = None;
                }
            },
            Err(e) => self.error = Some(concat("Failed to delete vault: ", e.as_str())),
        }
    }
}

} // verus!
