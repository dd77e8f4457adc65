//! Advanced settings: the tabs, the selection of old coins (for a recovery
//! or a refresh transaction) with the total selected, and the outcome of a
//! PIN reset.
use vstd::prelude::*;
use crate::recovery::{texts, Fetched, UtxoSelectionState, unavailable_message};
use crate::text::concat;

verus! {

/// Tabs of the advanced settings.
#[derive(Debug, Clone, Copy, PartialEq, Eq, Structural)]
pub enum AdvancedSettingsTab {
    UtxoSelection,
    FeeRate,
    Backup,
    Security,
}

/// An old coin of the vault.
#[derive(Debug, Clone)]
pub struct OldUtxo {
    /// `txid:vout`.
    pub outpoint: String,
    /// Its amount in satoshis.
    pub amount_sat: u64,
}

/// The outpoints of a list of coins.
pub open spec fn outpoints_of(v: Seq<OldUtxo>) -> Seq<Seq<char>> {
    v.map_values(|u: OldUtxo| u.outpoint@)
}

/// Sum of the amounts of the coins whose outpoint is chosen.
pub open spec fn selected_sum(v: Seq<OldUtxo>, chosen: Set<Seq<char>>) -> nat
    decreases v.len(),
{
    if v.len() == 0 {
        0
    } else {
        selected_sum(v.drop_last(), chosen) + (if chosen.contains(v.last().outpoint@) {
            v.last().amount_sat as nat
        } else {
            0nat
        })
    }
}

pub open spec fn opt_text(o: Option<String>) -> Option<Seq<char>> {
    match o {
        Some(s) => Some(s@),
        None => None,
    }
}

/// The old coins shown and the ones selected.
pub struct UtxoSelectionViewState {
    utxos: Vec<OldUtxo>,
    selection: UtxoSelectionState,
    is_loading: bool,
    error: Option<String>,
    /// Coins older than a year (recovery) rather than six months (refresh).
    show_recovery: bool,
}

impl UtxoSelectionViewState {
    pub closed spec fn coins(&self) -> Seq<OldUtxo> {
        self.utxos@
    }

    pub closed spec fn chosen(&self) -> Set<Seq<char>> {
        self.selection.chosen()
    }

    pub closed spec fn loading(&self) -> bool {
        self.is_loading
    }

    pub closed spec fn error_text(&self) -> Option<Seq<char>> {
        opt_text(self.error)
    }

    /// Coins older than a year are shown (recovery), rather than those older
    /// than six months (refresh).
    pub closed spec fn recovery_mode(&self) -> bool {
        self.show_recovery
    }

    pub closed spec fn wf(&self) -> bool {
        &&& self.selection.wf()
        &&& self.selection.offered() == outpoints_of(self.utxos@)
    }

    /// No coins, none selected, the refresh mode.
    pub fn new() -> (s: Self)
        ensures
            s.wf(),
            s.coins().len() == 0,
            s.chosen() == Set::<Seq<char>>::empty(),
            !s.loading(),
            s.error_text() is None,
            !s.recovery_mode(),
    {
        let s = UtxoSelectionViewState {
            utxos: Vec::new(),
            selection: UtxoSelectionState::new(Vec::new()),
            is_loading: false,
            error: None,
            show_recovery: false,
        };
        assert(outpoints_of(s.utxos@) =~= texts(Seq::<String>::empty()));
        s
    }

    pub fn utxos(&self) -> (v: &Vec<OldUtxo>)
        ensures
            v@ == self.coins(),
    {
        &self.utxos
    }

    /// The old coins as loaded (for the mode shown), or why they could not
    /// be; the selection is cleared either way.
    pub fn refresh(&mut self, loaded: Fetched<Vec<OldUtxo>>)
        requires
            old(self).wf(),
        ensures
            final(self).wf(),
            final(self).chosen() == Set::<Seq<char>>::empty(),
            !final(self).loading(),
            match loaded {
                Fetched::Ready(v) => final(self).coins() == v@ && final(self).error_text() is None,
                Fetched::Failed(e) => final(self).coins() == old(self).coins() && final(self).error_text()
                    == Some("Failed to load UTXOs: "@ + e@),
                Fetched::Unavailable => final(self).coins() == old(self).coins() && final(self).error_text()
                    == Some(unavailable_message()),
            },
            final(self).recovery_mode() == old(self).recovery_mode(),
    {
        self.is_loading = true;
        self.error = None;
        self.selection.deselect_all();
        match loaded {
            Fetched::Ready(v) => {
                let mut outpoints: Vec<String> = Vec::new();
                let mut i: usize = 0;
                while i < v.len()
                    invariant
                        i <= v@.len(),
                        texts(outpoints@) == outpoints_of(v@).subrange(0, i as int),
                    decreases v@.len() - i,
                {
                    let ghost before = outpoints@;
                    outpoints.push(v[i].outpoint.clone());
                    proof {
                        assert(texts(outpoints@) =~= texts(before).push(v@[i as int].outpoint@));
                        assert(outpoints_of(v@).subrange(0, i + 1) =~= outpoints_of(v@).subrange(0, i as int).push(
                            v@[i as int].outpoint@,
                        ));
                    }
                    i = i + 1;
                }
                assert(outpoints_of(v@).subrange(0, v@.len() as int) =~= outpoints_of(v@));
                self.selection = UtxoSelectionState::new(outpoints);
                self.utxos = v;
                self.is_loading = false;
            },
            Fetched::Failed(e) => {
                self.error = Some(concat("Failed to load UTXOs: ", e.as_str()));
                self.is_loading = false;
            },
            Fetched::Unavailable => {
                self.error = Some(String::from_str("Vault not loaded or runtime not available"));
                self.is_loading = false;
            },
        }
    }

    /// Whether a coin is selected.
    pub fn has_selection(&self) -> (b: bool)
        requires
            self.wf(),
        ensures
            b == (self.chosen().len() > 0),
    {
        self.selection.has_selection()
    }

    /// Whether the coin with this outpoint is selected.
    pub fn is_selected(&self, outpoint: &str) -> (b: bool)
        ensures
            b == self.chosen().contains(outpoint@),
    {
        self.selection.is_selected(outpoint)
    }

    /// A checkbox was ticked (`selected`) or cleared.
    pub fn set_selected(&mut self, outpoint: &str, selected: bool)
        requires
            old(self).wf(),
        ensures
            final(self).wf(),
            selected ==> final(self).chosen() == old(self).chosen().insert(outpoint@),
            !selected ==> final(self).chosen() == old(self).chosen().remove(outpoint@),
            final(self).coins() == old(self).coins(),
    {
        if selected {
            self.selection.select(outpoint);
        } else {
            self.selection.deselect(outpoint);
        }
    }

    /// "Select All".
    pub fn select_all(&mut self)
        requires
            old(self).wf(),
        ensures
            final(self).wf(),
            final(self).chosen() == old(self).chosen().union(outpoints_of(old(self).coins()).to_set()),
            final(self).coins() == old(self).coins(),
    {
        self.selection.select_all();
    }

    /// "Deselect All".
    pub fn deselect_all(&mut self)
        requires
            old(self).wf(),
        ensures
            final(self).wf(),
            final(self).chosen() == Set::<Seq<char>>::empty(),
            final(self).coins() == old(self).coins(),
    {
        self.selection.deselect_all();
    }

    /// The total amount selected, in satoshis.
    pub fn total_selected_amount(&self) -> (t: u128)
        ensures
            t == selected_sum(self.coins(), self.chosen()),
    {
        let mut t: u128 = 0;
        let mut i: usize = 0;
        let n = self.utxos.len();
        assert(self.utxos@.subrange(0, 0) =~= Seq::<OldUtxo>::empty());
        while i < n
            invariant
                n == self.utxos@.len(),
                i <= n,
                t == selected_sum(self.utxos@.subrange(0, i as int), self.chosen()),
                t <= i * 0xffff_ffff_ffff_ffffu128,
            decreases n - i,
        {
            let u = &self.utxos[i];
            proof {
                assert(self.utxos@.subrange(0, i + 1).drop_last() =~= self.utxos@.subrange(0, i as int));
                assert(i * 0xffff_ffff_ffff_ffffu128 + 0xffff_ffff_ffff_ffffu128 == (i + 1) * 0xffff_ffff_ffff_ffffu128)
                    by (nonlinear_arith);
                assert((i + 1) * 0xffff_ffff_ffff_ffffu128 <= 0xffff_ffff_ffff_ffffu128 * 0xffff_ffff_ffff_ffffu128)
                    by (nonlinear_arith)
                    requires
                        i + 1 <= 0xffff_ffff_ffff_ffffu128,
                ;
            }
            if self.selection.is_selected(u.outpoint.as_str()) {
                t = t + u.amount_sat as u128;
            }
            i = i + 1;
        }
        assert(self.utxos@.subrange(0, n as int) =~= self.utxos@);
        t
    }

    pub fn is_loading(&self) -> (b: bool)
        ensures
            b == self.loading(),
    {
        self.is_loading
    }

    pub fn error(&self) -> (e: Option<&String>)
        ensures
            match e {
                Some(t) => self.error_text() == Some(t@),
                None => self.error_text() is None,
            },
    {
        match &self.error {
            Some(t) => Some(t),
            None => None,
        }
    }

    pub fn show_recovery(&self) -> (b: bool)
        ensures
            b == self.recovery_mode(),
    {
        self.show_recovery
    }

    /// The mode picked: coins older than a year (recovery) or than six
    /// months (refresh); the coins are then reloaded.
    pub fn set_mode(&mut self, recovery: bool)
        ensures
            final(self).recovery_mode() == recovery,
            final(self).coins() == old(self).coins(),
            final(self).chosen() == old(self).chosen(),
            final(self).wf() == old(self).wf(),
    {
        self.show_recovery = recovery;
    }

    /// What is shown when there are no old coins.
    pub fn empty_message(&self) -> (s: &'static str)
        ensures
            s@ == (if self.recovery_mode() {
                "All UTXOs are less than 1 year old"@
            } else {
                "All UTXOs are less than 6 months old"@
            }),
    {
        if self.show_recovery {
            "All UTXOs are less than 1 year old"
        } else {
            "All UTXOs are less than 6 months old"
        }
    }
}

/// State of the advanced settings.
pub struct AdvancedSettingsState {
    pub current_tab: AdvancedSettingsTab,
    pub utxo_selection: UtxoSelectionViewState,
}

impl AdvancedSettingsState {
    /// The coin selection tab, nothing loaded.
    pub fn new() -> (s: Self)
        ensures
            s.current_tab == AdvancedSettingsTab::UtxoSelection,
            s.utxo_selection.wf(),
            s.utxo_selection.coins().len() == 0,
            s.utxo_selection.chosen() == Set::<Seq<char>>::empty(),
            !s.utxo_selection.loading(),
            s.utxo_selection.error_text() is None,
            !s.utxo_selection.recovery_mode(),
    {
        AdvancedSettingsState {
            current_tab: AdvancedSettingsTab::UtxoSelection,
            utxo_selection: UtxoSelectionViewState::new(),
        }
    }

    /// A tab was picked.
    pub fn select_tab(&mut self, tab: AdvancedSettingsTab)
        ensures
            final(self).current_tab == tab,
            final(self).utxo_selection == old(self).utxo_selection,
    {
        self.current_tab = tab;
    }
}

/// What is shown after "Reset PIN".
pub fn pin_reset_message(deleted: Result<(), String>) -> (s: String)
    ensures
        match deleted {
            Ok(()) => s@ == "✓ PIN has been reset. You can now use the app without PIN authentication."@,
            Err(e) => s@ == "Failed to reset PIN: "@ + e@,
        },
{
    match deleted {
        Ok(()) => String::from_str("✓ PIN has been reset. You can now use the app without PIN authentication."),
        Err(e) => concat("Failed to reset PIN: ", e.as_str()),
    }
}

} // verus!
