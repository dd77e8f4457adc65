//! The recovery flow (moving coins older than a year) and the refresh flow
//! (moving coins older than six months): their steps, the history that the
//! back button walks, the coin selection, and what each answer of the wallet
//! does to the flow.
use vstd::prelude::*;
use crate::text::{concat, int_error_text, int_error_message, parse_u32, parse_unsigned};

verus! {

/// Which old coins a selection is for.
#[derive(Debug, Clone, Copy, PartialEq, Eq, Structural)]
pub enum RecoveryMode {
    /// Coins older than one year.
    Recovery,
    /// Coins older than six months.
    Refresh,
}

/// The texts of a list of strings.
pub open spec fn texts(v: Seq<String>) -> Seq<Seq<char>> {
    v.map_values(|s: String| s@)
}

/// Old coins offered for selection (by outpoint, `txid:vout`) and the ones
/// selected.
pub struct UtxoSelectionState {
    utxos: Vec<String>,
    selected: Vec<String>,
}

impl UtxoSelectionState {
    pub closed spec fn offered(&self) -> Seq<Seq<char>> {
        texts(self.utxos@)
    }

    pub closed spec fn chosen(&self) -> Set<Seq<char>> {
        texts(self.selected@).to_set()
    }

    pub closed spec fn wf(&self) -> bool {
        texts(self.selected@).no_duplicates()
    }

    /// The coins on offer, none selected.
    pub fn new(utxos: Vec<String>) -> (c: Self)
        ensures
            c.offered() == texts(utxos@),
            c.chosen() == Set::<Seq<char>>::empty(),
            c.wf(),
    {
        let c = UtxoSelectionState { utxos, selected: Vec::new() };
        assert(texts(c.selected@).to_set() =~= Set::<Seq<char>>::empty());
        c
    }

    pub fn utxos(&self) -> (u: &Vec<String>)
        ensures
            texts(u@) == self.offered(),
    {
        &self.utxos
    }

    pub fn has_selection(&self) -> (b: bool)
        requires
            self.wf(),
        ensures
            b == (self.chosen().len() > 0),
    {
        proof {
            texts(self.selected@).unique_seq_to_set();
        }
        self.selected.len() > 0
    }

    fn position(&self, outpoint: &str) -> (r: Option<usize>)
        ensures
            match r {
                Some(i) => i < self.selected@.len() && self.selected@[i as int]@ == outpoint@,
                None => !texts(self.selected@).contains(outpoint@),
            },
    {
        let mut i: usize = 0;
        while i < self.selected.len()
            invariant
                i <= self.selected@.len(),
                forall|k: int| 0 <= k < i ==> self.selected@[k]@ != outpoint@,
            decreases self.selected@.len() - i,
        {
            if crate::text::str_eq(self.selected[i].as_str(), outpoint) {
                return Some(i);
            }
            i = i + 1;
        }
        proof {
            if texts(self.selected@).contains(outpoint@) {
                let k = choose|k: int| 0 <= k < texts(self.selected@).len() && texts(self.selected@)[k] == outpoint@;
                assert(self.selected@[k]@ == outpoint@);
            }
        }
        None
    }

    /// Whether a coin is selected.
    pub fn is_selected(&self, outpoint: &str) -> (b: bool)
        ensures
            b == self.chosen().contains(outpoint@),
    {
        let r = self.position(outpoint);
        proof {
            if let Some(i) = r {
                assert(texts(self.selected@)[i as int] == outpoint@);
            }
        }
        r.is_some()
    }

    /// Selects a coin (its checkbox ticked).
    pub fn select(&mut self, outpoint: &str)
        requires
            old(self).wf(),
        ensures
            final(self).wf(),
            final(self).chosen() == old(self).chosen().insert(outpoint@),
            final(self).offered() == old(self).offered(),
    {
        let r = self.position(outpoint);
        if r.is_none() {
            let ghost before = texts(self.selected@);
            self.selected.push(String::from_str(outpoint));
            proof {
                assert(texts(self.selected@) =~= before.push(outpoint@));
                assert forall|a: int, b: int| 0 <= a < b < texts(self.selected@).len() implies texts(
                    self.selected@,
                )[a] != texts(self.selected@)[b] by {
                    if b == before.len() {
                        assert(texts(self.selected@)[a] == before[a]);
                        assert(before.contains(before[a]));
                    }
                }
                assert forall|x: Seq<char>| #[trigger] texts(self.selected@).to_set().contains(x) <==> before.to_set().insert(outpoint@).contains(x) by {
                    if x != outpoint@ && texts(self.selected@).contains(x) {
                        let j = choose|j: int| 0 <= j < texts(self.selected@).len() && texts(self.selected@)[j] == x;
                        assert(before[j] == x);
                    }
                    if before.contains(x) {
                        let j = choose|j: int| 0 <= j < before.len() && before[j] == x;
                        assert(texts(self.selected@)[j] == x);
                    }
                    if x == outpoint@ {
                        assert(texts(self.selected@)[before.len() as int] == x);
                    }
                }
                assert(texts(self.selected@).to_set() =~= before.to_set().insert(outpoint@));
            }
        } else {
            proof {
                let i = r->Some_0;
                assert(texts(self.selected@)[i as int] == outpoint@);
                assert(self.chosen().contains(outpoint@));
                assert(self.chosen().insert(outpoint@) =~= self.chosen());
            }
        }
    }

    /// Deselects a coin (its checkbox cleared).
    pub fn deselect(&mut self, outpoint: &str)
        requires
            old(self).wf(),
        ensures
            final(self).wf(),
            final(self).chosen() == old(self).chosen().remove(outpoint@),
            final(self).offered() == old(self).offered(),
    {
        let ghost before = texts(self.selected@);
        let mut kept: Vec<String> = Vec::new();
        let mut i: usize = 0;
        while i < self.selected.len()
            invariant
                i <= self.selected@.len(),
                before == texts(self.selected@),
                before.no_duplicates(),
                texts(kept@).no_duplicates(),
                forall|x: Seq<char>| texts(kept@).contains(x) <==> (before.subrange(0, i as int).contains(x) && x != outpoint@),
            decreases self.selected@.len() - i,
        {
            let ghost old_kept = texts(kept@);
            let keep = !crate::text::str_eq(self.selected[i].as_str(), outpoint);
            if keep {
                kept.push(self.selected[i].clone());
            }
            proof {
                let sub_i = before.subrange(0, i as int);
                let x0 = before[i as int];
                assert(before.subrange(0, i + 1) =~= sub_i.push(x0));
                assert forall|x: Seq<char>| sub_i.push(x0).contains(x) <==> (sub_i.contains(x) || x == x0) by {
                    let t = sub_i.push(x0);
                    if t.contains(x) {
                        let j = choose|j: int| 0 <= j < t.len() && t[j] == x;
                        if j < sub_i.len() {
                            assert(sub_i[j] == x);
                        }
                    }
                    if sub_i.contains(x) {
                        let j = choose|j: int| 0 <= j < sub_i.len() && sub_i[j] == x;
                        assert(t[j] == x);
                    }
                    if x == x0 {
                        assert(t[sub_i.len() as int] == x);
                    }
                }
                if keep {
                    assert(texts(kept@) =~= old_kept.push(x0));
                    assert(!sub_i.contains(x0)) by {
                        if sub_i.contains(x0) {
                            let j = choose|j: int| 0 <= j < sub_i.len() && sub_i[j] == x0;
                            assert(before[j] == before[i as int]);
                        }
                    }
                    assert(!old_kept.contains(x0));
                    assert forall|a: int, b: int| 0 <= a < b < texts(kept@).len() implies texts(kept@)[a] != texts(kept@)[b] by {
                        if b == old_kept.len() {
                            assert(old_kept.contains(old_kept[a]));
                        }
                    }
                    assert forall|x: Seq<char>| texts(kept@).contains(x) <==> (old_kept.contains(x) || x == x0) by {
                        let t = texts(kept@);
                        if t.contains(x) {
                            let j = choose|j: int| 0 <= j < t.len() && t[j] == x;
                            if j < old_kept.len() {
                                assert(old_kept[j] == x);
                            }
                        }
                        if old_kept.contains(x) {
                            let j = choose|j: int| 0 <= j < old_kept.len() && old_kept[j] == x;
                            assert(t[j] == x);
                        }
                        if x == x0 {
                            assert(t[old_kept.len() as int] == x);
                        }
                    }
                } else {
                    assert(texts(kept@) =~= old_kept);
                }
                assert(x0 == self.selected@[i as int]@);
                assert(keep == (x0 != outpoint@));
                assert forall|x: Seq<char>| texts(kept@).contains(x) <==> (before.subrange(0, i + 1).contains(x) && x != outpoint@) by {
                    assert(old_kept.contains(x) <==> (sub_i.contains(x) && x != outpoint@));
                }
            }
            i = i + 1;
        }
        proof {
            assert(before.subrange(0, before.len() as int) =~= before);
            assert(texts(kept@).to_set() =~= before.to_set().remove(outpoint@));
        }
        self.selected = kept;
    }

    /// Selects every coin on offer.
    pub fn select_all(&mut self)
        requires
            old(self).wf(),
        ensures
            final(self).wf(),
            final(self).chosen() == old(self).chosen().union(old(self).offered().to_set()),
            final(self).offered() == old(self).offered(),
    {
        let ghost start = self.chosen();
        let n = self.utxos.len();
        assert(self.offered().len() == self.utxos@.len());
        let mut i: usize = 0;
        while i < n
            invariant
                n == self.offered().len(),
                i <= n,
                self.wf(),
                self.offered() == old(self).offered(),
                self.chosen() == start.union(self.offered().subrange(0, i as int).to_set()),
            decreases n - i,
        {
            assert(self.offered().len() == self.utxos@.len());
            let op = self.utxos[i].clone();
            assert(self.offered()[i as int] == op@);
            let ghost before = self.chosen();
            self.select(op.as_str());
            proof {
                let sub = self.offered().subrange(0, i + 1);
                let sub_i = self.offered().subrange(0, i as int);
                assert(sub =~= sub_i.push(op@));
                assert(sub.to_set() =~= sub_i.to_set().insert(op@)) by {
                    assert forall|x: Seq<char>| sub.to_set().contains(x) <==> sub_i.to_set().insert(op@).contains(x) by {
                        if sub.contains(x) {
                            let j = choose|j: int| 0 <= j < sub.len() && sub[j] == x;
                            if j < sub_i.len() {
                                assert(sub_i[j] == x);
                            }
                        }
                        if sub_i.contains(x) {
                            let j = choose|j: int| 0 <= j < sub_i.len() && sub_i[j] == x;
                            assert(sub[j] == x);
                        }
                        if x == op@ {
                            assert(sub[i as int] == x);
                        }
                    }
                }
                assert(self.chosen() =~= start.union(sub.to_set()));
            }
            i = i + 1;
        }
        assert(self.offered().subrange(0, n as int) =~= self.offered());
    }

    /// Clears the selection.
    pub fn deselect_all(&mut self)
        ensures
            final(self).wf(),
            final(self).chosen() == Set::<Seq<char>>::empty(),
            final(self).offered() == old(self).offered(),
    {
        self.selected = Vec::new();
        assert(texts(self.selected@).to_set() =~= Set::<Seq<char>>::empty());
    }

    /// The selected outpoints, each once (their order is not meaningful).
    pub fn selected_outpoints(&self) -> (v: Vec<String>)
        requires
            self.wf(),
        ensures
            texts(v@).no_duplicates(),
            texts(v@).to_set() == self.chosen(),
    {
        let mut v: Vec<String> = Vec::new();
        let mut i: usize = 0;
        while i < self.selected.len()
            invariant
                i <= self.selected@.len(),
                v@.len() == i,
                forall|k: int| 0 <= k < i ==> #[trigger] v@[k]@ == self.selected@[k]@,
            decreases self.selected@.len() - i,
        {
            let item = self.selected[i].clone();
            v.push(item);
            i = i + 1;
        }
        assert forall|k: int| 0 <= k < texts(v@).len() implies texts(v@)[k] == texts(self.selected@)[k] by {
            assert(v@[k]@ == self.selected@[k]@);
        }
        assert(texts(v@) =~= texts(self.selected@));
        v
    }
}

/// The answer of the wallet to a request, or that there is no loaded wallet
/// to ask.
pub enum Fetched<T> {
    Ready(T),
    Failed(String),
    Unavailable,
}

pub open spec fn unavailable_message() -> Seq<char> {
    "Vault not loaded or runtime not available"@
}

// ---------------------------------------------------------------------------
// Recovery flow
// ---------------------------------------------------------------------------

/// Steps of the recovery flow.
#[derive(Debug, Clone, Copy, PartialEq, Eq, Structural)]
pub enum RecoveryStep {
    LoadingUtxos,
    SelectingUtxos,
    BuildingPreview,
    PreviewReady,
    Signing,
    Sharing,
    Error,
}

/// The recovery flow as a value.
pub struct RecoveryModel {
    pub step: RecoveryStep,
    pub history: Seq<RecoveryStep>,
    pub has_selection_list: bool,
    pub selected_utxos: Seq<Seq<char>>,
    pub psbt: Seq<char>,
    pub recipient: Seq<char>,
    pub compressed_psbt: Seq<char>,
    pub error: Option<Seq<char>>,
}

/// Moving to another step remembers the current one; moving to the step
/// shown changes nothing.
pub open spec fn recovery_advance(m: RecoveryModel, step: RecoveryStep) -> RecoveryModel {
    if step != m.step {
        RecoveryModel { step, history: m.history.push(m.step), ..m }
    } else {
        m
    }
}

/// Going back shows the remembered step; the flag says whether there was one.
pub open spec fn recovery_back(m: RecoveryModel) -> (bool, RecoveryModel) {
    if m.history.len() > 0 {
        (true, RecoveryModel { step: m.history.last(), history: m.history.drop_last(), ..m })
    } else {
        (false, m)
    }
}

/// A failure shows its message on the error step.
pub open spec fn recovery_fail(m: RecoveryModel, message: Seq<char>) -> RecoveryModel {
    recovery_advance(RecoveryModel { error: Some(message), ..m }, RecoveryStep::Error)
}

/// State of the recovery flow.
pub struct RecoveryState {
    current_step: RecoveryStep,
    step_history: Vec<RecoveryStep>,
    selection: Option<UtxoSelectionState>,
    selected_utxos: Vec<String>,
    psbt_base64: String,
    recipient: String,
    compressed_psbt: String,
    error: Option<String>,
}

pub open spec fn opt_text(o: Option<String>) -> Option<Seq<char>> {
    match o {
        Some(s) => Some(s@),
        None => None,
    }
}

impl RecoveryState {
    pub closed spec fn model(&self) -> RecoveryModel {
        RecoveryModel {
            step: self.current_step,
            history: self.step_history@,
            has_selection_list: self.selection is Some,
            selected_utxos: texts(self.selected_utxos@),
            psbt: self.psbt_base64@,
            recipient: self.recipient@,
            compressed_psbt: self.compressed_psbt@,
            error: opt_text(self.error),
        }
    }

    pub closed spec fn wf(&self) -> bool {
        self.selection matches Some(c) ==> c.wf()
    }

    /// The coin selection, once the coins are loaded.
    pub closed spec fn choice(&self) -> Option<UtxoSelectionState> {
        self.selection
    }

    pub fn new() -> (s: Self)
        ensures
            s.wf(),
            s.model() == (RecoveryModel {
                step: RecoveryStep::LoadingUtxos,
                history: Seq::empty(),
                has_selection_list: false,
                selected_utxos: Seq::empty(),
                psbt: Seq::empty(),
                recipient: Seq::empty(),
                compressed_psbt: Seq::empty(),
                error: None,
            }),
    {
        let s = RecoveryState {
            current_step: RecoveryStep::LoadingUtxos,
            step_history: Vec::new(),
            selection: None,
            selected_utxos: Vec::new(),
            psbt_base64: String::new(),
            recipient: String::new(),
            compressed_psbt: String::new(),
            error: None,
        };
        assert(texts(s.selected_utxos@) =~= Seq::<Seq<char>>::empty());
        s
    }

    pub fn current_step(&self) -> (s: RecoveryStep)
        ensures
            s == self.model().step,
    {
        self.current_step
    }

    pub fn error(&self) -> (e: Option<&String>)
        ensures
            match e {
                Some(s) => self.model().error == Some(s@),
                None => self.model().error is None,
            },
    {
        self.error.as_ref()
    }

    pub fn compressed_psbt(&self) -> (p: &String)
        ensures
            p@ == self.model().compressed_psbt,
    {
        &self.compressed_psbt
    }

    pub fn selected_utxos(&self) -> (v: &Vec<String>)
        ensures
            texts(v@) == self.model().selected_utxos,
    {
        &self.selected_utxos
    }

    /// The coin selection shown on the selection step.
    pub fn selection_mut(&mut self) -> (c: Option<&mut UtxoSelectionState>)
        ensures
            c is Some == old(self).choice() is Some,
    {
        self.selection.as_mut()
    }

    /// Moves to another step of the flow.
    pub fn advance_to_step(&mut self, step: RecoveryStep)
        ensures
            final(self).model() == recovery_advance(old(self).model(), step),
            final(self).choice() == old(self).choice(),
    {
        if step != self.current_step {
            self.step_history.push(self.current_step);
            self.current_step = step;
        }
    }

    /// Goes back to the previous step; false at the first step.
    pub fn go_to_previous_step(&mut self) -> (moved: bool)
        ensures
            (moved, final(self).model()) == recovery_back(old(self).model()),
            final(self).choice() == old(self).choice(),
    {
        match self.step_history.pop() {
            Some(previous) => {
                self.current_step = previous;
                true
            },
            None => false,
        }
    }

    pub fn can_go_back_in_workflow(&self) -> (b: bool)
        ensures
            b == (self.model().history.len() > 0),
    {
        self.step_history.len() > 0
    }

    fn fail(&mut self, message: String)
        ensures
            final(self).model() == recovery_fail(old(self).model(), message@),
            final(self).choice() == old(self).choice(),
    {
        self.error = Some(message);
        self.advance_to_step(RecoveryStep::Error);
    }

    /// The old coins were loaded (or could not be).
    pub fn on_utxos_loaded(&mut self, loaded: Fetched<Vec<String>>)
        requires
            old(self).wf(),
        ensures
            final(self).wf(),
            match loaded {
                Fetched::Ready(u) => {
                    &&& final(self).model() == recovery_advance(
                        RecoveryModel { has_selection_list: true, ..old(self).model() },
                        RecoveryStep::SelectingUtxos,
                    )
                    &&& final(self).choice() matches Some(c)
                    &&& final(self).choice()->Some_0.offered() == texts(u@)
                    &&& final(self).choice()->Some_0.chosen() == Set::<Seq<char>>::empty()
                },
                Fetched::Failed(e) => final(self).model() == recovery_fail(
                    old(self).model(),
                    "Failed to load UTXOs: "@ + e@,
                ) && final(self).choice() == old(self).choice(),
                Fetched::Unavailable => final(self).model() == recovery_fail(
                    old(self).model(),
                    unavailable_message(),
                ) && final(self).choice() == old(self).choice(),
            },
    {
        match loaded {
            Fetched::Ready(utxos) => {
                self.selection = Some(UtxoSelectionState::new(utxos));
                self.advance_to_step(RecoveryStep::SelectingUtxos);
            },
            Fetched::Failed(e) => {
                self.fail(concat("Failed to load UTXOs: ", e.as_str()));
            },
            Fetched::Unavailable => {
                self.fail(String::from_str("Vault not loaded or runtime not available"));
            },
        }
    }

    /// Cancel on the selection step: back to the previous step; true when
    /// there is none and the flow is to be left.
    pub fn cancel_selection(&mut self) -> (leave: bool)
        ensures
            (!leave, final(self).model()) == recovery_back(old(self).model()),
            final(self).choice() == old(self).choice(),
    {
        !self.go_to_previous_step()
    }

    /// Continue on the selection step: with coins selected, they are kept for
    /// the transaction and the preview is built next. False (and nothing
    /// changes) without a selection.
    pub fn continue_with_selection(&mut self) -> (moved: bool)
        requires
            old(self).wf(),
        ensures
            final(self).wf(),
            final(self).choice() == old(self).choice(),
            moved == (old(self).choice() matches Some(c) && c.chosen().len() > 0),
            !moved ==> final(self).model() == old(self).model(),
            moved ==> {
                &&& final(self).model().selected_utxos.no_duplicates()
                &&& final(self).model().selected_utxos.to_set() == old(self).choice()->Some_0.chosen()
                &&& final(self).model() == recovery_advance(
                    RecoveryModel {
                        selected_utxos: final(self).model().selected_utxos,
                        ..old(self).model()
                    },
                    RecoveryStep::BuildingPreview,
                )
            },
    {
        let picked = match &self.selection {
            Some(c) => {
                if c.has_selection() {
                    Some(c.selected_outpoints())
                } else {
                    None
                }
            },
            None => None,
        };
        match picked {
            Some(v) => {
                self.selected_utxos = v;
                self.advance_to_step(RecoveryStep::BuildingPreview);
                true
            },
            None => false,
        }
    }

    /// Checks before building the preview: a loaded wallet and a readable,
    /// non-empty receive address (`address` is `Err` when the cached data
    /// could not be read). Hands out the recipient when the preview is to be
    /// built from the selected coins (all coins when none are kept).
    pub fn request_preview(&mut self, wallet_ready: bool, address: Result<Option<String>, ()>) -> (recipient: Option<String>)
        ensures
            final(self).choice() == old(self).choice(),
            !wallet_ready ==> (recipient is None && final(self).model() == recovery_fail(
                old(self).model(),
                unavailable_message(),
            )),
            wallet_ready ==> match address {
                Err(_) => recipient is None && final(self).model() == recovery_fail(
                    old(self).model(),
                    "Error: Mutex poisoned"@,
                ),
                Ok(None) => recipient is None && final(self).model() == recovery_fail(
                    old(self).model(),
                    "No recipient address available"@,
                ),
                Ok(Some(a)) => if a@.len() == 0 {
                    recipient is None && final(self).model() == recovery_fail(
                        old(self).model(),
                        "No recipient address available"@,
                    )
                } else {
                    recipient matches Some(r) && r@ == a@ && final(self).model() == old(
                        self,
                    ).model()
                },
            },
    {
        if !wallet_ready {
            self.fail(String::from_str("Vault not loaded or runtime not available"));
            return None;
        }
        match address {
            Err(()) => {
                self.fail(String::from_str("Error: Mutex poisoned"));
                None
            },
            Ok(None) => {
                self.fail(String::from_str("No recipient address available"));
                None
            },
            Ok(Some(a)) => {
                if a.unicode_len() == 0 {
                    self.fail(String::from_str("No recipient address available"));
                    None
                } else {
                    Some(a)
                }
            },
        }
    }

    /// The preview was built (its PSBT in base64) for `recipient`, or failed.
    pub fn on_preview_built(&mut self, recipient: String, built: Result<String, String>)
        ensures
            final(self).choice() == old(self).choice(),
            match built {
                Ok(psbt) => final(self).model() == recovery_advance(
                    RecoveryModel { psbt: psbt@, recipient: recipient@, ..old(self).model() },
                    RecoveryStep::PreviewReady,
                ),
                Err(e) => final(self).model() == recovery_fail(
                    old(self).model(),
                    "Failed to build preview: "@ + e@,
                ),
            },
    {
        match built {
            Ok(psbt) => {
                self.psbt_base64 = psbt;
                self.recipient = recipient;
                self.advance_to_step(RecoveryStep::PreviewReady);
            },
            Err(e) => {
                self.fail(concat("Failed to build preview: ", e.as_str()));
            },
        }
    }

    /// Sign & Share on the preview: the recipient becomes the receive
    /// address (empty when unknown) and signing comes next.
    pub fn sign_requested(&mut self, address: Result<Option<String>, ()>)
        ensures
            final(self).choice() == old(self).choice(),
            match address {
                Ok(a) => final(self).model() == recovery_advance(
                    RecoveryModel {
                        recipient: match a {
                            Some(x) => x@,
                            None => Seq::empty(),
                        },
                        ..old(self).model()
                    },
                    RecoveryStep::Signing,
                ),
                Err(_) => final(self).model() == recovery_fail(
                    old(self).model(),
                    "Error: Mutex poisoned"@,
                ),
            },
    {
        match address {
            Ok(a) => {
                self.recipient = match a {
                    Some(x) => x,
                    None => String::new(),
                };
                self.advance_to_step(RecoveryStep::Signing);
            },
            Err(()) => {
                self.fail(String::from_str("Error: Mutex poisoned"));
            },
        }
    }

    /// Checks before signing; hands out the PSBT and the recipient to sign
    /// for when the wallet is loaded.
    pub fn request_signing(&mut self, wallet_ready: bool) -> (job: Option<(String, String)>)
        ensures
            final(self).choice() == old(self).choice(),
            wallet_ready ==> (job matches Some((p, r)) && p@ == old(self).model().psbt && r@ == old(
                self,
            ).model().recipient && final(self).model() == old(self).model()),
            !wallet_ready ==> (job is None && final(self).model() == recovery_fail(
                old(self).model(),
                unavailable_message(),
            )),
    {
        if wallet_ready {
            Some((self.psbt_base64.clone(), self.recipient.clone()))
        } else {
            self.fail(String::from_str("Vault not loaded or runtime not available"));
            None
        }
    }

    /// The transaction was signed and compressed for sharing, or failed.
    pub fn on_signed(&mut self, signed: Result<String, String>)
        ensures
            final(self).choice() == old(self).choice(),
            match signed {
                Ok(c) => final(self).model() == recovery_advance(
                    RecoveryModel { compressed_psbt: c@, ..old(self).model() },
                    RecoveryStep::Sharing,
                ),
                Err(e) => final(self).model() == recovery_fail(
                    old(self).model(),
                    "Failed to sign and share: "@ + e@,
                ),
            },
    {
        match signed {
            Ok(c) => {
                self.compressed_psbt = c;
                self.advance_to_step(RecoveryStep::Sharing);
            },
            Err(e) => {
                self.fail(concat("Failed to sign and share: ", e.as_str()));
            },
        }
    }
}

/// Whether the back button can move within the recovery flow.
pub fn can_go_back_in_recovery_workflow(state: &RecoveryState) -> (b: bool)
    ensures
        b == (state.model().history.len() > 0),
{
    state.can_go_back_in_workflow()
}

/// Moves the recovery flow one step back; false at its first step.
pub fn go_back_in_recovery_workflow(state: &mut RecoveryState) -> (moved: bool)
    ensures
        (moved, final(state).model()) == recovery_back(old(state).model()),
        final(state).choice() == old(state).choice(),
{
    state.go_to_previous_step()
}

/// Going back right after moving to a new step returns to the step and the
/// history as they were.
pub proof fn lemma_recovery_back_undoes_advance(m: RecoveryModel, step: RecoveryStep)
    requires
        step != m.step,
    ensures
        recovery_back(recovery_advance(m, step)) == (true, m),
{
    assert(m.history.push(m.step).drop_last() =~= m.history);
}

/// A failure always ends on the error step with its message, and the back
/// button then returns to the step where it happened (unless it happened on
/// the error step itself).
pub proof fn lemma_recovery_failure_is_undoable(m: RecoveryModel, message: Seq<char>)
    requires
        m.step != RecoveryStep::Error,
    ensures
        recovery_fail(m, message).step == RecoveryStep::Error,
        recovery_fail(m, message).error == Some(message),
        recovery_back(recovery_fail(m, message)).1.step == m.step,
        recovery_back(recovery_fail(m, message)).1.history == m.history,
{
    assert(m.history.push(m.step).drop_last() =~= m.history);
}

// ---------------------------------------------------------------------------
// Refresh flow
// ---------------------------------------------------------------------------

/// Steps of the refresh flow.
#[derive(Debug, Clone, Copy, PartialEq, Eq, Structural)]
pub enum UtxoRefreshStep {
    LoadingUtxos,
    SelectingUtxos,
    Signing,
    Sharing,
    Error,
}

/// The refresh flow as a value.
pub struct RefreshModel {
    pub step: UtxoRefreshStep,
    pub history: Seq<UtxoRefreshStep>,
    pub has_selection_list: bool,
    pub psbt: Seq<char>,
    pub compressed_psbt: Seq<char>,
    pub error: Option<Seq<char>>,
}

pub open spec fn refresh_advance(m: RefreshModel, step: UtxoRefreshStep) -> RefreshModel {
    if step != m.step {
        RefreshModel { step, history: m.history.push(m.step), ..m }
    } else {
        m
    }
}

pub open spec fn refresh_back(m: RefreshModel) -> (bool, RefreshModel) {
    if m.history.len() > 0 {
        (true, RefreshModel { step: m.history.last(), history: m.history.drop_last(), ..m })
    } else {
        (false, m)
    }
}

pub open spec fn refresh_fail(m: RefreshModel, message: Seq<char>) -> RefreshModel {
    refresh_advance(RefreshModel { error: Some(message), ..m }, UtxoRefreshStep::Error)
}

/// The text before and after the only `:` of an outpoint, when it has
/// exactly one (`str::split(':')` giving two parts).
pub open spec fn colon_split(s: Seq<char>) -> Option<(Seq<char>, Seq<char>)> {
    if exists|i: int| 0 <= i < s.len() && s[i] == ':' && (forall|j: int| 0 <= j < s.len() && s[j] == ':' ==> j == i) {
        let i = choose|i: int| 0 <= i < s.len() && s[i] == ':' && (forall|j: int| 0 <= j < s.len() && s[j] == ':' ==> j == i);
        Some((s.subrange(0, i), s.subrange(i + 1, s.len() as int)))
    } else {
        None
    }
}

/// What `bitcoin::Txid` parsing gives for a text: success, or the error's
/// message.
pub uninterp spec fn txid_parse(s: Seq<char>) -> Result<(), Seq<char>>;

/// The error an outpoint text gives, if any: a format error without exactly
/// one colon, else the transaction id's error, else the output index's error.
pub open spec fn outpoint_error(s: Seq<char>) -> Option<Seq<char>> {
    match colon_split(s) {
        None => Some("Invalid outpoint format: "@ + s),
        Some((txid, vout)) => match txid_parse(txid) {
            Err(e) => Some("Invalid txid: "@ + e),
            Ok(_) => match parse_unsigned(vout, u32::MAX as nat) {
                Err(k) => Some("Invalid vout: "@ + int_error_text(k)),
                Ok(_) => None,
            },
        },
    }
}

/// The first error among outpoints, in order.
pub open spec fn first_outpoint_error(list: Seq<Seq<char>>) -> Option<Seq<char>>
    decreases list.len(),
{
    if list.len() == 0 {
        None
    } else {
        match outpoint_error(list[0]) {
            Some(e) => Some(e),
            None => first_outpoint_error(list.drop_first()),
        }
    }
}

/// A hexadecimal digit, either case.
pub open spec fn is_hex_digit(c: char) -> bool {
    ('0' <= c && c <= '9') || ('a' <= c && c <= 'f') || ('A' <= c && c <= 'F')
}

/// Sixty-four hexadecimal digits: the text of a transaction id.
pub open spec fn is_txid_text(s: Seq<char>) -> bool {
    s.len() == 64 && forall|i: int| 0 <= i < s.len() ==> is_hex_digit(#[trigger] s[i])
}

/// `bdk::bitcoin::Txid::from_str` (the `bitcoin` crate as `bdk` re-exports it): whether a text is a transaction id, with the
/// error's message otherwise; the result is named by `txid_parse`. The
/// source (a hex parse into 32 bytes) accepts exactly the texts of sixty-four
/// hexadecimal digits; the error's wording is left to the name.
#[verifier::external_body]
fn check_txid(s: &str) -> (r: Result<(), String>)
    ensures
        match r {
            Ok(_) => txid_parse(s@) is Ok,
            Err(e) => txid_parse(s@) == Err::<(), Seq<char>>(e@),
        },
        r is Ok <==> is_txid_text(s@),
{
    match <bdk::bitcoin::Txid as std::str::FromStr>::from_str(s) {
        Ok(_) => Ok(()),
        Err(e) => Err(e.to_string()),
    }
}

/// Splits an outpoint at its only colon.
pub fn split_outpoint(s: &str) -> (r: Option<(String, String)>)
    ensures
        match r {
            Some((a, b)) => colon_split(s@) == Some((a@, b@)),
            None => colon_split(s@) is None,
        },
{
    let n = s.unicode_len();
    let mut first: Option<usize> = None;
    let mut count: usize = 0;
    let mut i: usize = 0;
    while i < n
        invariant
            n == s@.len(),
            i <= n,
            count <= i,
            count == 0 ==> first is None && forall|j: int| 0 <= j < i ==> s@[j] != ':',
            count >= 1 ==> (first matches Some(f) && f < i && s@[f as int] == ':' && forall|j: int| 0 <= j < f ==> s@[j] != ':'),
            count == 1 ==> forall|j: int| 0 <= j < i && s@[j] == ':' ==> j == first->Some_0,
            count >= 2 ==> exists|j: int| 0 <= j < i && s@[j] == ':' && j != first->Some_0,
        decreases n - i,
    {
        if s.get_char(i) == ':' {
            if count == 0 {
                first = Some(i);
            }
            count = count + 1;
        }
        i = i + 1;
    }
    if count == 1 {
        let f = first.unwrap();
        let a = String::from_str(s.substring_char(0, f));
        let b = String::from_str(s.substring_char(f + 1, n));
        proof {
            assert(s@[f as int] == ':' && (forall|j: int| 0 <= j < s@.len() && s@[j] == ':' ==> j == f));
            let c = choose|c: int| 0 <= c < s@.len() && s@[c] == ':' && (forall|j: int| 0 <= j < s@.len() && s@[j] == ':' ==> j == c);
            assert(c == f);
        }
        Some((a, b))
    } else {
        proof {
            if exists|c: int| 0 <= c < s@.len() && s@[c] == ':' && (forall|j: int| 0 <= j < s@.len() && s@[j] == ':' ==> j == c) {
                let c = choose|c: int| 0 <= c < s@.len() && s@[c] == ':' && (forall|j: int| 0 <= j < s@.len() && s@[j] == ':' ==> j == c);
                if count >= 2 {
                    let j = choose|j: int| 0 <= j < i && s@[j] == ':' && j != first->Some_0;
                    assert(j == c);
                    assert(first->Some_0 == c);
                }
            }
        }
        None
    }
}

/// Checks one outpoint; the error's message when it is malformed.
pub fn check_outpoint(s: &str) -> (r: Option<String>)
    ensures
        match r {
            Some(e) => outpoint_error(s@) == Some(e@),
            None => outpoint_error(s@) is None,
        },
        colon_split(s@) matches Some((t, _)) ==> (txid_parse(t) is Ok <==> is_txid_text(t)),
{
    match split_outpoint(s) {
        None => Some(concat("Invalid outpoint format: ", s)),
        Some((txid, vout)) => match check_txid(txid.as_str()) {
            Err(e) => Some(concat("Invalid txid: ", e.as_str())),
            Ok(()) => match parse_u32(vout.as_str()) {
                Err(k) => Some(concat("Invalid vout: ", int_error_message(k))),
                Ok(_) => None,
            },
        },
    }
}

/// The first malformed outpoint's error, in the order given.
pub fn check_outpoints(list: &Vec<String>) -> (r: Option<String>)
    ensures
        match r {
            Some(e) => first_outpoint_error(texts(list@)) == Some(e@),
            None => first_outpoint_error(texts(list@)) is None,
        },
{
    let n = list.len();
    let mut i: usize = 0;
    assert(texts(list@).subrange(0, n as int) =~= texts(list@));
    while i < n
        invariant
            n == list@.len(),
            i <= n,
            first_outpoint_error(texts(list@)) == first_outpoint_error(texts(list@).subrange(i as int, n as int)),
        decreases n - i,
    {
        proof {
            let sub = texts(list@).subrange(i as int, n as int);
            assert(sub[0] == list@[i as int]@);
            assert(sub.drop_first() =~= texts(list@).subrange(i + 1, n as int));
        }
        match check_outpoint(list[i].as_str()) {
            Some(e) => {
                return Some(e);
            },
            None => {},
        }
        i = i + 1;
    }
    assert(texts(list@).subrange(n as int, n as int) =~= Seq::<Seq<char>>::empty());
    None
}

/// State of the refresh flow.
pub struct UtxoRefreshState {
    current_step: UtxoRefreshStep,
    step_history: Vec<UtxoRefreshStep>,
    selection: Option<UtxoSelectionState>,
    psbt_base64: String,
    compressed_psbt: String,
    error: Option<String>,
}

/// What building the refresh transaction needs: the coins to spend and the
/// vault's own address, where the coins go.
pub struct RefreshJob {
    pub address: String,
    pub utxos: Vec<String>,
}

impl UtxoRefreshState {
    pub closed spec fn model(&self) -> RefreshModel {
        RefreshModel {
            step: self.current_step,
            history: self.step_history@,
            has_selection_list: self.selection is Some,
            psbt: self.psbt_base64@,
            compressed_psbt: self.compressed_psbt@,
            error: opt_text(self.error),
        }
    }

    pub closed spec fn wf(&self) -> bool {
        self.selection matches Some(c) ==> c.wf()
    }

    pub closed spec fn choice(&self) -> Option<UtxoSelectionState> {
        self.selection
    }

    pub fn new() -> (s: Self)
        ensures
            s.wf(),
            s.model() == (RefreshModel {
                step: UtxoRefreshStep::LoadingUtxos,
                history: Seq::empty(),
                has_selection_list: false,
                psbt: Seq::empty(),
                compressed_psbt: Seq::empty(),
                error: None,
            }),
    {
        UtxoRefreshState {
            current_step: UtxoRefreshStep::LoadingUtxos,
            step_history: Vec::new(),
            selection: None,
            psbt_base64: String::new(),
            compressed_psbt: String::new(),
            error: None,
        }
    }

    pub fn current_step(&self) -> (s: UtxoRefreshStep)
        ensures
            s == self.model().step,
    {
        self.current_step
    }

    pub fn error(&self) -> (e: Option<&String>)
        ensures
            match e {
                Some(s) => self.model().error == Some(s@),
                None => self.model().error is None,
            },
    {
        self.error.as_ref()
    }

    pub fn compressed_psbt(&self) -> (p: &String)
        ensures
            p@ == self.model().compressed_psbt,
    {
        &self.compressed_psbt
    }

    pub fn selection_mut(&mut self) -> (c: Option<&mut UtxoSelectionState>)
        ensures
            c is Some == old(self).choice() is Some,
    {
        self.selection.as_mut()
    }

    pub fn advance_to_step(&mut self, step: UtxoRefreshStep)
        ensures
            final(self).model() == refresh_advance(old(self).model(), step),
            final(self).choice() == old(self).choice(),
    {
        if step != self.current_step {
            self.step_history.push(self.current_step);
            self.current_step = step;
        }
    }

    pub fn go_to_previous_step(&mut self) -> (moved: bool)
        ensures
            (moved, final(self).model()) == refresh_back(old(self).model()),
            final(self).choice() == old(self).choice(),
    {
        match self.step_history.pop() {
            Some(previous) => {
                self.current_step = previous;
                true
            },
            None => false,
        }
    }

    pub fn can_go_back_in_workflow(&self) -> (b: bool)
        ensures
            b == (self.model().history.len() > 0),
    {
        self.step_history.len() > 0
    }

    fn fail(&mut self, message: String)
        ensures
            final(self).model() == refresh_fail(old(self).model(), message@),
            final(self).choice() == old(self).choice(),
    {
        self.error = Some(message);
        self.advance_to_step(UtxoRefreshStep::Error);
    }

    /// The old coins were loaded (or could not be).
    pub fn on_utxos_loaded(&mut self, loaded: Fetched<Vec<String>>)
        requires
            old(self).wf(),
        ensures
            final(self).wf(),
            match loaded {
                Fetched::Ready(u) => {
                    &&& final(self).model() == refresh_advance(
                        RefreshModel { has_selection_list: true, ..old(self).model() },
                        UtxoRefreshStep::SelectingUtxos,
                    )
                    &&& final(self).choice() matches Some(c)
                    &&& final(self).choice()->Some_0.offered() == texts(u@)
                    &&& final(self).choice()->Some_0.chosen() == Set::<Seq<char>>::empty()
                },
                Fetched::Failed(e) => final(self).model() == refresh_fail(
                    old(self).model(),
                    "Failed to load UTXOs: "@ + e@,
                ) && final(self).choice() == old(self).choice(),
                Fetched::Unavailable => final(self).model() == refresh_fail(
                    old(self).model(),
                    unavailable_message(),
                ) && final(self).choice() == old(self).choice(),
            },
    {
        match loaded {
            Fetched::Ready(utxos) => {
                self.selection = Some(UtxoSelectionState::new(utxos));
                self.advance_to_step(UtxoRefreshStep::SelectingUtxos);
            },
            Fetched::Failed(e) => {
                self.fail(concat("Failed to load UTXOs: ", e.as_str()));
            },
            Fetched::Unavailable => {
                self.fail(String::from_str("Vault not loaded or runtime not available"));
            },
        }
    }

    /// Cancel on the selection step; true when the flow is to be left.
    pub fn cancel_selection(&mut self) -> (leave: bool)
        ensures
            (!leave, final(self).model()) == refresh_back(old(self).model()),
            final(self).choice() == old(self).choice(),
    {
        !self.go_to_previous_step()
    }

    /// Continue on the selection step (only offered with coins selected):
    /// checks the wallet, the vault's address and every selected outpoint,
    /// and hands out what the refresh transaction is built from.
    pub fn request_refresh(&mut self, wallet_ready: bool, address: Result<Option<String>, ()>) -> (job: Option<RefreshJob>)
        requires
            old(self).wf(),
        ensures
            final(self).wf(),
            final(self).choice() == old(self).choice(),
            !wallet_ready ==> (job is None && final(self).model() == refresh_fail(
                old(self).model(),
                unavailable_message(),
            )),
            wallet_ready ==> match address {
                Err(_) => job is None && final(self).model() == refresh_fail(
                    old(self).model(),
                    "Failed to get vault address"@,
                ),
                Ok(None) => job is None && final(self).model() == refresh_fail(
                    old(self).model(),
                    "Vault address not available"@,
                ),
                Ok(Some(a)) => if a@.len() == 0 {
                    job is None && final(self).model() == refresh_fail(
                        old(self).model(),
                        "Vault address not available"@,
                    )
                } else if old(self).choice() is None {
                    job is None && final(self).model() == refresh_fail(
                        old(self).model(),
                        "No UTXOs selected"@,
                    )
                } else {
                    match job {
                        Some(j) => {
                            &&& a@ == j.address@
                            &&& texts(j.utxos@).no_duplicates()
                            &&& texts(j.utxos@).to_set() == old(self).choice()->Some_0.chosen()
                            &&& first_outpoint_error(texts(j.utxos@)) is None
                            &&& final(self).model() == old(self).model()
                        },
                        None => exists|v: Seq<Seq<char>>| #![trigger first_outpoint_error(v)] {
                            &&& v.no_duplicates()
                            &&& v.to_set() == old(self).choice()->Some_0.chosen()
                            &&& first_outpoint_error(v) is Some
                            &&& final(self).model() == refresh_fail(
                                old(self).model(),
                                first_outpoint_error(v)->Some_0,
                            )
                        },
                    }
                },
            },
    {
        if !wallet_ready {
            self.fail(String::from_str("Vault not loaded or runtime not available"));
            return None;
        }
        let address = match address {
            Err(()) => {
                self.fail(String::from_str("Failed to get vault address"));
                return None;
            },
            Ok(None) => {
                self.fail(String::from_str("Vault address not available"));
                return None;
            },
            Ok(Some(a)) => a,
        };
        if address.unicode_len() == 0 {
            self.fail(String::from_str("Vault address not available"));
            return None;
        }
        let utxos = match &self.selection {
            Some(c) => c.selected_outpoints(),
            None => {
                self.fail(String::from_str("No UTXOs selected"));
                return None;
            },
        };
        match check_outpoints(&utxos) {
            Some(e) => {
                self.fail(e);
                None
            },
            None => Some(RefreshJob { address, utxos }),
        }
    }

    /// The refresh transaction was built (its PSBT in base64), or failed.
    pub fn on_refresh_built(&mut self, built: Result<String, String>)
        ensures
            final(self).choice() == old(self).choice(),
            match built {
                Ok(psbt) => final(self).model() == refresh_advance(
                    RefreshModel { psbt: psbt@, ..old(self).model() },
                    UtxoRefreshStep::Signing,
                ),
                Err(e) => final(self).model() == refresh_fail(
                    old(self).model(),
                    "Failed to build refresh transaction: "@ + e@,
                ),
            },
    {
        match built {
            Ok(psbt) => {
                self.psbt_base64 = psbt;
                self.advance_to_step(UtxoRefreshStep::Signing);
            },
            Err(e) => {
                self.fail(concat("Failed to build refresh transaction: ", e.as_str()));
            },
        }
    }

    /// Checks before signing: a loaded wallet and the vault's address, which
    /// receives the coins. Hands out the PSBT and the address.
    pub fn request_signing(&mut self, wallet_ready: bool, address: Result<Option<String>, ()>) -> (job: Option<(String, String)>)
        ensures
            final(self).choice() == old(self).choice(),
            !wallet_ready ==> (job is None && final(self).model() == refresh_fail(
                old(self).model(),
                unavailable_message(),
            )),
            wallet_ready ==> match address {
                Err(_) => job is None && final(self).model() == refresh_fail(
                    old(self).model(),
                    "Failed to get vault address"@,
                ),
                Ok(None) => job is None && final(self).model() == refresh_fail(
                    old(self).model(),
                    "Vault address not available"@,
                ),
                Ok(Some(a)) => if a@.len() == 0 {
                    job is None && final(self).model() == refresh_fail(
                        old(self).model(),
                        "Vault address not available"@,
                    )
                } else {
                    job matches Some((p, r)) && p@ == old(self).model().psbt && r@ == a@
                        && final(self).model() == old(self).model()
                },
            },
    {
        if !wallet_ready {
            self.fail(String::from_str("Vault not loaded or runtime not available"));
            return None;
        }
        match address {
            Err(()) => {
                self.fail(String::from_str("Failed to get vault address"));
                None
            },
            Ok(None) => {
                self.fail(String::from_str("Vault address not available"));
                None
            },
            Ok(Some(a)) => {
                if a.unicode_len() == 0 {
                    self.fail(String::from_str("Vault address not available"));
                    None
                } else {
                    Some((self.psbt_base64.clone(), a))
                }
            },
        }
    }

    /// The refresh transaction was signed and compressed, or failed.
    pub fn on_signed(&mut self, signed: Result<String, String>)
        ensures
            final(self).choice() == old(self).choice(),
            match signed {
                Ok(c) => final(self).model() == refresh_advance(
                    RefreshModel { compressed_psbt: c@, ..old(self).model() },
                    UtxoRefreshStep::Sharing,
                ),
                Err(e) => final(self).model() == refresh_fail(
                    old(self).model(),
                    "Failed to sign refresh transaction: "@ + e@,
                ),
            },
    {
        match signed {
            Ok(c) => {
                self.compressed_psbt = c;
                self.advance_to_step(UtxoRefreshStep::Sharing);
            },
            Err(e) => {
                self.fail(concat("Failed to sign refresh transaction: ", e.as_str()));
            },
        }
    }
}

/// Whether the back button can move within the refresh flow.
pub fn can_go_back_in_utxo_refresh_workflow(state: &UtxoRefreshState) -> (b: bool)
    ensures
        b == (state.model().history.len() > 0),
{
    state.can_go_back_in_workflow()
}

/// Moves the refresh flow one step back; false at its first step.
pub fn go_back_in_utxo_refresh_workflow(state: &mut UtxoRefreshState) -> (moved: bool)
    ensures
        (moved, final(state).model()) == refresh_back(old(state).model()),
        final(state).choice() == old(state).choice(),
{
    state.go_to_previous_step()
}

/// Going back right after moving to a new step of the refresh flow returns
/// to the step and the history as they were.
pub proof fn lemma_refresh_back_undoes_advance(m: RefreshModel, step: UtxoRefreshStep)
    requires
        step != m.step,
    ensures
        refresh_back(refresh_advance(m, step)) == (true, m),
{
    assert(m.history.push(m.step).drop_last() =~= m.history);
}

} // verus!
