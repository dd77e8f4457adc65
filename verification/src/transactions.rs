//! Transactions: the history filtered by status, when it reloads, the
//! detail of one transaction and the cancellation (by fee replacement) of a
//! pending outgoing one.
use vstd::prelude::*;
use crate::biometrics::BiometricType;
use crate::components::BadgeStyle;
use crate::pin::PinVerificationState;
use crate::recovery::{Fetched, unavailable_message};
use crate::text::{concat, str_eq};

verus! {

/// Status of a transaction.
#[derive(Debug, Clone, Copy, PartialEq, Eq, Structural)]
pub enum TransactionStatus {
    Pending,
    Sent,
    Received,
}

/// The status's name as the wallet words it.
pub open spec fn status_name(s: TransactionStatus) -> Seq<char> {
    match s {
        TransactionStatus::Pending => "pending"@,
        TransactionStatus::Sent => "sent"@,
        TransactionStatus::Received => "received"@,
    }
}

impl TransactionStatus {
    pub fn as_str(&self) -> (s: &'static str)
        ensures
            s@ == status_name(*self),
    {
        match self {
            TransactionStatus::Pending => "pending",
            TransactionStatus::Sent => "sent",
            TransactionStatus::Received => "received",
        }
    }
}

/// A transaction of the vault.
#[derive(Debug, Clone)]
pub struct TransactionInfo {
    pub tx_id: String,
    pub status: TransactionStatus,
    /// When it was made, in seconds since the Unix epoch (0 while unknown).
    pub timestamp: i64,
    pub address: String,
    pub amount_received_sat: u64,
    pub amount_sent_sat: u64,
    pub fee_sat: Option<u64>,
    /// Coins leave this vault in it.
    pub outgoing: bool,
    pub locktime: u32,
    pub execution_date: i64,
    pub description: Option<String>,
}

impl TransactionInfo {
    /// A copy of this transaction.
    pub fn duplicate(&self) -> (t: Self)
        ensures
            t == *self,
    {
        TransactionInfo {
            tx_id: self.tx_id.clone(),
            status: self.status,
            timestamp: self.timestamp,
            address: self.address.clone(),
            amount_received_sat: self.amount_received_sat,
            amount_sent_sat: self.amount_sent_sat,
            fee_sat: self.fee_sat,
            outgoing: self.outgoing,
            locktime: self.locktime,
            execution_date: self.execution_date,
            description: match &self.description {
                Some(d) => Some(d.clone()),
                None => None,
            },
        }
    }
}

/// The tabs of the history.
#[derive(Debug, Clone, Copy, PartialEq, Eq, Structural)]
pub enum TransactionFilter {
    Pending,
    Sent,
    Received,
}

/// The status a tab shows.
pub open spec fn filter_status(f: TransactionFilter) -> TransactionStatus {
    match f {
        TransactionFilter::Pending => TransactionStatus::Pending,
        TransactionFilter::Sent => TransactionStatus::Sent,
        TransactionFilter::Received => TransactionStatus::Received,
    }
}

impl TransactionFilter {
    /// The tabs, in the order shown.
    pub fn all() -> (v: Vec<Self>)
        ensures
            v@ == seq![TransactionFilter::Pending, TransactionFilter::Sent, TransactionFilter::Received],
    {
        vec![TransactionFilter::Pending, TransactionFilter::Sent, TransactionFilter::Received]
    }

    /// The tab's title.
    pub fn title(&self) -> (s: &'static str)
        ensures
            s@ == (match *self {
                TransactionFilter::Pending => "Pending"@,
                TransactionFilter::Sent => "Sent"@,
                TransactionFilter::Received => "Received"@,
            }),
    {
        match self {
            TransactionFilter::Pending => "Pending",
            TransactionFilter::Sent => "Sent",
            TransactionFilter::Received => "Received",
        }
    }

    /// Whether the tab shows a transaction: its status is the tab's.
    pub fn matches(&self, tx: &TransactionInfo) -> (b: bool)
        ensures
            b == (tx.status == filter_status(*self)),
    {
        match self {
            TransactionFilter::Pending => tx.status == TransactionStatus::Pending,
            TransactionFilter::Sent => tx.status == TransactionStatus::Sent,
            TransactionFilter::Received => tx.status == TransactionStatus::Received,
        }
    }
}

/// The transactions a tab shows, in their order.
pub open spec fn filtered(txs: Seq<TransactionInfo>, f: TransactionFilter) -> Seq<TransactionInfo> {
    txs.filter(|t: TransactionInfo| t.status == filter_status(f))
}

/// The transactions a tab shows.
pub fn apply_filter(txs: &Vec<TransactionInfo>, f: TransactionFilter) -> (r: Vec<TransactionInfo>)
    ensures
        r@ == filtered(txs@, f),
{
    let ghost pred = |t: TransactionInfo| t.status == filter_status(f);
    let mut r: Vec<TransactionInfo> = Vec::new();
    assert(txs@.subrange(0, 0).filter(pred) =~= Seq::<TransactionInfo>::empty()) by {
        reveal(Seq::filter);
    }
    let mut i: usize = 0;
    while i < txs.len()
        invariant
            i <= txs@.len(),
            pred == (|t: TransactionInfo| t.status == filter_status(f)),
            r@ == txs@.subrange(0, i as int).filter(pred),
        decreases txs@.len() - i,
    {
        let t = &txs[i];
        proof {
            txs@.subrange(0, i as int).lemma_filter_push(*t, pred);
            assert(txs@.subrange(0, i + 1) =~= txs@.subrange(0, i as int).push(*t));
        }
        if f.matches(t) {
            r.push(t.duplicate());
        }
        i = i + 1;
    }
    assert(txs@.subrange(0, txs@.len() as int) =~= txs@);
    r
}

/// The badge of a transaction on the dashboard: pending as a warning, sent
/// as money leaving, received as a success.
pub open spec fn status_badge_of(s: TransactionStatus) -> (Seq<char>, BadgeStyle) {
    match s {
        TransactionStatus::Pending => ("Pending"@, BadgeStyle::Warning),
        TransactionStatus::Sent => ("Sent"@, BadgeStyle::Error),
        TransactionStatus::Received => ("Received"@, BadgeStyle::Success),
    }
}

/// The badge of a transaction on the dashboard.
pub fn status_badge(s: TransactionStatus) -> (b: (&'static str, BadgeStyle))
    ensures
        (b.0@, b.1) == status_badge_of(s),
{
    match s {
        TransactionStatus::Pending => ("Pending", BadgeStyle::Warning),
        TransactionStatus::Sent => ("Sent", BadgeStyle::Error),
        TransactionStatus::Received => ("Received", BadgeStyle::Success),
    }
}

/// How many transactions the dashboard lists before "View All
/// Transactions" is offered.
pub const RECENT_COUNT: usize = 5;

/// The transactions the dashboard lists: the first five.
pub fn recent_transactions(txs: &Vec<TransactionInfo>) -> (r: Vec<TransactionInfo>)
    ensures
        r@ == txs@.take(if txs@.len() < 5 { txs@.len() as int } else { 5 }),
{
    let n = if txs.len() < RECENT_COUNT { txs.len() } else { RECENT_COUNT };
    let mut r: Vec<TransactionInfo> = Vec::new();
    let mut i: usize = 0;
    while i < n
        invariant
            n <= txs@.len(),
            n == (if txs@.len() < 5 { txs@.len() as int } else { 5 }),
            i <= n,
            r@ == txs@.take(i as int),
        decreases n - i,
    {
        r.push(txs[i].duplicate());
        assert(r@ =~= txs@.take(i + 1));
        i = i + 1;
    }
    r
}

/// "View All Transactions" is offered when there are more than the dashboard
/// lists.
pub fn offers_view_all(count: usize) -> (b: bool)
    ensures
        b == (count > RECENT_COUNT),
{
    count > RECENT_COUNT
}

/// Milliseconds after which the history shown is reloaded.
pub const HISTORY_MAX_AGE_MS: u64 = 30000;

pub open spec fn opt_text(o: Option<String>) -> Option<Seq<char>> {
    match o {
        Some(s) => Some(s@),
        None => None,
    }
}

/// State of the transaction history.
pub struct TransactionHistoryState {
    pub transactions: Vec<TransactionInfo>,
    pub filtered_transactions: Vec<TransactionInfo>,
    pub current_filter: TransactionFilter,
    pub is_loading: bool,
    pub error: Option<String>,
    /// When the history was last loaded, in milliseconds.
    pub last_refresh: Option<u64>,
}

impl TransactionHistoryState {
    /// Nothing loaded; the pending tab.
    pub fn new() -> (s: Self)
        ensures
            s.transactions@.len() == 0,
            s.filtered_transactions@.len() == 0,
            s.current_filter == TransactionFilter::Pending,
            !s.is_loading,
            s.error is None,
            s.last_refresh is None,
    {
        TransactionHistoryState {
            transactions: Vec::new(),
            filtered_transactions: Vec::new(),
            current_filter: TransactionFilter::Pending,
            is_loading: false,
            error: None,
            last_refresh: None,
        }
    }

    /// Shows the transactions of the current tab.
    pub fn apply_filter(&mut self)
        ensures
            final(self).filtered_transactions@ == filtered(old(self).transactions@, old(self).current_filter),
            final(self).transactions@ == old(self).transactions@,
            final(self).current_filter == old(self).current_filter,
            final(self).is_loading == old(self).is_loading,
            final(self).error == old(self).error,
            final(self).last_refresh == old(self).last_refresh,
    {
        self.filtered_transactions = apply_filter(&self.transactions, self.current_filter);
    }

    /// A tab was picked.
    pub fn select_filter(&mut self, f: TransactionFilter)
        ensures
            final(self).current_filter == f,
            final(self).filtered_transactions@ == filtered(old(self).transactions@, f),
            final(self).transactions@ == old(self).transactions@,
    {
        self.current_filter = f;
        self.apply_filter();
    }

    /// Whether the history should be reloaded at time `now` (milliseconds):
    /// it never was, or more than thirty seconds ago.
    pub fn needs_refresh(&self, now: u64) -> (b: bool)
        ensures
            b == (match self.last_refresh {
                Some(t) => now >= t && now - t > HISTORY_MAX_AGE_MS,
                None => true,
            }),
    {
        match self.last_refresh {
            Some(t) => now >= t && now - t > HISTORY_MAX_AGE_MS,
            None => true,
        }
    }

    /// A reload starts, unless one is under way.
    pub fn begin_refresh(&mut self) -> (start: bool)
        ensures
            start == !old(self).is_loading,
            final(self).is_loading,
            start ==> final(self).error is None,
            !start ==> final(self).error == old(self).error,
            final(self).transactions@ == old(self).transactions@,
    {
        if self.is_loading {
            return false;
        }
        self.is_loading = true;
        self.error = None;
        true
    }

    /// The transactions loaded at time `now`, or why they could not be.
    pub fn finish_refresh(&mut self, loaded: Fetched<Vec<TransactionInfo>>, now: u64)
        ensures
            !final(self).is_loading,
            match loaded {
                Fetched::Ready(v) => final(self).transactions@ == v@ && final(self).filtered_transactions@
                    == filtered(v@, old(self).current_filter) && final(self).last_refresh == Some(now)
                    && final(self).error == old(self).error,
                Fetched::Failed(e) => opt_text(final(self).error) == Some("Failed to load transactions: "@ + e@)
                    && final(self).transactions@ == old(self).transactions@,
                Fetched::Unavailable => opt_text(final(self).error) == Some(unavailable_message())
                    && final(self).transactions@ == old(self).transactions@,
            },
            final(self).current_filter == old(self).current_filter,
    {
        match loaded {
            Fetched::Ready(v) => {
                self.transactions = v;
                self.apply_filter();
                self.last_refresh = Some(now);
                self.is_loading = false;
            },
            Fetched::Failed(e) => {
                self.error = Some(concat("Failed to load transactions: ", e.as_str()));
                self.is_loading = false;
            },
            Fetched::Unavailable => {
                self.error = Some(String::from_str("Vault not loaded or runtime not available"));
                self.is_loading = false;
            },
        }
    }
}

/// State of the screen of one transaction.
pub struct TransactionDetailState {
    pub current_txid: Option<String>,
    pub transaction: Option<TransactionInfo>,
    pub is_loading: bool,
    pub error: Option<String>,
    pub is_cancelling: bool,
    pub cancel_error: Option<String>,
    pub cancel_success: bool,
    pub pin_verification: PinVerificationState,
}

/// A transaction can be cancelled while it is pending and outgoing.
pub open spec fn cancellable(tx: TransactionInfo) -> bool {
    tx.status == TransactionStatus::Pending && tx.outgoing
}

/// Only a transaction that is still pending and sends coins out of the
/// vault can be cancelled (replaced by fee): never one that is received,
/// nor one already sent or confirmed.
pub proof fn lemma_only_pending_outgoing_cancellable(tx: TransactionInfo)
    ensures
        !tx.outgoing ==> !cancellable(tx),
        tx.status != TransactionStatus::Pending ==> !cancellable(tx),
        tx.status == TransactionStatus::Pending && tx.outgoing ==> cancellable(tx),
{
}

impl TransactionDetailState {
    pub fn new(biometric_available: bool, biometric_type: BiometricType) -> (s: Self)
        ensures
            s.current_txid is None,
            s.transaction is None,
            !s.is_loading,
            s.error is None,
            !s.is_cancelling,
            s.cancel_error is None,
            !s.cancel_success,
            !s.pin_verification.is_ok(),
    {
        TransactionDetailState {
            current_txid: None,
            transaction: None,
            is_loading: false,
            error: None,
            is_cancelling: false,
            cancel_error: None,
            cancel_success: false,
            pin_verification: PinVerificationState::new(biometric_available, biometric_type),
        }
    }

    /// The screen is shown for `txid`: for another transaction than the last
    /// one everything is forgotten. The answer is whether the transaction
    /// should be loaded (none shown, none loading).
    pub fn open(&mut self, txid: &str) -> (load: bool)
        ensures
            opt_text(final(self).current_txid) == Some(txid@),
            opt_text(old(self).current_txid) != Some(txid@) ==> {
                &&& final(self).transaction is None
                &&& final(self).error is None
                &&& !final(self).is_loading
                &&& !final(self).is_cancelling
                &&& final(self).cancel_error is None
                &&& !final(self).cancel_success
            },
            opt_text(old(self).current_txid) == Some(txid@) ==> final(self).transaction == old(self).transaction
                && final(self).is_loading == old(self).is_loading && final(self).error == old(self).error,
            load == (final(self).transaction is None && !final(self).is_loading),
    {
        let same = match &self.current_txid {
            Some(id) => str_eq(id.as_str(), txid),
            None => false,
        };
        if !same {
            self.current_txid = Some(String::from_str(txid));
            self.transaction = None;
            self.error = None;
            self.is_loading = false;
            self.is_cancelling = false;
            self.cancel_error = None;
            self.cancel_success = false;
        }
        self.transaction.is_none() && !self.is_loading
    }

    /// The transaction as loaded, or why it is not shown.
    pub fn finish_load(&mut self, loaded: Fetched<Option<TransactionInfo>>)
        ensures
            !final(self).is_loading,
            match loaded {
                Fetched::Ready(Some(t)) => final(self).transaction == Some(t) && final(self).error is None,
                Fetched::Ready(None) => opt_text(final(self).error) == Some("Transaction not found"@)
                    && final(self).transaction == old(self).transaction,
                Fetched::Failed(e) => opt_text(final(self).error) == Some("Failed to load transaction: "@ + e@)
                    && final(self).transaction == old(self).transaction,
                Fetched::Unavailable => opt_text(final(self).error) == Some(unavailable_message())
                    && final(self).transaction == old(self).transaction,
            },
    {
        self.is_loading = true;
        self.error = None;
        match loaded {
            Fetched::Ready(Some(t)) => {
                self.transaction = Some(t);
                self.is_loading = false;
            },
            Fetched::Ready(None) => {
                self.error = Some(String::from_str("Transaction not found"));
                self.is_loading = false;
            },
            Fetched::Failed(e) => {
                self.error = Some(concat("Failed to load transaction: ", e.as_str()));
                self.is_loading = false;
            },
            Fetched::Unavailable => {
                self.error = Some(String::from_str("Vault not loaded or runtime not available"));
                self.is_loading = false;
            },
        }
    }

    /// Whether the cancel section is shown.
    pub fn can_cancel(&self) -> (b: bool)
        ensures
            b == (self.transaction matches Some(t) && cancellable(t)),
            b ==> (self.transaction matches Some(t) && t.status == TransactionStatus::Pending && t.outgoing),
            (self.transaction matches Some(t) && !t.outgoing) ==> !b,
            (self.transaction matches Some(t) && t.status != TransactionStatus::Pending) ==> !b,
    {
        match &self.transaction {
            Some(t) => t.status == TransactionStatus::Pending && t.outgoing,
            None => false,
        }
    }

    /// "Cancel Transaction (RBF)": with a PIN set and not yet verified the
    /// PIN dialog opens and nothing else happens; otherwise the cancellation
    /// starts.
    pub fn begin_cancel(&mut self, pin_set: bool) -> (start: bool)
        ensures
            start == !(pin_set && !old(self).pin_verification.is_ok()),
            !start && !old(self).pin_verification.visible() ==> final(self).pin_verification.visible(),
            !start ==> final(self).is_cancelling == old(self).is_cancelling,
            start ==> final(self).is_cancelling && final(self).cancel_error is None && !final(self).cancel_success,
            final(self).transaction == old(self).transaction,
    {
        if pin_set && !self.pin_verification.is_verified() {
            if !self.pin_verification.is_visible() {
                self.pin_verification.show();
            }
            return false;
        }
        self.is_cancelling = true;
        self.cancel_error = None;
        self.cancel_success = false;
        true
    }

    /// What came of the cancellation. On success the transaction is
    /// reloaded; the PIN must then be verified again.
    pub fn finish_cancel(&mut self, sent: Fetched<()>)
        ensures
            !final(self).is_cancelling,
            match sent {
                Fetched::Ready(()) => final(self).cancel_success && final(self).transaction is None
                    && !final(self).is_loading && !final(self).pin_verification.is_ok(),
                Fetched::Failed(e) => opt_text(final(self).cancel_error) == Some(
                    "Failed to cancel transaction: "@ + e@,
                ) && !final(self).pin_verification.is_ok() && final(self).transaction == old(self).transaction,
                Fetched::Unavailable => opt_text(final(self).cancel_error) == Some(unavailable_message())
                    && final(self).transaction == old(self).transaction,
            },
    {
        match sent {
            Fetched::Ready(()) => {
                self.cancel_success = true;
                self.is_cancelling = false;
                self.transaction = None;
                self.is_loading = false;
                self.pin_verification.reset();
            },
            Fetched::Failed(e) => {
                self.cancel_error = Some(concat("Failed to cancel transaction: ", e.as_str()));
                self.is_cancelling = false;
                self.pin_verification.reset();
            },
            Fetched::Unavailable => {
                self.cancel_error = Some(String::from_str("Vault not loaded or runtime not available"));
                self.is_cancelling = false;
            },
        }
    }

    /// "Refresh Status": the transaction is loaded again.
    pub fn refresh_status(&mut self)
        ensures
            final(self).transaction is None,
            !final(self).is_loading,
            final(self).current_txid == old(self).current_txid,
    {
        self.transaction = None;
        self.is_loading = false;
    }
}

} // verus!
