//! Notifications: the notification center's list made from the vault's
//! transactions (newest first), and the desktop notifications' switch and
//! texts.
use vstd::prelude::*;
use vstd::multiset::Multiset;
use crate::recovery::{Fetched, unavailable_message};
use crate::text::concat;
use crate::transactions::{TransactionInfo, TransactionStatus};
use crate::utc::{utc_text, utc_timestamp_text};
use crate::vault_data::{btc_text, format_btc};

verus! {

/// Kind of a notification.
#[derive(Debug, Clone, Copy, PartialEq, Eq, Structural)]
pub enum NotificationType {
    Transaction,
    Alert,
    Info,
}

/// An entry of the notification center.
#[derive(Debug, Clone)]
pub struct Notification {
    pub id: String,
    pub title: String,
    pub body: String,
    /// When it happened, in seconds since the Unix epoch.
    pub created_at: i64,
    pub expires_at: Option<i64>,
    pub notification_type: NotificationType,
}

/// The title of a transaction's notification.
pub open spec fn transaction_title(s: TransactionStatus) -> Seq<char> {
    match s {
        TransactionStatus::Pending => "Transaction Pending"@,
        TransactionStatus::Sent => "Transaction Sent"@,
        TransactionStatus::Received => "Transaction Received"@,
    }
}

/// The amount part of a transaction's notification.
pub open spec fn amount_line(received: u64, sent: u64) -> Seq<char> {
    if received > 0 {
        "Received "@ + btc_text(received as nat)
    } else if sent > 0 {
        "Sent "@ + btc_text(sent as nat)
    } else {
        "Amount: 0 BTC"@
    }
}

/// When a transaction's notification happened: the transaction's time,
/// or `now` when `chrono` cannot date that time.
pub open spec fn notification_time(timestamp: i64, now: i64) -> i64 {
    if utc_text(timestamp) is Some {
        timestamp
    } else {
        now
    }
}

/// The notification of a transaction, made at time `now`.
pub open spec fn notification_of(tx: TransactionInfo, now: i64) -> (Seq<char>, Seq<char>, Seq<char>, i64) {
    (
        tx.tx_id@,
        transaction_title(tx.status),
        amount_line(tx.amount_received_sat, tx.amount_sent_sat) + " - "@ + tx.tx_id@,
        notification_time(tx.timestamp, now),
    )
}

/// The view of a notification: id, title, body and time.
pub open spec fn notification_view(n: Notification) -> (Seq<char>, Seq<char>, Seq<char>, i64) {
    (n.id@, n.title@, n.body@, n.created_at)
}

/// The notification of a transaction, made at time `now` (seconds since
/// the Unix epoch).
pub fn notification_for(tx: &TransactionInfo, now: i64) -> (n: Notification)
    ensures
        notification_view(n) == notification_of(*tx, now),
        n.expires_at is None,
        n.notification_type == NotificationType::Transaction,
{
    let title = match tx.status {
        TransactionStatus::Pending => "Transaction Pending",
        TransactionStatus::Sent => "Transaction Sent",
        TransactionStatus::Received => "Transaction Received",
    };
    let mut body = if tx.amount_received_sat > 0 {
        concat("Received ", format_btc(tx.amount_received_sat).as_str())
    } else if tx.amount_sent_sat > 0 {
        concat("Sent ", format_btc(tx.amount_sent_sat).as_str())
    } else {
        String::from_str("Amount: 0 BTC")
    };
    body.append(" - ");
    body.append(tx.tx_id.as_str());
    let created_at = if utc_timestamp_text(tx.timestamp).is_some() {
        tx.timestamp
    } else {
        now
    };
    Notification {
        id: tx.tx_id.clone(),
        title: String::from_str(title),
        body,
        created_at,
        expires_at: None,
        notification_type: NotificationType::Transaction,
    }
}

/// The notifications are ordered newest first.
pub open spec fn newest_first(s: Seq<Notification>) -> bool {
    forall|i: int, j: int| 0 <= i < j < s.len() ==> (#[trigger] s[i]).created_at >= (#[trigger] s[j]).created_at
}

proof fn lemma_insert_multiset(s: Seq<Notification>, k: int, x: Notification)
    requires
        0 <= k <= s.len(),
    ensures
        s.insert(k, x).to_multiset() == s.to_multiset().insert(x),
{
    broadcast use vstd::seq_lib::group_to_multiset_ensures;
    let a = s.subrange(0, k);
    let b = s.subrange(k, s.len() as int);
    assert(s.insert(k, x) =~= a.push(x) + b);
    assert(s =~= a + b);
    vstd::seq_lib::lemma_multiset_commutative(a.push(x), b);
    vstd::seq_lib::lemma_multiset_commutative(a, b);
}

/// The notifications made at time `t`, in their order.
pub open spec fn at_time(s: Seq<Notification>, t: i64) -> Seq<Notification> {
    s.filter(time_is(t))
}

pub open spec fn time_is(t: i64) -> spec_fn(Notification) -> bool {
    |n: Notification| n.created_at == t
}

proof fn lemma_none_at_time(b: Seq<Notification>, t: i64)
    requires
        forall|i: int| 0 <= i < b.len() ==> (#[trigger] b[i]).created_at < t,
    ensures
        at_time(b, t) == Seq::<Notification>::empty(),
    decreases b.len(),
{
    if b.len() == 0 {
        assert(b.filter(time_is(t)) =~= Seq::<Notification>::empty()) by {
            reveal(Seq::filter);
        }
    } else {
        let c = b.drop_last();
        assert forall|i: int| 0 <= i < c.len() implies (#[trigger] c[i]).created_at < t by {
            assert(c[i] == b[i]);
        }
        lemma_none_at_time(c, t);
        assert(b =~= c.push(b.last()));
        c.lemma_filter_push(b.last(), time_is(t));
    }
}

/// Inserting a notification after all those at least as new, and before
/// the older ones, adds it at the end of those of its own time and leaves
/// the others as they were.
proof fn lemma_insert_at_time(s: Seq<Notification>, k: int, x: Notification, t: i64)
    requires
        0 <= k <= s.len(),
        newest_first(s),
        forall|i: int| 0 <= i < k ==> (#[trigger] s[i]).created_at >= x.created_at,
        k < s.len() ==> s[k].created_at < x.created_at,
    ensures
        at_time(s.insert(k, x), t) == (if x.created_at == t {
            at_time(s, t).push(x)
        } else {
            at_time(s, t)
        }),
{
    let p = time_is(t);
    let a = s.subrange(0, k);
    let b = s.subrange(k, s.len() as int);
    let one = Seq::<Notification>::empty().push(x);
    assert(s.insert(k, x) =~= (a + one) + b);
    assert(s =~= a + b);
    Seq::filter_distributes_over_add(a + one, b, p);
    Seq::filter_distributes_over_add(a, one, p);
    Seq::filter_distributes_over_add(a, b, p);
    Seq::<Notification>::empty().lemma_filter_push(x, p);
    assert(Seq::<Notification>::empty().filter(p) =~= Seq::<Notification>::empty()) by {
        reveal(Seq::filter);
    }
    if x.created_at == t {
        assert forall|i: int| 0 <= i < b.len() implies (#[trigger] b[i]).created_at < t by {
            assert(b[i] == s[k + i]);
            assert(s[k].created_at >= s[k + i].created_at);
        }
        lemma_none_at_time(b, t);
        assert(at_time(s.insert(k, x), t) =~= at_time(s, t).push(x));
    } else {
        assert(one.filter(p) =~= Seq::<Notification>::empty());
        assert(at_time(s.insert(k, x), t) =~= at_time(s, t));
    }
}

/// Orders notifications newest first; among those of the same time, the
/// earlier stays earlier.
pub fn sort_newest_first(v: Vec<Notification>) -> (r: Vec<Notification>)
    ensures
        newest_first(r@),
        r@.to_multiset() == v@.to_multiset(),
        forall|t: i64| #[trigger] at_time(r@, t) == at_time(v@, t),
{
    let mut r: Vec<Notification> = Vec::new();
    let mut rest = v;
    let ghost original = rest@;
    let n = rest.len();
    // move the items to a stack, so that they come off it in their order
    let mut items: Vec<Notification> = Vec::new();
    proof {
        broadcast use vstd::seq_lib::group_to_multiset_ensures;
        assert(items@.to_multiset() =~= Multiset::empty());
        assert(items@.to_multiset().add(rest@.to_multiset()) =~= original.to_multiset());
    }
    assert(rest@ =~= original.take(n as int));
    while rest.len() > 0
        invariant
            rest@.len() + items@.len() == n,
            original.len() == n,
            original == v@,
            rest@ == original.take(rest@.len() as int),
            forall|i: int| 0 <= i < items@.len() ==> #[trigger] items@[i] == original[n - 1 - i],
            items@.to_multiset().add(rest@.to_multiset()) == original.to_multiset(),
        decreases rest@.len(),
    {
        let ghost before_rest = rest@;
        let x = rest.pop().unwrap();
        items.push(x);
        proof {
            broadcast use vstd::seq_lib::group_to_multiset_ensures;
            assert(before_rest =~= rest@.push(x));
            assert(rest@ =~= original.take(rest@.len() as int));
        }
    }
    proof {
        broadcast use vstd::seq_lib::group_to_multiset_ensures;
        assert(rest@.to_multiset() =~= Multiset::empty());
    }
    assert(r@.to_multiset() =~= Multiset::empty()) by {
        broadcast use vstd::seq_lib::group_to_multiset_ensures;
    }
    assert forall|t: i64| #[trigger] at_time(r@, t) == at_time(original.take(n - items@.len()), t) by {
        assert(original.take(0) =~= Seq::<Notification>::empty());
        assert(r@ =~= Seq::<Notification>::empty());
        assert(Seq::<Notification>::empty().filter(time_is(t)) =~= Seq::<Notification>::empty()) by {
            reveal(Seq::filter);
        }
    }
    while items.len() > 0
        invariant
            newest_first(r@),
            r@.to_multiset().add(items@.to_multiset()) == original.to_multiset(),
            original.len() == n,
            original == v@,
            items@.len() <= n,
            forall|i: int| 0 <= i < items@.len() ==> #[trigger] items@[i] == original[n - 1 - i],
            forall|t: i64| #[trigger] at_time(r@, t) == at_time(original.take(n - items@.len()), t),
        decreases items@.len(),
    {
        let ghost before_items = items@;
        let ghost m = items@.len();
        let x = items.pop().unwrap();
        proof {
            broadcast use vstd::seq_lib::group_to_multiset_ensures;
            assert(before_items =~= items@.push(x));
            assert(x == before_items[m - 1]);
            assert(x == original[n - m]);
        }
        let mut k: usize = 0;
        while k < r.len() && r[k].created_at >= x.created_at
            invariant
                k <= r@.len(),
                forall|t: int| 0 <= t < k ==> (#[trigger] r@[t]).created_at >= x.created_at,
            decreases r@.len() - k,
        {
            k = k + 1;
        }
        let ghost before_r = r@;
        proof {
            lemma_insert_multiset(before_r, k as int, x);
        }
        r.insert(k, x);
        proof {
            assert(r@ == before_r.insert(k as int, x));
            let done = original.take(n - m);
            assert(original.take(n - m + 1) =~= done.push(x));
            assert forall|t: i64| #[trigger] at_time(r@, t) == at_time(original.take(n - items@.len()), t) by {
                lemma_insert_at_time(before_r, k as int, x, t);
                done.lemma_filter_push(x, time_is(t));
            }
            assert forall|i: int, j: int| 0 <= i < j < r@.len() implies (#[trigger] r@[i]).created_at >= (
            #[trigger] r@[j]).created_at by {
                if j < k {
                    assert(r@[i] == before_r[i]);
                    assert(r@[j] == before_r[j]);
                } else if j == k {
                    assert(r@[i] == before_r[i]);
                } else if i == k {
                    assert(r@[j] == before_r[j - 1]);
                    assert(before_r[j - 1].created_at < x.created_at || k >= before_r.len());
                } else if i < k {
                    assert(r@[i] == before_r[i]);
                    assert(r@[j] == before_r[j - 1]);
                } else {
                    assert(r@[i] == before_r[i - 1]);
                    assert(r@[j] == before_r[j - 1]);
                }
            }
        }
    }
    proof {
        broadcast use vstd::seq_lib::group_to_multiset_ensures;
        assert(items@.to_multiset() =~= Multiset::empty());
        assert(r@.to_multiset().add(Multiset::empty()) =~= r@.to_multiset());
        assert(original.take(n as int) =~= original);
    }
    r
}

pub open spec fn opt_text(o: Option<String>) -> Option<Seq<char>> {
    match o {
        Some(s) => Some(s@),
        None => None,
    }
}

/// State of the notification center.
pub struct NotificationCenterState {
    pub notifications: Vec<Notification>,
    pub is_loading: bool,
    pub error: Option<String>,
    /// When the notifications were last fetched, in seconds since the Unix
    /// epoch.
    pub last_fetch: Option<i64>,
}

impl NotificationCenterState {
    pub fn new() -> (s: Self)
        ensures
            s.notifications@.len() == 0,
            !s.is_loading,
            s.error is None,
            s.last_fetch is None,
    {
        NotificationCenterState { notifications: Vec::new(), is_loading: false, error: None, last_fetch: None }
    }

    /// Forgets everything.
    pub fn reset(&mut self)
        ensures
            final(self).notifications@.len() == 0,
            !final(self).is_loading,
            final(self).error is None,
            final(self).last_fetch is None,
    {
        *self = NotificationCenterState::new();
    }

    /// The vault's transactions as fetched at time `now` (seconds), or why
    /// they could not be: each becomes a notification, newest first.
    pub fn finish_fetch(&mut self, fetched: Fetched<Vec<TransactionInfo>>, now: i64)
        ensures
            !final(self).is_loading,
            match fetched {
                Fetched::Ready(txs) => {
                    &&& newest_first(final(self).notifications@)
                    &&& final(self).notifications@.map_values(|n: Notification| notification_view(n)).to_multiset()
                        == txs@.map_values(|t: TransactionInfo| notification_of(t, now)).to_multiset()
                    &&& final(self).last_fetch == Some(now)
                    &&& final(self).error is None
                },
                Fetched::Failed(e) => opt_text(final(self).error) == Some("Failed to fetch notifications: "@ + e@)
                    && final(self).notifications@ == old(self).notifications@,
                Fetched::Unavailable => opt_text(final(self).error) == Some(unavailable_message())
                    && final(self).notifications@ == old(self).notifications@,
            },
    {
        self.is_loading = true;
        self.error = None;
        match fetched {
            Fetched::Ready(txs) => {
                let mut made: Vec<Notification> = Vec::new();
                let mut i: usize = 0;
                while i < txs.len()
                    invariant
                        i <= txs@.len(),
                        made@.len() == i,
                        forall|k: int| 0 <= k < i ==> notification_view(#[trigger] made@[k]) == notification_of(txs@[k], now),
                    decreases txs@.len() - i,
                {
                    made.push(notification_for(&txs[i], now));
                    i = i + 1;
                }
                let sorted = sort_newest_first(made);
                proof {
                    let f = |n: Notification| notification_view(n);
                    let g = |t: TransactionInfo| notification_of(t, now);
                    assert(made@.map_values(f) =~= txs@.map_values(g));
                    lemma_map_multiset(sorted@, made@, f);
                }
                self.notifications = sorted;
                self.last_fetch = Some(now);
            },
            Fetched::Failed(e) => {
                self.error = Some(concat("Failed to fetch notifications: ", e.as_str()));
            },
            Fetched::Unavailable => {
                self.error = Some(String::from_str("Vault not loaded or runtime not available"));
            },
        }
        self.is_loading = false;
    }
}

/// Two sequences with the same items map to sequences with the same items.
proof fn lemma_map_multiset<A, B>(a: Seq<A>, b: Seq<A>, f: spec_fn(A) -> B)
    requires
        a.to_multiset() == b.to_multiset(),
    ensures
        a.map_values(f).to_multiset() == b.map_values(f).to_multiset(),
    decreases a.len(),
{
    broadcast use vstd::seq_lib::group_to_multiset_ensures;
    if a.len() == 0 {
        assert(b.to_multiset().len() == 0);
        assert(b.len() == 0);
        assert(a.map_values(f) =~= Seq::<B>::empty());
        assert(b.map_values(f) =~= Seq::<B>::empty());
    } else {
        let x = a.last();
        let a2 = a.drop_last();
        assert(a =~= a2.push(x));
        assert(a.to_multiset().count(x) > 0);
        assert(b.contains(x));
        let k = choose|k: int| 0 <= k < b.len() && b[k] == x;
        let b2 = b.remove(k);
        assert(b2.to_multiset() =~= b.to_multiset().remove(x));
        assert(a2.to_multiset() =~= a.to_multiset().remove(x));
        lemma_map_multiset(a2, b2, f);
        assert(a.map_values(f) =~= a2.map_values(f).push(f(x)));
        assert(b.map_values(f).remove(k) =~= b2.map_values(f));
        assert(b.map_values(f)[k] == f(x));
        assert(b.map_values(f).remove(k).to_multiset() =~= b.map_values(f).to_multiset().remove(f(x)));
        assert(b.map_values(f).to_multiset().count(f(x)) > 0) by {
            assert(b.map_values(f).contains(f(x)));
        }
        assert(b.map_values(f).to_multiset() =~= b.map_values(f).to_multiset().remove(f(x)).insert(f(x)));
    }
}

/// The desktop notifications and whether they are shown.
pub struct NotificationService {
    enabled: bool,
}

/// A desktop notification: its title and body.
#[derive(Debug, Clone)]
pub struct DesktopNotification {
    pub title: String,
    pub body: String,
}

/// The start of a transaction id shown in a notification: its first
/// sixteen characters.
pub open spec fn txid_head(txid: Seq<char>) -> Seq<char> {
    if txid.len() <= 16 {
        txid
    } else {
        txid.take(16)
    }
}

fn txid_head_text(txid: &str) -> (r: &str)
    ensures
        r@ == txid_head(txid@),
{
    let n = txid.unicode_len();
    if n <= 16 {
        txid
    } else {
        txid.substring_char(0, 16)
    }
}

/// The error a notification gets while notifications are switched off.
pub open spec fn disabled_message() -> Seq<char> {
    "Notifications are disabled"@
}

impl NotificationService {
    pub closed spec fn on(&self) -> bool {
        self.enabled
    }

    /// Notifications are shown by default.
    pub fn new() -> (s: Self)
        ensures
            s.on(),
    {
        NotificationService { enabled: true }
    }

    pub fn is_enabled(&self) -> (b: bool)
        ensures
            b == self.on(),
    {
        self.enabled
    }

    pub fn set_enabled(&mut self, enabled: bool)
        ensures
            final(self).on() == enabled,
    {
        self.enabled = enabled;
    }

    /// The notification to show when notifications are on; an error when
    /// they are switched off.
    pub fn notify(&self, title: &str, body: &str) -> (n: Result<DesktopNotification, String>)
        ensures
            self.on() ==> (n matches Ok(d) && d.title@ == title@ && d.body@ == body@),
            !self.on() ==> (n matches Err(e) && e@ == disabled_message()),
    {
        if !self.enabled {
            return Err(String::from_str("Notifications are disabled"));
        }
        Ok(DesktopNotification { title: String::from_str(title), body: String::from_str(body) })
    }

    /// A transaction was sent: its amount and the start of its id.
    pub fn notify_transaction_sent(&self, txid: &str, amount_sat: u64) -> (n: Result<DesktopNotification, String>)
        ensures
            self.on() ==> (n matches Ok(d) && d.title@ == "Transaction Sent"@ && d.body@ == "Sent "@
                + btc_text(amount_sat as nat) + "\nTXID: "@ + txid_head(txid@)),
            !self.on() ==> (n matches Err(e) && e@ == disabled_message()),
    {
        let mut body = String::from_str("Sent ");
        body.append(format_btc(amount_sat).as_str());
        body.append("\nTXID: ");
        body.append(txid_head_text(txid));
        self.notify("Transaction Sent", body.as_str())
    }

    /// A transaction was received.
    pub fn notify_transaction_received(&self, amount_sat: u64) -> (n: Result<DesktopNotification, String>)
        ensures
            self.on() ==> (n matches Ok(d) && d.title@ == "Transaction Received"@ && d.body@
                == "Received "@ + btc_text(amount_sat as nat)),
            !self.on() ==> (n matches Err(e) && e@ == disabled_message()),
    {
        let body = concat("Received ", format_btc(amount_sat).as_str());
        self.notify("Transaction Received", body.as_str())
    }

    /// A transaction was confirmed: the start of its id.
    pub fn notify_transaction_confirmed(&self, txid: &str) -> (n: Result<DesktopNotification, String>)
        ensures
            self.on() ==> (n matches Ok(d) && d.title@ == "Transaction Confirmed"@ && d.body@
                == "Transaction confirmed\nTXID: "@ + txid_head(txid@)),
            !self.on() ==> (n matches Err(e) && e@ == disabled_message()),
    {
        let body = concat("Transaction confirmed\nTXID: ", txid_head_text(txid));
        self.notify("Transaction Confirmed", body.as_str())
    }

    /// The subscription has expired.
    pub fn notify_subscription_expired(&self) -> (n: Result<DesktopNotification, String>)
        ensures
            self.on() ==> (n matches Ok(d) && d.title@ == "Subscription Expired"@ && d.body@
                == "Your subscription has expired. Please renew to continue using mainnet features."@),
            !self.on() ==> (n matches Err(e) && e@ == disabled_message()),
    {
        self.notify(
            "Subscription Expired",
            "Your subscription has expired. Please renew to continue using mainnet features.",
        )
    }

    /// The subscription was renewed.
    pub fn notify_subscription_renewed(&self) -> (n: Result<DesktopNotification, String>)
        ensures
            self.on() ==> (n matches Ok(d) && d.title@ == "Subscription Renewed"@ && d.body@
                == "Your subscription has been successfully renewed."@),
            !self.on() ==> (n matches Err(e) && e@ == disabled_message()),
    {
        self.notify("Subscription Renewed", "Your subscription has been successfully renewed.")
    }

    /// A vault was created.
    pub fn notify_vault_created(&self, vault_name: &str) -> (n: Result<DesktopNotification, String>)
        ensures
            self.on() ==> (n matches Ok(d) && d.title@ == "Vault Created"@ && d.body@ == "Vault '"@
                + vault_name@ + "' has been created successfully."@),
            !self.on() ==> (n matches Err(e) && e@ == disabled_message()),
    {
        let mut body = String::from_str("Vault '");
        body.append(vault_name);
        body.append("' has been created successfully.");
        self.notify("Vault Created", body.as_str())
    }

    /// An error.
    pub fn notify_error(&self, error: &str) -> (n: Result<DesktopNotification, String>)
        ensures
            self.on() ==> (n matches Ok(d) && d.title@ == "Error"@ && d.body@ == error@),
            !self.on() ==> (n matches Err(e) && e@ == disabled_message()),
    {
        self.notify("Error", error)
    }
}

} // verus!
