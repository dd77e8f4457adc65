//! Cached vault data (balances, receive address) and the queue of wallet
//! requests whose answers update it.
use vstd::prelude::*;
use crate::text::{decimal, decimal_padded, push_decimal, push_decimal_padded};

verus! {

/// Satoshis in one bitcoin.
pub const SATS_PER_BTC: u64 = 100_000_000;

/// Seconds after which cached data counts as stale.
pub const REFRESH_AFTER_SECS: u64 = 30;

/// An amount of satoshis written in bitcoin with eight decimals, as in
/// `0.00012345 BTC`.
pub open spec fn btc_text(sats: nat) -> Seq<char> {
    decimal(sats / 100_000_000) + "."@ + decimal_padded(sats % 100_000_000, 8) + " BTC"@
}

/// Writes an amount of satoshis in bitcoin with eight decimals.
pub fn format_btc(sats: u64) -> (s: String)
    ensures
        s@ == btc_text(sats as nat),
{
    let mut s = String::new();
    push_decimal(&mut s, sats / SATS_PER_BTC);
    s.append(".");
    push_decimal_padded(&mut s, sats % SATS_PER_BTC, 8);
    s.append(" BTC");
    proof {
        reveal_strlit(".");
        reveal_strlit(" BTC");
    }
    assert(s@ =~= btc_text(sats as nat));
    s
}

/// Cached data of the loaded vault.
#[derive(Debug, Clone)]
pub struct VaultData {
    /// Confirmed balance in satoshis.
    pub confirmed_balance: Option<u64>,
    /// Spendable balance in satoshis.
    pub available_balance: Option<u64>,
    /// Current receive address.
    pub receive_address: Option<String>,
    /// When the data was last updated, in milliseconds on the caller's
    /// monotonic clock.
    pub last_update: Option<u64>,
    /// Whether a fetch is under way.
    pub is_loading: bool,
}

/// Whole seconds elapsed from `then` to `now` (milliseconds), zero when the
/// clock reads earlier than `then`.
pub open spec fn elapsed_secs(then: u64, now: u64) -> nat {
    if now >= then {
        ((now - then) / 1000) as nat
    } else {
        0
    }
}

impl VaultData {
    pub open spec fn is_empty(&self) -> bool {
        &&& self.confirmed_balance is None
        &&& self.available_balance is None
        &&& self.receive_address is None
        &&& self.last_update is None
        &&& !self.is_loading
    }

    /// Data must be fetched again: nothing is loading and the data is older
    /// than thirty seconds or was never fetched.
    pub open spec fn is_stale(&self, now: u64) -> bool {
        !self.is_loading && match self.last_update {
            Some(t) => elapsed_secs(t, now) > 30,
            None => true,
        }
    }

    pub open spec fn balance_text(amount: Option<u64>) -> Seq<char> {
        match amount {
            Some(sats) => btc_text(sats as nat),
            None => "Loading..."@,
        }
    }

    pub fn new() -> (d: Self)
        ensures
            d.is_empty(),
    {
        VaultData {
            confirmed_balance: None,
            available_balance: None,
            receive_address: None,
            last_update: None,
            is_loading: false,
        }
    }

    /// Whether the data should be refreshed at time `now` (milliseconds).
    pub fn needs_refresh(&self, now: u64) -> (b: bool)
        ensures
            b == self.is_stale(now),
    {
        if self.is_loading {
            return false;
        }
        match self.last_update {
            Some(t) => {
                let elapsed = if now >= t {
                    (now - t) / 1000
                } else {
                    0
                };
                elapsed > REFRESH_AFTER_SECS
            },
            None => true,
        }
    }

    /// Stores fetched balances; loading is over.
    pub fn update_balance(&mut self, confirmed: u64, available: u64, now: u64)
        ensures
            final(self).confirmed_balance == Some(confirmed),
            final(self).available_balance == Some(available),
            final(self).last_update == Some(now),
            !final(self).is_loading,
            final(self).receive_address == old(self).receive_address,
    {
        self.confirmed_balance = Some(confirmed);
        self.available_balance = Some(available);
        self.last_update = Some(now);
        self.is_loading = false;
    }

    /// Stores a fetched address; loading is over.
    pub fn update_address(&mut self, address: String, now: u64)
        ensures
            final(self).receive_address == Some(address),
            final(self).last_update == Some(now),
            !final(self).is_loading,
            final(self).confirmed_balance == old(self).confirmed_balance,
            final(self).available_balance == old(self).available_balance,
    {
        self.receive_address = Some(address);
        self.last_update = Some(now);
        self.is_loading = false;
    }

    pub fn set_loading(&mut self, loading: bool)
        ensures
            *final(self) == (VaultData { is_loading: loading, ..*old(self) }),
    {
        self.is_loading = loading;
    }

    /// The confirmed balance in bitcoin, or `Loading...` before it is known.
    pub fn format_balance_btc(&self) -> (s: String)
        ensures
            s@ == Self::balance_text(self.confirmed_balance),
    {
        match self.confirmed_balance {
            Some(sats) => format_btc(sats),
            None => String::from_str("Loading..."),
        }
    }

    /// The spendable balance in bitcoin, or `Loading...` before it is known.
    pub fn format_available_btc(&self) -> (s: String)
        ensures
            s@ == Self::balance_text(self.available_balance),
    {
        match self.available_balance {
            Some(sats) => format_btc(sats),
            None => String::from_str("Loading..."),
        }
    }

    /// Applies the answer to a wallet request; the screen must be redrawn
    /// afterwards, which the result always asks for.
    pub fn apply_result(&mut self, result: AsyncResult, now: u64) -> (repaint: bool)
        ensures
            repaint,
            match result {
                AsyncResult::Balance { confirmed, available } => {
                    &&& final(self).confirmed_balance == Some(confirmed)
                    &&& final(self).available_balance == Some(available)
                    &&& final(self).receive_address == old(self).receive_address
                    &&& final(self).last_update == Some(now)
                    &&& !final(self).is_loading
                },
                AsyncResult::Address(a) => {
                    &&& final(self).receive_address == Some(a)
                    &&& final(self).confirmed_balance == old(self).confirmed_balance
                    &&& final(self).available_balance == old(self).available_balance
                    &&& final(self).last_update == Some(now)
                    &&& !final(self).is_loading
                },
                _ => *final(self) == *old(self),
            },
    {
        match result {
            AsyncResult::Balance { confirmed, available } => {
                self.update_balance(confirmed, available, now);
            },
            AsyncResult::Address(a) => {
                self.update_address(a, now);
            },
            _ => {},
        }
        true
    }
}

impl Default for VaultData {
    fn default() -> (d: Self)
        ensures
            d.is_empty(),
    {
        VaultData::new()
    }
}

/// A request to the wallet.
#[derive(Debug, Clone, Copy, PartialEq, Eq, Structural)]
pub enum AsyncCommand {
    FetchBalance,
    FetchAddress,
    RequestTelegramRegistration,
}

/// The answer to a wallet request.
#[derive(Debug)]
pub enum AsyncResult {
    Balance { confirmed: u64, available: u64 },
    Address(String),
    TelegramRegistrationLink(String),
    Error(String),
}

/// What the wallet answered to a request it carried out: the balances
/// (confirmed, spendable), an address, or the error's message.
pub enum WalletReply {
    Balance(Result<(u64, u64), String>),
    Address(Result<String, String>),
}

/// Requests queued by the interface, to be carried out on the next update.
pub struct PendingCommands {
    commands: Vec<AsyncCommand>,
}

impl PendingCommands {
    pub closed spec fn queued(&self) -> Seq<AsyncCommand> {
        self.commands@
    }

    pub fn new() -> (p: Self)
        ensures
            p.queued() == Seq::<AsyncCommand>::empty(),
    {
        PendingCommands { commands: Vec::new() }
    }

    pub fn fetch_balance(&mut self)
        ensures
            final(self).queued() == old(self).queued().push(AsyncCommand::FetchBalance),
    {
        self.commands.push(AsyncCommand::FetchBalance);
    }

    pub fn fetch_address(&mut self)
        ensures
            final(self).queued() == old(self).queued().push(AsyncCommand::FetchAddress),
    {
        self.commands.push(AsyncCommand::FetchAddress);
    }

    pub fn request_telegram_registration(&mut self)
        ensures
            final(self).queued() == old(self).queued().push(
                AsyncCommand::RequestTelegramRegistration,
            ),
    {
        self.commands.push(AsyncCommand::RequestTelegramRegistration);
    }

    pub fn is_empty(&self) -> (b: bool)
        ensures
            b == (self.queued().len() == 0),
    {
        self.commands.len() == 0
    }

    /// Hands out the queued requests in order and empties the queue.
    pub fn take(&mut self) -> (taken: Vec<AsyncCommand>)
        ensures
            taken@ == old(self).queued(),
            final(self).queued() == Seq::<AsyncCommand>::empty(),
    {
        let mut taken = Vec::new();
        std::mem::swap(&mut taken, &mut self.commands);
        taken
    }
}

/// The answer to a request, given the wallet's reply when the request needs
/// the wallet. `None` when the reply does not belong to the request.
pub fn result_for_command(command: AsyncCommand, reply: Option<WalletReply>) -> (r: Option<AsyncResult>)
    ensures
        match (command, reply) {
            (AsyncCommand::FetchBalance, Some(WalletReply::Balance(Ok((c, a))))) => r matches Some(
                AsyncResult::Balance { confirmed, available },
            ) && confirmed == c && available == a,
            (AsyncCommand::FetchBalance, Some(WalletReply::Balance(Err(e)))) => r matches Some(
                AsyncResult::Error(m),
            ) && m@ == "Failed to fetch balance: "@ + e@,
            (AsyncCommand::FetchAddress, Some(WalletReply::Address(Ok(a)))) => r matches Some(
                AsyncResult::Address(x),
            ) && x == a,
            (AsyncCommand::FetchAddress, Some(WalletReply::Address(Err(e)))) => r matches Some(
                AsyncResult::Error(m),
            ) && m@ == "Failed to fetch address: "@ + e@,
            (AsyncCommand::RequestTelegramRegistration, _) => r matches Some(AsyncResult::Error(m))
                && m@ == "Telegram registration not yet implemented in async handler"@,
            _ => r is None,
        },
{
    match (command, reply) {
        (AsyncCommand::FetchBalance, Some(WalletReply::Balance(Ok((c, a))))) => Some(
            AsyncResult::Balance { confirmed: c, available: a },
        ),
        (AsyncCommand::FetchBalance, Some(WalletReply::Balance(Err(e)))) => {
            let mut m = String::from_str("Failed to fetch balance: ");
            m.append(e.as_str());
            Some(AsyncResult::Error(m))
        },
        (AsyncCommand::FetchAddress, Some(WalletReply::Address(Ok(a)))) => Some(
            AsyncResult::Address(a),
        ),
        (AsyncCommand::FetchAddress, Some(WalletReply::Address(Err(e)))) => {
            let mut m = String::from_str("Failed to fetch address: ");
            m.append(e.as_str());
            Some(AsyncResult::Error(m))
        },
        (AsyncCommand::RequestTelegramRegistration, _) => Some(
            AsyncResult::Error(
                String::from_str("Telegram registration not yet implemented in async handler"),
            ),
        ),
        _ => None,
    }
}

/// A balance answer makes the cached data fresh: right after it, the data
/// needs no refresh for the next thirty seconds.
pub proof fn lemma_fresh_after_update(d: VaultData, now: u64, later: u64)
    requires
        !d.is_loading,
        d.last_update == Some(now),
        now <= later,
        later - now <= 30_999,
    ensures
        !d.is_stale(later),
{
}

/// Data that was never fetched needs a refresh unless a fetch is running.
pub proof fn lemma_never_fetched_is_stale(d: VaultData, now: u64)
    requires
        d.last_update is None,
    ensures
        d.is_stale(now) == !d.is_loading,
{
}

} // verus!
