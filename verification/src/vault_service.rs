//! The wallet of a vault, kept by `bdk` in memory: opened from a
//! descriptor, then asked for its balance and for new receive addresses.
use vstd::prelude::*;
use crate::network::Network;

verus! {

/// A `bdk` wallet.
#[verifier::external_type_specification]
#[verifier::external_body]
#[verifier::reject_recursive_types(D)]
pub struct ExBdkWallet<D>(bdk::Wallet<D>);

/// The in-memory database of a `bdk` wallet.
#[verifier::external_type_specification]
#[verifier::external_body]
pub struct ExMemoryDatabase(bdk::database::MemoryDatabase);

/// An error of `bdk`.
#[verifier::external_type_specification]
#[verifier::external_body]
pub struct ExBdkError(bdk::Error);

/// Whether `bdk::Wallet::new` accepts a descriptor (with no change
/// descriptor) on a network.
pub uninterp spec fn descriptor_opens(descriptor: Seq<char>, network: Network) -> bool;

/// What a wallet opened here holds, as plain values: the descriptor it was
/// opened from, its network, how many new addresses have been asked of it,
/// and whether it was ever synced with the chain.
pub uninterp spec fn wallet_model(w: bdk::Wallet<bdk::database::MemoryDatabase>) -> (Seq<char>, Network, nat, bool);

/// What `bdk::Wallet::get_address(AddressIndex::New)` gives at the `n`-th
/// request (counting from 0) on a wallet freshly opened from a descriptor on
/// a network (in memory, asked nothing but balances and new addresses): the
/// address's text, or nothing when `bdk` refuses. With a wildcard in the
/// descriptor this is the address at derivation index `n`; without one it
/// is always the descriptor's only address.
pub uninterp spec fn wallet_address(descriptor: Seq<char>, network: Network, n: nat) -> Option<Seq<char>>;

/// `bdk::Wallet::new(descriptor, None, network, MemoryDatabase::default())`.
/// Whether it succeeds is named by `descriptor_opens`; a wallet it opens
/// holds the descriptor and the network, has been asked no address and was
/// never synced.
#[verifier::external_body]
fn open_wallet(descriptor: &str, network: Network) -> (r: Result<bdk::Wallet<bdk::database::MemoryDatabase>, bdk::Error>)
    ensures
        r is Ok <==> descriptor_opens(descriptor@, network),
        r matches Ok(w) ==> wallet_model(w) == (descriptor@, network, 0nat, false),
{
    let network = match network {
        Network::Bitcoin => bdk::bitcoin::Network::Bitcoin,
        Network::Testnet => bdk::bitcoin::Network::Testnet,
        Network::Signet => bdk::bitcoin::Network::Signet,
        Network::Regtest => bdk::bitcoin::Network::Regtest,
    };
    bdk::Wallet::new(descriptor, None::<&str>, network, bdk::database::MemoryDatabase::default())
}

/// A wallet's balance in satoshis.
pub struct WalletBalance {
    pub confirmed: u64,
    pub spendable: u64,
}

/// `bdk::Wallet::get_balance`, read as the confirmed and the spendable
/// (`get_spendable`) amounts in satoshis. The source shows that a wallet
/// never synced with the chain reports zero for both; otherwise the
/// amounts are not stated.
#[verifier::external_body]
fn wallet_balance(wallet: &bdk::Wallet<bdk::database::MemoryDatabase>) -> (r: Result<WalletBalance, bdk::Error>)
    ensures
        r is Ok || wallet_model(*wallet).3,
        r matches Ok(b) ==> (wallet_model(*wallet).3 || (b.confirmed == 0 && b.spendable == 0)),
{
    match wallet.get_balance() {
        Ok(b) => Ok(WalletBalance { confirmed: b.confirmed, spendable: b.get_spendable() }),
        Err(e) => Err(e),
    }
}

/// `bdk::Wallet::get_address(AddressIndex::New)`, read as the address's
/// text, named by `wallet_address` at the wallet's count of requests. The
/// request is counted whether or not it succeeds (the source advances the
/// index first); the rest of the wallet's model stays. The source panics
/// once the index reaches hardened derivation, with its batch of cached
/// addresses: that is left out.
#[verifier::external_body]
fn wallet_new_address(wallet: &mut bdk::Wallet<bdk::database::MemoryDatabase>) -> (r: Result<String, bdk::Error>)
    requires
        wallet_model(*old(wallet)).2 < 2147483600,
    ensures
        wallet_model(*final(wallet)) == (
            wallet_model(*old(wallet)).0,
            wallet_model(*old(wallet)).1,
            wallet_model(*old(wallet)).2 + 1,
            wallet_model(*old(wallet)).3,
        ),
        match r {
            Ok(a) => wallet_address(
                wallet_model(*old(wallet)).0,
                wallet_model(*old(wallet)).1,
                wallet_model(*old(wallet)).2,
            ) == Some(a@),
            Err(_) => wallet_address(
                wallet_model(*old(wallet)).0,
                wallet_model(*old(wallet)).1,
                wallet_model(*old(wallet)).2,
            ) is None,
        },
{
    match wallet.get_address(bdk::wallet::AddressIndex::New) {
        Ok(info) => Ok(info.address.to_string()),
        Err(e) => Err(e),
    }
}

/// How a `bdk` error reads (its `Display`); the text is not stated.
#[verifier::external_body]
fn bdk_error_text(e: bdk::Error) -> (s: String) {
    e.to_string()
}

/// Errors of the vault's wallet.
#[derive(Debug, Clone)]
pub enum VaultServiceError {
    /// No wallet has been opened yet.
    NotInitialized,
    /// `bdk` refused, with its message.
    Wallet(String),
}

/// How an error reads.
pub open spec fn vault_error_text(e: VaultServiceError) -> Seq<char> {
    match e {
        VaultServiceError::NotInitialized => "Generic error: Wallet not initialized"@,
        VaultServiceError::Wallet(m) => m@,
    }
}

impl VaultServiceError {
    pub fn message(&self) -> (s: String)
        ensures
            s@ == vault_error_text(*self),
    {
        match self {
            VaultServiceError::NotInitialized => String::from_str("Generic error: Wallet not initialized"),
            VaultServiceError::Wallet(m) => m.clone(),
        }
    }
}

/// The most new addresses a wallet can be asked for.
pub const MAX_ADDRESS_REQUESTS: u64 = 2147483600;

/// The wallet of the vault on a network, once opened, and how many new
/// addresses it has handed out.
pub struct VaultService {
    wallet: Option<bdk::Wallet<bdk::database::MemoryDatabase>>,
    network: Network,
    requested: u64,
}

impl VaultService {
    pub closed spec fn loaded(&self) -> bool {
        self.wallet is Some
    }

    pub closed spec fn on_network(&self) -> Network {
        self.network
    }

    /// The descriptor of the open wallet.
    pub closed spec fn descriptor(&self) -> Seq<char> {
        wallet_model(self.wallet->Some_0).0
    }

    /// How many new addresses the open wallet was asked for.
    pub closed spec fn requests(&self) -> nat {
        wallet_model(self.wallet->Some_0).2
    }

    /// The open wallet was synced with the chain.
    pub closed spec fn synced(&self) -> bool {
        wallet_model(self.wallet->Some_0).3
    }

    /// The open wallet is on the service's network and its requests are
    /// counted.
    pub closed spec fn wf(&self) -> bool {
        self.wallet matches Some(w) ==> {
            &&& wallet_model(w).1 == self.network
            &&& wallet_model(w).2 == self.requested
        }
    }

    /// No wallet yet, on the given network.
    pub fn new(network: Network) -> (s: Self)
        ensures
            s.wf(),
            !s.loaded(),
            s.on_network() == network,
    {
        VaultService { wallet: None, network, requested: 0 }
    }

    /// Opens the wallet of a descriptor on the service's network. It opens
    /// exactly when `bdk` accepts the descriptor, holding that descriptor,
    /// with no address asked of it and never synced; otherwise nothing
    /// changes and `bdk`'s message is handed back.
    pub fn initialize_wallet(&mut self, descriptor: &str) -> (r: Result<(), VaultServiceError>)
        requires
            old(self).wf(),
        ensures
            final(self).wf(),
            r is Ok <==> descriptor_opens(descriptor@, old(self).on_network()),
            r is Ok ==> {
                &&& final(self).loaded()
                &&& final(self).descriptor() == descriptor@
                &&& final(self).requests() == 0
                &&& !final(self).synced()
            },
            r is Err ==> *final(self) == *old(self),
            r matches Err(e) ==> e is Wallet,
            final(self).on_network() == old(self).on_network(),
    {
        match open_wallet(descriptor, self.network) {
            Ok(w) => {
                self.wallet = Some(w);
                self.requested = 0;
                Ok(())
            },
            Err(e) => Err(VaultServiceError::Wallet(bdk_error_text(e))),
        }
    }

    /// The confirmed and the spendable balance in satoshis; an error when no
    /// wallet is open. A wallet never synced has nothing to spend.
    pub fn get_balance(&self) -> (r: Result<(u64, u64), VaultServiceError>)
        ensures
            !self.loaded() ==> r matches Err(VaultServiceError::NotInitialized),
            self.loaded() ==> !(r matches Err(VaultServiceError::NotInitialized)),
            self.loaded() && !self.synced() ==> (r matches Ok((c, a)) && c == 0 && a == 0),
    {
        match &self.wallet {
            None => Err(VaultServiceError::NotInitialized),
            Some(w) => match wallet_balance(w) {
                Ok(b) => Ok((b.confirmed, b.spendable)),
                Err(e) => Err(VaultServiceError::Wallet(bdk_error_text(e))),
            },
        }
    }

    /// How many new addresses the open wallet has handed out (none without
    /// a wallet).
    pub fn addresses_requested(&self) -> (n: u64)
        requires
            self.wf(),
        ensures
            self.loaded() ==> n == self.requests(),
    {
        self.requested
    }

    /// A new receive address: the wallet's next one (see `wallet_address`),
    /// the count of requests going up by one whether `bdk` gives it or not;
    /// an error, and nothing changed, when no wallet is open.
    pub fn get_address(&mut self) -> (r: Result<String, VaultServiceError>)
        requires
            old(self).wf(),
            old(self).loaded() ==> old(self).requests() < MAX_ADDRESS_REQUESTS,
        ensures
            final(self).wf(),
            !old(self).loaded() ==> (r matches Err(VaultServiceError::NotInitialized) && *final(self) == *old(self)),
            old(self).loaded() ==> {
                &&& final(self).loaded()
                &&& final(self).on_network() == old(self).on_network()
                &&& final(self).descriptor() == old(self).descriptor()
                &&& final(self).requests() == old(self).requests() + 1
                &&& final(self).synced() == old(self).synced()
                &&& match r {
                    Ok(a) => wallet_address(old(self).descriptor(), old(self).on_network(), old(self).requests())
                        == Some(a@),
                    Err(e) => e is Wallet && wallet_address(
                        old(self).descriptor(),
                        old(self).on_network(),
                        old(self).requests(),
                    ) is None,
                }
            },
    {
        match self.wallet.take() {
            None => Err(VaultServiceError::NotInitialized),
            Some(mut w) => {
                let r = wallet_new_address(&mut w);
                self.wallet = Some(w);
                self.requested = self.requested + 1;
                match r {
                    Ok(a) => Ok(a),
                    Err(e) => Err(VaultServiceError::Wallet(bdk_error_text(e))),
                }
            },
        }
    }

    pub fn is_loaded(&self) -> (b: bool)
        ensures
            b == self.loaded(),
    {
        self.wallet.is_some()
    }
}

} // verus!
