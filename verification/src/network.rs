//! Bitcoin networks: their names in the settings and the vault records, the
//! network chosen at startup, and the order in which the vaults of a network
//! are tried when one is to be opened (the active one first).
use vstd::prelude::*;
use vstd::multiset::Multiset;
use crate::text::str_eq;

verus! {

/// The Bitcoin networks a vault can live on.
#[derive(Debug, Clone, Copy, PartialEq, Eq, Structural)]
pub enum Network {
    Bitcoin,
    Testnet,
    Signet,
    Regtest,
}

/// A network's name in the settings and in the vault records.
pub open spec fn network_name(n: Network) -> Seq<char> {
    match n {
        Network::Bitcoin => "mainnet"@,
        Network::Testnet => "testnet"@,
        Network::Signet => "signet"@,
        Network::Regtest => "regtest"@,
    }
}

/// The network a name stands for, if any.
pub open spec fn network_named(s: Seq<char>) -> Option<Network> {
    if s == "mainnet"@ {
        Some(Network::Bitcoin)
    } else if s == "testnet"@ {
        Some(Network::Testnet)
    } else if s == "signet"@ {
        Some(Network::Signet)
    } else if s == "regtest"@ {
        Some(Network::Regtest)
    } else {
        None
    }
}

impl Network {
    /// The network's name.
    pub fn name(&self) -> (s: &'static str)
        ensures
            s@ == network_name(*self),
    {
        match self {
            Network::Bitcoin => "mainnet",
            Network::Testnet => "testnet",
            Network::Signet => "signet",
            Network::Regtest => "regtest",
        }
    }

    /// The network a name stands for, if any.
    pub fn from_name(s: &str) -> (n: Option<Network>)
        ensures
            n == network_named(s@),
    {
        if str_eq(s, "mainnet") {
            Some(Network::Bitcoin)
        } else if str_eq(s, "testnet") {
            Some(Network::Testnet)
        } else if str_eq(s, "signet") {
            Some(Network::Signet)
        } else if str_eq(s, "regtest") {
            Some(Network::Regtest)
        } else {
            None
        }
    }

    /// Whether this is the main network (where the subscription is checked).
    pub fn is_mainnet(&self) -> (b: bool)
        ensures
            b == (*self == Network::Bitcoin),
    {
        match self {
            Network::Bitcoin => true,
            _ => false,
        }
    }
}

/// Reading a network's name gives the network back.
pub proof fn lemma_network_name_roundtrip(n: Network)
    ensures
        network_named(network_name(n)) == Some(n),
{
    reveal_strlit("mainnet");
    reveal_strlit("testnet");
    reveal_strlit("signet");
    reveal_strlit("regtest");
    assert("testnet"@[0] != "mainnet"@[0]);
    assert("signet"@.len() != "mainnet"@.len());
    assert("signet"@.len() != "testnet"@.len());
    assert("regtest"@[0] != "mainnet"@[0]);
    assert("regtest"@[0] != "testnet"@[0]);
    assert("regtest"@.len() != "signet"@.len());
}

/// The network at startup: the one stored in the settings when it is known,
/// testnet otherwise.
pub open spec fn startup_network(stored: Option<Seq<char>>) -> Network {
    match stored {
        Some(s) => match network_named(s) {
            Some(n) => n,
            None => Network::Testnet,
        },
        None => Network::Testnet,
    }
}

/// The network at startup from the stored setting.
pub fn initial_network(stored: &Option<String>) -> (n: Network)
    ensures
        n == startup_network(match stored {
            Some(s) => Some(s@),
            None => None,
        }),
{
    match stored {
        Some(s) => match Network::from_name(s.as_str()) {
            Some(n) => n,
            None => Network::Testnet,
        },
        None => Network::Testnet,
    }
}

/// What is known of a stored vault when one is to be opened.
#[derive(Debug, Clone)]
pub struct VaultCandidate {
    pub address: String,
    /// The name of its network.
    pub network: String,
    /// Its database is on disk.
    pub database_exists: bool,
    /// Its record passes validation.
    pub valid: bool,
}

/// A vault may be tried on a network: it is of that network, its database
/// exists and its record is valid.
pub open spec fn usable_on(c: VaultCandidate, net: Network) -> bool {
    c.network@ == network_name(net) && c.database_exists && c.valid
}

/// The vaults to try on a network, in their order.
pub open spec fn usable_vaults(cands: Seq<VaultCandidate>, net: Network) -> Seq<VaultCandidate> {
    cands.filter(|c: VaultCandidate| usable_on(c, net))
}

/// Index of the first vault with the address, if any.
pub open spec fn first_with_address(v: Seq<VaultCandidate>, a: Seq<char>) -> Option<int> {
    if exists|i: int| 0 <= i < v.len() && v[i].address@ == a && forall|k: int| 0 <= k < i ==> v[k].address@ != a {
        Some(choose|i: int| 0 <= i < v.len() && v[i].address@ == a && forall|k: int| 0 <= k < i ==> v[k].address@ != a)
    } else {
        None
    }
}

/// The vaults with the first one of the given address, if any, moved to
/// the front.
pub open spec fn active_to_front(u: Seq<VaultCandidate>, active: Option<Seq<char>>) -> Seq<VaultCandidate> {
    match active {
        Some(a) => match first_with_address(u, a) {
            Some(p) => seq![u[p]] + u.remove(p),
            None => u,
        },
        None => u,
    }
}

/// The order in which the vaults of a network are tried: the usable ones,
/// with the active one (when it is among them) moved to the front.
pub open spec fn try_order(cands: Seq<VaultCandidate>, net: Network, active: Option<Seq<char>>) -> Seq<VaultCandidate> {
    active_to_front(usable_vaults(cands, net), active)
}

/// The vaults of a network in the order they are tried.
pub fn vault_try_order(cands: &Vec<VaultCandidate>, net: Network, active: &Option<String>) -> (r: Vec<VaultCandidate>)
    ensures
        r@ == try_order(cands@, net, match active {
            Some(a) => Some(a@),
            None => None,
        }),
{
    let ghost pred = |c: VaultCandidate| usable_on(c, net);
    let name = net.name();
    let mut u: Vec<VaultCandidate> = Vec::new();
    assert(cands@.subrange(0, 0).filter(pred) =~= Seq::<VaultCandidate>::empty()) by {
        reveal(Seq::filter);
    }
    let mut i: usize = 0;
    while i < cands.len()
        invariant
            i <= cands@.len(),
            name@ == network_name(net),
            pred == (|c: VaultCandidate| usable_on(c, net)),
            u@ == cands@.subrange(0, i as int).filter(pred),
        decreases cands@.len() - i,
    {
        let c = &cands[i];
        proof {
            cands@.subrange(0, i as int).lemma_filter_push(*c, pred);
            assert(cands@.subrange(0, i + 1) =~= cands@.subrange(0, i as int).push(*c));
        }
        if str_eq(c.network.as_str(), name) && c.database_exists && c.valid {
            u.push(c.clone_candidate());
        }
        i = i + 1;
    }
    assert(cands@.subrange(0, cands@.len() as int) =~= cands@);
    match active {
        None => u,
        Some(a) => {
            let mut p: usize = 0;
            let mut found = false;
            while p < u.len() && !found
                invariant
                    p <= u@.len(),
                    found ==> p < u@.len() && u@[p as int].address@ == a@,
                    forall|k: int| 0 <= k < p ==> u@[k].address@ != a@,
                decreases u@.len() - p + (if found { 0int } else { 1int }),
            {
                if str_eq(u[p].address.as_str(), a.as_str()) {
                    found = true;
                } else {
                    p = p + 1;
                }
            }
            if found {
                proof {
                    assert(u@[p as int].address@ == a@);
                    let q = choose|q: int| 0 <= q < u@.len() && u@[q].address@ == a@ && forall|k: int| 0 <= k < q ==> u@[k].address@ != a@;
                    if q < p {
                        assert(u@[q].address@ != a@);
                    }
                    if q > p {
                        assert(u@[p as int].address@ != a@);
                    }
                }
                let ghost before = u@;
                let active_vault = u.remove(p);
                u.insert(0, active_vault);
                proof {
                    assert(u@ =~= seq![before[p as int]] + before.remove(p as int));
                }
                u
            } else {
                u
            }
        },
    }
}

impl VaultCandidate {
    /// A copy of this candidate.
    pub fn clone_candidate(&self) -> (c: Self)
        ensures
            c == *self,
    {
        VaultCandidate {
            address: self.address.clone(),
            network: self.network.clone(),
            database_exists: self.database_exists,
            valid: self.valid,
        }
    }
}

proof fn lemma_move_front_multiset<A>(s: Seq<A>, p: int)
    requires
        0 <= p < s.len(),
    ensures
        (seq![s[p]] + s.remove(p)).to_multiset() == s.to_multiset(),
{
    broadcast use vstd::seq_lib::group_to_multiset_ensures;
    let x = s[p];
    let t = s.remove(p);
    assert(t.to_multiset() =~= s.to_multiset().remove(x));
    vstd::seq_lib::lemma_multiset_commutative(seq![x], t);
    assert(seq![x] =~= Seq::<A>::empty().push(x));
    assert(Seq::<A>::empty().to_multiset() =~= Multiset::<A>::empty());
    assert(s.contains(x));
    assert(s.to_multiset().count(x) > 0);
    assert(seq![x].to_multiset().add(t.to_multiset()) =~= s.to_multiset());
}

proof fn lemma_first_exists(u: Seq<VaultCandidate>, a: Seq<char>, i: int)
    requires
        0 <= i < u.len(),
        u[i].address@ == a,
    ensures
        exists|j: int| 0 <= j < u.len() && u[j].address@ == a && forall|k: int| 0 <= k < j ==> u[k].address@ != a,
    decreases i,
{
    if exists|k: int| 0 <= k < i && u[k].address@ == a {
        let k = choose|k: int| 0 <= k < i && u[k].address@ == a;
        lemma_first_exists(u, a, k);
    } else {
        assert(forall|k: int| 0 <= k < i ==> u[k].address@ != a);
    }
}

proof fn lemma_front_is_active(u: Seq<VaultCandidate>, active: Seq<char>, i: int)
    requires
        0 <= i < u.len(),
        u[i].address@ == active,
    ensures
        active_to_front(u, Some(active))[0].address@ == active,
{
    lemma_first_exists(u, active, i);
    let p = first_with_address(u, active)->Some_0;
    assert(0 <= p < u.len() && u[p].address@ == active);
    assert((seq![u[p]] + u.remove(p))[0] == u[p]);
}

proof fn lemma_front_same_items(u: Seq<VaultCandidate>, active: Option<Seq<char>>)
    ensures
        active_to_front(u, active).to_multiset() == u.to_multiset(),
{
    if let Some(a) = active {
        if let Some(p) = first_with_address(u, a) {
            assert(0 <= p < u.len());
            lemma_move_front_multiset(u, p);
        }
    }
}

/// The active vault, when usable, is tried first.
pub proof fn lemma_active_first(cands: Seq<VaultCandidate>, net: Network, active: Seq<char>, i: int)
    requires
        0 <= i < usable_vaults(cands, net).len(),
        usable_vaults(cands, net)[i].address@ == active,
    ensures
        try_order(cands, net, Some(active))[0].address@ == active,
{
    lemma_front_is_active(usable_vaults(cands, net), active, i);
}

/// Every usable vault is tried, once, and nothing else.
pub proof fn lemma_all_usable_tried(cands: Seq<VaultCandidate>, net: Network, active: Option<Seq<char>>)
    ensures
        try_order(cands, net, active).to_multiset() == usable_vaults(cands, net).to_multiset(),
{
    lemma_front_same_items(usable_vaults(cands, net), active);
}

/// What happens after an attempt to load the `i`-th vault of the try order.
#[derive(Debug, Clone, PartialEq, Eq)]
pub enum LoadStep {
    /// It loaded: it becomes the active vault of the network (saved for the
    /// next start), and the wallet is open.
    Loaded(String),
    /// It failed: try the vault at this index next.
    TryNext(usize),
    /// Every vault failed: the stored active vault is cleared.
    AllFailed,
}

/// The decision after trying the `i`-th vault of the order: a vault that
/// loads becomes the active one; after a failure the next vault is tried,
/// and when none is left the active vault is cleared. With nothing to try
/// (an empty order) nothing is loaded either.
pub fn after_load_attempt(order: &Vec<VaultCandidate>, i: usize, loaded: bool) -> (step: LoadStep)
    requires
        i < order@.len(),
    ensures
        loaded ==> (step matches LoadStep::Loaded(a) && a@ == order@[i as int].address@),
        !loaded && i + 1 < order@.len() ==> step == LoadStep::TryNext((i + 1) as usize),
        !loaded && i + 1 == order@.len() ==> step == LoadStep::AllFailed,
{
    if loaded {
        LoadStep::Loaded(order[i].address.clone())
    } else if i < order.len() - 1 {
        LoadStep::TryNext(i + 1)
    } else {
        LoadStep::AllFailed
    }
}

} // verus!
