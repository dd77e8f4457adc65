//! Decisions of the application's frame: the PIN gate at startup, where the
//! back button leads (a step back inside a flow before leaving it), when the
//! dashboard gives way to the vault selection, and the receive screen's
//! address.
use vstd::prelude::*;
use vstd::view::View as _;
use crate::navigation::{after_back, after_navigate, NavState, Navigation, View};
use crate::recovery::{
    go_back_in_recovery_workflow, go_back_in_utxo_refresh_workflow, recovery_back, refresh_back,
    Fetched, RecoveryState, UtxoRefreshState, unavailable_message,
};
use crate::text::concat;
use crate::vault_creation::VaultCreationState;

verus! {

/// Whether the user has passed the PIN screen, and which PIN screen is due.
pub struct AppGate {
    pub is_authenticated: bool,
    /// No PIN exists yet: the setup screen is due rather than the entry one.
    pub needs_pin_setup: bool,
}

/// The screen the frame shows: until the user is authenticated, only the
/// PIN screen that is due.
#[derive(Debug, Clone, Copy, PartialEq, Eq, Structural)]
pub enum GateScreen {
    PinSetup,
    PinEntry,
    App,
}

impl AppGate {
    /// Which screen the frame shows: the PIN setup or entry while the user
    /// is not authenticated (nothing else), the application afterwards.
    pub fn screen(&self) -> (s: GateScreen)
        ensures
            s == (if !self.is_authenticated {
                if self.needs_pin_setup {
                    GateScreen::PinSetup
                } else {
                    GateScreen::PinEntry
                }
            } else {
                GateScreen::App
            }),
    {
        if !self.is_authenticated {
            if self.needs_pin_setup {
                GateScreen::PinSetup
            } else {
                GateScreen::PinEntry
            }
        } else {
            GateScreen::App
        }
    }

    /// At startup nobody is authenticated; the PIN is set up when none
    /// exists, entered otherwise.
    pub fn new(has_pin: bool) -> (g: Self)
        ensures
            !g.is_authenticated,
            g.needs_pin_setup == !has_pin,
    {
        AppGate { is_authenticated: false, needs_pin_setup: !has_pin }
    }

    /// The PIN was set up: the user is in and chooses a vault.
    pub fn pin_set_up(&mut self, nav: &mut Navigation)
        ensures
            final(self).is_authenticated,
            !final(self).needs_pin_setup,
            final(nav).state() == (NavState { current: View::VaultSelection, history: old(nav).history@ }),
    {
        self.is_authenticated = true;
        self.needs_pin_setup = false;
        nav.set_view(View::VaultSelection);
    }

    /// The PIN was entered correctly: the user is in, on the dashboard when
    /// a vault is loaded, else on the vault selection.
    pub fn pin_entered(&mut self, nav: &mut Navigation, vault_loaded: bool)
        ensures
            final(self).is_authenticated,
            final(self).needs_pin_setup == old(self).needs_pin_setup,
            final(nav).state() == (NavState {
                current: if vault_loaded {
                    View::Dashboard { tab: 0 }
                } else {
                    View::VaultSelection
                },
                history: old(nav).history@,
            }),
    {
        self.is_authenticated = true;
        show_home(nav, vault_loaded);
    }
}

/// Shows the dashboard when a vault is loaded, else the vault selection,
/// without remembering the screen left.
pub fn show_home(nav: &mut Navigation, vault_loaded: bool)
    ensures
        final(nav).state() == (NavState {
            current: if vault_loaded {
                View::Dashboard { tab: 0 }
            } else {
                View::VaultSelection
            },
            history: old(nav).history@,
        }),
{
    if vault_loaded {
        nav.set_view(View::Dashboard { tab: 0 });
    } else {
        nav.set_view(View::VaultSelection);
    }
}

/// Where the back button leads. Inside the vault set-up, the recovery flow
/// and the refresh flow it first goes back a step of the flow; only at a
/// flow's first step (and on every other screen) does it leave the screen.
/// The answer is whether the screen was left.
pub fn handle_back(
    nav: &mut Navigation,
    creation: &mut VaultCreationState,
    recovery: &mut RecoveryState,
    refresh: &mut UtxoRefreshState,
) -> (left: bool)
    ensures
        old(nav).current_view == View::VaultCreation ==> {
            &&& left == (old(creation).step_history@.len() == 0)
            &&& (left ==> final(nav).state() == after_back(old(nav).state()).1)
            &&& (!left ==> final(nav).state() == old(nav).state() && final(creation).current_step
                == old(creation).step_history@.last() && final(creation).step_history@
                == old(creation).step_history@.drop_last())
            &&& final(recovery).model() == old(recovery).model()
            &&& final(refresh).model() == old(refresh).model()
        },
        old(nav).current_view == View::Recovery ==> {
            &&& left == !recovery_back(old(recovery).model()).0
            &&& final(recovery).model() == recovery_back(old(recovery).model()).1
            &&& (left ==> final(nav).state() == after_back(old(nav).state()).1)
            &&& (!left ==> final(nav).state() == old(nav).state())
            &&& final(creation).step_history@ == old(creation).step_history@
            &&& final(refresh).model() == old(refresh).model()
        },
        old(nav).current_view == View::UtxoRefresh ==> {
            &&& left == !refresh_back(old(refresh).model()).0
            &&& final(refresh).model() == refresh_back(old(refresh).model()).1
            &&& (left ==> final(nav).state() == after_back(old(nav).state()).1)
            &&& (!left ==> final(nav).state() == old(nav).state())
            &&& final(creation).step_history@ == old(creation).step_history@
            &&& final(recovery).model() == old(recovery).model()
        },
        old(nav).current_view != View::VaultCreation && old(nav).current_view != View::Recovery
            && old(nav).current_view != View::UtxoRefresh ==> {
            &&& left
            &&& final(nav).state() == after_back(old(nav).state()).1
            &&& final(creation).step_history@ == old(creation).step_history@
            &&& final(creation).current_step == old(creation).current_step
            &&& final(recovery).model() == old(recovery).model()
            &&& final(refresh).model() == old(refresh).model()
        },
{
    match nav.current_view {
        View::VaultCreation => {
            if !creation.go_to_previous_step() {
                nav.go_back();
                true
            } else {
                false
            }
        },
        View::Recovery => {
            if !go_back_in_recovery_workflow(recovery) {
                nav.go_back();
                true
            } else {
                false
            }
        },
        View::UtxoRefresh => {
            if !go_back_in_utxo_refresh_workflow(refresh) {
                nav.go_back();
                true
            } else {
                false
            }
        },
        _ => {
            nav.go_back();
            true
        },
    }
}

/// The dashboard needs a vault whose database is still on disk:
/// `database_exists` is `Some(false)` when the loaded vault's record points
/// to a database that is gone, `None` when the record could not be found.
/// Without a loaded vault, or with its database gone, the vault selection
/// is opened instead; the answer is whether the dashboard may be shown.
pub fn guard_dashboard(nav: &mut Navigation, vault_loaded: bool, database_exists: Option<bool>) -> (show: bool)
    ensures
        show == (vault_loaded && database_exists == Some(true)),
        !show ==> final(nav).state() == after_navigate(old(nav).state(), View::VaultSelection),
        show ==> final(nav).state() == old(nav).state(),
{
    if !vault_loaded {
        nav.navigate_to(View::VaultSelection);
        return false;
    }
    match database_exists {
        Some(true) => true,
        _ => {
            nav.navigate_to(View::VaultSelection);
            false
        },
    }
}

pub open spec fn opt_text(o: Option<String>) -> Option<Seq<char>> {
    match o {
        Some(s) => Some(s@),
        None => None,
    }
}

/// State of the receive screen.
pub struct ReceiveState {
    pub address: Option<String>,
    pub is_loading: bool,
    pub error: Option<String>,
    pub copied: bool,
}

/// Where the receive address comes from.
pub enum AddressSource {
    /// The address already known of the vault.
    Cached(String),
    /// A new address from the wallet, or why there is none.
    Fetched(Fetched<String>),
}

impl ReceiveState {
    pub fn new() -> (s: Self)
        ensures
            s.address is None,
            !s.is_loading,
            s.error is None,
            !s.copied,
    {
        ReceiveState { address: None, is_loading: false, error: None, copied: false }
    }

    /// The receive address, taken from what is known of the vault when
    /// possible, else asked of the wallet. The answer is the address to
    /// remember for the vault when it is a new one.
    pub fn finish_load(&mut self, source: AddressSource) -> (remember: Option<String>)
        ensures
            !final(self).is_loading,
            match source {
                AddressSource::Cached(a) => opt_text(final(self).address) == Some(a@) && final(self).error is None
                    && remember is None,
                AddressSource::Fetched(Fetched::Ready(a)) => opt_text(final(self).address) == Some(a@)
                    && final(self).error is None && opt_text(remember) == Some(a@),
                AddressSource::Fetched(Fetched::Failed(e)) => opt_text(final(self).error) == Some(
                    "Failed to load address: "@ + e@,
                ) && final(self).address == old(self).address && remember is None,
                AddressSource::Fetched(Fetched::Unavailable) => opt_text(final(self).error) == Some(
                    unavailable_message(),
                ) && final(self).address == old(self).address && remember is None,
            },
    {
        self.is_loading = true;
        self.error = None;
        match source {
            AddressSource::Cached(a) => {
                self.address = Some(a);
                self.is_loading = false;
                None
            },
            AddressSource::Fetched(Fetched::Ready(a)) => {
                let keep = a.clone();
                self.address = Some(a);
                self.is_loading = false;
                Some(keep)
            },
            AddressSource::Fetched(Fetched::Failed(e)) => {
                self.error = Some(concat("Failed to load address: ", e.as_str()));
                self.is_loading = false;
                None
            },
            AddressSource::Fetched(Fetched::Unavailable) => {
                self.error = Some(String::from_str("Vault not loaded or runtime not available"));
                self.is_loading = false;
                None
            },
        }
    }
}

} // verus!
