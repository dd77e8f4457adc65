//! Screens of the application and the back-navigation history.
use vstd::prelude::*;
use vstd::view::View as _;

verus! {

/// A screen of the application.
#[derive(Debug, Clone, PartialEq)]
pub enum View {
    /// Vault selection (shown on startup when no vault is loaded).
    VaultSelection,
    /// Dashboard; tab 0 is the vault detail, 1 the history, 2 the settings.
    Dashboard { tab: usize },
    VaultCreation,
    SendTransaction,
    Receive,
    TransactionDetail { txid: String },
    Settings,
    Recovery,
    UtxoRefresh,
    Subscription,
    PinEntry,
    PinSetup,
    HelpAndSupport,
    AddressBook,
    AdvancedSettings,
}

impl View {
    /// A copy of this view.
    pub fn duplicate(&self) -> (v: View)
        ensures
            v == *self,
    {
        match self {
            View::VaultSelection => View::VaultSelection,
            View::Dashboard { tab } => View::Dashboard { tab: *tab },
            View::VaultCreation => View::VaultCreation,
            View::SendTransaction => View::SendTransaction,
            View::Receive => View::Receive,
            View::TransactionDetail { txid } => View::TransactionDetail { txid: txid.clone() },
            View::Settings => View::Settings,
            View::Recovery => View::Recovery,
            View::UtxoRefresh => View::UtxoRefresh,
            View::Subscription => View::Subscription,
            View::PinEntry => View::PinEntry,
            View::PinSetup => View::PinSetup,
            View::HelpAndSupport => View::HelpAndSupport,
            View::AddressBook => View::AddressBook,
            View::AdvancedSettings => View::AdvancedSettings,
        }
    }
}

impl Default for View {
    fn default() -> (v: View)
        ensures
            v == View::VaultSelection,
    {
        View::VaultSelection
    }
}

/// The navigation state as a value: the screen shown and the screens to go
/// back to, the most recent last.
pub struct NavState {
    pub current: View,
    pub history: Seq<View>,
}

/// Opening `view` remembers the screen that was shown.
pub open spec fn after_navigate(s: NavState, view: View) -> NavState {
    NavState { current: view, history: s.history.push(s.current) }
}

/// Going back shows the most recently remembered screen and forgets it; with
/// nothing remembered it changes nothing. The flag says whether it moved.
pub open spec fn after_back(s: NavState) -> (bool, NavState) {
    if s.history.len() > 0 {
        (true, NavState { current: s.history.last(), history: s.history.drop_last() })
    } else {
        (false, s)
    }
}

/// Choosing a dashboard tab replaces the screen, without remembering the old
/// one; tabs from 3 on are ignored.
pub open spec fn after_tab(s: NavState, tab: usize) -> NavState {
    if tab < 3 {
        NavState { current: View::Dashboard { tab }, history: s.history }
    } else {
        s
    }
}

/// Navigation state and history.
pub struct Navigation {
    /// The screen shown.
    pub current_view: View,
    /// Screens to return to, the most recent last.
    pub history: Vec<View>,
}

impl Navigation {
    pub open spec fn state(&self) -> NavState {
        NavState { current: self.current_view, history: self.history@ }
    }

    /// Starts on the vault selection with no history.
    pub fn new() -> (n: Self)
        ensures
            n.state() == (NavState { current: View::VaultSelection, history: Seq::empty() }),
    {
        Navigation { current_view: View::default(), history: Vec::new() }
    }

    /// Opens a view, remembering the current one.
    pub fn navigate_to(&mut self, view: View)
        ensures
            final(self).state() == after_navigate(old(self).state(), view),
    {
        let previous = self.current_view.duplicate();
        self.history.push(previous);
        self.current_view = view;
    }

    /// Returns to the previous view; false when there is none.
    pub fn go_back(&mut self) -> (moved: bool)
        ensures
            (moved, final(self).state()) == after_back(old(self).state()),
    {
        match self.history.pop() {
            Some(previous) => {
                self.current_view = previous;
                true
            },
            None => false,
        }
    }

    /// Switches the dashboard tab (0 to 2).
    pub fn set_dashboard_tab(&mut self, tab: usize)
        ensures
            final(self).state() == after_tab(old(self).state(), tab),
    {
        if tab < 3 {
            self.current_view = View::Dashboard { tab };
        }
    }

    /// Whether there is a view to go back to.
    pub fn can_go_back(&self) -> (b: bool)
        ensures
            b == (self.history@.len() > 0),
    {
        self.history.len() > 0
    }

    /// Shows a view without remembering the current one (screens that are
    /// not part of a flow, such as the PIN gate).
    pub fn set_view(&mut self, view: View)
        ensures
            final(self).state() == (NavState { current: view, history: old(self).history@ }),
    {
        self.current_view = view;
    }
}

/// Going back right after opening a view returns exactly to where the user
/// was, with the same history.
pub proof fn lemma_back_undoes_navigate(s: NavState, view: View)
    ensures
        after_back(after_navigate(s, view)) == (true, s),
{
    assert(s.history.push(s.current).drop_last() =~= s.history);
}

/// Going back with an empty history neither moves nor changes anything.
pub proof fn lemma_back_at_start(s: NavState)
    requires
        s.history.len() == 0,
    ensures
        after_back(s) == (false, s),
{
}

/// Opening views grows the history by one each time, and going back shrinks
/// it by one while there is something to go back to.
pub proof fn lemma_history_length(s: NavState, view: View)
    ensures
        after_navigate(s, view).history.len() == s.history.len() + 1,
        s.history.len() > 0 ==> after_back(s).1.history.len() == s.history.len() - 1,
{
}

/// Switching tabs never touches the history.
pub proof fn lemma_tab_keeps_history(s: NavState, tab: usize)
    ensures
        after_tab(s, tab).history == s.history,
{
}

} // verus!
