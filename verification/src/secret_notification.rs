//! The screen that turns on notifications through the Telegram bot: asking
//! for the registration link, and trying again after an error.
use vstd::prelude::*;
use crate::vault_data::{AsyncCommand, PendingCommands};

verus! {

/// The state of the notification setup screen.
pub struct SecretNotificationState {
    pub is_loading: bool,
    pub error: Option<String>,
}

impl SecretNotificationState {
    pub fn new() -> (s: Self)
        ensures
            !s.is_loading,
            s.error is None,
    {
        SecretNotificationState { is_loading: false, error: None }
    }

    /// "Open Telegram Bot": the registration link is asked for (when there
    /// is a wallet to ask) and the screen waits for it.
    pub fn open_bot(&mut self, commands: &mut PendingCommands, wallet_ready: bool)
        ensures
            final(self).is_loading,
            final(self).error is None,
            wallet_ready ==> final(commands).queued() == old(commands).queued().push(
                AsyncCommand::RequestTelegramRegistration,
            ),
            !wallet_ready ==> final(commands).queued() == old(commands).queued(),
    {
        self.is_loading = true;
        self.error = None;
        if wallet_ready {
            commands.request_telegram_registration();
        }
    }

    /// "Retry" after an error: the screen waits again.
    pub fn retry(&mut self)
        ensures
            final(self).is_loading,
            final(self).error is None,
    {
        self.error = None;
        self.is_loading = true;
    }
}

} // verus!
