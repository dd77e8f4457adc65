//! The subscription: the check made before an action that needs one (only
//! on mainnet), what the status screen warns of, and when it reloads.
use vstd::prelude::*;
use crate::recovery::{Fetched, unavailable_message};
use crate::text::{concat, decimal, push_decimal};
use crate::utc::{utc_text, utc_timestamp_text};

verus! {

/// Where to renew the subscription.
pub fn get_subscription_renewal_url() -> (url: String)
    ensures
        url@ == "https://pay.zaprite.com/pl_81YcHRehEj"@,
{
    String::from_str("https://pay.zaprite.com/pl_81YcHRehEj")
}

/// The message refusing `action` when the subscription check failed with
/// `error`.
pub open spec fn expired_message(action: Seq<char>, error: Seq<char>) -> Seq<char> {
    "Subscription expired. Please renew your subscription to "@ + action + ".\n\nError: "@ + error
}

/// The check made before an action that needs a subscription. Off mainnet
/// nothing is checked; without a loaded vault (`validation` is `None`) the
/// action is allowed; otherwise the service's answer decides.
pub fn check_subscription_before_action(
    on_mainnet: bool,
    validation: Option<Result<(), String>>,
    action_name: &str,
) -> (r: Result<(), String>)
    ensures
        r is Ok <==> (!on_mainnet || !(validation matches Some(Err(_)))),
        r matches Err(m) ==> validation matches Some(Err(e)) && m@ == expired_message(action_name@, e@),
{
    if !on_mainnet {
        return Ok(());
    }
    match validation {
        None => Ok(()),
        Some(Ok(())) => Ok(()),
        Some(Err(e)) => {
            let mut m = String::from_str("Subscription expired. Please renew your subscription to ");
            m.append(action_name);
            m.append(".\n\nError: ");
            m.append(e.as_str());
            Err(m)
        },
    }
}

/// What the status screen shows of a subscription.
#[derive(Debug, Clone)]
pub struct SubscriptionInfo {
    /// The subscription allows use of the service.
    pub valid: bool,
    /// It has expired but is within the days of grace.
    pub in_grace_period: bool,
    pub lifetime: bool,
    pub is_active: bool,
    pub days_remaining: Option<i64>,
    /// End of the paid period, in seconds since the Unix epoch.
    pub paid_until: Option<u64>,
    /// The status as the service words it.
    pub status: String,
}

/// The warning shown under the status, if any.
pub open spec fn warning_text(info: SubscriptionInfo) -> Option<Seq<char>> {
    if !info.valid {
        Some("⚠ Subscription expired. Please renew to continue using the service."@)
    } else if info.in_grace_period {
        Some("⚠ Subscription in grace period. Consider renewing to avoid service interruption."@)
    } else {
        match info.days_remaining {
            Some(d) => if 0 < d <= 7 {
                Some("⚠ Subscription expires in "@ + decimal(d as nat) + " days. Consider renewing soon."@)
            } else {
                None
            },
            None => None,
        }
    }
}

/// The warning shown under the status, if any.
pub fn renewal_warning(info: &SubscriptionInfo) -> (w: Option<String>)
    ensures
        match w {
            Some(s) => warning_text(*info) == Some(s@),
            None => warning_text(*info) is None,
        },
{
    if !info.valid {
        return Some(String::from_str("⚠ Subscription expired. Please renew to continue using the service."));
    }
    if info.in_grace_period {
        return Some(
            String::from_str("⚠ Subscription in grace period. Consider renewing to avoid service interruption."),
        );
    }
    match info.days_remaining {
        Some(d) => {
            if 0 < d && d <= 7 {
                let mut m = String::from_str("⚠ Subscription expires in ");
                push_decimal(&mut m, d as u64);
                m.append(" days. Consider renewing soon.");
                Some(m)
            } else {
                None
            }
        },
        None => None,
    }
}

/// The line about the days left: their number while some are left, a
/// notice on the last day, nothing otherwise.
pub open spec fn days_text(days: Option<i64>) -> Option<Seq<char>> {
    match days {
        Some(d) => if d > 0 {
            Some("Days remaining: "@ + decimal(d as nat))
        } else if d == 0 {
            Some("Subscription expires today"@)
        } else {
            None
        },
        None => None,
    }
}

/// The line about the days left.
pub fn days_line(days: Option<i64>) -> (r: Option<String>)
    ensures
        match r {
            Some(s) => days_text(days) == Some(s@),
            None => days_text(days) is None,
        },
{
    match days {
        Some(d) => {
            if d > 0 {
                let mut m = String::from_str("Days remaining: ");
                push_decimal(&mut m, d as u64);
                Some(m)
            } else if d == 0 {
                Some(String::from_str("Subscription expires today"))
            } else {
                None
            }
        },
        None => None,
    }
}

/// The line about the end of the paid period, when there is one that
/// `chrono` can date.
pub open spec fn paid_until_text(paid_until: Option<u64>) -> Option<Seq<char>> {
    match paid_until {
        Some(p) => match utc_text(p as i64) {
            Some(t) => Some("Paid until: "@ + t),
            None => None,
        },
        None => None,
    }
}

/// The line about the end of the paid period.
pub fn paid_until_line(paid_until: Option<u64>) -> (r: Option<String>)
    ensures
        match r {
            Some(s) => paid_until_text(paid_until) == Some(s@),
            None => paid_until_text(paid_until) is None,
        },
{
    match paid_until {
        Some(p) => match utc_timestamp_text(p as i64) {
            Some(t) => Some(concat("Paid until: ", t.as_str())),
            None => None,
        },
        None => None,
    }
}

/// The renewal button is offered when the subscription is not valid, is in
/// its grace period, or has at most seven days left (or is past its end).
pub fn should_show_renewal(info: &SubscriptionInfo) -> (b: bool)
    ensures
        b == (!info.valid || info.in_grace_period || (info.days_remaining matches Some(d) && d <= 7)),
{
    !info.valid || info.in_grace_period || match info.days_remaining {
        Some(d) => d <= 7,
        None => false,
    }
}

/// Milliseconds after which the status shown is reloaded.
pub const STATUS_MAX_AGE_MS: u64 = 60000;

/// State of the subscription status screen.
pub struct SubscriptionStatusState {
    pub subscription_data: Option<SubscriptionInfo>,
    pub is_loading: bool,
    pub error: Option<String>,
    /// When the status was last loaded, in milliseconds.
    pub last_refresh: Option<u64>,
}

pub open spec fn opt_string_view(o: Option<String>) -> Option<Seq<char>> {
    match o {
        Some(s) => Some(s@),
        None => None,
    }
}

/// A status loaded at `last` is stale at `now` after a minute.
pub open spec fn stale(last: Option<u64>, now: u64) -> bool {
    last matches Some(t) && now >= t && now - t > STATUS_MAX_AGE_MS
}

impl SubscriptionStatusState {
    pub fn new() -> (s: Self)
        ensures
            s.subscription_data is None,
            !s.is_loading,
            s.error is None,
            s.last_refresh is None,
    {
        SubscriptionStatusState { subscription_data: None, is_loading: false, error: None, last_refresh: None }
    }

    /// Forgets a status older than a minute at time `now` (milliseconds);
    /// the answer is whether the status should then be loaded (none shown,
    /// none loading).
    pub fn needs_load(&mut self, now: u64) -> (load: bool)
        ensures
            stale(old(self).last_refresh, now) ==> final(self).subscription_data is None
                && final(self).last_refresh is None,
            !stale(old(self).last_refresh, now) ==> final(self).subscription_data == old(self).subscription_data
                && final(self).last_refresh == old(self).last_refresh,
            load == (final(self).subscription_data is None && !old(self).is_loading),
            final(self).is_loading == old(self).is_loading,
            final(self).error == old(self).error,
    {
        match self.last_refresh {
            Some(t) => {
                if now >= t && now - t > STATUS_MAX_AGE_MS {
                    self.subscription_data = None;
                    self.last_refresh = None;
                }
            },
            None => {},
        }
        self.subscription_data.is_none() && !self.is_loading
    }

    /// The status as loaded at time `now`, or why it could not be.
    pub fn finish_load(&mut self, loaded: Fetched<SubscriptionInfo>, now: u64)
        ensures
            !final(self).is_loading,
            match loaded {
                Fetched::Ready(info) => final(self).subscription_data == Some(info) && final(self).last_refresh
                    == Some(now) && final(self).error is None,
                Fetched::Failed(e) => opt_string_view(final(self).error) == Some(
                    "Failed to load subscription: "@ + e@,
                ) && final(self).subscription_data == old(self).subscription_data,
                Fetched::Unavailable => opt_string_view(final(self).error) == Some(unavailable_message())
                    && final(self).subscription_data == old(self).subscription_data,
            },
    {
        self.is_loading = true;
        self.error = None;
        match loaded {
            Fetched::Ready(info) => {
                self.subscription_data = Some(info);
                self.last_refresh = Some(now);
                self.is_loading = false;
            },
            Fetched::Failed(e) => {
                self.error = Some(concat("Failed to load subscription: ", e.as_str()));
                self.is_loading = false;
            },
            Fetched::Unavailable => {
                self.error = Some(String::from_str("Vault not loaded or runtime not available"));
                self.is_loading = false;
            },
        }
    }

    /// "Retry" after an error, or "Refresh Status": the status is forgotten,
    /// to be loaded again.
    pub fn forget(&mut self, clear_error: bool)
        ensures
            final(self).subscription_data is None,
            clear_error ==> final(self).error is None,
            !clear_error ==> final(self).error == old(self).error,
            !clear_error ==> final(self).last_refresh is None,
            clear_error ==> final(self).last_refresh == old(self).last_refresh,
            final(self).is_loading == old(self).is_loading,
    {
        self.subscription_data = None;
        if clear_error {
            self.error = None;
        } else {
            self.last_refresh = None;
        }
    }
}

} // verus!
