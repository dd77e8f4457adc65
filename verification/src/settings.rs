//! User preferences: display currency, theme, network and biometrics.
//!
//! Reading and writing the settings file is done by the caller; the manager
//! here turns the outcome of a read into the value asked for, and builds the
//! settings to be written back by each setter.
use vstd::prelude::*;

verus! {

/// Fiat or bitcoin currency used to display amounts.
#[derive(Debug, Clone, Copy, PartialEq, Eq, Structural)]
pub enum Currency {
    USD,
    EUR,
    GBP,
    JPY,
    CNY,
    CAD,
    AUD,
    BTC,
}

impl Currency {
    /// The ISO-style code of the currency.
    pub open spec fn code_text(self) -> Seq<char> {
        match self {
            Currency::USD => "USD"@,
            Currency::EUR => "EUR"@,
            Currency::GBP => "GBP"@,
            Currency::JPY => "JPY"@,
            Currency::CNY => "CNY"@,
            Currency::CAD => "CAD"@,
            Currency::AUD => "AUD"@,
            Currency::BTC => "BTC"@,
        }
    }

    /// The human-readable name of the currency.
    pub open spec fn name_text(self) -> Seq<char> {
        match self {
            Currency::USD => "US Dollar"@,
            Currency::EUR => "Euro"@,
            Currency::GBP => "British Pound"@,
            Currency::JPY => "Japanese Yen"@,
            Currency::CNY => "Chinese Yuan"@,
            Currency::CAD => "Canadian Dollar"@,
            Currency::AUD => "Australian Dollar"@,
            Currency::BTC => "Bitcoin"@,
        }
    }

    /// Every currency, in the order offered to the user.
    pub open spec fn all_in_order() -> Seq<Currency> {
        seq![
            Currency::USD,
            Currency::EUR,
            Currency::GBP,
            Currency::JPY,
            Currency::CNY,
            Currency::CAD,
            Currency::AUD,
            Currency::BTC,
        ]
    }

    pub fn code(&self) -> (s: &'static str)
        ensures
            s@ == self.code_text(),
    {
        match self {
            Currency::USD => "USD",
            Currency::EUR => "EUR",
            Currency::GBP => "GBP",
            Currency::JPY => "JPY",
            Currency::CNY => "CNY",
            Currency::CAD => "CAD",
            Currency::AUD => "AUD",
            Currency::BTC => "BTC",
        }
    }

    pub fn name(&self) -> (s: &'static str)
        ensures
            s@ == self.name_text(),
    {
        match self {
            Currency::USD => "US Dollar",
            Currency::EUR => "Euro",
            Currency::GBP => "British Pound",
            Currency::JPY => "Japanese Yen",
            Currency::CNY => "Chinese Yuan",
            Currency::CAD => "Canadian Dollar",
            Currency::AUD => "Australian Dollar",
            Currency::BTC => "Bitcoin",
        }
    }

    pub fn all() -> (v: Vec<Currency>)
        ensures
            v@ == Self::all_in_order(),
    {
        let v = vec![
            Currency::USD,
            Currency::EUR,
            Currency::GBP,
            Currency::JPY,
            Currency::CNY,
            Currency::CAD,
            Currency::AUD,
            Currency::BTC,
        ];
        assert(v@ =~= Self::all_in_order());
        v
    }
}

/// Colour theme of the interface.
#[derive(Debug, Clone, Copy, PartialEq, Eq, Structural)]
pub enum AppTheme {
    Light,
    Dark,
    System,
}

impl AppTheme {
    pub open spec fn display_text(self) -> Seq<char> {
        match self {
            AppTheme::Light => "Light"@,
            AppTheme::Dark => "Dark"@,
            AppTheme::System => "System"@,
        }
    }

    pub open spec fn annotation_text(self) -> Seq<char> {
        match self {
            AppTheme::Light => "Always use light theme"@,
            AppTheme::Dark => "Always use dark theme"@,
            AppTheme::System => "Follow system preference"@,
        }
    }

    pub fn display_name(&self) -> (s: &'static str)
        ensures
            s@ == self.display_text(),
    {
        match self {
            AppTheme::Light => "Light",
            AppTheme::Dark => "Dark",
            AppTheme::System => "System",
        }
    }

    pub fn annotation(&self) -> (s: &'static str)
        ensures
            s@ == self.annotation_text(),
    {
        match self {
            AppTheme::Light => "Always use light theme",
            AppTheme::Dark => "Always use dark theme",
            AppTheme::System => "Follow system preference",
        }
    }

    pub fn all() -> (v: Vec<AppTheme>)
        ensures
            v@ == seq![AppTheme::Light, AppTheme::Dark, AppTheme::System],
    {
        let v = vec![AppTheme::Light, AppTheme::Dark, AppTheme::System];
        assert(v@ =~= seq![AppTheme::Light, AppTheme::Dark, AppTheme::System]);
        v
    }
}

/// The persisted preferences.
#[derive(Debug, Clone)]
pub struct AppSettings {
    pub currency: Currency,
    pub theme: AppTheme,
    /// The selected network's name, when one was chosen.
    pub network: Option<String>,
    /// The biometrics preference; `None` when the user never chose.
    pub biometrics_enabled: Option<bool>,
}

impl AppSettings {
    /// The settings of a fresh installation.
    pub open spec fn is_default(self) -> bool {
        &&& self.currency == Currency::USD
        &&& self.theme == AppTheme::System
        &&& self.network is None
        &&& self.biometrics_enabled is None
    }
}

impl Default for AppSettings {
    fn default() -> (s: Self)
        ensures
            s.is_default(),
    {
        AppSettings {
            currency: Currency::USD,
            theme: AppTheme::System,
            network: None,
            biometrics_enabled: None,
        }
    }
}

/// What a settings read gives for a field: the field of the settings read,
/// or the read's error.
pub open spec fn read_field<T>(loaded: Result<AppSettings, String>, field: spec_fn(AppSettings) -> T) -> Result<T, String> {
    match loaded {
        Ok(s) => Ok(field(s)),
        Err(e) => Err(e),
    }
}

/// The settings to write back after changing one field: the settings read
/// with the change applied, or the read's error.
pub open spec fn write_field(loaded: Result<AppSettings, String>, change: spec_fn(AppSettings) -> AppSettings) -> Result<AppSettings, String> {
    match loaded {
        Ok(s) => Ok(change(s)),
        Err(e) => Err(e),
    }
}

pub open spec fn with_currency(s: AppSettings, c: Currency) -> AppSettings {
    AppSettings { currency: c, ..s }
}

pub open spec fn with_theme(s: AppSettings, t: AppTheme) -> AppSettings {
    AppSettings { theme: t, ..s }
}

pub open spec fn with_biometrics(s: AppSettings, enabled: bool) -> AppSettings {
    AppSettings { biometrics_enabled: Some(enabled), ..s }
}

/// The biometrics preference, off when never chosen.
pub open spec fn biometrics_on(s: AppSettings) -> bool {
    match s.biometrics_enabled {
        Some(b) => b,
        None => false,
    }
}

/// Locates the settings file and interprets what is read from it.
pub struct SettingsManager {
    settings_path: String,
}

impl SettingsManager {
    pub closed spec fn path(&self) -> Seq<char> {
        self.settings_path@
    }

    /// A manager for the settings file at `settings_path`.
    pub fn new(settings_path: String) -> (m: Self)
        ensures
            m.path() == settings_path@,
    {
        SettingsManager { settings_path }
    }

    /// Where the settings are stored.
    pub fn settings_path(&self) -> (p: &String)
        ensures
            p@ == self.path(),
    {
        &self.settings_path
    }

    pub fn get_currency(&self, loaded: Result<AppSettings, String>) -> (r: Result<Currency, String>)
        ensures
            r == read_field(loaded, |s: AppSettings| s.currency),
    {
        match loaded {
            Ok(s) => Ok(s.currency),
            Err(e) => Err(e),
        }
    }

    pub fn set_currency(&self, loaded: Result<AppSettings, String>, currency: Currency) -> (r: Result<AppSettings, String>)
        ensures
            r == write_field(loaded, |s: AppSettings| with_currency(s, currency)),
    {
        match loaded {
            Ok(s) => Ok(AppSettings { currency, ..s }),
            Err(e) => Err(e),
        }
    }

    pub fn get_theme(&self, loaded: Result<AppSettings, String>) -> (r: Result<AppTheme, String>)
        ensures
            r == read_field(loaded, |s: AppSettings| s.theme),
    {
        match loaded {
            Ok(s) => Ok(s.theme),
            Err(e) => Err(e),
        }
    }

    pub fn set_theme(&self, loaded: Result<AppSettings, String>, theme: AppTheme) -> (r: Result<AppSettings, String>)
        ensures
            r == write_field(loaded, |s: AppSettings| with_theme(s, theme)),
    {
        match loaded {
            Ok(s) => Ok(AppSettings { theme, ..s }),
            Err(e) => Err(e),
        }
    }

    pub fn get_network(&self, loaded: Result<AppSettings, String>) -> (r: Result<Option<String>, String>)
        ensures
            r == read_field(loaded, |s: AppSettings| s.network),
    {
        match loaded {
            Ok(s) => Ok(s.network),
            Err(e) => Err(e),
        }
    }

    pub fn set_network(&self, loaded: Result<AppSettings, String>, network: String) -> (r: Result<AppSettings, String>)
        ensures
            match loaded {
                Ok(s) => {
                    &&& r matches Ok(n)
                    &&& r->Ok_0.currency == s.currency
                    &&& r->Ok_0.theme == s.theme
                    &&& r->Ok_0.biometrics_enabled == s.biometrics_enabled
                    &&& r->Ok_0.network matches Some(t)
                    &&& r->Ok_0.network->Some_0@ == network@
                },
                Err(e) => r == Err::<AppSettings, String>(e),
            },
    {
        match loaded {
            Ok(s) => Ok(AppSettings { network: Some(network), ..s }),
            Err(e) => Err(e),
        }
    }

    pub fn get_biometrics_enabled(&self, loaded: Result<AppSettings, String>) -> (r: Result<bool, String>)
        ensures
            r == read_field(loaded, |s: AppSettings| biometrics_on(s)),
    {
        match loaded {
            Ok(s) => match s.biometrics_enabled {
                Some(b) => Ok(b),
                None => Ok(false),
            },
            Err(e) => Err(e),
        }
    }

    pub fn set_biometrics_enabled(&self, loaded: Result<AppSettings, String>, enabled: bool) -> (r: Result<AppSettings, String>)
        ensures
            r == write_field(loaded, |s: AppSettings| with_biometrics(s, enabled)),
    {
        match loaded {
            Ok(s) => Ok(AppSettings { biometrics_enabled: Some(enabled), ..s }),
            Err(e) => Err(e),
        }
    }
}

/// Reading a field back from the settings a setter produced gives the value
/// that was set, and the setter leaves every other field as it was.
pub proof fn lemma_settings_read_after_write(s: AppSettings, c: Currency, t: AppTheme, b: bool)
    ensures
        with_currency(s, c).currency == c,
        with_currency(s, c).theme == s.theme,
        with_currency(s, c).network == s.network,
        with_currency(s, c).biometrics_enabled == s.biometrics_enabled,
        with_theme(s, t).theme == t,
        with_theme(s, t).currency == s.currency,
        with_theme(s, t).network == s.network,
        with_theme(s, t).biometrics_enabled == s.biometrics_enabled,
        biometrics_on(with_biometrics(s, b)) == b,
        with_biometrics(s, b).currency == s.currency,
        with_biometrics(s, b).theme == s.theme,
        with_biometrics(s, b).network == s.network,
{
}

/// A failed read makes every getter and setter fail with the read's error.
pub proof fn lemma_settings_read_error(e: String, c: Currency)
    ensures
        read_field(Err::<AppSettings, String>(e), |s: AppSettings| s.currency) == Err::<Currency, String>(e),
        write_field(Err::<AppSettings, String>(e), |s: AppSettings| with_currency(s, c)) == Err::<
            AppSettings,
            String,
        >(e),
{
}

/// On a fresh installation biometrics count as off and the currency is USD.
pub proof fn lemma_default_settings(s: AppSettings)
    requires
        s.is_default(),
    ensures
        biometrics_on(s) == false,
        s.currency == Currency::USD,
        s.theme == AppTheme::System,
{
}

} // verus!
