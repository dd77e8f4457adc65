//! PIN setup, PIN entry and PIN verification: the keypad, the checks made
//! when six digits are in, and the messages shown.
use vstd::prelude::*;
use vstd::utf8::encode_utf8;
use crate::biometrics::{BiometricResult, BiometricType};
use crate::text::{
    clear_string, concat, contains_seq, contains_str, decimal, digit_char, digit_str, pop_char,
    push_decimal, str_eq,
};

verus! {

/// Number of digits of a PIN.
pub const PIN_LENGTH: usize = 6;

/// A PIN is acceptable when it is six bytes long and has at least four
/// different characters (so that `111111` or `121212` are refused).
pub open spec fn valid_pin_text(pin: Seq<char>) -> bool {
    encode_utf8(pin).len() == 6 && pin.to_set().len() >= 4
}

/// Checks the security requirements of a PIN.
pub fn is_valid_pin(pin: &str) -> (b: bool)
    ensures
        b == valid_pin_text(pin@),
        b ==> pin@.to_set().len() >= 4,
        pin@.to_set().len() < 4 ==> !b,
{
    if pin.as_bytes().len() != 6 {
        return false;
    }
    let n = pin.unicode_len();
    let mut seen: Vec<char> = Vec::new();
    let mut i: usize = 0;
    while i < n
        invariant
            n == pin@.len(),
            i <= n,
            seen@.no_duplicates(),
            forall|x: char| seen@.contains(x) <==> pin@.subrange(0, i as int).contains(x),
        decreases n - i,
    {
        let c = pin.get_char(i);
        let mut found = false;
        let mut k: usize = 0;
        while k < seen.len()
            invariant
                k <= seen@.len(),
                found == exists|j: int| 0 <= j < k && seen@[j] == c,
            decreases seen@.len() - k,
        {
            if seen[k] == c {
                found = true;
            }
            k = k + 1;
        }
        let ghost before = seen@;
        if !found {
            seen.push(c);
            assert forall|a: int, b: int| 0 <= a < b < seen@.len() implies seen@[a] != seen@[b] by {
                if b == seen@.len() - 1 {
                    assert(before[a] == seen@[a]);
                }
            }
        }
        proof {
            let sub_i = pin@.subrange(0, i as int);
            let sub = pin@.subrange(0, i + 1);
            assert(sub =~= sub_i.push(c));
            assert forall|x: char| sub.contains(x) <==> (sub_i.contains(x) || x == c) by {
                lemma_push_contains(sub_i, c, x);
            }
            if found {
                assert(before.contains(c));
                assert(seen@ == before);
            } else {
                assert forall|x: char| seen@.contains(x) <==> (before.contains(x) || x == c) by {
                    lemma_push_contains(before, c, x);
                }
            }
            assert forall|x: char| seen@.contains(x) <==> sub.contains(x) by {
                assert(before.contains(x) <==> sub_i.contains(x));
                if x == c && found {
                    assert(before.contains(c));
                }
            }
        }
        i = i + 1;
    }
    proof {
        assert(pin@.subrange(0, n as int) =~= pin@);
        assert(seen@.to_set() =~= pin@.to_set());
        seen@.unique_seq_to_set();
    }
    seen.len() >= 4
}

proof fn lemma_push_contains(s: Seq<char>, c: char, x: char)
    ensures
        s.push(c).contains(x) <==> (s.contains(x) || x == c),
{
    let t = s.push(c);
    if s.contains(x) {
        let j = choose|j: int| 0 <= j < s.len() && s[j] == x;
        assert(t[j] == x);
    }
    if x == c {
        assert(t[s.len() as int] == x);
    }
    if t.contains(x) {
        let j = choose|j: int| 0 <= j < t.len() && t[j] == x;
        if j < s.len() {
            assert(s[j] == x);
        }
    }
}

/// A key of the PIN keypad.
#[derive(Debug, Clone, Copy, PartialEq, Eq, Structural)]
pub enum PinKey {
    /// A digit key, 0 to 9.
    Digit(u8),
    Delete,
}

pub open spec fn key_ok(key: PinKey) -> bool {
    key matches PinKey::Digit(d) ==> d < 10
}

/// What a keypad press does to the digits typed: a digit is added while
/// fewer than six are typed, delete removes the last one.
pub open spec fn typed(digits: Seq<char>, key: PinKey) -> Seq<char> {
    match key {
        PinKey::Digit(d) => if digits.len() < 6 {
            digits.push(digit_char(d as nat))
        } else {
            digits
        },
        PinKey::Delete => if digits.len() > 0 {
            digits.drop_last()
        } else {
            digits
        },
    }
}

/// Digits typed so far: at most six decimal digits.
pub open spec fn keypad_text(s: Seq<char>) -> bool {
    s.len() <= 6 && forall|i: int| 0 <= i < s.len() ==> crate::text::is_digit(#[trigger] s[i])
}

proof fn lemma_typed_keeps_keypad_text(s: Seq<char>, key: PinKey)
    requires
        keypad_text(s),
        key_ok(key),
    ensures
        keypad_text(typed(s, key)),
{
    if let PinKey::Digit(d) = key {
        if s.len() < 6 {
            let t = s.push(digit_char(d as nat));
            assert forall|i: int| 0 <= i < t.len() implies crate::text::is_digit(#[trigger] t[i]) by {
                if i < s.len() {
                    assert(t[i] == s[i]);
                }
            }
        }
    }
}

fn apply_key(digits: &mut String, key: PinKey)
    requires
        key_ok(key),
    ensures
        final(digits)@ == typed(old(digits)@, key),
{
    match key {
        PinKey::Digit(d) => {
            if digits.unicode_len() < PIN_LENGTH {
                digits.append(digit_str(d as u64));
            }
        },
        PinKey::Delete => {
            pop_char(digits);
        },
    }
}

// ---------------------------------------------------------------------------
// PIN setup
// ---------------------------------------------------------------------------

/// Step of the PIN setup.
#[derive(Debug, Clone, Copy, PartialEq, Eq, Structural)]
pub enum PinSetupStep {
    EnterPin,
    ConfirmPin,
}

/// The PIN setup as a value.
pub struct SetupModel {
    pub pin: Seq<char>,
    pub confirm: Seq<char>,
    pub step: PinSetupStep,
    pub error: Option<Seq<char>>,
}

pub open spec fn setup_start() -> SetupModel {
    SetupModel { pin: Seq::empty(), confirm: Seq::empty(), step: PinSetupStep::EnterPin, error: None }
}

/// A keypad press goes to the PIN while it is entered and to the
/// confirmation afterwards.
pub open spec fn setup_after_key(m: SetupModel, key: PinKey) -> SetupModel {
    match m.step {
        PinSetupStep::EnterPin => SetupModel { pin: typed(m.pin, key), ..m },
        PinSetupStep::ConfirmPin => SetupModel { confirm: typed(m.confirm, key), ..m },
    }
}

pub open spec fn weak_pin_message() -> Seq<char> {
    "PIN must contain at least 4 different digits"@
}

pub open spec fn mismatch_message() -> Seq<char> {
    "PINs do not match. Please try again."@
}

/// The check made once six digits are typed: a weak PIN is refused and
/// cleared, an acceptable one moves on to the confirmation; a confirmation
/// equal to the PIN asks for the PIN to be saved, a different one starts
/// over. The flag tells whether the PIN is to be saved.
pub open spec fn setup_check(m: SetupModel) -> (bool, SetupModel) {
    match m.step {
        PinSetupStep::EnterPin => if m.pin.len() == 6 {
            if !valid_pin_text(m.pin) {
                (false, SetupModel { pin: Seq::empty(), error: Some(weak_pin_message()), ..m })
            } else {
                (false, SetupModel { step: PinSetupStep::ConfirmPin, error: None, ..m })
            }
        } else {
            (false, m)
        },
        PinSetupStep::ConfirmPin => if m.confirm.len() == 6 {
            if m.confirm == m.pin {
                (true, m)
            } else {
                (
                    false,
                    SetupModel {
                        pin: Seq::empty(),
                        confirm: Seq::empty(),
                        step: PinSetupStep::EnterPin,
                        error: Some(mismatch_message()),
                    },
                )
            }
        } else {
            (false, m)
        },
    }
}

/// After saving: success starts the setup over; a failure is reported and
/// the confirmation has to be typed again.
pub open spec fn setup_after_save(m: SetupModel, failure: Option<Seq<char>>) -> SetupModel {
    match failure {
        None => setup_start(),
        Some(e) => SetupModel {
            confirm: Seq::empty(),
            error: Some("Failed to save PIN: "@ + e),
            ..m
        },
    }
}

/// What the PIN setup asks the caller to do after a check.
#[derive(Debug)]
pub enum PinSetupAction {
    /// Nothing yet.
    Wait,
    /// Store this PIN, then report the outcome with `finish_save`.
    SavePin(String),
}

/// State of the PIN setup screen.
pub struct PinSetupState {
    pin: String,
    confirm_pin: String,
    step: PinSetupStep,
    error: Option<String>,
}

pub open spec fn opt_text(o: Option<String>) -> Option<Seq<char>> {
    match o {
        Some(s) => Some(s@),
        None => None,
    }
}

impl PinSetupState {
    pub closed spec fn model(&self) -> SetupModel {
        SetupModel {
            pin: self.pin@,
            confirm: self.confirm_pin@,
            step: self.step,
            error: opt_text(self.error),
        }
    }

    /// Both fields hold at most six digits.
    pub closed spec fn wf(&self) -> bool {
        keypad_text(self.pin@) && keypad_text(self.confirm_pin@)
    }

    pub fn new() -> (s: Self)
        ensures
            s.model() == setup_start(),
            s.wf(),
    {
        PinSetupState {
            pin: String::new(),
            confirm_pin: String::new(),
            step: PinSetupStep::EnterPin,
            error: None,
        }
    }

    /// Forgets everything typed and starts over.
    pub fn clear(&mut self)
        ensures
            final(self).model() == setup_start(),
            final(self).wf(),
    {
        clear_string(&mut self.pin);
        clear_string(&mut self.confirm_pin);
        self.step = PinSetupStep::EnterPin;
        self.error = None;
    }

    pub fn step(&self) -> (s: PinSetupStep)
        ensures
            s == self.model().step,
    {
        self.step
    }

    /// Number of digits typed in the field being entered.
    pub fn typed_len(&self) -> (n: usize)
        ensures
            n == (match self.model().step {
                PinSetupStep::EnterPin => self.model().pin.len(),
                PinSetupStep::ConfirmPin => self.model().confirm.len(),
            }),
    {
        match self.step {
            PinSetupStep::EnterPin => self.pin.unicode_len(),
            PinSetupStep::ConfirmPin => self.confirm_pin.unicode_len(),
        }
    }

    pub fn error(&self) -> (e: Option<&String>)
        ensures
            match e {
                Some(s) => self.model().error == Some(s@),
                None => self.model().error is None,
            },
    {
        self.error.as_ref()
    }

    /// A keypad press.
    pub fn press(&mut self, key: PinKey)
        requires
            old(self).wf(),
            key_ok(key),
        ensures
            final(self).model() == setup_after_key(old(self).model(), key),
            final(self).wf(),
    {
        proof {
            lemma_typed_keeps_keypad_text(self.pin@, key);
            lemma_typed_keeps_keypad_text(self.confirm_pin@, key);
        }
        match self.step {
            PinSetupStep::EnterPin => apply_key(&mut self.pin, key),
            PinSetupStep::ConfirmPin => apply_key(&mut self.confirm_pin, key),
        }
    }

    /// The check made after the keypad on each update.
    pub fn check(&mut self) -> (action: PinSetupAction)
        requires
            old(self).wf(),
        ensures
            final(self).wf(),
            final(self).model() == setup_check(old(self).model()).1,
            match action {
                PinSetupAction::Wait => !setup_check(old(self).model()).0,
                PinSetupAction::SavePin(p) => setup_check(old(self).model()).0 && p@ == old(
                    self,
                ).model().pin,
            },
    {
        match self.step {
            PinSetupStep::EnterPin => {
                if self.pin.unicode_len() == PIN_LENGTH {
                    if !is_valid_pin(self.pin.as_str()) {
                        self.error = Some(
                            String::from_str("PIN must contain at least 4 different digits"),
                        );
                        clear_string(&mut self.pin);
                    } else {
                        self.step = PinSetupStep::ConfirmPin;
                        self.error = None;
                    }
                }
                PinSetupAction::Wait
            },
            PinSetupStep::ConfirmPin => {
                if self.confirm_pin.unicode_len() == PIN_LENGTH {
                    if str_eq(self.confirm_pin.as_str(), self.pin.as_str()) {
                        PinSetupAction::SavePin(self.pin.clone())
                    } else {
                        self.error = Some(String::from_str("PINs do not match. Please try again."));
                        clear_string(&mut self.pin);
                        clear_string(&mut self.confirm_pin);
                        self.step = PinSetupStep::EnterPin;
                        PinSetupAction::Wait
                    }
                } else {
                    PinSetupAction::Wait
                }
            },
        }
    }

    /// Reports the outcome of saving the PIN; true when it was saved.
    pub fn finish_save(&mut self, saved: Result<(), String>) -> (done: bool)
        requires
            old(self).wf(),
        ensures
            final(self).wf(),
            done == saved is Ok,
            final(self).model() == setup_after_save(
                old(self).model(),
                match saved {
                    Ok(_) => None,
                    Err(e) => Some(e@),
                },
            ),
    {
        match saved {
            Ok(()) => {
                self.clear();
                true
            },
            Err(e) => {
                self.error = Some(concat("Failed to save PIN: ", e.as_str()));
                clear_string(&mut self.confirm_pin);
                false
            },
        }
    }
}

impl Default for PinSetupState {
    fn default() -> (s: Self)
        ensures
            s.model() == setup_start(),
            s.wf(),
    {
        PinSetupState::new()
    }
}

/// Typing six digits in a row on an empty field gives exactly those digits.
pub open spec fn type_all(digits: Seq<char>, keys: Seq<PinKey>) -> Seq<char>
    decreases keys.len(),
{
    if keys.len() == 0 {
        digits
    } else {
        type_all(typed(digits, keys[0]), keys.drop_first())
    }
}

pub open spec fn digit_keys(pin: Seq<char>) -> Seq<PinKey> {
    Seq::new(pin.len(), |i: int| PinKey::Digit((pin[i] as int - '0' as int) as u8))
}

proof fn lemma_type_digits(prefix: Seq<char>, rest: Seq<char>)
    requires
        prefix.len() + rest.len() <= 6,
        forall|i: int| 0 <= i < rest.len() ==> crate::text::is_digit(#[trigger] rest[i]),
    ensures
        type_all(prefix, digit_keys(rest)) == prefix + rest,
    decreases rest.len(),
{
    if rest.len() == 0 {
        assert(prefix + rest =~= prefix);
    } else {
        let c = rest[0];
        let d = (c as int - '0' as int) as u8;
        assert(digit_char(d as nat) == c);
        assert(digit_keys(rest)[0] == PinKey::Digit(d));
        assert(digit_keys(rest).drop_first() =~= digit_keys(rest.drop_first()));
        lemma_type_digits(prefix.push(c), rest.drop_first());
        assert(prefix.push(c) + rest.drop_first() =~= prefix + rest);
    }
}

/// Typing an acceptable PIN, then typing it again, makes the setup ask for
/// that PIN to be saved.
pub proof fn lemma_setup_confirms_same_pin(pin: Seq<char>)
    requires
        pin.len() == 6,
        forall|i: int| 0 <= i < pin.len() ==> crate::text::is_digit(#[trigger] pin[i]),
        valid_pin_text(pin),
    ensures
        ({
            let entered = SetupModel { pin: type_all(Seq::empty(), digit_keys(pin)), ..setup_start() };
            let after_first = setup_check(entered);
            let confirmed = SetupModel {
                confirm: type_all(Seq::empty(), digit_keys(pin)),
                ..after_first.1
            };
            &&& !after_first.0
            &&& after_first.1.step == PinSetupStep::ConfirmPin
            &&& setup_check(confirmed).0
        }),
{
    lemma_type_digits(Seq::empty(), pin);
    assert(Seq::<char>::empty() + pin =~= pin);
}

/// A confirmation that differs from the PIN starts the setup over, with both
/// fields emptied and the mismatch reported.
pub proof fn lemma_setup_mismatch_restarts(m: SetupModel)
    requires
        m.step == PinSetupStep::ConfirmPin,
        m.confirm.len() == 6,
        m.confirm != m.pin,
    ensures
        !setup_check(m).0,
        setup_check(m).1 == (SetupModel {
            pin: Seq::empty(),
            confirm: Seq::empty(),
            step: PinSetupStep::EnterPin,
            error: Some(mismatch_message()),
        }),
{
}

/// A weak PIN is never accepted: it is cleared and the setup stays on the
/// entry step with the reason shown.
pub proof fn lemma_setup_refuses_weak_pin(m: SetupModel)
    requires
        m.step == PinSetupStep::EnterPin,
        m.pin.len() == 6,
        !valid_pin_text(m.pin),
    ensures
        !setup_check(m).0,
        setup_check(m).1.step == PinSetupStep::EnterPin,
        setup_check(m).1.pin.len() == 0,
        setup_check(m).1.error == Some(weak_pin_message()),
{
}

/// A PIN of six digits with fewer than four different digits (such as
/// 112233) is refused on the entry step: it is cleared and the weak-PIN
/// message is shown; the setup never moves on with it.
pub proof fn lemma_setup_refuses_few_digits(m: SetupModel)
    requires
        m.step == PinSetupStep::EnterPin,
        m.pin.len() == 6,
        m.pin.to_set().len() < 4,
    ensures
        !setup_check(m).0,
        setup_check(m).1.step == PinSetupStep::EnterPin,
        setup_check(m).1.pin.len() == 0,
        setup_check(m).1.error == Some(weak_pin_message()),
{
}

/// Nothing is saved before both fields hold six digits.
pub proof fn lemma_setup_saves_only_complete(m: SetupModel)
    requires
        setup_check(m).0,
    ensures
        m.step == PinSetupStep::ConfirmPin,
        m.confirm.len() == 6,
        m.confirm == m.pin,
{
}

// ---------------------------------------------------------------------------
// PIN entry
// ---------------------------------------------------------------------------

/// Why a PIN could not be checked.
#[derive(Debug, Clone)]
pub enum PinValidationError {
    /// Too many failed attempts; seconds to wait.
    RateLimited(u64),
    /// The stored PIN could not be decrypted.
    DecryptionFailed,
    /// No PIN is stored.
    PinNotFound,
    /// Any other failure, with its message.
    Other(String),
}

/// Outcome of checking a typed PIN.
#[derive(Debug, Clone)]
pub enum PinCheck {
    /// No PIN is set up, so nothing was checked.
    NoPinSet,
    Valid,
    Invalid,
    Failed(PinValidationError),
}

pub open spec fn no_pin_message() -> Seq<char> {
    "No PIN is set. Please set up a PIN first."@
}

pub open spec fn invalid_pin_message() -> Seq<char> {
    "Invalid PIN. Please try again."@
}

pub open spec fn decryption_message() -> Seq<char> {
    "Decryption failed. The encryption key may be missing or corrupted. Click 'Reset PIN' below to delete the corrupted PIN and start fresh."@
}

/// The message shown for a failed check.
pub open spec fn validation_error_text(e: PinValidationError) -> Seq<char> {
    match e {
        PinValidationError::RateLimited(secs) => "Too many failed attempts. Please try again in "@
            + decimal((secs / 60) as nat) + " minute(s)."@,
        PinValidationError::DecryptionFailed => decryption_message(),
        PinValidationError::PinNotFound => no_pin_message(),
        PinValidationError::Other(m) => "Error validating PIN: "@ + m@,
    }
}

/// The message shown for a failed check.
pub fn validation_error_message(e: &PinValidationError) -> (s: String)
    ensures
        s@ == validation_error_text(*e),
{
    match e {
        PinValidationError::RateLimited(secs) => {
            let mut s = String::from_str("Too many failed attempts. Please try again in ");
            push_decimal(&mut s, *secs / 60);
            s.append(" minute(s).");
            s
        },
        PinValidationError::DecryptionFailed => String::from_str(
            "Decryption failed. The encryption key may be missing or corrupted. Click 'Reset PIN' below to delete the corrupted PIN and start fresh.",
        ),
        PinValidationError::PinNotFound => String::from_str(
            "No PIN is set. Please set up a PIN first.",
        ),
        PinValidationError::Other(m) => concat("Error validating PIN: ", m.as_str()),
    }
}

/// State of the PIN entry screen.
pub struct PinEntryState {
    pub pin: String,
    pub error: Option<String>,
    pub is_validating: bool,
    pub biometric_available: bool,
    pub biometric_type: BiometricType,
    pub biometric_attempted: bool,
}

impl PinEntryState {
    /// An empty entry; the platform's biometric support is given.
    pub fn new(biometric_available: bool, biometric_type: BiometricType) -> (s: Self)
        ensures
            s.pin@.len() == 0,
            s.error is None,
            !s.is_validating,
            s.biometric_available == biometric_available,
            s.biometric_type == biometric_type,
            !s.biometric_attempted,
    {
        PinEntryState {
            pin: String::new(),
            error: None,
            is_validating: false,
            biometric_available,
            biometric_type,
            biometric_attempted: false,
        }
    }

    /// Forgets the typed PIN, the error and the attempts.
    pub fn clear(&mut self)
        ensures
            final(self).pin@.len() == 0,
            final(self).error is None,
            !final(self).is_validating,
            !final(self).biometric_attempted,
            final(self).biometric_available == old(self).biometric_available,
            final(self).biometric_type == old(self).biometric_type,
    {
        clear_string(&mut self.pin);
        self.error = None;
        self.is_validating = false;
        self.biometric_attempted = false;
    }

    /// A keypad press: a digit is added while fewer than six bytes are
    /// typed, delete removes the last character.
    pub fn press(&mut self, key: PinKey)
        requires
            key_ok(key),
        ensures
            final(self).pin@ == (match key {
                PinKey::Digit(d) => if encode_utf8(old(self).pin@).len() < 6 {
                    old(self).pin@.push(digit_char(d as nat))
                } else {
                    old(self).pin@
                },
                PinKey::Delete => if old(self).pin@.len() > 0 {
                    old(self).pin@.drop_last()
                } else {
                    old(self).pin@
                },
            }),
            final(self).error == old(self).error,
            final(self).is_validating == old(self).is_validating,
            final(self).biometric_available == old(self).biometric_available,
            final(self).biometric_type == old(self).biometric_type,
            final(self).biometric_attempted == old(self).biometric_attempted,
    {
        match key {
            PinKey::Digit(d) => {
                if self.pin.as_str().as_bytes().len() < PIN_LENGTH {
                    self.pin.append(digit_str(d as u64));
                }
            },
            PinKey::Delete => pop_char(&mut self.pin),
        }
    }

    /// When six bytes are typed and no check is running, starts a check and
    /// hands out the PIN to check.
    pub fn begin_validation(&mut self) -> (to_check: Option<String>)
        ensures
            (encode_utf8(old(self).pin@).len() == 6 && !old(self).is_validating) ==> (to_check matches Some(p)
                && p@ == old(self).pin@ && final(self).is_validating),
            !(encode_utf8(old(self).pin@).len() == 6 && !old(self).is_validating) ==> (to_check is None
                && final(self).is_validating == old(self).is_validating),
            final(self).pin == old(self).pin,
            final(self).error == old(self).error,
            final(self).biometric_available == old(self).biometric_available,
            final(self).biometric_type == old(self).biometric_type,
            final(self).biometric_attempted == old(self).biometric_attempted,
    {
        if self.pin.as_str().as_bytes().len() == PIN_LENGTH && !self.is_validating {
            self.is_validating = true;
            Some(self.pin.clone())
        } else {
            None
        }
    }

    /// Reports the outcome of a check; true when the PIN was valid. Any
    /// other outcome clears the PIN and shows why.
    pub fn finish_validation(&mut self, check: PinCheck) -> (validated: bool)
        ensures
            validated == check is Valid,
            check is Valid ==> (final(self).pin@.len() == 0 && final(self).error is None
                && !final(self).is_validating && !final(self).biometric_attempted),
            !(check is Valid) ==> {
                &&& final(self).pin@.len() == 0
                &&& !final(self).is_validating
                &&& final(self).biometric_attempted == old(self).biometric_attempted
                &&& final(self).error matches Some(m)
                &&& final(self).error->Some_0@ == (match check {
                    PinCheck::NoPinSet => no_pin_message(),
                    PinCheck::Invalid => invalid_pin_message(),
                    PinCheck::Failed(e) => validation_error_text(e),
                    PinCheck::Valid => Seq::empty(),
                })
            },
            final(self).biometric_available == old(self).biometric_available,
            final(self).biometric_type == old(self).biometric_type,
    {
        match check {
            PinCheck::Valid => {
                self.clear();
                true
            },
            PinCheck::NoPinSet => {
                self.error = Some(String::from_str("No PIN is set. Please set up a PIN first."));
                clear_string(&mut self.pin);
                self.is_validating = false;
                false
            },
            PinCheck::Invalid => {
                self.error = Some(String::from_str("Invalid PIN. Please try again."));
                clear_string(&mut self.pin);
                self.is_validating = false;
                false
            },
            PinCheck::Failed(e) => {
                self.error = Some(validation_error_message(&e));
                clear_string(&mut self.pin);
                self.is_validating = false;
                false
            },
        }
    }

    /// The option to reset the PIN is offered after a decryption failure.
    pub fn offers_reset(&self) -> (b: bool)
        ensures
            b == (match self.error {
                Some(e) => contains_seq(e@, "Decryption failed"@),
                None => false,
            }),
    {
        match &self.error {
            Some(e) => contains_str(e.as_str(), "Decryption failed"),
            None => false,
        }
    }

    /// Reports the outcome of deleting the stored PIN. A reset never lets
    /// the user in: the answer (whether the entry is validated) is always
    /// false. Once the PIN is deleted the entry is emptied, and the user
    /// must set up a new PIN; otherwise the error says why it failed.
    pub fn finish_reset(&mut self, deleted: Result<(), String>) -> (validated: bool)
        ensures
            !validated,
            deleted is Ok ==> (final(self).pin@.len() == 0 && final(self).error is None
                && !final(self).is_validating),
            deleted matches Err(e) ==> (final(self).error matches Some(m) && final(self).error->Some_0@
                == "Failed to reset PIN: "@ + e@ && final(self).pin == old(self).pin),
    {
        match deleted {
            Ok(()) => {
                self.clear();
            },
            Err(e) => {
                self.error = Some(concat("Failed to reset PIN: ", e.as_str()));
            },
        }
        false
    }

    /// Starts a biometric attempt when biometrics are available and
    /// enabled, handing out the reason shown to the user.
    pub fn begin_biometric(&mut self, enabled: bool) -> (reason: Option<String>)
        ensures
            (old(self).biometric_available && enabled) ==> (reason matches Some(r) && r@
                == "Authenticate using "@ + old(self).biometric_type.display_text()
                && final(self).biometric_attempted),
            !(old(self).biometric_available && enabled) ==> (reason is None && final(self).biometric_attempted
                == old(self).biometric_attempted),
            final(self).pin == old(self).pin,
            final(self).error == old(self).error,
            final(self).is_validating == old(self).is_validating,
            final(self).biometric_available == old(self).biometric_available,
            final(self).biometric_type == old(self).biometric_type,
    {
        if !self.biometric_available {
            return None;
        }
        if !enabled {
            return None;
        }
        self.biometric_attempted = true;
        Some(concat("Authenticate using ", self.biometric_type.display_name()))
    }

    /// Reports the outcome of a biometric attempt; true on success.
    pub fn finish_biometric(&mut self, result: BiometricResult) -> (ok: bool)
        ensures
            ok == result is Success,
            match result {
                BiometricResult::Success => final(self).error is None,
                BiometricResult::Cancelled => final(self).error is None,
                BiometricResult::Failed(e) => final(self).error matches Some(m)
                    && final(self).error->Some_0@ == "Biometric authentication failed: "@ + e@,
                _ => final(self).error matches Some(m) && final(self).error->Some_0@
                    == old(self).biometric_type.display_text() + " is not available or not enrolled"@,
            },
            final(self).pin == old(self).pin,
            final(self).is_validating == old(self).is_validating,
            final(self).biometric_available == old(self).biometric_available,
            final(self).biometric_type == old(self).biometric_type,
            final(self).biometric_attempted == old(self).biometric_attempted,
    {
        match result {
            BiometricResult::Success => {
                self.error = None;
                true
            },
            BiometricResult::Cancelled => {
                self.error = None;
                false
            },
            BiometricResult::Failed(e) => {
                self.error = Some(concat("Biometric authentication failed: ", e.as_str()));
                false
            },
            BiometricResult::NotAvailable | BiometricResult::NotEnrolled => {
                self.error = Some(
                    concat(self.biometric_type.display_name(), " is not available or not enrolled"),
                );
                false
            },
        }
    }
}

// ---------------------------------------------------------------------------
// PIN verification before sensitive operations
// ---------------------------------------------------------------------------

/// State of the PIN verification dialog.
pub struct PinVerificationState {
    pin_entry: PinEntryState,
    is_visible: bool,
    verified: bool,
    error: Option<String>,
}

impl PinVerificationState {
    pub closed spec fn visible(&self) -> bool {
        self.is_visible
    }

    pub closed spec fn is_ok(&self) -> bool {
        self.verified
    }

    pub closed spec fn typed(&self) -> Seq<char> {
        self.pin_entry.pin@
    }

    pub closed spec fn checking(&self) -> bool {
        self.pin_entry.is_validating
    }

    pub closed spec fn message(&self) -> Option<Seq<char>> {
        opt_text(self.error)
    }

    /// Biometrics can be offered in the dialog.
    pub closed spec fn biometrics_offered(&self) -> bool {
        self.pin_entry.biometric_available
    }

    /// The platform's biometric method.
    pub closed spec fn biometric_kind(&self) -> BiometricType {
        self.pin_entry.biometric_type
    }

    /// A biometric attempt was already made.
    pub closed spec fn biometric_tried(&self) -> bool {
        self.pin_entry.biometric_attempted
    }

    /// A hidden, unverified dialog.
    pub fn new(biometric_available: bool, biometric_type: BiometricType) -> (s: Self)
        ensures
            !s.visible(),
            !s.is_ok(),
            s.typed().len() == 0,
            s.message() is None,
            !s.checking(),
            s.biometrics_offered() == biometric_available,
            s.biometric_kind() == biometric_type,
            !s.biometric_tried(),
    {
        PinVerificationState {
            pin_entry: PinEntryState::new(biometric_available, biometric_type),
            is_visible: false,
            verified: false,
            error: None,
        }
    }

    /// Opens the dialog for a new verification.
    pub fn show(&mut self)
        ensures
            final(self).visible(),
            !final(self).is_ok(),
            final(self).typed().len() == 0,
            final(self).message() is None,
            !final(self).checking(),
    {
        self.is_visible = true;
        self.verified = false;
        self.pin_entry.clear();
        self.error = None;
    }

    /// Closes the dialog and forgets the verification.
    pub fn close(&mut self)
        ensures
            !final(self).visible(),
            !final(self).is_ok(),
            final(self).typed().len() == 0,
            final(self).message() is None,
            !final(self).checking(),
    {
        self.is_visible = false;
        self.verified = false;
        self.pin_entry.clear();
        self.error = None;
    }

    pub fn is_verified(&self) -> (b: bool)
        ensures
            b == self.is_ok(),
    {
        self.verified
    }

    pub fn is_visible(&self) -> (b: bool)
        ensures
            b == self.visible(),
    {
        self.is_visible
    }

    /// Forgets the verification once the operation is done; the dialog's
    /// visibility is left as it is.
    pub fn reset(&mut self)
        ensures
            !final(self).is_ok(),
            final(self).typed().len() == 0,
            final(self).message() is None,
            !final(self).checking(),
            final(self).visible() == old(self).visible(),
    {
        self.verified = false;
        self.pin_entry.clear();
        self.error = None;
    }

    pub fn typed_len(&self) -> (n: usize)
        ensures
            n == self.typed().len(),
    {
        self.pin_entry.pin.unicode_len()
    }

    pub fn error(&self) -> (e: Option<&String>)
        ensures
            match e {
                Some(s) => self.message() == Some(s@),
                None => self.message() is None,
            },
    {
        self.error.as_ref()
    }

    /// A keypad press. Digits 1 to 9 are added while fewer than six bytes
    /// are typed; 0 is added the same way and clears the message; delete
    /// removes the last character and clears the message.
    pub fn press(&mut self, key: PinKey)
        requires
            key_ok(key),
        ensures
            final(self).typed() == (match key {
                PinKey::Digit(d) => if encode_utf8(old(self).typed()).len() < 6 {
                    old(self).typed().push(digit_char(d as nat))
                } else {
                    old(self).typed()
                },
                PinKey::Delete => if old(self).typed().len() > 0 {
                    old(self).typed().drop_last()
                } else {
                    old(self).typed()
                },
            }),
            final(self).message() == (match key {
                PinKey::Digit(d) => if d == 0 && encode_utf8(old(self).typed()).len() < 6 {
                    None
                } else {
                    old(self).message()
                },
                PinKey::Delete => None,
            }),
            final(self).visible() == old(self).visible(),
            final(self).is_ok() == old(self).is_ok(),
            final(self).checking() == old(self).checking(),
    {
        match key {
            PinKey::Digit(d) => {
                if self.pin_entry.pin.as_str().as_bytes().len() < PIN_LENGTH {
                    self.pin_entry.press(key);
                    if d == 0 {
                        self.error = None;
                    }
                }
            },
            PinKey::Delete => {
                self.pin_entry.press(key);
                self.error = None;
            },
        }
    }

    /// When the dialog is open with six bytes typed and no check running,
    /// starts a check and hands out the PIN to check.
    pub fn begin_validation(&mut self) -> (to_check: Option<String>)
        ensures
            (old(self).visible() && encode_utf8(old(self).typed()).len() == 6 && !old(self).checking())
                ==> (to_check matches Some(p) && p@ == old(self).typed() && final(self).checking()),
            !(old(self).visible() && encode_utf8(old(self).typed()).len() == 6
                && !old(self).checking()) ==> (to_check is None && final(self).checking()
                == old(self).checking()),
            final(self).typed() == old(self).typed(),
            final(self).message() == old(self).message(),
            final(self).visible() == old(self).visible(),
            final(self).is_ok() == old(self).is_ok(),
    {
        if !self.is_visible {
            return None;
        }
        self.pin_entry.begin_validation()
    }

    /// Reports the outcome of a check (whether the PIN is right, or the
    /// failure's message), then closes the dialog when the PIN was right.
    /// True when the PIN was verified.
    pub fn finish_validation(&mut self, check: Result<bool, String>) -> (verified: bool)
        ensures
            verified == (check == Ok::<bool, String>(true)),
            verified ==> (!final(self).visible() && !final(self).is_ok()
                && final(self).typed().len() == 0),
            check == Ok::<bool, String>(false) ==> (final(self).message() == Some(
                invalid_pin_message(),
            ) && final(self).typed().len() == 0 && !final(self).checking()),
            check matches Err(e) ==> (final(self).message() == Some("Error validating PIN: "@ + e@)
                && final(self).typed().len() == 0 && !final(self).checking()),
            !verified ==> final(self).visible() == old(self).visible(),
            !verified ==> final(self).is_ok() == old(self).is_ok(),
    {
        match check {
            Ok(true) => {
                self.verified = true;
                self.pin_entry.clear();
                self.close();
                true
            },
            Ok(false) => {
                self.error = Some(String::from_str("Invalid PIN. Please try again."));
                clear_string(&mut self.pin_entry.pin);
                self.pin_entry.is_validating = false;
                false
            },
            Err(e) => {
                self.error = Some(concat("Error validating PIN: ", e.as_str()));
                clear_string(&mut self.pin_entry.pin);
                self.pin_entry.is_validating = false;
                false
            },
        }
    }
}

} // verus!
