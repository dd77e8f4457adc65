//! Names and values of the entries kept in the platform's secure storage
//! (vault backups, lock time, network, PIN, e-mail), and seed phrase
//! generation.
use vstd::prelude::*;
use crate::text::{decimal, parse_unsigned, parse_u64, push_decimal};

verus! {

/// Backup of a vault, stored as one secure-storage entry.
#[derive(Debug, Clone)]
pub struct BackupInfo {
    pub descriptor_mainnet: String,
    pub descriptor_testnet: String,
    pub mnemonic: String,
    pub name: String,
    pub vault_id: String,
    pub is_coowner: bool,
    pub hardware_wallet_types: Vec<String>,
    pub is_single_device: bool,
    pub email: Option<String>,
}

/// Errors of the key service.
#[derive(Debug)]
pub enum KeyServiceError {
    StorageError(String),
    ReadError,
    SerializationError(String),
    DeserializationError(String),
    GenerationError(String),
    ParseError,
}

/// Secure storage of one application, identified by its service name.
pub struct KeyService {
    service_name: String,
}

/// The entry holding the backup of `vault` on `network`.
pub open spec fn backup_key_text(vault: Seq<char>, network: Seq<char>) -> Seq<char> {
    "backupInfo_"@ + network + "_"@ + vault
}

/// Entries removed when all keychain data is cleared, in order: lock time,
/// network, e-mail and PIN (backups cannot be enumerated and stay).
pub open spec fn cleared_entry_texts() -> Seq<Seq<char>> {
    seq!["locktime"@, "SelectedNetwork"@, "email"@, "pinCode"@]
}

/// The backups among what was read, in order.
pub open spec fn present_backups(s: Seq<Option<BackupInfo>>) -> Seq<BackupInfo>
    decreases s.len(),
{
    if s.len() == 0 {
        Seq::empty()
    } else {
        let rest = present_backups(s.drop_last());
        match s.last() {
            Some(b) => rest.push(b),
            None => rest,
        }
    }
}

/// What a stored lock time reads as: none when nothing could be read, the
/// number when the text is one, a parse error otherwise.
pub open spec fn lock_time_read(stored: Option<Seq<char>>) -> Result<Option<u64>, ()> {
    match stored {
        None => Ok(None),
        Some(t) => match parse_unsigned(t, u64::MAX as nat) {
            Ok(n) => Ok(Some(n as u64)),
            Err(_) => Err(()),
        },
    }
}

impl KeyService {
    pub closed spec fn service(&self) -> Seq<char> {
        self.service_name@
    }

    /// The application's own storage.
    pub fn new() -> (k: Self)
        ensures
            k.service() == "com.BitVault"@,
    {
        KeyService { service_name: String::from_str("com.BitVault") }
    }

    /// Storage under another service name (used to keep test data apart).
    pub fn with_service_name(service_name: String) -> (k: Self)
        ensures
            k.service() == service_name@,
    {
        KeyService { service_name }
    }

    pub fn service_name(&self) -> (s: &String)
        ensures
            s@ == self.service(),
    {
        &self.service_name
    }

    /// Name of the entry holding a vault's backup.
    pub fn backup_info_key(vault: &str, network: &str) -> (k: String)
        ensures
            k@ == backup_key_text(vault@, network@),
    {
        let mut k = String::from_str("backupInfo_");
        k.append(network);
        k.append("_");
        k.append(vault);
        k
    }

    /// Name of the entry holding the lock time.
    pub fn lock_time_key() -> (k: &'static str)
        ensures
            k@ == "locktime"@,
    {
        "locktime"
    }

    /// Name of the entry holding the selected network.
    pub fn network_key() -> (k: &'static str)
        ensures
            k@ == "SelectedNetwork"@,
    {
        "SelectedNetwork"
    }

    /// Name of the entry holding the encrypted PIN.
    pub fn pin_code_key() -> (k: &'static str)
        ensures
            k@ == "pinCode"@,
    {
        "pinCode"
    }

    /// Name of the entry holding the e-mail address.
    pub fn email_key() -> (k: &'static str)
        ensures
            k@ == "email"@,
    {
        "email"
    }

    /// The entries that hold the backups of the given vaults on a network,
    /// in the same order.
    pub fn backup_info_keys(vault_ids: &Vec<String>, network: &str) -> (keys: Vec<String>)
        ensures
            keys@.len() == vault_ids@.len(),
            forall|i: int| 0 <= i < keys@.len() ==> #[trigger] keys@[i]@ == backup_key_text(vault_ids@[i]@, network@),
    {
        let mut keys: Vec<String> = Vec::new();
        let mut i: usize = 0;
        while i < vault_ids.len()
            invariant
                i <= vault_ids@.len(),
                keys@.len() == i,
                forall|k: int| 0 <= k < i ==> #[trigger] keys@[k]@ == backup_key_text(vault_ids@[k]@, network@),
            decreases vault_ids@.len() - i,
        {
            keys.push(Self::backup_info_key(vault_ids[i].as_str(), network));
            i = i + 1;
        }
        keys
    }

    /// All backups stored for a network. The storage cannot list its
    /// entries, so they are read at the entries of the known vaults
    /// (`backup_info_keys`); `stored[i]` is the backup read at the i-th
    /// entry, or nothing when none is stored there. Every backup found is
    /// returned, in order.
    pub fn get_all_vaults_info(&self, stored: Vec<Option<BackupInfo>>) -> (r: Result<Vec<BackupInfo>, KeyServiceError>)
        ensures
            r matches Ok(v) && v@ == present_backups(stored@),
    {
        let ghost all = stored@;
        let mut rest = stored;
        let mut found: Vec<BackupInfo> = Vec::new();
        let n = rest.len();
        let mut i: usize = 0;
        assert(all.take(0) =~= Seq::<Option<BackupInfo>>::empty());
        assert(all.skip(0) =~= all);
        while i < n
            invariant
                n == all.len(),
                i <= n,
                rest@ == all.skip(i as int),
                found@ == present_backups(all.take(i as int)),
            decreases n - i,
        {
            assert(all.take(i + 1).drop_last() =~= all.take(i as int));
            assert(all.take(i + 1).last() == all[i as int]);
            let x = rest.remove(0);
            assert(rest@ =~= all.skip(i + 1));
            match x {
                Some(b) => found.push(b),
                None => {},
            }
            i = i + 1;
        }
        assert(all.take(n as int) =~= all);
        Ok(found)
    }

    /// The entries to delete when clearing all keychain data: lock time,
    /// network, e-mail and PIN (backups cannot be enumerated and stay).
    /// Deleting them is best effort and the clearing itself always
    /// succeeds.
    pub fn clear_all_keychain_data(&self) -> (r: Result<Vec<String>, KeyServiceError>)
        ensures
            r matches Ok(keys) && keys@.map_values(|k: String| k@) == cleared_entry_texts(),
    {
        let mut keys = Vec::new();
        keys.push(String::from_str(Self::lock_time_key()));
        keys.push(String::from_str(Self::network_key()));
        keys.push(String::from_str(Self::email_key()));
        keys.push(String::from_str(Self::pin_code_key()));
        assert(keys@.map_values(|k: String| k@) =~= cleared_entry_texts());
        Ok(keys)
    }

    /// The text stored for a lock time.
    pub fn lock_time_text(lock_time: u64) -> (t: String)
        ensures
            t@ == decimal(lock_time as nat),
    {
        let mut t = String::new();
        push_decimal(&mut t, lock_time);
        assert(t@ =~= decimal(lock_time as nat));
        t
    }

    /// Interprets the stored lock time: `None` when the entry could not be
    /// read, the number when it parses, `ParseError` otherwise.
    pub fn lock_time_from_stored(stored: Option<String>) -> (r: Result<Option<u64>, KeyServiceError>)
        ensures
            match stored {
                None => r matches Ok(None),
                Some(t) => match lock_time_read(Some(t@)) {
                    Ok(v) => r matches Ok(x) && x == v,
                    Err(_) => r matches Err(KeyServiceError::ParseError),
                },
            },
    {
        match stored {
            None => Ok(None),
            Some(t) => match parse_u64(t.as_str()) {
                Ok(n) => Ok(Some(n)),
                Err(_) => Err(KeyServiceError::ParseError),
            },
        }
    }

    /// Generates a seed phrase from fresh random entropy: 32 bytes (24 words)
    /// for a long phrase, 16 bytes (12 words) otherwise.
    pub fn generate_seed_phrase(&self, is_long_phrase: bool) -> (r: Result<String, KeyServiceError>)
        ensures
            r matches Ok(p) && exists|e: Seq<u8>| #![trigger bip39_phrase(e)]
                e.len() == (if is_long_phrase {
                    32nat
                } else {
                    16nat
                }) && p@ == bip39_phrase(e),
    {
        let len: usize = if is_long_phrase {
            32
        } else {
            16
        };
        let mut entropy: Vec<u8> = vec![0u8; len];
        fill_random(&mut entropy);
        match mnemonic_from_entropy(entropy.as_slice()) {
            Ok(p) => Ok(p),
            Err(e) => Err(KeyServiceError::GenerationError(e)),
        }
    }
}

impl Default for KeyService {
    fn default() -> (k: Self)
        ensures
            k.service() == "com.BitVault"@,
    {
        KeyService::new()
    }
}

/// A lock time written to storage reads back as the same lock time.
pub proof fn lemma_lock_time_roundtrip(lock_time: u64)
    ensures
        lock_time_read(Some(decimal(lock_time as nat))) == Ok::<Option<u64>, ()>(Some(lock_time)),
{
    crate::text::lemma_parse_decimal(lock_time as nat, u64::MAX as nat);
}

/// Entropy lengths that BIP-39 accepts: a multiple of four bytes from 16 to
/// 32 bytes.
pub open spec fn valid_entropy_len(n: nat) -> bool {
    n % 4 == 0 && 16 <= n <= 32
}

/// The BIP-39 English phrase of some entropy, as `bip39::Mnemonic` prints it.
pub uninterp spec fn bip39_phrase(entropy: Seq<u8>) -> Seq<char>;

/// `bip39::Mnemonic::from_entropy` followed by printing the phrase. The
/// crate accepts exactly the entropy lengths of `valid_entropy_len`; the
/// phrase is named by `bip39_phrase`, and the error text is not stated.
#[verifier::external_body]
pub(crate) fn mnemonic_from_entropy(entropy: &[u8]) -> (r: Result<String, String>)
    ensures
        r is Ok <==> valid_entropy_len(entropy@.len()),
        r matches Ok(p) ==> p@ == bip39_phrase(entropy@),
{
    match bip39::Mnemonic::from_entropy(entropy) {
        Ok(m) => Ok(m.to_string()),
        Err(e) => Err(e.to_string()),
    }
}

/// `rand::RngCore::fill_bytes` on the thread-local generator: overwrites the
/// bytes with random ones; only the length is stated.
#[verifier::external_body]
pub(crate) fn fill_random(buf: &mut Vec<u8>)
    ensures
        final(buf)@.len() == old(buf)@.len(),
{
    rand::RngCore::fill_bytes(&mut rand::thread_rng(), buf.as_mut_slice())
}

/// What `bip39::Mnemonic::parse_in` with the English word list says of a
/// text: `None` when it is a valid phrase, else the text of its error.
pub uninterp spec fn bip39_parse_failure(text: Seq<char>) -> Option<Seq<char>>;

/// `bip39::Mnemonic::parse_in(Language::English, ..)`: whether the text is a
/// valid English phrase (known words, a valid word count, a matching
/// checksum), and the error's text otherwise. Both are named by
/// `bip39_parse_failure`; what the parse decides is not stated.
#[verifier::external_body]
pub(crate) fn check_phrase(text: &str) -> (r: Result<(), String>)
    ensures
        r is Ok <==> bip39_parse_failure(text@) is None,
        r matches Err(e) ==> bip39_parse_failure(text@) == Some(e@),
{
    match bip39::Mnemonic::parse_in(bip39::Language::English, text) {
        Ok(_) => Ok(()),
        Err(e) => Err(e.to_string()),
    }
}

} // verus!
