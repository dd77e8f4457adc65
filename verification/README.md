# bitvault_app

The state and workflow logic of the BitVault desktop wallet, verified with
Verus.

- `src/` is the library. Each screen's state is a type with a contract on
  every operation: navigation, PIN setup and entry, vault creation and its
  seed-phrase check, recovery and UTXO refresh, sending, transaction
  history, notifications, settings, subscription, address book, QR codes
  (drawing and reading) and the wallet of a vault. Calls into `bip39`,
  `rand`, `qrcode`, `quircs`, `image`, `chrono` and `bdk` (with the
  `bitcoin` types it re-exports) stand behind small trusted wrappers whose contracts are written next to them.
- `tests/` runs the library with the real outside crates.
- `app/` is the program around it: start-up, the stored settings file, the
  system keychain and reading QR codes from image files.

Verify with Verus on `src/lib.rs`; every public function states what it
returns or changes, and the laws that span several functions stand as
public proof functions (`lemma_*`).
