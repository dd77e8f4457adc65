use bitvault_app::network::Network;
use bitvault_app::notifications::{notification_for, NotificationService};
use bitvault_app::qr::generate_qr_image;
use bitvault_app::qr_scan::{check_rgb_size, decode_gray, first_payload, rgb_data_of, CodeOutcome};
use bitvault_app::subscription::paid_until_line;
use bitvault_app::transactions::{TransactionInfo, TransactionStatus};
use bitvault_app::vault_service::{VaultService, VaultServiceError};

#[test]
fn transaction_notifications() {
    let s = NotificationService::new();
    let txid = "abcdef0123456789abcdef0123456789";
    let n = s.notify_transaction_sent(txid, 150_000_000).unwrap();
    assert_eq!(n.title, "Transaction Sent");
    assert_eq!(n.body, "Sent 1.50000000 BTC\nTXID: abcdef0123456789");
    let n = s.notify_transaction_received(1).unwrap();
    assert_eq!(n.title, "Transaction Received");
    assert_eq!(n.body, "Received 0.00000001 BTC");
    let n = s.notify_transaction_confirmed("short").unwrap();
    assert_eq!(n.title, "Transaction Confirmed");
    assert_eq!(n.body, "Transaction confirmed\nTXID: short");
}

fn tx_at(ts: i64) -> TransactionInfo {
    TransactionInfo {
        tx_id: "t".to_string(),
        status: TransactionStatus::Received,
        timestamp: ts,
        address: "bc1qdest".to_string(),
        amount_received_sat: 1,
        amount_sent_sat: 0,
        fee_sat: None,
        outgoing: false,
        locktime: 0,
        execution_date: 0,
        description: None,
    }
}

#[test]
fn notification_time_falls_back_to_now() {
    assert_eq!(notification_for(&tx_at(1_700_000_000), 42).created_at, 1_700_000_000);
    assert_eq!(notification_for(&tx_at(i64::MAX), 42).created_at, 42);
}

#[test]
fn paid_until_dates() {
    assert_eq!(paid_until_line(Some(1431648000)), Some("Paid until: 2015-05-15 00:00:00 UTC".to_string()));
    assert_eq!(paid_until_line(None), None);
    assert_eq!(paid_until_line(Some(u64::MAX / 2)), None);
}

#[test]
fn rgb_size_check() {
    assert_eq!(check_rgb_size(12, 2, 2), None);
    assert_eq!(check_rgb_size(11, 2, 2), Some("Invalid data size: expected 12 bytes, got 11".to_string()));
}

#[test]
fn first_payload_order() {
    let r = first_payload(vec![CodeOutcome::Undecodable, CodeOutcome::Payload(vec![104, 105]), CodeOutcome::Unreadable]);
    assert_eq!(r, Ok(vec![104, 105]));
    let r = first_payload(vec![CodeOutcome::Undecodable, CodeOutcome::Unreadable, CodeOutcome::Payload(vec![1])]);
    assert_eq!(r, Err("Quircs identify error: Out of bounds".to_string()));
    assert_eq!(first_payload(vec![CodeOutcome::Undecodable]), Err("No QR code found in image".to_string()));
    assert_eq!(first_payload(vec![]), Err("No QR code found in image".to_string()));
}

#[test]
fn gray_image_round_trip() {
    let (side, pixels) = generate_qr_image("hello vault").unwrap();
    let border = 32;
    let full = side + 2 * border;
    let mut gray = vec![255u8; full * full];
    for y in 0..side {
        for x in 0..side {
            gray[(y + border) * full + x + border] = pixels[y * side + x];
        }
    }
    assert_eq!(decode_gray(&gray, full, full), Ok("hello vault".to_string()));
    let blank = vec![255u8; 64 * 64];
    assert_eq!(decode_gray(&blank, 64, 64), Err("No QR code found in image".to_string()));
}

#[test]
fn image_bytes_to_rgb() {
    let raw = vec![1u8, 2, 3];
    assert_eq!(rgb_data_of(&raw), raw);
    let mut img = image::RgbImage::new(2, 1);
    img.put_pixel(1, 0, image::Rgb([10, 20, 30]));
    let mut png = std::io::Cursor::new(Vec::new());
    img.write_to(&mut png, image::ImageFormat::Png).unwrap();
    assert_eq!(rgb_data_of(&png.into_inner()), vec![0, 0, 0, 10, 20, 30]);
}

#[test]
fn vault_service_wallet() {
    let mut v = VaultService::new(Network::Testnet);
    assert!(!v.is_loaded());
    assert!(matches!(v.get_balance(), Err(VaultServiceError::NotInitialized)));
    assert_eq!(v.get_address().unwrap_err().message(), "Generic error: Wallet not initialized");
    assert!(matches!(v.initialize_wallet("not a descriptor"), Err(VaultServiceError::Wallet(_))));
    assert!(!v.is_loaded());

    let secp = bdk::bitcoin::secp256k1::Secp256k1::new();
    let master = bdk::bitcoin::bip32::ExtendedPrivKey::new_master(bdk::bitcoin::Network::Testnet, &[7u8; 32]).unwrap();
    let xpub = bdk::bitcoin::bip32::ExtendedPubKey::from_priv(&secp, &master);
    let descriptor = format!("wpkh({}/*)", xpub);
    assert!(v.initialize_wallet(&descriptor).is_ok());
    assert!(v.is_loaded());
    assert_eq!(v.get_balance().unwrap(), (0, 0));
    assert_eq!(v.addresses_requested(), 0);
    let a = v.get_address().unwrap();
    let b = v.get_address().unwrap();
    assert_eq!(v.addresses_requested(), 2);
    assert!(a.starts_with("tb1q"));
    assert_ne!(a, b);
    let mut w = VaultService::new(Network::Testnet);
    assert!(w.initialize_wallet(&descriptor).is_ok());
    assert_eq!(w.get_address().unwrap(), a);
    assert_eq!(w.get_address().unwrap(), b);
}
