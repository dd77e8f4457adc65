//! Wallet application state, settings and workflow logic.

pub mod text;
pub mod navigation;
pub mod settings;
pub mod vault_data;
pub mod keys;
pub mod biometrics;
pub mod pin;
pub mod recovery;
pub mod vault_creation;
pub mod seed_verification;
pub mod help;
pub mod address_book;
pub mod subscription;
pub mod hardware_wallet;
pub mod send;
pub mod transactions;
pub mod notifications;
pub mod icons;
pub mod network;
pub mod components;
pub mod telegram;
pub mod advanced_settings;
pub mod app_flow;
pub mod qr;
pub mod qr_scan;
pub mod vault_service;
pub mod utc;
pub mod vault_selection;
pub mod secret_notification;
