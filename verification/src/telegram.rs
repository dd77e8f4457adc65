//! Errors of the Telegram notification service and how they read.
use vstd::prelude::*;
use crate::text::{concat, decimal, push_decimal};

verus! {

/// Errors of the Telegram notification service.
#[derive(Debug, Clone)]
pub enum TelegramServiceError {
    NetworkError(String),
    ServerError { message: String, status_code: u16 },
    ParseError(String),
}

/// How an error reads.
pub open spec fn telegram_error_text(e: TelegramServiceError) -> Seq<char> {
    match e {
        TelegramServiceError::NetworkError(m) => "Network error: "@ + m@,
        TelegramServiceError::ServerError { message, status_code } => "Server error ("@ + decimal(
            status_code as nat,
        ) + "): "@ + message@,
        TelegramServiceError::ParseError(m) => "Parse error: "@ + m@,
    }
}

impl TelegramServiceError {
    /// How the error reads.
    pub fn message(&self) -> (s: String)
        ensures
            s@ == telegram_error_text(*self),
    {
        match self {
            TelegramServiceError::NetworkError(m) => concat("Network error: ", m.as_str()),
            TelegramServiceError::ServerError { message, status_code } => {
                let mut s = String::from_str("Server error (");
                push_decimal(&mut s, *status_code as u64);
                s.append("): ");
                s.append(message.as_str());
                s
            },
            TelegramServiceError::ParseError(m) => concat("Parse error: ", m.as_str()),
        }
    }
}

} // verus!
