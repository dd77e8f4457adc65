//! Kinds of buttons and badges of the interface, and the badge that shows a
//! network.
use vstd::prelude::*;
use crate::text::str_eq;

verus! {

/// How a button looks.
#[derive(Debug, Clone, Copy, PartialEq, Eq, Structural)]
pub enum ButtonStyle {
    Primary,
    Secondary,
    Danger,
    Success,
    Text,
}

impl ButtonStyle {
    /// Primary buttons are the large ones; the others share a smaller size.
    pub fn is_large(&self) -> (b: bool)
        ensures
            b == (*self == ButtonStyle::Primary),
    {
        match self {
            ButtonStyle::Primary => true,
            _ => false,
        }
    }

    /// Text buttons get a background only while hovered.
    pub fn highlights_on_hover(&self) -> (b: bool)
        ensures
            b == (*self == ButtonStyle::Text),
    {
        match self {
            ButtonStyle::Text => true,
            _ => false,
        }
    }
}

/// How a badge looks.
#[derive(Debug, Clone, Copy, PartialEq, Eq, Structural)]
pub enum BadgeStyle {
    Success,
    Warning,
    Error,
    Info,
    Neutral,
}

/// The badge of a network's name: mainnet reads as success, testnet as a
/// warning, signet as information, anything else as neutral.
pub open spec fn network_badge_style(name: Seq<char>) -> BadgeStyle {
    if name == "mainnet"@ {
        BadgeStyle::Success
    } else if name == "testnet"@ {
        BadgeStyle::Warning
    } else if name == "signet"@ {
        BadgeStyle::Info
    } else {
        BadgeStyle::Neutral
    }
}

/// The badge of a network's name.
pub fn network_badge(name: &str) -> (b: BadgeStyle)
    ensures
        b == network_badge_style(name@),
{
    if str_eq(name, "mainnet") {
        BadgeStyle::Success
    } else if str_eq(name, "testnet") {
        BadgeStyle::Warning
    } else if str_eq(name, "signet") {
        BadgeStyle::Info
    } else {
        BadgeStyle::Neutral
    }
}

} // verus!
