//! The errors that desk discovery, binding and motion can end in.

use vstd::prelude::*;
use vstd::string::StringExecFns;

verus! {

/// One of the two characteristics that a desk must offer.
#[derive(Clone, Copy, Debug, PartialEq, Eq, Structural)]
pub enum CharacteristicKind {
    /// The one that motion commands are written to.
    Control,
    /// The one that the position is read from.
    Position,
}

/// The name under which a characteristic is reported.
pub open spec fn characteristic_name(kind: CharacteristicKind) -> Seq<char> {
    match kind {
        CharacteristicKind::Control => "Control"@,
        CharacteristicKind::Position => "Position"@,
    }
}

impl CharacteristicKind {
    /// The name under which this characteristic is reported.
    pub fn name(&self) -> (name: &'static str)
        ensures
            name@ == characteristic_name(*self),
    {
        match self {
            CharacteristicKind::Control => "Control",
            CharacteristicKind::Position => "Position",
        }
    }
}

/// Everything that can go wrong between finding a desk and moving it.
///
/// None of these is retried by the library: each one is handed to the caller.
#[derive(Clone, Debug, PartialEq, Eq)]
pub enum BtError {
    /// No adapter saw a peripheral that passes the name filter.
    CannotFindDevice,
    /// This characteristic is missing after service discovery.
    CharacteristicsNotFound(CharacteristicKind),
    /// The requested height lies outside the desk's range.
    PositionNotInRange,
    /// The desk refused the subscription to position reports.
    CannotSubscribePosition,
    /// A position report that cannot be decoded.
    MalformedSample,
    /// No desk has been connected yet, or the last attempt failed.
    HandleNotReady,
    /// The Bluetooth stack reported a failure; the text is its description.
    TransportError(String),
}

/// The human-readable text of an error.
pub open spec fn error_text(e: BtError) -> Seq<char> {
    match e {
        BtError::CannotFindDevice => "Cannot find the device."@,
        BtError::CharacteristicsNotFound(kind) => "Bluetooth characteristics not found: '"@
            + characteristic_name(kind) + "'."@,
        BtError::PositionNotInRange =>
            "Desired position has to be between MIN_HEIGHT and MAX_HEIGHT."@,
        BtError::CannotSubscribePosition => "Cannot subscribe to read position."@,
        BtError::MalformedSample => "Malformed position sample."@,
        BtError::HandleNotReady => "No desk is connected."@,
        BtError::TransportError(detail) => "bluetooth error "@ + detail@,
    }
}

impl BtError {
    /// Renders the error as text.
    pub fn message(&self) -> (text: String)
        ensures
            text@ == error_text(*self),
    {
        match self {
            BtError::CannotFindDevice => String::from_str("Cannot find the device."),
            BtError::CharacteristicsNotFound(kind) => {
                let mut text = String::from_str("Bluetooth characteristics not found: '");
                text.append(kind.name());
                text.append("'.");
                text
            },
            BtError::PositionNotInRange => String::from_str(
                "Desired position has to be between MIN_HEIGHT and MAX_HEIGHT.",
            ),
            BtError::CannotSubscribePosition => String::from_str(
                "Cannot subscribe to read position.",
            ),
            BtError::MalformedSample => String::from_str("Malformed position sample."),
            BtError::HandleNotReady => String::from_str("No desk is connected."),
            BtError::TransportError(detail) => {
                let mut text = String::from_str("bluetooth error ");
                text.append(detail.as_str());
                text
            },
        }
    }
}

} // verus!
