//! Binding a connected peripheral: finding the desk's two characteristics
//! and subscribing to its position reports.

use crate::codec::{
    decode_position_sample, encode_motion, motion_payload, sample_decodable, sample_height,
    sample_speed, MotionCommand, PositionSpeed,
};
use crate::error::{BtError, CharacteristicKind};
use vstd::prelude::*;

verus! {

/// The UUID of the control characteristic, `99fa0002-338a-1024-8a49-009c0215f78a`.
pub const CONTROL_UUID: u128 = 0x99fa0002_338a_1024_8a49_009c0215f78a;

/// The UUID of the position characteristic, `99fa0021-338a-1024-8a49-009c0215f78a`.
pub const POSITION_UUID: u128 = 0x99fa0021_338a_1024_8a49_009c0215f78a;

/// The sixteen bytes of the control characteristic's UUID.
pub const CONTROL_UUID_BYTES: [u8; 16] = [
    0x99, 0xfa, 0x00, 0x02, 0x33, 0x8a, 0x10, 0x24, 0x8a, 0x49, 0x00, 0x9c, 0x02, 0x15, 0xf7, 0x8a,
];

/// The sixteen bytes of the position characteristic's UUID.
pub const POSITION_UUID_BYTES: [u8; 16] = [
    0x99, 0xfa, 0x00, 0x21, 0x33, 0x8a, 0x10, 0x24, 0x8a, 0x49, 0x00, 0x9c, 0x02, 0x15, 0xf7, 0x8a,
];

/// The number that `bytes` spell, first byte highest.
pub open spec fn big_endian(bytes: Seq<u8>) -> int
    decreases bytes.len(),
{
    if bytes.len() == 0 {
        0
    } else {
        256 * big_endian(bytes.drop_last()) + bytes.last()
    }
}

/// Packs the sixteen bytes of a UUID into one number.
///
/// Trusted, not proved: the body hands the bytes to `uuid::Uuid::from_bytes`
/// and calls `uuid::Uuid::as_u128` on what it gets. The contract claims of
/// that call that the number is the sixteen bytes read as one big-endian
/// number, first byte highest, and nothing else.
#[verifier::external_body]
fn uuid_number(bytes: &[u8; 16]) -> (number: u128)
    ensures
        number == big_endian(bytes@),
{
    uuid::Uuid::from_bytes(*bytes).as_u128()
}

/// The UUID of the control characteristic, as a number.
pub fn control_uuid() -> (id: u128)
    ensures
        id == CONTROL_UUID,
{
    let id = uuid_number(&CONTROL_UUID_BYTES);
    proof {
        reveal_with_fuel(big_endian, 17);
    }
    id
}

/// The UUID of the position characteristic, as a number.
pub fn position_uuid() -> (id: u128)
    ensures
        id == POSITION_UUID,
{
    let id = uuid_number(&POSITION_UUID_BYTES);
    proof {
        reveal_with_fuel(big_endian, 17);
    }
    id
}

/// Whether `index` is the first place in `uuids` that holds `wanted`.
pub open spec fn is_first_index(uuids: Seq<u128>, wanted: u128, index: int) -> bool {
    &&& 0 <= index < uuids.len()
    &&& uuids[index] == wanted
    &&& forall|earlier: int| 0 <= earlier < index ==> uuids[earlier] != wanted
}

/// Looks `wanted` up among the UUIDs of the discovered characteristics, in
/// the order in which the peripheral lists them, and gives the first place
/// that holds it.
pub fn find_characteristic(uuids: &Vec<u128>, wanted: u128) -> (found: Option<usize>)
    ensures
        match found {
            Some(index) => is_first_index(uuids@, wanted, index as int),
            None => !uuids@.contains(wanted),
        },
{
    let mut index: usize = 0;
    while index < uuids.len()
        invariant
            index <= uuids.len(),
            forall|earlier: int| 0 <= earlier < index ==> uuids@[earlier] != wanted,
        decreases uuids.len() - index,
    {
        if uuids[index] == wanted {
            return Some(index);
        }
        index += 1;
    }
    None
}

/// Where the desk's two characteristics stand among the discovered ones.
#[derive(Clone, Copy, Debug, PartialEq, Eq, Structural)]
pub struct DeskCharacteristics {
    /// The place of the control characteristic.
    pub control: usize,
    /// The place of the position characteristic.
    pub position: usize,
}

/// Whether `found` names the first control and the first position
/// characteristic in `uuids`.
pub open spec fn located(uuids: Seq<u128>, found: DeskCharacteristics) -> bool {
    &&& is_first_index(uuids, CONTROL_UUID, found.control as int)
    &&& is_first_index(uuids, POSITION_UUID, found.position as int)
}

/// The characteristic whose absence is reported for `uuids`: the control
/// characteristic if that is missing, else the position characteristic if
/// that is missing.
pub open spec fn first_missing(uuids: Seq<u128>) -> Option<CharacteristicKind> {
    if !uuids.contains(CONTROL_UUID) {
        Some(CharacteristicKind::Control)
    } else if !uuids.contains(POSITION_UUID) {
        Some(CharacteristicKind::Position)
    } else {
        None
    }
}

/// Finds the desk's two characteristics among the discovered ones.
pub fn locate_characteristics(uuids: &Vec<u128>) -> (outcome: Result<
    DeskCharacteristics,
    BtError,
>)
    ensures
        match outcome {
            Ok(found) => first_missing(uuids@) is None && located(uuids@, found),
            Err(e) => first_missing(uuids@) matches Some(kind) && e
                == BtError::CharacteristicsNotFound(kind),
        },
{
    let control = match find_characteristic(uuids, control_uuid()) {
        Some(index) => index,
        None => {
            return Err(BtError::CharacteristicsNotFound(CharacteristicKind::Control));
        },
    };
    let position = match find_characteristic(uuids, position_uuid()) {
        Some(index) => index,
        None => {
            return Err(BtError::CharacteristicsNotFound(CharacteristicKind::Position));
        },
    };
    Ok(DeskCharacteristics { control, position })
}

/// How far the binding of a peripheral has come.
#[derive(Clone, Debug, PartialEq, Eq)]
pub enum BindState {
    /// The connection is being made.
    Connecting,
    /// The peripheral's services are being discovered.
    Discovering,
    /// Both characteristics are found; the subscription to position reports
    /// is being made.
    Subscribing(DeskCharacteristics),
    /// The desk is ready for use.
    Bound(DeskCharacteristics),
    /// The binding was given up with this error.
    Failed(BtError),
}

/// What the binding asks its caller to do next.
#[derive(Clone, Copy, Debug, PartialEq, Eq, Structural)]
pub enum BindAction {
    /// Connect to the peripheral, report `Connected`.
    Connect,
    /// Discover the peripheral's services and report the UUIDs of its
    /// characteristics, in the order in which it lists them, as
    /// `ServicesDiscovered`.
    DiscoverServices,
    /// Subscribe to the characteristic at this place, report `Subscribed`.
    Subscribe(usize),
    /// Nothing: the binding is over.
    Halt,
}

/// What the caller reports back.
#[derive(Debug, PartialEq, Eq)]
pub enum BindEvent {
    /// The outcome of connecting.
    Connected(Result<(), BtError>),
    /// The outcome of service discovery.
    ServicesDiscovered(Result<Vec<u128>, BtError>),
    /// The outcome of subscribing to position reports.
    Subscribed(Result<(), BtError>),
}

/// What is to be done in `state`.
pub open spec fn bind_pending(state: BindState) -> BindAction {
    match state {
        BindState::Connecting => BindAction::Connect,
        BindState::Discovering => BindAction::DiscoverServices,
        BindState::Subscribing(found) => BindAction::Subscribe(found.position),
        BindState::Bound(_) => BindAction::Halt,
        BindState::Failed(_) => BindAction::Halt,
    }
}

/// Whether `next` is the state that follows `state` on `event`.
///
/// A failure to connect or to discover is passed on as it was reported. A
/// failure to subscribe always counts as `CannotSubscribePosition`, whatever
/// the reason. An event that does not answer what is pending changes
/// nothing, so a binding that is over stays as it is.
pub open spec fn bind_follows(state: BindState, event: BindEvent, next: BindState) -> bool {
    match (state, event) {
        (BindState::Connecting, BindEvent::Connected(Ok(_))) => next == BindState::Discovering,
        (BindState::Connecting, BindEvent::Connected(Err(e))) => next == BindState::Failed(e),
        (BindState::Discovering, BindEvent::ServicesDiscovered(Ok(uuids))) => match first_missing(
            uuids@,
        ) {
            Some(kind) => next == BindState::Failed(BtError::CharacteristicsNotFound(kind)),
            None => next matches BindState::Subscribing(found) && located(uuids@, found),
        },
        (BindState::Discovering, BindEvent::ServicesDiscovered(Err(e))) => next
            == BindState::Failed(e),
        (BindState::Subscribing(found), BindEvent::Subscribed(Ok(_))) => next == BindState::Bound(
            found,
        ),
        (BindState::Subscribing(_), BindEvent::Subscribed(Err(_))) => next == BindState::Failed(
            BtError::CannotSubscribePosition,
        ),
        _ => next == state,
    }
}

impl BindState {
    /// The state in which every binding begins.
    pub fn start() -> (state: BindState)
        ensures
            state == BindState::Connecting,
    {
        BindState::Connecting
    }

    /// What the caller is to do next.
    pub fn action(&self) -> (action: BindAction)
        ensures
            action == bind_pending(*self),
    {
        match self {
            BindState::Connecting => BindAction::Connect,
            BindState::Discovering => BindAction::DiscoverServices,
            BindState::Subscribing(found) => BindAction::Subscribe(found.position),
            BindState::Bound(_) => BindAction::Halt,
            BindState::Failed(_) => BindAction::Halt,
        }
    }

    /// Takes in what the caller reports and moves on.
    pub fn handle(self, event: BindEvent) -> (next: BindState)
        ensures
            bind_follows(self, event, next),
    {
        match (self, event) {
            (BindState::Connecting, BindEvent::Connected(Ok(_))) => BindState::Discovering,
            (BindState::Connecting, BindEvent::Connected(Err(e))) => BindState::Failed(e),
            (BindState::Discovering, BindEvent::ServicesDiscovered(Ok(uuids))) => {
                match locate_characteristics(&uuids) {
                    Ok(found) => BindState::Subscribing(found),
                    Err(e) => BindState::Failed(e),
                }
            },
            (BindState::Discovering, BindEvent::ServicesDiscovered(Err(e))) => BindState::Failed(
                e,
            ),
            (BindState::Subscribing(found), BindEvent::Subscribed(Ok(_))) => BindState::Bound(
                found,
            ),
            (BindState::Subscribing(_), BindEvent::Subscribed(Err(_))) => BindState::Failed(
                BtError::CannotSubscribePosition,
            ),
            (state, _) => state,
        }
    }

    /// Ends the binding and hands out how it went: nothing while it is
    /// still under way, else the characteristics or the error.
    pub fn finish(self) -> (outcome: Option<Result<DeskCharacteristics, BtError>>)
        ensures
            outcome == bind_outcome(self),
    {
        match self {
            BindState::Bound(found) => Some(Ok(found)),
            BindState::Failed(e) => Some(Err(e)),
            _ => None,
        }
    }
}

/// How a binding in `state` has gone.
pub open spec fn bind_outcome(state: BindState) -> Option<Result<DeskCharacteristics, BtError>> {
    match state {
        BindState::Bound(found) => Some(Ok(found)),
        BindState::Failed(e) => Some(Err(e)),
        _ => None,
    }
}

/// A binding ends as bound exactly when all of its three steps went
/// through: the connection was made, the discovery showed both of the desk's
/// characteristics, and the subscription was taken.
pub proof fn lemma_bound_when_all_went_through(
    connected: Result<(), BtError>,
    discovered: Result<Vec<u128>, BtError>,
    subscribed: Result<(), BtError>,
    first: BindState,
    second: BindState,
    third: BindState,
)
    requires
        bind_follows(BindState::Connecting, BindEvent::Connected(connected), first),
        bind_follows(first, BindEvent::ServicesDiscovered(discovered), second),
        bind_follows(second, BindEvent::Subscribed(subscribed), third),
    ensures
        third is Bound <==> (connected is Ok && (discovered matches Ok(uuids) && first_missing(
            uuids@,
        ) is None) && subscribed is Ok),
        third matches BindState::Bound(found) ==> located(discovered->Ok_0@, found),
        bind_pending(third) == BindAction::Halt,
{
}

/// One write to the control characteristic.
#[derive(Clone, Copy, Debug, PartialEq, Eq)]
pub struct ControlWrite {
    /// The bytes to write.
    pub payload: [u8; 2],
    /// Whether the desk is asked to acknowledge the write.
    pub with_response: bool,
}

/// The write that sends `cmd` to the desk: its two-byte payload, written
/// without asking for a response.
pub fn control_write(cmd: MotionCommand) -> (write: ControlWrite)
    ensures
        write.payload@ == motion_payload(cmd),
        !write.with_response,
{
    ControlWrite { payload: encode_motion(cmd), with_response: false }
}

/// Turns the outcome of reading the position characteristic into a report:
/// a failed read is passed on, the bytes of a successful one are decoded.
pub fn get_position_and_speed(read: Result<Vec<u8>, BtError>) -> (report: Result<
    PositionSpeed,
    BtError,
>)
    ensures
        match read {
            Ok(bytes) => if sample_decodable(bytes@) {
                report matches Ok(sample) && sample.position == sample_height(bytes@)
                    && sample.speed == sample_speed(bytes@)
            } else {
                report == Err::<PositionSpeed, BtError>(BtError::MalformedSample)
            },
            Err(e) => report == Err::<PositionSpeed, BtError>(e),
        },
{
    match read {
        Ok(bytes) => decode_position_sample(bytes.as_slice()),
        Err(e) => Err(e),
    }
}

/// The height alone of what `get_position_and_speed` reports.
pub fn get_position(read: Result<Vec<u8>, BtError>) -> (height: Result<u16, BtError>)
    ensures
        match read {
            Ok(bytes) => if sample_decodable(bytes@) {
                height matches Ok(position) && position == sample_height(bytes@)
            } else {
                height == Err::<u16, BtError>(BtError::MalformedSample)
            },
            Err(e) => height == Err::<u16, BtError>(e),
        },
{
    match get_position_and_speed(read) {
        Ok(sample) => Ok(sample.position),
        Err(e) => Err(e),
    }
}

} // verus!
