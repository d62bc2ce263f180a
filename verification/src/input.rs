//! Platform-neutral input events, and their form on the wire.

use vstd::prelude::*;
use crate::grants::EventMeta;

verus! {

#[derive(Clone, Copy, Debug, PartialEq, Eq, Structural)]
pub enum KeyState {
    Pressed,
    Released,
}

#[derive(Clone, Copy, Debug, PartialEq, Eq, Structural)]
pub enum ButtonState {
    Pressed,
    Released,
}

#[derive(Clone, Copy, Debug, PartialEq, Eq, Structural)]
pub enum ScrollUnit {
    Lines,
    Precise,
}

/// A place on a display; each axis runs from zero to the greatest value.
#[derive(Clone, Copy, Debug, PartialEq, Eq, Structural)]
pub struct NormalizedPosition {
    pub display: u64,
    pub x: u16,
    pub y: u16,
}

#[derive(Clone, Copy, Debug, PartialEq, Eq, Structural)]
pub struct PointerDelta {
    pub horizontal: i32,
    pub vertical: i32,
}

#[allow(inconsistent_fields)]
#[derive(Clone, Copy, Debug, PartialEq, Eq, Structural)]
pub enum InputEvent {
    Key { usage_page: u16, usage_id: u16, state: KeyState, modifiers: u16 },
    PointerButton { button: u16, state: ButtonState },
    PointerMotion { position: NormalizedPosition },
    PointerDelta { delta: PointerDelta },
    Scroll { horizontal: i32, vertical: i32, unit: ScrollUnit },
}

#[derive(Clone, Copy, Debug, PartialEq, Eq, Structural)]
pub enum WireState {
    Down,
    Up,
}

/// What a message on an input channel holds besides its metadata and lease.
#[derive(Clone, Copy, Debug, PartialEq, Eq, Structural)]
pub enum InputPayload {
    Key { usage_page: u16, usage_id: u16, state: WireState, modifiers: u16 },
    PointerButton { button: u16, state: WireState },
    PointerMotion { display_id: u32, x: u32, y: u32 },
    PointerDelta { delta_x: i32, delta_y: i32 },
    PointerEnter { display_id: u32, x: u32, y: u32 },
    Scroll { delta_x: i32, delta_y: i32, unit: ScrollUnit },
    ReleaseAll,
}

#[derive(Clone, Copy, Debug, PartialEq, Eq, Structural)]
pub struct InputMessage {
    pub meta: EventMeta,
    pub lease_id: u64,
    pub payload: InputPayload,
}

#[derive(Clone, Copy, Debug, PartialEq, Eq)]
pub enum DecodedInput {
    Event(InputEvent),
    PointerEnter(NormalizedPosition),
    ReleaseAll,
}

#[derive(Clone, Copy, Debug, PartialEq, Eq, Structural)]
pub enum InputWireError {
    UnsupportedValue,
}

impl InputEvent {
    /// An event that a later one of its kind may stand in for.
    pub open spec fn replaceable(self) -> bool {
        self is PointerMotion || self is PointerDelta || self is Scroll
    }
}

/// Whether a later event of the same kind may stand in for this one.
pub fn is_replaceable(event: InputEvent) -> (replaceable: bool)
    ensures
        replaceable == event.replaceable(),
{
    match event {
        InputEvent::PointerMotion { .. }
        | InputEvent::PointerDelta { .. }
        | InputEvent::Scroll { .. } => true,
        _ => false,
    }
}

/// Spreads a sixteen-bit axis over thirty-two bits: the ends stay the ends.
pub fn expand_axis(axis: u16) -> (expanded: u32)
    ensures
        expanded == axis * 65537,
{
    axis as u32 * 65537
}

/// Undoes `expand_axis`.
pub fn collapse_axis(axis: u32) -> (collapsed: u16)
    ensures
        collapsed == axis / 65537,
{
    (axis / 65537) as u16
}

pub open spec fn wire_state_of_key(state: KeyState) -> WireState {
    match state {
        KeyState::Pressed => WireState::Down,
        KeyState::Released => WireState::Up,
    }
}

pub open spec fn wire_state_of_button(state: ButtonState) -> WireState {
    match state {
        ButtonState::Pressed => WireState::Down,
        ButtonState::Released => WireState::Up,
    }
}

/// The payload that stands for an event, unless its display has no wire number.
pub open spec fn payload_of(event: InputEvent) -> Option<InputPayload> {
    match event {
        InputEvent::Key { usage_page, usage_id, state, modifiers } => Some(
            InputPayload::Key { usage_page, usage_id, state: wire_state_of_key(state), modifiers },
        ),
        InputEvent::PointerButton { button, state } => Some(
            InputPayload::PointerButton { button, state: wire_state_of_button(state) },
        ),
        InputEvent::PointerMotion { position } => if position.display > u32::MAX {
            None
        } else {
            Some(
                InputPayload::PointerMotion {
                    display_id: position.display as u32,
                    x: (position.x * 65537) as u32,
                    y: (position.y * 65537) as u32,
                },
            )
        },
        InputEvent::PointerDelta { delta } => Some(
            InputPayload::PointerDelta { delta_x: delta.horizontal, delta_y: delta.vertical },
        ),
        InputEvent::Scroll { horizontal, vertical, unit } => Some(
            InputPayload::Scroll { delta_x: horizontal, delta_y: vertical, unit },
        ),
    }
}

/// Puts an event into a message.
pub fn encode_event(event: InputEvent, meta: EventMeta, lease_id: u64) -> (message: Result<
    InputMessage,
    InputWireError,
>)
    ensures
        match payload_of(event) {
            Some(payload) => message == Ok::<_, InputWireError>(
                InputMessage { meta, lease_id, payload },
            ),
            None => message == Err::<InputMessage, _>(InputWireError::UnsupportedValue),
        },
{
    let payload = match event {
        InputEvent::Key { usage_page, usage_id, state, modifiers } => InputPayload::Key {
            usage_page,
            usage_id,
            state: match state {
                KeyState::Pressed => WireState::Down,
                KeyState::Released => WireState::Up,
            },
            modifiers,
        },
        InputEvent::PointerButton { button, state } => InputPayload::PointerButton {
            button,
            state: match state {
                ButtonState::Pressed => WireState::Down,
                ButtonState::Released => WireState::Up,
            },
        },
        InputEvent::PointerMotion { position } => {
            if position.display > u32::MAX as u64 {
                return Err(InputWireError::UnsupportedValue);
            }
            InputPayload::PointerMotion {
                display_id: position.display as u32,
                x: expand_axis(position.x),
                y: expand_axis(position.y),
            }
        },
        InputEvent::PointerDelta { delta } => InputPayload::PointerDelta {
            delta_x: delta.horizontal,
            delta_y: delta.vertical,
        },
        InputEvent::Scroll { horizontal, vertical, unit } => InputPayload::Scroll {
            delta_x: horizontal,
            delta_y: vertical,
            unit,
        },
    };
    Ok(InputMessage { meta, lease_id, payload })
}

/// Tells the peer to let go of everything that it holds down.
pub fn encode_release_all(meta: EventMeta, lease_id: u64) -> (message: InputMessage)
    ensures
        message == (InputMessage { meta, lease_id, payload: InputPayload::ReleaseAll }),
{
    InputMessage { meta, lease_id, payload: InputPayload::ReleaseAll }
}

/// Tells the peer where the pointer comes in.
pub fn encode_pointer_enter(position: NormalizedPosition, meta: EventMeta, lease_id: u64) -> (
    message: Result<InputMessage, InputWireError>)
    ensures
        message == if position.display > u32::MAX {
            Err(InputWireError::UnsupportedValue)
        } else {
            Ok(
                InputMessage {
                    meta,
                    lease_id,
                    payload: InputPayload::PointerEnter {
                        display_id: position.display as u32,
                        x: (position.x * 65537) as u32,
                        y: (position.y * 65537) as u32,
                    },
                },
            )
        },
{
    if position.display > u32::MAX as u64 {
        return Err(InputWireError::UnsupportedValue);
    }
    let payload = InputPayload::PointerEnter {
        display_id: position.display as u32,
        x: expand_axis(position.x),
        y: expand_axis(position.y),
    };
    Ok(InputMessage { meta, lease_id, payload })
}

/// Payloads whose value the input vocabulary has to admit.
pub open spec fn restricted_payload(payload: InputPayload) -> bool {
    payload is Key || payload is PointerButton || payload is PointerDelta
}

pub open spec fn position_of(display_id: u32, x: u32, y: u32) -> NormalizedPosition {
    NormalizedPosition {
        display: display_id as u64,
        x: (x / 65537) as u16,
        y: (y / 65537) as u16,
    }
}

/// What a payload stands for.
pub open spec fn decoded_payload(payload: InputPayload) -> DecodedInput {
    match payload {
        InputPayload::Key { usage_page, usage_id, state, modifiers } => DecodedInput::Event(
            InputEvent::Key {
                usage_page,
                usage_id,
                state: match state {
                    WireState::Down => KeyState::Pressed,
                    WireState::Up => KeyState::Released,
                },
                modifiers,
            },
        ),
        InputPayload::PointerButton { button, state } => DecodedInput::Event(
            InputEvent::PointerButton {
                button,
                state: match state {
                    WireState::Down => ButtonState::Pressed,
                    WireState::Up => ButtonState::Released,
                },
            },
        ),
        InputPayload::PointerMotion { display_id, x, y } => DecodedInput::Event(
            InputEvent::PointerMotion { position: position_of(display_id, x, y) },
        ),
        InputPayload::PointerDelta { delta_x, delta_y } => DecodedInput::Event(
            InputEvent::PointerDelta {
                delta: PointerDelta { horizontal: delta_x, vertical: delta_y },
            },
        ),
        InputPayload::PointerEnter { display_id, x, y } => DecodedInput::PointerEnter(
            position_of(display_id, x, y),
        ),
        InputPayload::Scroll { delta_x, delta_y, unit } => DecodedInput::Event(
            InputEvent::Scroll { horizontal: delta_x, vertical: delta_y, unit },
        ),
        InputPayload::ReleaseAll => DecodedInput::ReleaseAll,
    }
}

/// Reads a message. `supported` says whether the input vocabulary admits the
/// modifiers, the button or the relative motion that the message holds.
pub fn decode_event(message: &InputMessage, supported: bool) -> (decoded: Result<
    DecodedInput,
    InputWireError,
>)
    ensures
        decoded == if restricted_payload(message.payload) && !supported {
            Err(InputWireError::UnsupportedValue)
        } else {
            Ok(decoded_payload(message.payload))
        },
{
    let decoded = match message.payload {
        InputPayload::Key { usage_page, usage_id, state, modifiers } => {
            if !supported {
                return Err(InputWireError::UnsupportedValue);
            }
            DecodedInput::Event(
                InputEvent::Key {
                    usage_page,
                    usage_id,
                    state: match state {
                        WireState::Down => KeyState::Pressed,
                        WireState::Up => KeyState::Released,
                    },
                    modifiers,
                },
            )
        },
        InputPayload::PointerButton { button, state } => {
            if !supported {
                return Err(InputWireError::UnsupportedValue);
            }
            DecodedInput::Event(
                InputEvent::PointerButton {
                    button,
                    state: match state {
                        WireState::Down => ButtonState::Pressed,
                        WireState::Up => ButtonState::Released,
                    },
                },
            )
        },
        InputPayload::PointerMotion { display_id, x, y } => DecodedInput::Event(
            InputEvent::PointerMotion {
                position: NormalizedPosition {
                    display: display_id as u64,
                    x: collapse_axis(x),
                    y: collapse_axis(y),
                },
            },
        ),
        InputPayload::PointerDelta { delta_x, delta_y } => {
            if !supported {
                return Err(InputWireError::UnsupportedValue);
            }
            DecodedInput::Event(
                InputEvent::PointerDelta {
                    delta: PointerDelta { horizontal: delta_x, vertical: delta_y },
                },
            )
        },
        InputPayload::PointerEnter { display_id, x, y } => DecodedInput::PointerEnter(
            NormalizedPosition {
                display: display_id as u64,
                x: collapse_axis(x),
                y: collapse_axis(y),
            },
        ),
        InputPayload::Scroll { delta_x, delta_y, unit } => DecodedInput::Event(
            InputEvent::Scroll { horizontal: delta_x, vertical: delta_y, unit },
        ),
        InputPayload::ReleaseAll => DecodedInput::ReleaseAll,
    };
    Ok(decoded)
}

/// Reading a written event gives the event back, without any native code in it.
pub proof fn law_input_round_trips(event: InputEvent)
    requires
        payload_of(event) is Some,
    ensures
        decoded_payload(payload_of(event)->Some_0) == DecodedInput::Event(event),
{
    if let InputEvent::PointerMotion { position } = event {
        let x = position.x;
        let y = position.y;
        assert((x * 65537) / 65537 == x);
        assert((y * 65537) / 65537 == y);
    }
}

/// On the wire an event keeps its numbers: what is pressed is down, what is
/// released is up, horizontal is x and vertical is y, and a place is spread over
/// the whole axis. Only a place on a display beyond the wire's numbers has no
/// form there.
pub proof fn law_events_keep_their_numbers(event: InputEvent)
    ensures
        payload_of(event) is None <==> (event matches InputEvent::PointerMotion { position }
            && position.display > 0xffff_ffff),
        event matches InputEvent::Key { usage_page: page, usage_id: id, state: how, modifiers: with }
            ==> (payload_of(event) matches Some(
            InputPayload::Key { usage_page, usage_id, state, modifiers },
        ) && usage_page == page && usage_id == id && modifiers == with && (state is Down <==> how
            is Pressed)),
        event matches InputEvent::PointerButton { button: which, state: how } ==> (payload_of(event)
            matches Some(InputPayload::PointerButton { button, state }) && button == which && (state
            is Down <==> how is Pressed)),
        event matches InputEvent::PointerMotion { position } ==> (position.display <= 0xffff_ffff
            ==> (payload_of(event) matches Some(InputPayload::PointerMotion { display_id, x, y })
            && display_id == position.display && x == position.x * 65537 && y == position.y
            * 65537)),
        event matches InputEvent::PointerDelta { delta } ==> (payload_of(event) matches Some(
            InputPayload::PointerDelta { delta_x, delta_y },
        ) && delta_x == delta.horizontal && delta_y == delta.vertical),
        event matches InputEvent::Scroll { horizontal, vertical, unit: by } ==> (payload_of(event)
            matches Some(InputPayload::Scroll { delta_x, delta_y, unit }) && delta_x == horizontal
            && delta_y == vertical && unit == by),
        event.replaceable() <==> !(event is Key) && !(event is PointerButton),
{
    if let InputEvent::PointerMotion { position } = event {
        let x = position.x;
        let y = position.y;
        assert(x * 65537 <= 0xffff_ffff && y * 65537 <= 0xffff_ffff);
    }
}

/// A payload is read as what it says: a message of its kind with its own numbers.
/// A place is read back from any point of the wide axis, in order: the ends are
/// the ends.
pub proof fn law_payloads_are_read_as_they_stand(payload: InputPayload)
    ensures
        payload matches InputPayload::Key { usage_page: page, usage_id: id, state: how, modifiers: with
        } ==> (decoded_payload(payload) matches DecodedInput::Event(
            InputEvent::Key { usage_page, usage_id, state, modifiers },
        ) && usage_page == page && usage_id == id && modifiers == with && (state is Pressed <==> how
            is Down)),
        payload matches InputPayload::PointerButton { button: which, state: how } ==> (
        decoded_payload(payload) matches DecodedInput::Event(
            InputEvent::PointerButton { button, state },
        ) && button == which && (state is Pressed <==> how is Down)),
        payload matches InputPayload::PointerDelta { delta_x, delta_y } ==> (decoded_payload(payload)
            matches DecodedInput::Event(InputEvent::PointerDelta { delta }) && delta.horizontal
            == delta_x && delta.vertical == delta_y),
        payload matches InputPayload::Scroll { delta_x, delta_y, unit: by } ==> (decoded_payload(
            payload,
        ) matches DecodedInput::Event(InputEvent::Scroll { horizontal, vertical, unit })
            && horizontal == delta_x && vertical == delta_y && unit == by),
        payload matches InputPayload::PointerMotion { display_id, x, y } ==> (decoded_payload(
            payload,
        ) matches DecodedInput::Event(InputEvent::PointerMotion { position }) && position.display
            == display_id && position.x * 65537 <= x < (position.x + 1) * 65537 && position.y
            * 65537 <= y < (position.y + 1) * 65537),
        payload matches InputPayload::PointerEnter { display_id, x, y } ==> (decoded_payload(payload)
            matches DecodedInput::PointerEnter(position) && position.display == display_id
            && position.x * 65537 <= x < (position.x + 1) * 65537 && position.y * 65537 <= y < (
        position.y + 1) * 65537),
        payload is ReleaseAll <==> decoded_payload(payload) is ReleaseAll,
        restricted_payload(payload) <==> payload is Key || payload is PointerButton || payload
            is PointerDelta,
{
    match payload {
        InputPayload::PointerMotion { display_id, x, y }
        | InputPayload::PointerEnter { display_id, x, y } => {
            assert(0 <= x / 65537 <= 0xffff);
            assert(0 <= y / 65537 <= 0xffff);
        },
        _ => {},
    }
}

/// An event is sent under the metadata and the lease that it is sent with, and
/// only where the protocol has a form for it.
pub proof fn law_encoded_events_keep_their_lease(
    event: InputEvent,
    meta: EventMeta,
    lease_id: u64,
    message: Result<InputMessage, InputWireError>,
)
    requires
        call_ensures(encode_event, (event, meta, lease_id), message),
    ensures
        message matches Ok(sent) ==> sent.meta == meta && sent.lease_id == lease_id && payload_of(
            event,
        ) == Some(sent.payload),
        message is Err <==> payload_of(event) is None,
        message matches Err(error) ==> error is UnsupportedValue,
{
}

/// Entering names a display by its number, and the corners of a display are
/// the corners of the wire's range.
pub proof fn law_entries_are_scaled_to_the_wire(
    position: NormalizedPosition,
    meta: EventMeta,
    lease_id: u64,
    message: Result<InputMessage, InputWireError>,
)
    requires
        call_ensures(encode_pointer_enter, (position, meta, lease_id), message),
    ensures
        message is Ok <==> position.display <= u32::MAX,
        message matches Ok(sent) ==> {
            &&& sent.meta == meta && sent.lease_id == lease_id
            &&& sent.payload matches InputPayload::PointerEnter { display_id, x, y } && {
                &&& display_id == position.display
                &&& position.x == 0 ==> x == 0
                &&& position.x == 65535 ==> x == u32::MAX
                &&& position.y == 0 ==> y == 0
                &&& position.y == 65535 ==> y == u32::MAX
                &&& x / 65537 == position.x && x % 65537 == 0
                &&& y / 65537 == position.y && y % 65537 == 0
            }
        },
        message matches Err(error) ==> error is UnsupportedValue,
{
}

/// Input of a restricted kind is decoded only where the platform supports it,
/// and all other input always.
pub proof fn law_restricted_input_needs_support(
    message: InputMessage,
    supported: bool,
    decoded: Result<DecodedInput, InputWireError>,
)
    requires
        call_ensures(decode_event, (&message, supported), decoded),
    ensures
        decoded is Ok <==> supported || !restricted_payload(message.payload),
        decoded matches Err(error) ==> error is UnsupportedValue,
{
}

/// What is expanded to the wire is collapsed to what it was, and the ends of
/// the range stay its ends.
pub proof fn law_axes_survive_the_wire(axis: u16, expanded: u32, collapsed: u16)
    requires
        call_ensures(expand_axis, (axis,), expanded),
        call_ensures(collapse_axis, (expanded,), collapsed),
    ensures
        collapsed == axis,
        axis == 0 ==> expanded == 0,
        axis == u16::MAX ==> expanded == u32::MAX,
{
}

/// A greater place on the wire is never a lesser one here.
pub proof fn law_axes_keep_their_order(low: u32, high: u32, a: u16, b: u16)
    requires
        low <= high,
        call_ensures(collapse_axis, (low,), a),
        call_ensures(collapse_axis, (high,), b),
    ensures
        a <= b,
        high == u32::MAX ==> b == u16::MAX,
        low < 65537 ==> a == 0,
{
}

} // verus!
