use nodavo_agent::grants::{Capability, EventMeta};
use nodavo_agent::identifiers::{DeviceId, SessionId};
use nodavo_agent::input::{
    collapse_axis, decode_event, encode_event, encode_pointer_enter, encode_release_all,
    expand_axis, ButtonState, DecodedInput, InputEvent, InputPayload, InputWireError, KeyState,
    NormalizedPosition, PointerDelta, ScrollUnit,
};
use nodavo_agent::native_bridge::{
    merge_relative_delta, InputBuffer, NativeInputBridgeError, RelativeMerge, INPUT_CAPACITY,
};

const KEYBOARD_PAGE: u16 = 7;

fn meta() -> EventMeta {
    EventMeta {
        session_id: SessionId::new([1; 16]),
        origin: DeviceId::new([2; 32]),
        sequence: 1,
        grant_epoch: 1,
        capability: Capability::remote_input_only(),
    }
}

fn key(id: u16) -> InputEvent {
    InputEvent::Key {
        usage_page: KEYBOARD_PAGE,
        usage_id: id,
        state: KeyState::Pressed,
        modifiers: 0,
    }
}

fn motion(axis: u16) -> InputEvent {
    InputEvent::PointerMotion {
        position: NormalizedPosition {
            display: 1,
            x: axis,
            y: axis,
        },
    }
}

fn delta(horizontal: i32, vertical: i32) -> InputEvent {
    InputEvent::PointerDelta {
        delta: PointerDelta {
            horizontal,
            vertical,
        },
    }
}

/// A relative motion of the platform fits in sixteen bits.
fn admitted(buffer: &InputBuffer, event: InputEvent) -> bool {
    match buffer.merge_candidate(event) {
        Some(sum) => {
            i16::try_from(sum.horizontal).is_ok() && i16::try_from(sum.vertical).is_ok()
        }
        None => true,
    }
}

fn send(buffer: &mut InputBuffer, event: InputEvent) -> Result<(), NativeInputBridgeError> {
    let admitted = admitted(buffer, event);
    buffer.send(event, admitted)
}

#[test]
fn semantic_input_round_trips_without_native_codes() {
    let events = [
        InputEvent::Key {
            usage_page: KEYBOARD_PAGE,
            usage_id: 4,
            state: KeyState::Pressed,
            modifiers: 2,
        },
        InputEvent::PointerMotion {
            position: NormalizedPosition {
                display: 7,
                x: 123,
                y: u16::MAX,
            },
        },
        delta(-17, 23),
        InputEvent::Scroll {
            horizontal: -2,
            vertical: 3,
            unit: ScrollUnit::Precise,
        },
    ];
    for event in events {
        let encoded = encode_event(event, meta(), 9).unwrap();
        assert_eq!(encoded.meta, meta());
        assert_eq!(encoded.lease_id, 9);
        assert_eq!(decode_event(&encoded, true), Ok(DecodedInput::Event(event)));
    }
}

#[test]
fn axes_are_spread_over_the_whole_wire_range() {
    assert_eq!(expand_axis(0), 0);
    assert_eq!(expand_axis(1), 65_537);
    assert_eq!(expand_axis(u16::MAX), u32::MAX);
    assert_eq!(collapse_axis(65_536), 0);
    assert_eq!(collapse_axis(65_537), 1);
    assert_eq!(collapse_axis(u32::MAX), u16::MAX);
}

#[test]
fn entering_and_releasing_have_messages_of_their_own() {
    let position = NormalizedPosition {
        display: 3,
        x: 1,
        y: 2,
    };
    let enter = encode_pointer_enter(position, meta(), 4).unwrap();
    assert_eq!(
        enter.payload,
        InputPayload::PointerEnter {
            display_id: 3,
            x: 65_537,
            y: 131_074,
        }
    );
    assert_eq!(
        decode_event(&enter, true),
        Ok(DecodedInput::PointerEnter(position))
    );
    let release = encode_release_all(meta(), 4);
    assert_eq!(release.payload, InputPayload::ReleaseAll);
    assert_eq!(decode_event(&release, true), Ok(DecodedInput::ReleaseAll));
}

#[test]
fn values_that_do_not_fit_the_wire_are_refused() {
    let far = NormalizedPosition {
        display: u64::from(u32::MAX) + 1,
        x: 0,
        y: 0,
    };
    assert_eq!(
        encode_event(InputEvent::PointerMotion { position: far }, meta(), 1).err(),
        Some(InputWireError::UnsupportedValue)
    );
    assert_eq!(
        encode_pointer_enter(far, meta(), 1).err(),
        Some(InputWireError::UnsupportedValue)
    );
    let button = encode_event(
        InputEvent::PointerButton {
            button: 1,
            state: ButtonState::Released,
        },
        meta(),
        1,
    )
    .unwrap();
    assert_eq!(
        decode_event(&button, false),
        Err(InputWireError::UnsupportedValue)
    );
}

#[test]
fn coalesces_replaceable_events_without_evicting_reliable_events() {
    let mut buffer = InputBuffer::new();
    send(&mut buffer, motion(1)).unwrap();
    send(&mut buffer, key(4)).unwrap();
    send(&mut buffer, motion(2)).unwrap();
    send(
        &mut buffer,
        InputEvent::Scroll {
            horizontal: 1,
            vertical: -1,
            unit: ScrollUnit::Lines,
        },
    )
    .unwrap();
    send(
        &mut buffer,
        InputEvent::PointerButton {
            button: 1,
            state: ButtonState::Pressed,
        },
    )
    .unwrap();

    assert_eq!(buffer.receive().unwrap(), key(4));
    assert_eq!(buffer.receive().unwrap(), motion(2));
    assert!(matches!(
        buffer.receive().unwrap(),
        InputEvent::Scroll { .. }
    ));
    assert!(matches!(
        buffer.receive().unwrap(),
        InputEvent::PointerButton { .. }
    ));
}

#[test]
fn coalesces_relative_motion_without_truncating_overflow() {
    let mut buffer = InputBuffer::new();
    send(&mut buffer, delta(3, -4)).unwrap();
    send(&mut buffer, delta(7, 2)).unwrap();
    assert_eq!(buffer.receive().unwrap(), delta(10, -2));

    send(&mut buffer, delta(32_000, 1)).unwrap();
    send(&mut buffer, delta(2_000, 1)).unwrap();
    assert_eq!(buffer.receive().unwrap(), delta(32_000, 1));
    assert_eq!(buffer.receive().unwrap(), delta(2_000, 1));
}

#[test]
fn opposite_relative_motions_cancel_out() {
    assert!(matches!(
        merge_relative_delta(delta(3, -4), delta(-3, 4), true),
        RelativeMerge::Cancelled
    ));
    assert!(matches!(
        merge_relative_delta(delta(i32::MAX, 0), delta(1, 0), true),
        RelativeMerge::Overflow
    ));
    assert!(matches!(
        merge_relative_delta(key(1), delta(1, 0), true),
        RelativeMerge::NotRelative
    ));
    let mut buffer = InputBuffer::new();
    send(&mut buffer, delta(3, -4)).unwrap();
    send(&mut buffer, delta(-3, 4)).unwrap();
    assert_eq!(buffer.receive(), None);
}

#[test]
fn reliable_only_overflow_is_explicit() {
    let mut buffer = InputBuffer::new();
    for id in 0..INPUT_CAPACITY {
        send(&mut buffer, key(u16::try_from(id).unwrap())).unwrap();
    }
    assert_eq!(
        send(&mut buffer, key(0x0100)),
        Err(NativeInputBridgeError::ReliableCapacityExhausted)
    );
    assert_eq!(
        send(&mut buffer, motion(1)),
        Err(NativeInputBridgeError::ReplaceableCapacityExhausted)
    );
    assert_eq!(buffer.drain_pending().len(), INPUT_CAPACITY);
    assert_eq!(buffer.receive(), None);
}

fn moved(events: &[InputEvent]) -> (i64, i64) {
    events.iter().fold((0, 0), |total, event| match event {
        InputEvent::PointerDelta { delta } => (
            total.0 + i64::from(delta.horizontal),
            total.1 + i64::from(delta.vertical),
        ),
        _ => total,
    })
}

#[test]
fn relative_motion_adds_up_whatever_comes_between() {
    let mut buffer = InputBuffer::new();
    for (horizontal, vertical) in [(30_000, -7), (30_000, 2), (-5, 5), (30_000, 1)] {
        send(&mut buffer, delta(horizontal, vertical)).unwrap();
        send(&mut buffer, motion(3)).unwrap();
        send(&mut buffer, key(9)).unwrap();
    }
    assert_eq!(moved(&buffer.drain_pending()), (89_995, 1));

    for id in 0..INPUT_CAPACITY - 1 {
        send(&mut buffer, key(u16::try_from(id).unwrap())).unwrap();
    }
    send(&mut buffer, delta(4, 4)).unwrap();
    send(&mut buffer, delta(1, -2)).unwrap();
    send(&mut buffer, key(0x0101)).unwrap();
    let events = buffer.drain_pending();
    assert_eq!(events.len(), INPUT_CAPACITY);
    assert_eq!(moved(&events), (0, 0));
}
