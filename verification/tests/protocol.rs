use winit_x11::protocol::{
    contains_word, grab_event_mask, redirect_event_mask, window_event_mask, xinput_event_mask,
    Ack, Call, ClientData, Payload, Request, ATOM_ATOM, ATOM_CARDINAL, ATOM_STRING,
    ATOM_WM_CLASS, ATOM_WM_NAME, COPY_FROM_PARENT, CURRENT_TIME, GRAB_EVENTS, REDIRECT_EVENTS,
    TRUE_COLOR, WINDOW_EVENTS, XI_WINDOW_EVENTS,
};
use x11rb::protocol::xinput::XIEventMask;
use x11rb::protocol::xproto::{AtomEnum, EventMask, VisualClass};

#[test]
fn window_event_mask_is_that_of_the_protocol() {
    let expected = EventMask::EXPOSURE
        | EventMask::STRUCTURE_NOTIFY
        | EventMask::VISIBILITY_CHANGE
        | EventMask::KEY_PRESS
        | EventMask::KEY_RELEASE
        | EventMask::KEYMAP_STATE
        | EventMask::BUTTON_PRESS
        | EventMask::BUTTON_RELEASE
        | EventMask::POINTER_MOTION
        | EventMask::PROPERTY_CHANGE;
    assert_eq!(window_event_mask(), u32::from(expected));
    assert_eq!(WINDOW_EVENTS, u32::from(expected));
    assert_eq!(window_event_mask(), 0x0043_c04f);
}

#[test]
fn redirect_event_mask_is_that_of_the_protocol() {
    let expected = EventMask::SUBSTRUCTURE_REDIRECT | EventMask::SUBSTRUCTURE_NOTIFY;
    assert_eq!(redirect_event_mask(), u32::from(expected));
    assert_eq!(REDIRECT_EVENTS, 0x0018_0000);
}

#[test]
fn grab_event_mask_is_that_of_the_protocol() {
    let expected = EventMask::BUTTON_PRESS
        | EventMask::BUTTON_RELEASE
        | EventMask::ENTER_WINDOW
        | EventMask::LEAVE_WINDOW
        | EventMask::POINTER_MOTION
        | EventMask::POINTER_MOTION_HINT
        | EventMask::BUTTON1_MOTION
        | EventMask::BUTTON2_MOTION
        | EventMask::BUTTON3_MOTION
        | EventMask::BUTTON4_MOTION
        | EventMask::BUTTON5_MOTION
        | EventMask::KEYMAP_STATE;
    assert_eq!(grab_event_mask(), u32::from(expected));
    assert_eq!(GRAB_EVENTS, 0x5ffc);
}

#[test]
fn xinput_event_mask_is_that_of_the_extension() {
    let expected = XIEventMask::MOTION
        | XIEventMask::BUTTON_PRESS
        | XIEventMask::BUTTON_RELEASE
        | XIEventMask::ENTER
        | XIEventMask::LEAVE
        | XIEventMask::FOCUS_IN
        | XIEventMask::FOCUS_OUT
        | XIEventMask::TOUCH_BEGIN
        | XIEventMask::TOUCH_UPDATE
        | XIEventMask::TOUCH_END;
    assert_eq!(xinput_event_mask(), u32::from(expected));
    assert_eq!(XI_WINDOW_EVENTS, 0x001c_07f0);
}

#[test]
fn predefined_atoms_are_those_of_the_protocol() {
    assert_eq!(ATOM_ATOM, u32::from(AtomEnum::ATOM));
    assert_eq!(ATOM_CARDINAL, u32::from(AtomEnum::CARDINAL));
    assert_eq!(ATOM_STRING, u32::from(AtomEnum::STRING));
    assert_eq!(ATOM_WM_NAME, u32::from(AtomEnum::WM_NAME));
    assert_eq!(ATOM_WM_CLASS, u32::from(AtomEnum::WM_CLASS));
    assert_eq!(CURRENT_TIME, x11rb::CURRENT_TIME);
    assert_eq!(COPY_FROM_PARENT, x11rb::COPY_FROM_PARENT);
    assert_eq!(TRUE_COLOR, u8::from(VisualClass::TRUE_COLOR));
}

#[test]
fn ignored_call_has_no_payload() {
    let call = Call::ignore(Request::Flush);
    assert_eq!(call.request, Request::Flush);
    assert_eq!(call.ack, Ack::Ignore);
    assert_eq!(call.payload, Payload::Empty);
    assert_eq!(call.wire_data(), Vec::<u8>::new());
}

#[test]
fn checked_call_is_marked() {
    let call = Call::check(Request::Sync);
    assert_eq!(call.request, Request::Sync);
    assert_eq!(call.ack, Ack::Check);
}

#[test]
fn byte_property_counts_its_bytes() {
    let call = Call::bytes(7, 8, 9, vec![1, 2, 3]);
    assert_eq!(
        call.request,
        Request::ChangeProperty { window: 7, property: 8, type_: 9, format: 8, len: 3 }
    );
    assert_eq!(call.payload, Payload::Bytes(vec![1, 2, 3]));
    assert_eq!(call.wire_data(), vec![1, 2, 3]);
}

#[test]
fn word_property_counts_its_words() {
    let call = Call::words(7, 8, 9, vec![0x0102_0304, 5]);
    assert_eq!(
        call.request,
        Request::ChangeProperty { window: 7, property: 8, type_: 9, format: 32, len: 2 }
    );
    assert_eq!(call.payload, Payload::Words(vec![0x0102_0304, 5]));
}

#[test]
fn words_go_on_the_wire_in_machine_order() {
    let call = Call::words(7, 8, 9, vec![0x0102_0304, 5]);
    let mut expected = Vec::new();
    expected.extend_from_slice(&0x0102_0304u32.to_ne_bytes());
    expected.extend_from_slice(&5u32.to_ne_bytes());
    let wire = call.wire_data();
    assert_eq!(wire.len(), 8);
    assert_eq!(wire, expected);
    let little = vec![4u8, 3, 2, 1, 5, 0, 0, 0];
    let big = vec![1u8, 2, 3, 4, 0, 0, 0, 5];
    assert!(wire == little || wire == big);
}

#[test]
fn message_goes_to_the_window_manager() {
    let data = ClientData { d0: 1, d1: 2, d2: 3, d3: 4, d4: 5 };
    let call = Call::message(10, 20, 30, data);
    assert_eq!(
        call.request,
        Request::SendClientMessage {
            window: 10,
            target: 20,
            message_type: 30,
            event_mask: Some(0x0018_0000),
            data,
        }
    );
    assert_eq!(call.ack, Ack::Ignore);
}

#[test]
fn contains_word_finds_what_is_there() {
    assert!(contains_word(&vec![1, 2, 3], 3));
    assert!(!contains_word(&vec![1, 2, 3], 4));
    assert!(!contains_word(&vec![], 0));
}
