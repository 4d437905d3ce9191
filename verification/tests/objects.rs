use wire_runtime::client::Client;
use wire_runtime::fixed::Fixed;
use wire_runtime::ids::ObjectId;
use wire_runtime::object::ProtocolObject;
use wire_runtime::parser::MsgParser;
use wire_runtime::seat::{AppCursor, Seat, SeatDevice};
use wire_runtime::surface::{SurfaceRole, WlSurface};
use wire_runtime::wire::Event;
use wire_runtime::wl_pointer::{PendingScroll, WlPointer, WHEEL};
use wire_runtime::zwp_primary_selection_offer_v1::{
    ZwpPrimarySelectionOfferV1, ZwpPrimarySelectionSourceV1,
};

fn set_cursor_payload(serial: u32, surface: u32, hx: i32, hy: i32) -> Vec<u8> {
    let mut out = serial.to_le_bytes().to_vec();
    out.extend_from_slice(&surface.to_le_bytes());
    out.extend_from_slice(&hx.to_le_bytes());
    out.extend_from_slice(&hy.to_le_bytes());
    out
}

fn focused_setup() -> (Client, Seat, WlPointer) {
    let mut client = Client::new(1, false);
    client.last_serial = 10;
    client.last_enter_serial = 7;
    client
        .add_client_obj(ProtocolObject::WlSurface(WlSurface {
            id: ObjectId(5),
            role: SurfaceRole::Unassigned,
        }))
        .unwrap();
    let mut seat = Seat::new();
    seat.pointer_focus_client = Some(1);
    (client, seat, WlPointer::new(ObjectId(4)))
}

#[test]
fn set_cursor_with_stale_serial_is_a_silent_no_op() {
    let (mut client, mut seat, pointer) = focused_setup();
    // Serial 6 was issued but is not the serial of the latest enter.
    let mut p = MsgParser::new(set_cursor_payload(6, 5, 1, 2), Vec::new());
    let events_before = client.events.len();
    assert_eq!(pointer.set_cursor(&mut client, &mut seat, &mut p), Ok(()));
    assert_eq!(seat.app_cursor, None);
    assert_eq!(client.events.len(), events_before);
    match client.objects.get(&5) {
        Some(ProtocolObject::WlSurface(s)) => assert_eq!(s.role, SurfaceRole::Unassigned),
        _ => panic!("surface missing"),
    }
}

#[test]
fn set_cursor_without_focus_is_a_silent_no_op() {
    let (mut client, mut seat, pointer) = focused_setup();
    seat.pointer_focus_client = Some(2);
    let mut p = MsgParser::new(set_cursor_payload(7, 5, 1, 2), Vec::new());
    assert_eq!(pointer.set_cursor(&mut client, &mut seat, &mut p), Ok(()));
    assert_eq!(seat.app_cursor, None);
}

#[test]
fn set_cursor_with_the_enter_serial_applies_the_cursor() {
    let (mut client, mut seat, pointer) = focused_setup();
    let mut p = MsgParser::new(set_cursor_payload(7, 5, 1, 2), Vec::new());
    assert_eq!(pointer.set_cursor(&mut client, &mut seat, &mut p), Ok(()));
    assert_eq!(
        seat.app_cursor,
        Some(AppCursor { surface: 5, hotspot_x: 1, hotspot_y: 2 })
    );
    match client.objects.get(&5) {
        Some(ProtocolObject::WlSurface(s)) => assert_eq!(s.role, SurfaceRole::Cursor),
        _ => panic!("surface missing"),
    }
}

#[test]
fn set_cursor_with_the_null_surface_clears_the_cursor() {
    let (mut client, mut seat, pointer) = focused_setup();
    seat.app_cursor = Some(AppCursor { surface: 5, hotspot_x: 0, hotspot_y: 0 });
    let mut p = MsgParser::new(set_cursor_payload(7, 0, 0, 0), Vec::new());
    assert_eq!(pointer.set_cursor(&mut client, &mut seat, &mut p), Ok(()));
    assert_eq!(seat.app_cursor, None);
}

#[test]
fn set_cursor_on_a_dead_surface_is_a_protocol_error() {
    let (mut client, mut seat, pointer) = focused_setup();
    let mut p = MsgParser::new(set_cursor_payload(7, 6, 0, 0), Vec::new());
    assert!(pointer.set_cursor(&mut client, &mut seat, &mut p).is_err());
}

#[test]
fn release_forgets_the_pointer_and_its_registration() {
    let (mut client, mut seat, pointer) = focused_setup();
    client
        .add_client_obj(ProtocolObject::WlPointer(WlPointer::new(ObjectId(4))))
        .unwrap();
    seat.pointers.push(4);
    seat.pointers.push(8);
    let mut p = MsgParser::new(Vec::new(), Vec::new());
    assert_eq!(pointer.release(&mut client, &mut seat, &mut p), Ok(()));
    assert_eq!(seat.pointers, vec![8]);
    assert!(client.objects.get(&4).is_none());
}

#[test]
fn pointer_events_arrive_in_emission_order() {
    let mut client = Client::new(1, false);
    let pointer = WlPointer::new(ObjectId(4));
    pointer.send_enter(&mut client, 7, ObjectId(5), Fixed::from_raw(256), Fixed::from_raw(512));
    pointer.send_button(&mut client, 8, 1000, 0x110, 1);
    pointer.send_frame(&mut client);
    assert_eq!(
        client.events,
        vec![
            Event::PointerEnter {
                self_id: 4,
                serial: 7,
                surface: 5,
                surface_x: Fixed::from_raw(256),
                surface_y: Fixed::from_raw(512),
            },
            Event::PointerButton { self_id: 4, serial: 8, time: 1000, button: 0x110, state: 1 },
            Event::PointerFrame { self_id: 4 },
        ]
    );
}

#[test]
fn take_drains_the_scroll_buffer_exactly_once() {
    let mut ps = PendingScroll::new();
    // axis 0 accumulates 1.5, axis 1 accumulates -2.0, source is WHEEL
    ps.axis[0] = Some(Fixed::from_raw(384));
    ps.axis[1] = Some(Fixed::from_raw(-512));
    ps.source = Some(WHEEL);
    let taken = ps.take();
    assert_eq!(taken.axis[0], Some(Fixed::from_raw(384)));
    assert_eq!(taken.axis[1], Some(Fixed::from_raw(-512)));
    assert_eq!(taken.source, Some(WHEEL));
    assert_eq!(taken.discrete, [None, None]);
    assert_eq!(taken.stop, [false, false]);
    // The immediately following take returns the empty default state.
    let again = ps.take();
    assert_eq!(again, PendingScroll::new());
}

fn selection_setup(devices: &[(u64, u32)]) -> (Client, Seat) {
    let mut client = Client::new(1, false);
    client
        .add_client_obj(ProtocolObject::ZwpPrimarySelectionSourceV1(
            ZwpPrimarySelectionSourceV1 {
                id: ObjectId(9),
                mime_types: vec!["text/plain".to_string(), "text/html".to_string()],
                offer: None,
            },
        ))
        .unwrap();
    let mut seat = Seat::new();
    for (c, d) in devices {
        seat.devices.push(SeatDevice { client: *c, device: *d });
    }
    (client, seat)
}

#[test]
fn offer_creation_without_a_device_registers_nothing() {
    let (mut client, seat) = selection_setup(&[(2, 40)]);
    let size_before = client.objects.len();
    let events_before = client.events.len();
    assert_eq!(
        ZwpPrimarySelectionOfferV1::create(&mut client, ObjectId(9), &seat),
        None
    );
    assert_eq!(client.objects.len(), size_before);
    assert_eq!(client.events.len(), events_before);
}

#[test]
fn offer_creation_announces_to_the_connection_devices() {
    let (mut client, seat) = selection_setup(&[(1, 40), (2, 41), (1, 42)]);
    let oid = ZwpPrimarySelectionOfferV1::create(&mut client, ObjectId(9), &seat).unwrap();
    match client.objects.get(&oid.0) {
        Some(ProtocolObject::ZwpPrimarySelectionOfferV1(o)) => {
            assert_eq!(o.source, Some(ObjectId(9)));
        }
        _ => panic!("offer not registered"),
    }
    match client.objects.get(&9) {
        Some(ProtocolObject::ZwpPrimarySelectionSourceV1(s)) => {
            assert_eq!(s.offer, Some(oid));
        }
        _ => panic!("source missing"),
    }
    assert_eq!(
        client.events,
        vec![
            Event::SelectionDataOffer { self_id: 40, offer: oid.0 },
            Event::SelectionOffer { self_id: oid.0, mime_type: "text/plain".to_string() },
            Event::SelectionOffer { self_id: oid.0, mime_type: "text/html".to_string() },
            Event::SelectionSelection { self_id: 40, offer: oid.0 },
            Event::SelectionOffer { self_id: oid.0, mime_type: "text/plain".to_string() },
            Event::SelectionOffer { self_id: oid.0, mime_type: "text/html".to_string() },
            Event::SelectionSelection { self_id: 42, offer: oid.0 },
        ]
    );
}

#[test]
fn disconnect_severs_both_references_idempotently() {
    let (mut client, seat) = selection_setup(&[(1, 40)]);
    let oid = ZwpPrimarySelectionOfferV1::create(&mut client, ObjectId(9), &seat).unwrap();
    let offer = match client.objects.get(&oid.0) {
        Some(ProtocolObject::ZwpPrimarySelectionOfferV1(o)) => *o,
        _ => panic!("offer not registered"),
    };
    offer.disconnect(&mut client);
    match client.objects.get(&oid.0) {
        Some(ProtocolObject::ZwpPrimarySelectionOfferV1(o)) => assert_eq!(o.source, None),
        _ => panic!("offer missing"),
    }
    match client.objects.get(&9) {
        Some(ProtocolObject::ZwpPrimarySelectionSourceV1(s)) => assert_eq!(s.offer, None),
        _ => panic!("source missing"),
    }
    // Running the (already superseded) disconnect again changes nothing.
    let size = client.objects.len();
    offer.disconnect(&mut client);
    assert_eq!(client.objects.len(), size);
}

#[test]
fn receive_forwards_to_the_live_source() {
    let (mut client, seat) = selection_setup(&[(1, 40)]);
    let oid = ZwpPrimarySelectionOfferV1::create(&mut client, ObjectId(9), &seat).unwrap();
    let offer = match client.objects.get(&oid.0) {
        Some(ProtocolObject::ZwpPrimarySelectionOfferV1(o)) => *o,
        _ => panic!("offer not registered"),
    };
    // receive = string mime type + one out-of-band fd
    let text = b"text/plain";
    let len = (text.len() + 1) as u32;
    let mut payload = len.to_le_bytes().to_vec();
    payload.extend_from_slice(text);
    while payload.len() % 4 != 0 {
        payload.push(0);
    }
    let mut p = MsgParser::new(payload, vec![33]);
    let events_before = client.events.len();
    assert_eq!(offer.receive(&mut client, &mut p), Ok(()));
    assert_eq!(
        client.events[events_before],
        Event::SelectionSend { self_id: 9, mime_type: "text/plain".to_string(), fd: 33 }
    );
}

#[test]
fn set_cursor_on_a_non_surface_is_a_wrong_interface_error() {
    let (mut client, mut seat, pointer) = focused_setup();
    client
        .add_client_obj(ProtocolObject::WlPointer(WlPointer::new(ObjectId(6))))
        .unwrap();
    let mut p = MsgParser::new(set_cursor_payload(7, 6, 0, 0), Vec::new());
    assert_eq!(
        pointer.set_cursor(&mut client, &mut seat, &mut p),
        Err(wire_runtime::wl_pointer::SetCursorError::ClientError(
            wire_runtime::client::ClientError::WrongInterface(6)
        ))
    );
}

#[test]
fn set_cursor_on_a_surface_with_another_role_is_a_role_error() {
    let (mut client, mut seat, pointer) = focused_setup();
    client
        .add_client_obj(ProtocolObject::WlSurface(WlSurface {
            id: ObjectId(6),
            role: SurfaceRole::Other,
        }))
        .unwrap();
    let mut p = MsgParser::new(set_cursor_payload(7, 6, 0, 0), Vec::new());
    assert_eq!(
        pointer.set_cursor(&mut client, &mut seat, &mut p),
        Err(wire_runtime::wl_pointer::SetCursorError::WlSurfaceError(
            wire_runtime::surface::WlSurfaceError::IncompatibleRole
        ))
    );
}

#[test]
fn exhausted_server_ids_fail_and_offer_creation_shuts_the_connection_down() {
    let (mut client, seat) = selection_setup(&[(1, 40)]);
    client.next_server_id = u32::MAX;
    assert_eq!(
        client.new_id(),
        Err(wire_runtime::client::ClientError::IdsExhausted)
    );
    assert_eq!(
        ZwpPrimarySelectionOfferV1::create(&mut client, ObjectId(9), &seat),
        None
    );
    assert!(client.shutdown);
}
