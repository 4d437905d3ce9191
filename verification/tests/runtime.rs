use wire_runtime::client::{Client, ClientError};
use wire_runtime::dispatch::{dispatch, DispatchError};
use wire_runtime::ids::ObjectId;
use wire_runtime::jay_compositor::JayCompositor;
use wire_runtime::object::ProtocolObject;
use wire_runtime::output::WlOutput;
use wire_runtime::queue::AsyncQueue;
use wire_runtime::seat::Seat;
use wire_runtime::state::{LogLevel, State};
use wire_runtime::test_shm_pool::{
    Format, PoolMessage, TestError, TestShmPool, TestTransport,
};
use wire_runtime::wire::Event;

fn runtime_setup() -> (State, Seat, Client) {
    let mut client = Client::new(1, true);
    client
        .add_client_obj(ProtocolObject::JayCompositor(JayCompositor { id: ObjectId(3) }))
        .unwrap();
    (State::new("/tmp/log".to_string()), Seat::new(), client)
}

#[test]
fn dispatch_to_an_unknown_object_is_fatal_and_changes_nothing() {
    let (mut state, mut seat, mut client) = runtime_setup();
    let r = dispatch(&mut state, &mut seat, &mut client, 99, 0, Vec::new(), Vec::new());
    assert_eq!(
        r,
        Err(DispatchError::ClientError(ClientError::ObjectDoesNotExist(99)))
    );
    assert_eq!(client.objects.len(), 1);
    assert!(state.running);
}

#[test]
fn opcode_past_the_negotiated_bound_fails_before_the_handler() {
    let (mut state, mut seat, mut client) = runtime_setup();
    // The compositor control object accepts opcodes 0..=3; opcode 4
    // must be rejected with no side effect at all.
    let r = dispatch(&mut state, &mut seat, &mut client, 3, 4, Vec::new(), Vec::new());
    assert_eq!(
        r,
        Err(DispatchError::ClientError(ClientError::InvalidMethod(3, 4)))
    );
    assert_eq!(client.objects.len(), 1);
    assert!(client.objects.contains_key(&3));
    assert_eq!(client.events.len(), 0);
    assert!(state.running);
}

#[test]
fn quit_stops_the_event_loop_through_dispatch() {
    let (mut state, mut seat, mut client) = runtime_setup();
    let r = dispatch(&mut state, &mut seat, &mut client, 3, 2, Vec::new(), Vec::new());
    assert_eq!(r, Ok(()));
    assert!(!state.running);
}

#[test]
fn set_log_level_accepts_known_levels_and_rejects_the_rest() {
    let (mut state, mut seat, mut client) = runtime_setup();
    let r = dispatch(
        &mut state,
        &mut seat,
        &mut client,
        3,
        3,
        4u32.to_le_bytes().to_vec(),
        Vec::new(),
    );
    assert_eq!(r, Ok(()));
    assert_eq!(state.log_level, LogLevel::Trace);
    let r = dispatch(
        &mut state,
        &mut seat,
        &mut client,
        3,
        3,
        9u32.to_le_bytes().to_vec(),
        Vec::new(),
    );
    assert!(r.is_err());
    assert_eq!(state.log_level, LogLevel::Trace);
}

#[test]
fn trailing_payload_bytes_are_a_decode_error() {
    let (mut state, mut seat, mut client) = runtime_setup();
    // quit carries no payload; a stray word must be caught after the
    // handler by the exact-consumption check.
    let r = dispatch(
        &mut state,
        &mut seat,
        &mut client,
        3,
        2,
        0u32.to_le_bytes().to_vec(),
        Vec::new(),
    );
    assert!(r.is_err());
}

#[test]
fn get_log_file_registers_the_handle_and_tells_it_the_path() {
    let (mut state, mut seat, mut client) = runtime_setup();
    let r = dispatch(
        &mut state,
        &mut seat,
        &mut client,
        3,
        1,
        7u32.to_le_bytes().to_vec(),
        Vec::new(),
    );
    assert_eq!(r, Ok(()));
    assert!(client.objects.contains_key(&7));
    assert_eq!(
        client.events,
        vec![Event::LogFilePath { self_id: 7, path: "/tmp/log".to_string() }]
    );
}

#[test]
fn get_xdg_output_reports_the_logical_geometry() {
    let (mut state, mut seat, mut client) = runtime_setup();
    client
        .add_client_obj(ProtocolObject::WlOutput(WlOutput {
            id: ObjectId(8),
            x: 100,
            y: 200,
            width: 1920,
            height: 1080,
            xdg_outputs: Vec::new(),
        }))
        .unwrap();
    client
        .add_client_obj(ProtocolObject::ZxdgOutputManagerV1(
            wire_runtime::zxdg_output_manager_v1::ZxdgOutputManagerV1 {
                id: ObjectId(5),
                version: 3,
            },
        ))
        .unwrap();
    let mut payload = 12u32.to_le_bytes().to_vec();
    payload.extend_from_slice(&8u32.to_le_bytes());
    let r = dispatch(&mut state, &mut seat, &mut client, 5, 1, payload, Vec::new());
    assert_eq!(r, Ok(()));
    assert!(client.objects.contains_key(&12));
    match client.objects.get(&8) {
        Some(ProtocolObject::WlOutput(o)) => assert_eq!(o.xdg_outputs, vec![12]),
        _ => panic!("output missing"),
    }
    assert_eq!(
        client.events,
        vec![
            Event::XdgOutputLogicalPosition { self_id: 12, x: 100, y: 200 },
            Event::XdgOutputLogicalSize { self_id: 12, width: 1920, height: 1080 },
        ]
    );
}

#[test]
fn queue_hands_elements_back_in_push_order_without_suspending() {
    let mut q: AsyncQueue<char> = AsyncQueue::new();
    assert_eq!(q.push('A'), None);
    assert_eq!(q.push('B'), None);
    let first = q.pop(77);
    let second = q.pop(77);
    assert_eq!(first.ready, Some('A'));
    assert_eq!(second.ready, Some('B'));
    // Both elements were already available: no waiter was registered.
    assert_eq!(q.waiter, None);
}

#[test]
fn an_empty_queue_suspends_and_push_wakes_the_waiter() {
    let mut q: AsyncQueue<u32> = AsyncQueue::new();
    assert_eq!(q.try_pop(), None);
    let polled = q.pop(5);
    assert_eq!(polled.ready, None);
    assert_eq!(q.waiter, Some(5));
    // A second suspension overwrites the first: one waiter at most.
    let polled = q.pop(6);
    assert_eq!(polled.ready, None);
    assert_eq!(q.waiter, Some(6));
    assert_eq!(q.push(1), Some(6));
    assert_eq!(q.waiter, None);
    assert_eq!(q.try_pop(), Some(1));
}

#[test]
fn clear_empties_the_queue_and_drops_the_waiter_silently() {
    let mut q: AsyncQueue<u32> = AsyncQueue::new();
    q.push(1);
    q.pop(5);
    q.clear();
    assert_eq!(q.try_pop(), None);
    assert_eq!(q.waiter, None);
}

#[test]
fn create_buffer_announces_an_in_bounds_buffer() {
    let mut tran = TestTransport::new();
    let pool = TestShmPool::new(ObjectId(2), 4096);
    let format = Format { wl_id: Some(1), drm: 875713089 };
    let buffer = pool.create_buffer(&mut tran, 16, 32, 8, 128, &format).unwrap();
    assert_eq!(buffer.range_start, 16);
    assert_eq!(buffer.range_end, 16 + 8 * 128);
    assert!(buffer.released);
    assert_eq!(
        tran.msgs,
        vec![PoolMessage::CreateBuffer {
            self_id: 2,
            id: buffer.id,
            offset: 16,
            width: 32,
            height: 8,
            stride: 128,
            format: 1,
        }]
    );
}

#[test]
fn create_buffer_rejects_out_of_bounds_ranges() {
    let mut tran = TestTransport::new();
    let pool = TestShmPool::new(ObjectId(2), 1024);
    let format = Format { wl_id: None, drm: 42 };
    assert_eq!(
        pool.create_buffer(&mut tran, 0, 32, 8, 129, &format),
        Err(TestError::OutOfBoundsBuffer)
    );
    assert_eq!(
        pool.create_buffer(&mut tran, -4, 32, 1, 4, &format),
        Err(TestError::OutOfBoundsBuffer)
    );
    assert_eq!(tran.msgs.len(), 0);
}

#[test]
fn resize_grows_the_pool_and_destroy_sends_once() {
    let mut tran = TestTransport::new();
    let mut pool = TestShmPool::new(ObjectId(2), 1024);
    assert_eq!(pool.resize(&mut tran, 2048), Ok(()));
    assert_eq!(pool.mem_len, 2048);
    pool.destroy(&mut tran);
    pool.destroy(&mut tran);
    assert_eq!(
        tran.msgs,
        vec![
            PoolMessage::Resize { self_id: 2, size: 2048 },
            PoolMessage::Destroy { self_id: 2 },
        ]
    );
}

#[test]
fn an_unknown_wire_level_reports_its_own_error() {
    let (mut state, mut seat, mut client) = runtime_setup();
    let r = dispatch(
        &mut state,
        &mut seat,
        &mut client,
        3,
        3,
        9u32.to_le_bytes().to_vec(),
        Vec::new(),
    );
    assert_eq!(
        r,
        Err(DispatchError::JayCompositorError(
            wire_runtime::jay_compositor::JayCompositorError::SetLogLevelError(
                wire_runtime::jay_compositor::SetLogLevelError::UnknownLogLevel(9)
            )
        ))
    );
    assert_eq!(state.log_level, LogLevel::Info);
}

#[test]
fn a_truncated_payload_reports_the_decode_error() {
    let (mut state, mut seat, mut client) = runtime_setup();
    let r = dispatch(&mut state, &mut seat, &mut client, 3, 3, vec![1, 2], Vec::new());
    assert_eq!(
        r,
        Err(DispatchError::JayCompositorError(
            wire_runtime::jay_compositor::JayCompositorError::SetLogLevelError(
                wire_runtime::jay_compositor::SetLogLevelError::MsgParserError(
                    wire_runtime::parser::MsgParserError::UnexpectedEof
                )
            )
        ))
    );
}
