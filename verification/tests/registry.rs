use wire_runtime::client::{Client, ClientError, MIN_SERVER_ID};
use wire_runtime::globals::{GlobalKind, GlobalRegistry, GlobalsError};
use wire_runtime::ids::{GlobalName, ObjectId};
use wire_runtime::jay_compositor::{JayCompositor, JayCompositorGlobal};
use wire_runtime::object::ProtocolObject;
use wire_runtime::surface::{SurfaceRole, WlSurface};
use wire_runtime::zxdg_output_manager_v1::ZxdgOutputManagerV1Global;

fn surface_obj(id: u32) -> ProtocolObject {
    ProtocolObject::WlSurface(WlSurface { id: ObjectId(id), role: SurfaceRole::Unassigned })
}

#[test]
fn add_object_rejects_duplicates_and_keeps_the_original() {
    let mut client = Client::new(1, false);
    assert_eq!(client.add_client_obj(surface_obj(3)), Ok(()));
    let before = client.objects.len();
    // A second insert under the same id must fail and leave the
    // registry referencing only the original object.
    let dup = ProtocolObject::WlSurface(WlSurface { id: ObjectId(3), role: SurfaceRole::Other });
    assert_eq!(client.add_client_obj(dup), Err(ClientError::IdAlreadyInUse(3)));
    assert_eq!(client.objects.len(), before);
    match client.objects.get(&3) {
        Some(ProtocolObject::WlSurface(s)) => assert_eq!(s.role, SurfaceRole::Unassigned),
        _ => panic!("original object was replaced"),
    }
}

#[test]
fn add_object_rejects_null_and_server_range_ids() {
    let mut client = Client::new(1, false);
    assert_eq!(client.add_client_obj(surface_obj(0)), Err(ClientError::IdOutsideClientRange(0)));
    assert_eq!(
        client.add_client_obj(surface_obj(MIN_SERVER_ID)),
        Err(ClientError::IdOutsideClientRange(MIN_SERVER_ID))
    );
}

#[test]
fn remove_detaches_and_unknown_ids_fail() {
    let mut client = Client::new(1, false);
    client.add_client_obj(surface_obj(3)).unwrap();
    assert!(client.remove_obj(3).is_ok());
    assert_eq!(client.objects.len(), 0);
    match client.remove_obj(3) {
        Err(ClientError::ObjectDoesNotExist(3)) => {}
        other => panic!("unexpected result: {:?}", other),
    }
}

#[test]
fn new_ids_are_fresh_and_in_the_server_range() {
    let mut client = Client::new(1, false);
    let a = client.new_id().unwrap();
    let b = client.new_id().unwrap();
    assert_eq!(a.0, MIN_SERVER_ID);
    assert_eq!(b.0, MIN_SERVER_ID + 1);
}

#[test]
fn singleton_global_binds_exactly_once() {
    let mut globals = GlobalRegistry::new();
    let mut client = Client::new(1, true);
    globals
        .register(GlobalKind::JayCompositor(JayCompositorGlobal::new(GlobalName(1))))
        .unwrap();
    assert_eq!(globals.bind(&mut client, GlobalName(1), 1, ObjectId(10)), Ok(()));
    assert_eq!(client.objects.len(), 1);
    // The second bind of a singleton is rejected before any object is
    // registered: exactly one live instance remains.
    assert_eq!(
        globals.bind(&mut client, GlobalName(1), 1, ObjectId(11)),
        Err(GlobalsError::SingletonAlreadyBound(1))
    );
    assert_eq!(client.objects.len(), 1);
    assert!(client.objects.get(&11).is_none());
    match client.objects.get(&10) {
        Some(ProtocolObject::JayCompositor(JayCompositor { id })) => assert_eq!(id.0, 10),
        _ => panic!("bound object missing"),
    }
}

#[test]
fn bind_checks_name_version_and_privilege() {
    let mut globals = GlobalRegistry::new();
    let mut plain = Client::new(1, false);
    let mut trusted = Client::new(2, true);
    globals
        .register(GlobalKind::JayCompositor(JayCompositorGlobal::new(GlobalName(1))))
        .unwrap();
    globals
        .register(GlobalKind::ZxdgOutputManager(ZxdgOutputManagerV1Global::new(GlobalName(2))))
        .unwrap();
    assert_eq!(
        globals.bind(&mut plain, GlobalName(7), 1, ObjectId(10)),
        Err(GlobalsError::GlobalDoesNotExist(7))
    );
    assert_eq!(
        globals.bind(&mut trusted, GlobalName(2), 4, ObjectId(10)),
        Err(GlobalsError::TooHighVersion(4, 3))
    );
    // The compositor control global is secure: an unprivileged
    // connection may not bind it.
    assert_eq!(
        globals.bind(&mut plain, GlobalName(1), 1, ObjectId(10)),
        Err(GlobalsError::AccessDenied(1))
    );
    assert_eq!(plain.objects.len(), 0);
    // The output manager is not secure; version 3 is advertised.
    assert_eq!(globals.bind(&mut plain, GlobalName(2), 3, ObjectId(10)), Ok(()));
}

#[test]
fn register_rejects_a_taken_name() {
    let mut globals = GlobalRegistry::new();
    globals
        .register(GlobalKind::JayCompositor(JayCompositorGlobal::new(GlobalName(1))))
        .unwrap();
    assert_eq!(
        globals.register(GlobalKind::ZxdgOutputManager(ZxdgOutputManagerV1Global::new(
            GlobalName(1)
        ))),
        Err(GlobalsError::NameAlreadyInUse(1))
    );
}

#[test]
fn discovery_lists_every_advertised_capability() {
    let mut globals = GlobalRegistry::new();
    globals
        .register(GlobalKind::JayCompositor(JayCompositorGlobal::new(GlobalName(1))))
        .unwrap();
    globals
        .register(GlobalKind::ZxdgOutputManager(ZxdgOutputManagerV1Global::new(GlobalName(2))))
        .unwrap();
    assert_eq!(globals.list(), vec![(1, 1), (2, 3)]);
}
