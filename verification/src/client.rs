use vstd::prelude::*;
use std::collections::HashMap;
use crate::ids::ObjectId;
use crate::object::ProtocolObject;
use crate::parser::MsgParserError;
use crate::output::WlOutput;
use crate::surface::{SurfaceRole, WlSurface};
use crate::wire::{Event, EventView};
use crate::zwp_primary_selection_offer_v1::{
    ZwpPrimarySelectionOfferV1, ZwpPrimarySelectionSourceV1,
};

verus! {

broadcast use vstd::std_specs::hash::group_hash_axioms;

/// The lowest object id in the server-allocated range; client-chosen
/// ids lie strictly below it and above zero.
pub const MIN_SERVER_ID: u32 = 0xFF00_0000;

/// The registry-and-protocol error taxonomy of a connection. All of
/// these are protocol violations by the peer and fatal to the
/// connection, except where a handler's contract says otherwise.
#[derive(Clone, Copy, PartialEq, Eq, Structural, Debug)]
pub enum ClientError {
    /// The peer used an object id that already denotes a live object.
    IdAlreadyInUse(u32),
    /// The peer referred to an id that denotes no live object.
    ObjectDoesNotExist(u32),
    /// The id denotes a live object of a different interface than the
    /// request expects.
    WrongInterface(u32),
    /// The peer chose the null id or an id in the server range for a
    /// client-created object.
    IdOutsideClientRange(u32),
    /// The server-side id space is exhausted.
    IdsExhausted,
    /// The opcode is not accepted by the target object's negotiated
    /// version: the bound id, then the opcode.
    InvalidMethod(u32, u32),
    /// A request payload could not be decoded.
    ParserError(MsgParserError),
}

/// One client connection: the sole owner of its live protocol objects,
/// its outgoing event queue, and its serial bookkeeping. Objects never
/// migrate across connections.
pub struct Client {
    pub id: u64,
    /// Whether the connection arrived over a trusted side channel and
    /// may bind secure globals.
    pub privileged: bool,
    /// The object registry: object id to live instance.
    pub objects: HashMap<u32, ProtocolObject>,
    /// The next id to hand out for a server-created object.
    pub next_server_id: u32,
    /// The highest serial issued to this connection so far.
    pub last_serial: u32,
    /// The serial of the most recent pointer enter delivered here.
    pub last_enter_serial: u32,
    /// Typed events queued for the peer, oldest first.
    pub events: Vec<Event>,
    /// Set when a fatal error was recorded; the excluded I/O layer
    /// tears the connection down once it sees this.
    pub shutdown: bool,
}

impl Client {
    /// The registry as a map from id to live object.
    pub open spec fn objs(&self) -> Map<u32, ProtocolObject> {
        self.objects@
    }

    /// The outgoing event queue in abstract form, oldest first.
    pub open spec fn evs(&self) -> Seq<EventView> {
        self.events.deep_view()
    }

    /// Registry well-formedness: every object sits under its own id,
    /// and every server-range id ever handed out lies below the
    /// allocator cursor, so fresh server ids never collide.
    pub open spec fn wf(&self) -> bool {
        &&& self.next_server_id >= MIN_SERVER_ID
        &&& forall|k: u32| #[trigger]
            self.objects@.contains_key(k) ==> self.objects@[k].spec_id() == k
        &&& forall|k: u32| #[trigger]
            self.objects@.contains_key(k) && k >= MIN_SERVER_ID ==> k < self.next_server_id
    }

    pub fn new(id: u64, privileged: bool) -> (r: Self)
        ensures
            r.id == id,
            r.privileged == privileged,
            r.objs() == Map::<u32, ProtocolObject>::empty(),
            r.next_server_id == MIN_SERVER_ID,
            r.last_serial == 0,
            r.last_enter_serial == 0,
            r.events@ == Seq::<Event>::empty(),
            r.shutdown == false,
            r.wf(),
    {
        Client {
            id,
            privileged,
            objects: HashMap::new(),
            next_server_id: MIN_SERVER_ID,
            last_serial: 0,
            last_enter_serial: 0,
            events: Vec::new(),
            shutdown: false,
        }
    }

    /// Registers a client-created object under its own id. Fails, and
    /// leaves the connection bit-for-bit unchanged, if the id is outside
    /// the client range or already denotes a live object: in that case
    /// the registry still references only the original object.
    pub fn add_client_obj(&mut self, obj: ProtocolObject) -> (r: Result<(), ClientError>)
        requires
            old(self).wf(),
        ensures
            final(self).wf(),
            if obj.spec_id() == 0 || obj.spec_id() >= MIN_SERVER_ID {
                r == Err::<(), ClientError>(ClientError::IdOutsideClientRange(obj.spec_id()))
                    && *final(self) == *old(self)
            } else if old(self).objs().contains_key(obj.spec_id()) {
                r == Err::<(), ClientError>(ClientError::IdAlreadyInUse(obj.spec_id())) && *final(self) == *old(self)
            } else {
                r == Ok::<(), ClientError>(()) && *final(self) == (Client { objects: final(self).objects, ..*old(self) }) && final(self).objs() == old(self).objs().insert(obj.spec_id(), obj)
            },
    {
        let id = obj.id();
        if id == 0 || id >= MIN_SERVER_ID {
            return Err(ClientError::IdOutsideClientRange(id));
        }
        if self.objects.contains_key(&id) {
            return Err(ClientError::IdAlreadyInUse(id));
        }
        self.objects.insert(id, obj);
        Ok(())
    }

    /// Registers a server-created object; the caller must hold a fresh
    /// id from `new_id`, so registration cannot fail.
    pub fn add_server_obj(&mut self, obj: ProtocolObject)
        requires
            old(self).wf(),
            obj.spec_id() >= MIN_SERVER_ID,
            obj.spec_id() < old(self).next_server_id,
            !old(self).objs().contains_key(obj.spec_id()),
        ensures
            final(self).wf(),
            *final(self) == (Client { objects: final(self).objects, ..*old(self) }),
            final(self).objs() == old(self).objs().insert(obj.spec_id(), obj),
    {
        let id = obj.id();
        self.objects.insert(id, obj);
    }

    /// Hands out a fresh server-range id, never one that denotes a live
    /// object.
    pub fn new_id(&mut self) -> (r: Result<ObjectId, ClientError>)
        requires
            old(self).wf(),
        ensures
            final(self).wf(),
            final(self).objects == old(self).objects,
            *final(self) == (Client { next_server_id: final(self).next_server_id, ..*old(self) }),
            if old(self).next_server_id < u32::MAX {
                r matches Ok(id) && id.0 == old(self).next_server_id && !old(self).objs().contains_key(id.0) && id.0 >= MIN_SERVER_ID && final(self).next_server_id
                    == old(self).next_server_id + 1 && id.0 < final(self).next_server_id
            } else {
                r == Err::<ObjectId, ClientError>(ClientError::IdsExhausted) && *final(self)
                    == *old(self)
            },
    {
        if self.next_server_id == u32::MAX {
            return Err(ClientError::IdsExhausted);
        }
        let id = self.next_server_id;
        self.next_server_id = self.next_server_id + 1;
        Ok(ObjectId::from_raw(id))
    }

    /// Detaches an id from the registry and returns the object that was
    /// live under it. The caller runs the object's shutdown duties.
    pub fn remove_obj(&mut self, id: u32) -> (r: Result<ProtocolObject, ClientError>)
        requires
            old(self).wf(),
        ensures
            final(self).wf(),
            if old(self).objs().contains_key(id) {
                r matches Ok(obj) && obj == old(self).objs()[id] && *final(self) == (Client { objects: final(self).objects, ..*old(self) }) && final(self).objs() == old(self).objs().remove(id)
            } else {
                r == Err::<ProtocolObject, ClientError>(ClientError::ObjectDoesNotExist(id))
                    && *final(self) == *old(self)
            },
    {
        if !self.objects.contains_key(&id) {
            return Err(ClientError::ObjectDoesNotExist(id));
        }
        match self.objects.remove(&id) {
            Some(obj) => Ok(obj),
            None => {
                proof {
                    assert(false);
                }
                Err(ClientError::ObjectDoesNotExist(id))
            },
        }
    }

    /// Looks an id up in the registry.
    pub fn lookup(&self, id: u32) -> (r: Result<&ProtocolObject, ClientError>)
        ensures
            if self.objs().contains_key(id) {
                r matches Ok(obj) && *obj == self.objs()[id]
            } else {
                r == Err::<&ProtocolObject, ClientError>(ClientError::ObjectDoesNotExist(id))
            },
    {
        match self.objects.get(&id) {
            Some(obj) => Ok(obj),
            None => Err(ClientError::ObjectDoesNotExist(id)),
        }
    }

    /// Gives a live surface a new role.
    pub fn set_surface_role(&mut self, id: u32, role: SurfaceRole)
        requires
            old(self).wf(),
            old(self).objs().contains_key(id),
            old(self).objs()[id].is_surface(),
        ensures
            final(self).wf(),
            *final(self) == (Client { objects: final(self).objects, ..*old(self) }),
            final(self).objs() == old(self).objs().insert(
                id,
                ProtocolObject::WlSurface(WlSurface { id: old(self).objs()[id].as_surface().id, role }),
            ),
    {
        let s: WlSurface = match self.objects.get(&id) {
            Some(ProtocolObject::WlSurface(s)) => *s,
            _ => {
                proof {
                    assert(false);
                }
                WlSurface { id: ObjectId(0), role: SurfaceRole::Unassigned }
            },
        };
        self.objects.insert(id, ProtocolObject::WlSurface(WlSurface { id: s.id, role }));
    }

    /// Nulls the outgoing source reference of a live offer; a no-op when
    /// the id no longer denotes an offer.
    pub fn clear_offer_source(&mut self, id: u32)
        requires
            old(self).wf(),
        ensures
            final(self).wf(),
            *final(self) == (Client { objects: final(self).objects, ..*old(self) }),
            if old(self).objs().contains_key(id) && old(self).objs()[id].is_offer() {
                final(self).objs() == old(self).objs().insert(
                    id,
                    ProtocolObject::ZwpPrimarySelectionOfferV1(
                        ZwpPrimarySelectionOfferV1 {
                            id: old(self).objs()[id].as_offer().id,
                            source: None,
                        },
                    ),
                )
            } else {
                final(self).objects == old(self).objects
            },
    {
        let o: ZwpPrimarySelectionOfferV1 = match self.objects.get(&id) {
            Some(ProtocolObject::ZwpPrimarySelectionOfferV1(o)) => *o,
            _ => {
                return ;
            },
        };
        self.objects.insert(
            id,
            ProtocolObject::ZwpPrimarySelectionOfferV1(
                ZwpPrimarySelectionOfferV1 { id: o.id, source: None },
            ),
        );
    }

    /// Points a live selection source at the offer currently advertising
    /// it, or at none.
    pub fn set_source_offer(&mut self, id: u32, offer: Option<ObjectId>)
        requires
            old(self).wf(),
        ensures
            final(self).wf(),
            *final(self) == (Client { objects: final(self).objects, ..*old(self) }),
            if old(self).objs().contains_key(id) && old(self).objs()[id].is_source() {
                final(self).objs() == old(self).objs().insert(
                    id,
                    ProtocolObject::ZwpPrimarySelectionSourceV1(
                        ZwpPrimarySelectionSourceV1 {
                            id: old(self).objs()[id].as_source().id,
                            mime_types: old(self).objs()[id].as_source().mime_types,
                            offer,
                        },
                    ),
                )
            } else {
                final(self).objs() == old(self).objs()
            },
    {
        if !self.objects.contains_key(&id) {
            return ;
        }
        match self.objects.remove(&id) {
            Some(ProtocolObject::ZwpPrimarySelectionSourceV1(mut s)) => {
                s.offer = offer;
                self.objects.insert(id, ProtocolObject::ZwpPrimarySelectionSourceV1(s));
            },
            Some(other) => {
                let other_id = other.id();
                self.objects.insert(other_id, other);
                proof {
                    assert(self.objects@ =~= old(self).objects@);
                }
            },
            None => {
                proof {
                    assert(false);
                }
            },
        }
    }

    /// Records an xdg-output watcher on a live output (a weak
    /// back-reference kept for later geometry updates).
    pub fn push_xdg_output(&mut self, output_id: u32, xdg_id: u32)
        requires
            old(self).wf(),
            old(self).objs().contains_key(output_id),
            old(self).objs()[output_id].is_output(),
        ensures
            final(self).wf(),
            *final(self) == (Client { objects: final(self).objects, ..*old(self) }),
            final(self).objs().contains_key(output_id),
            final(self).objs()[output_id].is_output(),
            ({
                let before = old(self).objs()[output_id].as_output();
                let after = final(self).objs()[output_id].as_output();
                after.id == before.id && after.x == before.x && after.y == before.y && after.width
                    == before.width && after.height == before.height && after.xdg_outputs@
                    == before.xdg_outputs@.push(xdg_id)
            }),
            final(self).objs() == old(self).objs().insert(
                output_id,
                final(self).objs()[output_id],
            ),
    {
        match self.objects.remove(&output_id) {
            Some(ProtocolObject::WlOutput(mut o)) => {
                o.xdg_outputs.push(xdg_id);
                self.objects.insert(output_id, ProtocolObject::WlOutput(o));
            },
            _ => {
                proof {
                    assert(false);
                }
            },
        }
    }

    /// Queues a typed event for the peer.
    pub fn event(&mut self, ev: Event)
        ensures
            *final(self) == (Client { events: final(self).events, ..*old(self) }),
            final(self).events@ == old(self).events@.push(ev),
            final(self).evs() == old(self).evs().push(ev@),
    {
        let ghost v = ev@;
        self.events.push(ev);
        proof {
            assert(self.events.deep_view() =~= old(self).events.deep_view().push(v));
        }
    }

    /// Whether the peer can have seen this serial: only serials the
    /// server actually issued are valid; later ones are forgeries.
    pub fn valid_serial(&self, serial: u32) -> (r: bool)
        ensures
            r == (serial <= self.last_serial),
    {
        serial <= self.last_serial
    }
}

} // verus!
