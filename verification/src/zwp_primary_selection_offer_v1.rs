use vstd::prelude::*;
use crate::client::{Client, ClientError};
use crate::ids::ObjectId;
use crate::object::ProtocolObject;
use crate::parser::{MsgParser, MsgParserError};
use crate::seat::{Seat, SeatDevice};
use crate::wire::{parse_receive, Event, EventView, Receive};

verus! {

broadcast use vstd::std_specs::hash::group_hash_axioms;

/// Request opcodes of the primary-selection-offer interface.
pub const RECEIVE: u32 = 0;

pub const DESTROY: u32 = 1;

/// A selection offer advertised to a destination client. Its link to
/// the source is a weak back-reference by id, resolved through the
/// registry and nulled on disconnect to break the cycle
/// deterministically.
#[derive(Clone, Copy, PartialEq, Eq, Structural, Debug)]
pub struct ZwpPrimarySelectionOfferV1 {
    pub id: ObjectId,
    pub source: Option<ObjectId>,
}

/// The slice of selection-source state this runtime reads: its mime
/// types and the id of the offer currently advertising it, if any.
#[derive(Debug)]
pub struct ZwpPrimarySelectionSourceV1 {
    pub id: ObjectId,
    pub mime_types: Vec<String>,
    pub offer: Option<ObjectId>,
}

/// A primary-selection device object bound on a seat.
#[derive(Clone, Copy, PartialEq, Eq, Structural, Debug)]
pub struct ZwpPrimarySelectionDeviceV1 {
    pub id: ObjectId,
}

/// The registry with a live offer's outgoing source reference nulled;
/// unchanged when the id no longer denotes an offer.
pub open spec fn with_offer_source_cleared(m: Map<u32, ProtocolObject>, id: u32) -> Map<
    u32,
    ProtocolObject,
> {
    if m.contains_key(id) && m[id].is_offer() {
        m.insert(
            id,
            ProtocolObject::ZwpPrimarySelectionOfferV1(
                ZwpPrimarySelectionOfferV1 { id: m[id].as_offer().id, source: None },
            ),
        )
    } else {
        m
    }
}

/// The registry with a live source pointed at the offer currently
/// advertising it (or at none); unchanged when the id no longer
/// denotes a source.
pub open spec fn with_source_offer(
    m: Map<u32, ProtocolObject>,
    id: u32,
    offer: Option<ObjectId>,
) -> Map<u32, ProtocolObject> {
    if m.contains_key(id) && m[id].is_source() {
        m.insert(
            id,
            ProtocolObject::ZwpPrimarySelectionSourceV1(
                ZwpPrimarySelectionSourceV1 {
                    id: m[id].as_source().id,
                    mime_types: m[id].as_source().mime_types,
                    offer,
                },
            ),
        )
    } else {
        m
    }
}

/// The registry after an offer severed its source link: the offer's
/// reference is nulled and the source is told its offer is gone.
pub open spec fn disconnected_objs(
    m: Map<u32, ProtocolObject>,
    offer: ZwpPrimarySelectionOfferV1,
) -> Map<u32, ProtocolObject> {
    match offer.source {
        None => m,
        Some(sid) => with_source_offer(with_offer_source_cleared(m, offer.id.0), sid.0, None),
    }
}

/// The events one device receives when an offer is announced: the
/// first notified device is told of the new offer object, and every
/// notified device sees the mime types restated on the offer and then
/// the selection itself.
pub open spec fn device_announce_views(
    first: bool,
    device: u32,
    offer_id: u32,
    mimes: Seq<Seq<char>>,
) -> Seq<EventView> {
    (if first {
        seq![EventView::SelectionDataOffer { self_id: device, offer: offer_id }]
    } else {
        Seq::<EventView>::empty()
    }) + Seq::new(
        mimes.len(),
        |i: int| EventView::SelectionOffer { self_id: offer_id, mime_type: mimes[i] },
    ) + seq![EventView::SelectionSelection { self_id: device, offer: offer_id }]
}

/// Whether any device on the seat belongs to the given connection.
pub open spec fn has_device_for(devices: Seq<SeatDevice>, cid: u64) -> bool {
    exists|i: int| 0 <= i < devices.len() && devices[i].client == cid
}

/// Every announcement event an offer's creation emits, in seat order.
pub open spec fn announce_views(
    devices: Seq<SeatDevice>,
    cid: u64,
    offer_id: u32,
    mimes: Seq<Seq<char>>,
) -> Seq<EventView>
    decreases devices.len(),
{
    if devices.len() == 0 {
        Seq::<EventView>::empty()
    } else {
        let prefix = devices.drop_last();
        let d = devices.last();
        announce_views(prefix, cid, offer_id, mimes) + (if d.client == cid {
            device_announce_views(!has_device_for(prefix, cid), d.device, offer_id, mimes)
        } else {
            Seq::<EventView>::empty()
        })
    }
}

impl ZwpPrimarySelectionOfferV1 {
    /// Creates and announces an offer for a live source. If no device
    /// on the seat belongs to the requesting connection, creation fails
    /// atomically: no object is registered, no event is emitted, and
    /// the connection is bit-for-bit unchanged. Otherwise the offer is
    /// registered under a fresh server id, the first device is told of
    /// it, every device of the connection sees the mime types and the
    /// selection, and the source is pointed at its new offer.
    pub fn create(client: &mut Client, src_id: ObjectId, seat: &Seat) -> (r: Option<ObjectId>)
        requires
            old(client).wf(),
            old(client).objs().contains_key(src_id.0),
            old(client).objs()[src_id.0].is_source(),
        ensures
            final(client).wf(),
            ({
                let mimes = old(client).objs()[src_id.0].as_source().mime_types.deep_view();
                if !has_device_for(seat.devices@, old(client).id) {
                    r is None && *final(client) == *old(client)
                } else if old(client).next_server_id == u32::MAX {
                    r is None && *final(client) == (Client { shutdown: true, ..*old(client) })
                } else {
                    let oid = old(client).next_server_id;
                    r == Some(ObjectId(oid)) && *final(client) == (Client {
                        objects: final(client).objects,
                        next_server_id: (old(client).next_server_id + 1) as u32,
                        events: final(client).events,
                        ..*old(client)
                    }) && final(client).objs() == with_source_offer(
                        old(client).objs(),
                        src_id.0,
                        Some(ObjectId(oid)),
                    ).insert(
                        oid,
                        ProtocolObject::ZwpPrimarySelectionOfferV1(
                            ZwpPrimarySelectionOfferV1 {
                                id: ObjectId(oid),
                                source: Some(src_id),
                            },
                        ),
                    ) && final(client).evs() == old(client).evs() + announce_views(
                        seat.devices@,
                        old(client).id,
                        oid,
                        mimes,
                    )
                }
            }),
    {
        let mut any = false;
        let mut i: usize = 0;
        while i < seat.devices.len()
            invariant
                i <= seat.devices.len(),
                any == has_device_for(seat.devices@.subrange(0, i as int), client.id),
            decreases seat.devices.len() - i,
        {
            let d = seat.devices[i];
            proof {
                let sub1 = seat.devices@.subrange(0, i + 1 as int);
                let sub0 = seat.devices@.subrange(0, i as int);
                assert(sub1.drop_last() =~= sub0);
                assert(sub1.last() == d);
                if d.client == client.id {
                    assert(has_device_for(sub1, client.id)) by {
                        assert(sub1[i as int] == d);
                    }
                } else {
                    assert(has_device_for(sub1, client.id) == has_device_for(sub0, client.id))
                        by {
                        if has_device_for(sub1, client.id) {
                            let w = choose|w: int|
                                0 <= w < sub1.len() && sub1[w].client == client.id;
                            if w < i {
                                assert(sub0[w] == sub1[w]);
                            }
                        }
                        if has_device_for(sub0, client.id) {
                            let w = choose|w: int|
                                0 <= w < sub0.len() && sub0[w].client == client.id;
                            assert(sub1[w] == sub0[w]);
                        }
                    }
                }
            }
            if d.client == client.id {
                any = true;
            }
            i = i + 1;
        }
        proof {
            assert(seat.devices@.subrange(0, seat.devices@.len() as int) =~= seat.devices@);
        }
        if !any {
            // No destination device: fail atomically, registering
            // nothing and emitting nothing.
            return None;
        }
        let oid = match client.new_id() {
            Ok(id) => id,
            Err(_) => {
                // Fatal for the connection; the teardown event reaches
                // the peer through the excluded I/O layer.
                client.shutdown = true;
                return None;
            },
        };
        // Detach the source while announcing, so its mime types can be
        // read while events accumulate; it is reattached below.
        let src = match client.remove_obj(src_id.raw()) {
            Ok(ProtocolObject::ZwpPrimarySelectionSourceV1(s)) => s,
            _ => {
                proof {
                    assert(false);
                }
                return None;
            },
        };
        let ghost c0 = *client;
        let ghost mimes = src.mime_types.deep_view();
        let mut sent = false;
        let mut i: usize = 0;
        while i < seat.devices.len()
            invariant
                i <= seat.devices.len(),
                client.wf(),
                *client == (Client { events: client.events, ..c0 }),
                sent == has_device_for(seat.devices@.subrange(0, i as int), c0.id),
                client.evs() == c0.evs() + announce_views(
                    seat.devices@.subrange(0, i as int),
                    c0.id,
                    oid.0,
                    mimes,
                ),
                mimes == src.mime_types.deep_view(),
            decreases seat.devices.len() - i,
        {
            let d = seat.devices[i];
            let ghost sub1 = seat.devices@.subrange(0, i + 1 as int);
            let ghost sub0 = seat.devices@.subrange(0, i as int);
            proof {
                assert(sub1.drop_last() =~= sub0);
                assert(sub1.last() == d);
                if d.client == c0.id {
                    assert(has_device_for(sub1, c0.id)) by {
                        assert(sub1[i as int] == d);
                    }
                } else {
                    assert(has_device_for(sub1, c0.id) == has_device_for(sub0, c0.id)) by {
                        if has_device_for(sub1, c0.id) {
                            let w = choose|w: int| 0 <= w < sub1.len() && sub1[w].client == c0.id;
                            if w < i {
                                assert(sub0[w] == sub1[w]);
                            }
                        }
                        if has_device_for(sub0, c0.id) {
                            let w = choose|w: int| 0 <= w < sub0.len() && sub0[w].client == c0.id;
                            assert(sub1[w] == sub0[w]);
                        }
                    }
                }
            }
            if d.client == client.id {
                let ghost first0 = !sent;
                let ghost ev_start = client.evs();
                if !sent {
                    client.event(
                        Event::SelectionDataOffer { self_id: d.device, offer: oid.raw() },
                    );
                }
                sent = true;
                let mut j: usize = 0;
                while j < src.mime_types.len()
                    invariant
                        j <= src.mime_types.len(),
                        client.wf(),
                        *client == (Client { events: client.events, ..c0 }),
                        mimes == src.mime_types.deep_view(),
                        client.evs() == ev_start + (if first0 {
                            seq![
                                EventView::SelectionDataOffer {
                                    self_id: d.device,
                                    offer: oid.0,
                                },
                            ]
                        } else {
                            Seq::<EventView>::empty()
                        }) + Seq::new(
                            j as nat,
                            |k: int| EventView::SelectionOffer {
                                self_id: oid.0,
                                mime_type: mimes[k],
                            },
                        ),
                    decreases src.mime_types.len() - j,
                {
                    let mt = src.mime_types[j].clone();
                    client.event(Event::SelectionOffer { self_id: oid.raw(), mime_type: mt });
                    proof {
                        assert(client.evs() =~= ev_start + (if first0 {
                            seq![
                                EventView::SelectionDataOffer {
                                    self_id: d.device,
                                    offer: oid.0,
                                },
                            ]
                        } else {
                            Seq::<EventView>::empty()
                        }) + Seq::new(
                            (j + 1) as nat,
                            |k: int| EventView::SelectionOffer {
                                self_id: oid.0,
                                mime_type: mimes[k],
                            },
                        ));
                    }
                    j = j + 1;
                }
                client.event(
                    Event::SelectionSelection { self_id: d.device, offer: oid.raw() },
                );
                proof {
                    assert(client.evs() =~= ev_start + device_announce_views(
                        first0,
                        d.device,
                        oid.0,
                        mimes,
                    ));
                    assert(announce_views(sub1, c0.id, oid.0, mimes) == announce_views(
                        sub0,
                        c0.id,
                        oid.0,
                        mimes,
                    ) + device_announce_views(first0, d.device, oid.0, mimes));
                    assert(client.evs() =~= c0.evs() + announce_views(sub1, c0.id, oid.0, mimes));
                }
            } else {
                proof {
                    assert(announce_views(sub1, c0.id, oid.0, mimes) =~= announce_views(
                        sub0,
                        c0.id,
                        oid.0,
                        mimes,
                    ));
                }
            }
            i = i + 1;
        }
        proof {
            assert(seat.devices@.subrange(0, seat.devices@.len() as int) =~= seat.devices@);
        }
        // Reattach the source, now pointing at its offer.
        let src_back = ZwpPrimarySelectionSourceV1 {
            id: src.id,
            mime_types: src.mime_types,
            offer: Some(oid),
        };
        client.objects.insert(
            src_id.raw(),
            ProtocolObject::ZwpPrimarySelectionSourceV1(src_back),
        );
        proof {
            assert(client.objects@ =~= with_source_offer(
                old(client).objs(),
                src_id.0,
                Some(oid),
            ));
        }
        let offer = ZwpPrimarySelectionOfferV1 { id: oid, source: Some(src_id) };
        client.add_server_obj(ProtocolObject::ZwpPrimarySelectionOfferV1(offer));
        Some(oid)
    }

    /// Advertises one mime type on this offer.
    pub fn send_offer(&self, client: &mut Client, mime_type: &str)
        ensures
            *final(client) == (Client { events: final(client).events, ..*old(client) }),
            final(client).evs() == old(client).evs().push(
                EventView::SelectionOffer { self_id: self.id.0, mime_type: mime_type@ },
            ),
    {
        let owned = mime_type.to_owned();
        client.event(Event::SelectionOffer { self_id: self.id.0, mime_type: owned });
    }

    /// Forwards a transfer request to the source, when one is still
    /// linked and live; a disconnected offer accepts the request and
    /// does nothing.
    pub fn receive(&self, client: &mut Client, p: &mut MsgParser) -> (r: Result<(), ReceiveError>)
        requires
            old(p).wf(),
            old(client).wf(),
        ensures
            final(p).wf(),
            final(p).data == old(p).data,
            final(client).wf(),
            match parse_receive(old(p).data@, old(p).pos as int, old(p).fds@) {
                Err(e) => r == Err::<(), ReceiveError>(ReceiveError::ParseFailed(e)) && *final(client) == *old(client),
                Ok((mime, fd, new_pos)) => final(p).pos == new_pos && final(p).fds@ == old(p).fds@.drop_first() && r == Ok::<(), ReceiveError>(()) && (match self.source {
                    Some(sid) => if old(client).objs().contains_key(sid.0) && old(client).objs()[sid.0].is_source() {
                        *final(client) == (Client {
                            events: final(client).events,
                            ..*old(client)
                        }) && final(client).evs() == old(client).evs().push(
                            EventView::SelectionSend { self_id: sid.0, mime_type: mime, fd },
                        )
                    } else {
                        *final(client) == *old(client)
                    },
                    None => *final(client) == *old(client),
                }),
            },
    {
        let req = match Receive::parse(p) {
            Ok(v) => v,
            Err(e) => {
                return Err(ReceiveError::ParseFailed(e));
            },
        };
        match self.source {
            Some(sid) => {
                let live = match client.lookup(sid.raw()) {
                    Ok(ProtocolObject::ZwpPrimarySelectionSourceV1(_)) => true,
                    _ => false,
                };
                if live {
                    client.event(
                        Event::SelectionSend {
                            self_id: sid.raw(),
                            mime_type: req.mime_type,
                            fd: req.fd,
                        },
                    );
                }
            },
            None => {},
        }
        Ok(())
    }

    /// Severs the link to the source and tells the source its offer is
    /// gone. Idempotent on the registry: once the stored offer's
    /// reference is nulled, a second disconnect changes nothing.
    pub fn disconnect(&self, client: &mut Client)
        requires
            old(client).wf(),
        ensures
            final(client).wf(),
            *final(client) == (Client { objects: final(client).objects, ..*old(client) }),
            final(client).objs() == disconnected_objs(old(client).objs(), *self),
    {
        match self.source {
            Some(sid) => {
                client.clear_offer_source(self.id.raw());
                client.set_source_offer(sid.raw(), None);
            },
            None => {},
        }
    }

    /// Teardown hook run at connection shutdown: severs the source link
    /// like `disconnect`, breaking the offer-source cycle.
    pub fn break_loops(&self, client: &mut Client)
        requires
            old(client).wf(),
        ensures
            final(client).wf(),
            *final(client) == (Client { objects: final(client).objects, ..*old(client) }),
            final(client).objs() == disconnected_objs(old(client).objs(), *self),
    {
        self.disconnect(client);
    }

    /// Severs the source link, then detaches this offer from the
    /// registry; the request carries no payload.
    pub fn destroy(&self, client: &mut Client, p: &mut MsgParser) -> (r: Result<(), DestroyError>)
        requires
            old(client).wf(),
        ensures
            *final(p) == *old(p),
            final(client).wf(),
            *final(client) == (Client { objects: final(client).objects, ..*old(client) }),
            ({
                let m = disconnected_objs(old(client).objs(), *self);
                if m.contains_key(self.id.0) {
                    r == Ok::<(), DestroyError>(()) && final(client).objs() == m.remove(self.id.0)
                } else {
                    r == Err::<(), DestroyError>(
                        DestroyError::ClientError(ClientError::ObjectDoesNotExist(self.id.0)),
                    ) && final(client).objs() == m
                }
            }),
    {
        self.disconnect(client);
        match client.remove_obj(self.id.raw()) {
            Ok(_) => Ok(()),
            Err(e) => Err(DestroyError::ClientError(e)),
        }
    }
}

#[derive(Clone, Copy, PartialEq, Eq, Structural, Debug)]
pub enum ZwpPrimarySelectionOfferV1Error {
    ClientError(ClientError),
    ReceiveError(ReceiveError),
    DestroyError(DestroyError),
}

#[derive(Clone, Copy, PartialEq, Eq, Structural, Debug)]
pub enum ReceiveError {
    ParseFailed(MsgParserError),
    ClientError(ClientError),
}

#[derive(Clone, Copy, PartialEq, Eq, Structural, Debug)]
pub enum DestroyError {
    ParseFailed(MsgParserError),
    ClientError(ClientError),
}

} // verus!
