use vstd::prelude::*;
use vstd::std_specs::vec::vec_index_mut;
use crate::client::{Client, ClientError, MIN_SERVER_ID};
use crate::ids::{GlobalName, ObjectId};
use crate::jay_compositor::{JayCompositor, JayCompositorError, JayCompositorGlobal};
use crate::object::ProtocolObject;
use crate::zxdg_output_manager_v1::{
    ZxdgOutputManagerV1, ZxdgOutputManagerV1Error, ZxdgOutputManagerV1Global,
};

verus! {

/// An advertised capability: one of the bindable globals this runtime
/// carries.
#[derive(Clone, Copy, PartialEq, Eq, Structural, Debug)]
pub enum GlobalKind {
    JayCompositor(JayCompositorGlobal),
    ZxdgOutputManager(ZxdgOutputManagerV1Global),
}

/// The name a capability is advertised under.
pub open spec fn kind_name(k: GlobalKind) -> u32 {
    match k {
        GlobalKind::JayCompositor(g) => g.name.0,
        GlobalKind::ZxdgOutputManager(g) => g.name.0,
    }
}

/// The capability's advertised interface version.
pub open spec fn kind_version(k: GlobalKind) -> u32 {
    match k {
        GlobalKind::JayCompositor(_) => 1,
        GlobalKind::ZxdgOutputManager(_) => 3,
    }
}

/// Whether at most one bound instance may exist.
pub open spec fn kind_singleton(k: GlobalKind) -> bool {
    match k {
        GlobalKind::JayCompositor(_) => true,
        GlobalKind::ZxdgOutputManager(_) => true,
    }
}

/// Whether only privileged connections may bind the capability.
pub open spec fn kind_secure(k: GlobalKind) -> bool {
    match k {
        GlobalKind::JayCompositor(_) => true,
        GlobalKind::ZxdgOutputManager(_) => false,
    }
}

/// The object a successful bind of the capability registers.
pub open spec fn bound_object(k: GlobalKind, id: ObjectId, version: u32) -> ProtocolObject {
    match k {
        GlobalKind::JayCompositor(_) => ProtocolObject::JayCompositor(JayCompositor { id }),
        GlobalKind::ZxdgOutputManager(_) => ProtocolObject::ZxdgOutputManagerV1(
            ZxdgOutputManagerV1 { id, version },
        ),
    }
}

/// One advertised capability and whether a singleton instance of it is
/// already live.
#[derive(Clone, Copy, PartialEq, Eq, Structural, Debug)]
pub struct GlobalEntry {
    pub kind: GlobalKind,
    pub bound: bool,
}

/// Whether some entry advertises `name`.
pub open spec fn has_global(globals: Seq<GlobalEntry>, name: u32) -> bool {
    exists|i: int| 0 <= i < globals.len() && kind_name(globals[i].kind) == name
}

/// The index advertising `name`; meaningful when names are unique.
pub open spec fn global_index(globals: Seq<GlobalEntry>, name: u32) -> int {
    choose|i: int| 0 <= i < globals.len() && kind_name(globals[i].kind) == name
}

/// The table of advertised capabilities. A name is assigned once and
/// never reused while advertised.
pub struct GlobalRegistry {
    pub globals: Vec<GlobalEntry>,
}

impl GlobalRegistry {
    /// Advertised names are unique.
    pub open spec fn wf(&self) -> bool {
        forall|i: int, j: int|
            0 <= i < j < self.globals@.len() ==> kind_name(#[trigger] self.globals@[i].kind)
                != kind_name(#[trigger] self.globals@[j].kind)
    }

    pub fn new() -> (r: Self)
        ensures
            r.globals@ == Seq::<GlobalEntry>::empty(),
            r.wf(),
    {
        GlobalRegistry { globals: Vec::new() }
    }

    /// Advertises a capability; fails if its name is already taken.
    pub fn register(&mut self, kind: GlobalKind) -> (r: Result<(), GlobalsError>)
        requires
            old(self).wf(),
        ensures
            final(self).wf(),
            if has_global(old(self).globals@, kind_name(kind)) {
                r == Err::<(), GlobalsError>(GlobalsError::NameAlreadyInUse(kind_name(kind)))
                    && *final(self) == *old(self)
            } else {
                r == Ok::<(), GlobalsError>(()) && final(self).globals@ == old(self).globals@.push(GlobalEntry { kind, bound: false })
            },
    {
        let name = match kind {
            GlobalKind::JayCompositor(g) => g.name.raw(),
            GlobalKind::ZxdgOutputManager(g) => g.name.raw(),
        };
        let mut i: usize = 0;
        while i < self.globals.len()
            invariant
                i <= self.globals@.len(),
                name == kind_name(kind),
                *self == *old(self),
                self.wf(),
                forall|j: int| 0 <= j < i ==> kind_name(#[trigger] self.globals@[j].kind) != name,
            decreases self.globals@.len() - i,
        {
            let e = self.globals[i];
            let ename = match e.kind {
                GlobalKind::JayCompositor(g) => g.name.raw(),
                GlobalKind::ZxdgOutputManager(g) => g.name.raw(),
            };
            if ename == name {
                proof {
                    assert(has_global(self.globals@, name)) by {
                        assert(kind_name(self.globals@[i as int].kind) == name);
                    }
                }
                return Err(GlobalsError::NameAlreadyInUse(name));
            }
            i = i + 1;
        }
        self.globals.push(GlobalEntry { kind, bound: false });
        Ok(())
    }

    /// The queryable face of capability discovery: every advertised
    /// capability as a (name, version) pair, in advertisement order.
    pub fn list(&self) -> (r: Vec<(u32, u32)>)
        ensures
            r@.len() == self.globals@.len(),
            forall|j: int|
                0 <= j < r@.len() ==> #[trigger] r@[j] == (
                    kind_name(self.globals@[j].kind),
                    kind_version(self.globals@[j].kind),
                ),
    {
        let mut out: Vec<(u32, u32)> = Vec::new();
        let mut i: usize = 0;
        while i < self.globals.len()
            invariant
                i <= self.globals@.len(),
                out@.len() == i,
                forall|j: int|
                    0 <= j < i ==> #[trigger] out@[j] == (
                        kind_name(self.globals@[j].kind),
                        kind_version(self.globals@[j].kind),
                    ),
            decreases self.globals@.len() - i,
        {
            let e = self.globals[i];
            let pair: (u32, u32) = match e.kind {
                GlobalKind::JayCompositor(g) => (g.name.raw(), g.version()),
                GlobalKind::ZxdgOutputManager(g) => (g.name.raw(), g.version()),
            };
            out.push(pair);
            i = i + 1;
        }
        out
    }

    /// The bind operation of capability discovery: a pure factory. It
    /// fails, registering nothing and touching nothing, if the name is
    /// unknown, the requested version exceeds the advertised one, a
    /// singleton instance already exists, or a secure capability is
    /// bound by an unprivileged connection; otherwise it constructs the
    /// bound object, registers it under the peer-chosen id, and records
    /// the instance.
    pub fn bind(&mut self, client: &mut Client, name: GlobalName, version: u32, id: ObjectId) -> (r:
        Result<(), GlobalsError>)
        requires
            old(self).wf(),
            old(client).wf(),
        ensures
            final(self).wf(),
            final(client).wf(),
            if !has_global(old(self).globals@, name.0) {
                r == Err::<(), GlobalsError>(GlobalsError::GlobalDoesNotExist(name.0)) && *final(self) == *old(self) && *final(client) == *old(client)
            } else {
                ({
                    let gi = global_index(old(self).globals@, name.0);
                    let e = old(self).globals@[gi];
                    if version > kind_version(e.kind) {
                        r == Err::<(), GlobalsError>(
                            GlobalsError::TooHighVersion(version, kind_version(e.kind)),
                        ) && *final(self) == *old(self) && *final(client) == *old(client)
                    } else if kind_singleton(e.kind) && e.bound {
                        r == Err::<(), GlobalsError>(GlobalsError::SingletonAlreadyBound(name.0))
                            && *final(self) == *old(self) && *final(client) == *old(client)
                    } else if kind_secure(e.kind) && !old(client).privileged {
                        r == Err::<(), GlobalsError>(GlobalsError::AccessDenied(name.0)) && *final(self) == *old(self) && *final(client) == *old(client)
                    } else if id.0 == 0 || id.0 >= MIN_SERVER_ID {
                        r == Err::<(), GlobalsError>(
                            GlobalsError::ClientError(ClientError::IdOutsideClientRange(id.0)),
                        ) && *final(self) == *old(self) && *final(client) == *old(client)
                    } else if old(client).objs().contains_key(id.0) {
                        r == Err::<(), GlobalsError>(
                            GlobalsError::ClientError(ClientError::IdAlreadyInUse(id.0)),
                        ) && *final(self) == *old(self) && *final(client) == *old(client)
                    } else {
                        r == Ok::<(), GlobalsError>(()) && *final(client) == (Client {
                            objects: final(client).objects,
                            ..*old(client)
                        }) && final(client).objs() == old(client).objs().insert(
                            id.0,
                            bound_object(e.kind, id, version),
                        ) && final(self).globals@ == old(self).globals@.update(
                            gi,
                            GlobalEntry { kind: e.kind, bound: true },
                        )
                    }
                })
            },
    {
        let raw_name = name.raw();
        let mut i: usize = 0;
        while i < self.globals.len()
            invariant
                i <= self.globals@.len(),
                raw_name == name.0,
                *self == *old(self),
                *client == *old(client),
                self.wf(),
                client.wf(),
                forall|j: int|
                    0 <= j < i ==> kind_name(#[trigger] self.globals@[j].kind) != raw_name,
            decreases self.globals@.len() - i,
        {
            let e = self.globals[i];
            let ename = match e.kind {
                GlobalKind::JayCompositor(g) => g.name.raw(),
                GlobalKind::ZxdgOutputManager(g) => g.name.raw(),
            };
            if ename == raw_name {
                proof {
                    assert(has_global(self.globals@, raw_name)) by {
                        assert(kind_name(self.globals@[i as int].kind) == raw_name);
                    }
                    let gi = global_index(self.globals@, raw_name);
                    assert(0 <= gi < self.globals@.len() && kind_name(self.globals@[gi].kind)
                        == raw_name);
                    if gi < i {
                        assert(kind_name(self.globals@[gi].kind) != kind_name(
                            self.globals@[i as int].kind,
                        ));
                    }
                    if i < gi {
                        assert(kind_name(self.globals@[i as int].kind) != kind_name(
                            self.globals@[gi].kind,
                        ));
                    }
                    assert(gi == i);
                }
                let advertised = match e.kind {
                    GlobalKind::JayCompositor(g) => g.version(),
                    GlobalKind::ZxdgOutputManager(g) => g.version(),
                };
                if version > advertised {
                    return Err(GlobalsError::TooHighVersion(version, advertised));
                }
                let singleton = match e.kind {
                    GlobalKind::JayCompositor(g) => g.singleton(),
                    GlobalKind::ZxdgOutputManager(g) => g.singleton(),
                };
                if singleton && e.bound {
                    return Err(GlobalsError::SingletonAlreadyBound(raw_name));
                }
                let secure = match e.kind {
                    GlobalKind::JayCompositor(g) => g.secure(),
                    GlobalKind::ZxdgOutputManager(g) => g.secure(),
                };
                if secure && !client.privileged {
                    return Err(GlobalsError::AccessDenied(raw_name));
                }
                let bind_result: Result<(), GlobalsError> = match e.kind {
                    GlobalKind::JayCompositor(g) => match g.bind_(id, client, version) {
                        Ok(()) => Ok(()),
                        Err(JayCompositorError::ClientError(ce)) => Err(
                            GlobalsError::ClientError(ce),
                        ),
                        Err(_) => {
                            proof {
                                assert(false);
                            }
                            Err(GlobalsError::GlobalDoesNotExist(raw_name))
                        },
                    },
                    GlobalKind::ZxdgOutputManager(g) => match g.bind_(id, client, version) {
                        Ok(()) => Ok(()),
                        Err(ZxdgOutputManagerV1Error::ClientError(ce)) => Err(
                            GlobalsError::ClientError(ce),
                        ),
                        Err(_) => {
                            proof {
                                assert(false);
                            }
                            Err(GlobalsError::GlobalDoesNotExist(raw_name))
                        },
                    },
                };
                match bind_result {
                    Ok(()) => {
                        let slot = vec_index_mut(&mut self.globals, i);
                        *slot = GlobalEntry { kind: e.kind, bound: true };
                        return Ok(());
                    },
                    Err(ge) => {
                        return Err(ge);
                    },
                }
            }
            i = i + 1;
        }
        proof {
            assert(!has_global(self.globals@, raw_name)) by {
                if has_global(self.globals@, raw_name) {
                    let w = choose|w: int|
                        0 <= w < self.globals@.len() && kind_name(self.globals@[w].kind)
                            == raw_name;
                    assert(kind_name(self.globals@[w].kind) != raw_name);
                }
            }
        }
        Err(GlobalsError::GlobalDoesNotExist(raw_name))
    }
}

/// Law: binding a singleton capability twice yields exactly one live
/// instance. A successful bind leaves the registry as
/// `globals.update(gi, ..bound: true)` (the ensures of `bind`); this
/// lemma shows that in that registry the same name still resolves to
/// the same entry, now recorded as bound and still a singleton — so
/// the ensures of `bind` forces the second request into the
/// singleton-already-bound rejection, before any object is registered.
pub proof fn lemma_singleton_stays_bound(before: GlobalRegistry, after: GlobalRegistry, name: u32)
    requires
        before.wf(),
        has_global(before.globals@, name),
        after.globals@ == before.globals@.update(
            global_index(before.globals@, name),
            GlobalEntry { kind: before.globals@[global_index(before.globals@, name)].kind, bound: true },
        ),
    ensures
        has_global(after.globals@, name),
        global_index(after.globals@, name) == global_index(before.globals@, name),
        after.globals@[global_index(after.globals@, name)].bound == true,
        after.globals@[global_index(after.globals@, name)].kind == before.globals@[global_index(
            before.globals@,
            name,
        )].kind,
{
    let gi = global_index(before.globals@, name);
    assert(0 <= gi < before.globals@.len() && kind_name(before.globals@[gi].kind) == name);
    assert(kind_name(after.globals@[gi].kind) == name);
    assert(has_global(after.globals@, name)) by {
        assert(0 <= gi < after.globals@.len() && kind_name(after.globals@[gi].kind) == name);
    }
    let gj = global_index(after.globals@, name);
    assert(0 <= gj < after.globals@.len() && kind_name(after.globals@[gj].kind) == name);
    if gj != gi {
        assert(kind_name(before.globals@[gj].kind) == name);
        if gj < gi {
            assert(kind_name(before.globals@[gj].kind) != kind_name(before.globals@[gi].kind));
        } else {
            assert(kind_name(before.globals@[gi].kind) != kind_name(before.globals@[gj].kind));
        }
    }
}

/// Failures of capability binding.
#[derive(Clone, Copy, PartialEq, Eq, Structural, Debug)]
pub enum GlobalsError {
    /// No capability is advertised under the name.
    GlobalDoesNotExist(u32),
    /// The requested version exceeds the advertised one: requested,
    /// then advertised.
    TooHighVersion(u32, u32),
    /// A singleton capability already has a live instance.
    SingletonAlreadyBound(u32),
    /// A secure capability was bound by an unprivileged connection.
    AccessDenied(u32),
    /// A capability was advertised under a name already taken.
    NameAlreadyInUse(u32),
    /// Registering the bound object failed.
    ClientError(ClientError),
}

} // verus!
