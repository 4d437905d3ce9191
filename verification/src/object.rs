use vstd::prelude::*;
use crate::jay_compositor::{JayCompositor, JayLogFile};
use crate::output::{WlOutput, ZxdgOutputV1};
use crate::surface::WlSurface;
use crate::wl_pointer::WlPointer;
use crate::zwp_primary_selection_offer_v1::{
    ZwpPrimarySelectionDeviceV1, ZwpPrimarySelectionOfferV1, ZwpPrimarySelectionSourceV1,
};

verus! {

/// A live protocol object: the closed sum of every interface this
/// runtime dispatches or keeps state for. The registry is the sole
/// owner of each instance; collaborators hold ids and resolve them
/// through the registry.
#[derive(Debug)]
pub enum ProtocolObject {
    JayCompositor(JayCompositor),
    JayLogFile(JayLogFile),
    WlPointer(WlPointer),
    WlSurface(WlSurface),
    WlOutput(WlOutput),
    ZxdgOutputManagerV1(crate::zxdg_output_manager_v1::ZxdgOutputManagerV1),
    ZxdgOutputV1(ZxdgOutputV1),
    ZwpPrimarySelectionOfferV1(ZwpPrimarySelectionOfferV1),
    ZwpPrimarySelectionSourceV1(ZwpPrimarySelectionSourceV1),
    ZwpPrimarySelectionDeviceV1(ZwpPrimarySelectionDeviceV1),
}

impl ProtocolObject {
    /// The identifier the object is registered under.
    pub open spec fn spec_id(&self) -> u32 {
        match self {
            ProtocolObject::JayCompositor(o) => o.id.0,
            ProtocolObject::JayLogFile(o) => o.id.0,
            ProtocolObject::WlPointer(o) => o.id.0,
            ProtocolObject::WlSurface(o) => o.id.0,
            ProtocolObject::WlOutput(o) => o.id.0,
            ProtocolObject::ZxdgOutputManagerV1(o) => o.id.0,
            ProtocolObject::ZxdgOutputV1(o) => o.id.0,
            ProtocolObject::ZwpPrimarySelectionOfferV1(o) => o.id.0,
            ProtocolObject::ZwpPrimarySelectionSourceV1(o) => o.id.0,
            ProtocolObject::ZwpPrimarySelectionDeviceV1(o) => o.id.0,
        }
    }

    #[verifier::when_used_as_spec(spec_id)]
    pub fn id(&self) -> (r: u32)
        ensures
            r == self.spec_id(),
    {
        match self {
            ProtocolObject::JayCompositor(o) => o.id.0,
            ProtocolObject::JayLogFile(o) => o.id.0,
            ProtocolObject::WlPointer(o) => o.id.0,
            ProtocolObject::WlSurface(o) => o.id.0,
            ProtocolObject::WlOutput(o) => o.id.0,
            ProtocolObject::ZxdgOutputManagerV1(o) => o.id.0,
            ProtocolObject::ZxdgOutputV1(o) => o.id.0,
            ProtocolObject::ZwpPrimarySelectionOfferV1(o) => o.id.0,
            ProtocolObject::ZwpPrimarySelectionSourceV1(o) => o.id.0,
            ProtocolObject::ZwpPrimarySelectionDeviceV1(o) => o.id.0,
        }
    }

    pub open spec fn is_surface(&self) -> bool {
        self matches ProtocolObject::WlSurface(_)
    }

    pub open spec fn as_surface(&self) -> WlSurface
        recommends
            self.is_surface(),
    {
        match self {
            ProtocolObject::WlSurface(s) => *s,
            _ => arbitrary(),
        }
    }

    pub open spec fn is_output(&self) -> bool {
        self matches ProtocolObject::WlOutput(_)
    }

    pub open spec fn as_output(&self) -> WlOutput
        recommends
            self.is_output(),
    {
        match self {
            ProtocolObject::WlOutput(o) => *o,
            _ => arbitrary(),
        }
    }

    pub open spec fn is_source(&self) -> bool {
        self matches ProtocolObject::ZwpPrimarySelectionSourceV1(_)
    }

    pub open spec fn as_source(&self) -> ZwpPrimarySelectionSourceV1
        recommends
            self.is_source(),
    {
        match self {
            ProtocolObject::ZwpPrimarySelectionSourceV1(s) => *s,
            _ => arbitrary(),
        }
    }

    pub open spec fn is_offer(&self) -> bool {
        self matches ProtocolObject::ZwpPrimarySelectionOfferV1(_)
    }

    pub open spec fn as_offer(&self) -> ZwpPrimarySelectionOfferV1
        recommends
            self.is_offer(),
    {
        match self {
            ProtocolObject::ZwpPrimarySelectionOfferV1(o) => *o,
            _ => arbitrary(),
        }
    }

    pub open spec fn is_manager(&self) -> bool {
        self matches ProtocolObject::ZxdgOutputManagerV1(_)
    }

    pub open spec fn as_manager(&self) -> crate::zxdg_output_manager_v1::ZxdgOutputManagerV1
        recommends
            self.is_manager(),
    {
        match self {
            ProtocolObject::ZxdgOutputManagerV1(m) => *m,
            _ => arbitrary(),
        }
    }

    /// How many request opcodes the object accepts: opcodes are numbered
    /// contiguously from zero, so an opcode is valid exactly when it is
    /// below this bound. Interfaces whose requests are outside this
    /// runtime's scope accept none.
    pub open spec fn spec_num_requests(&self) -> u32 {
        match self {
            ProtocolObject::JayCompositor(_) => 4,
            ProtocolObject::WlPointer(_) => 2,
            ProtocolObject::ZxdgOutputManagerV1(_) => 2,
            ProtocolObject::ZwpPrimarySelectionOfferV1(_) => 2,
            _ => 0,
        }
    }

    #[verifier::when_used_as_spec(spec_num_requests)]
    pub fn num_requests(&self) -> (r: u32)
        ensures
            r == self.spec_num_requests(),
    {
        match self {
            ProtocolObject::JayCompositor(_) => 4,
            ProtocolObject::WlPointer(_) => 2,
            ProtocolObject::ZxdgOutputManagerV1(_) => 2,
            ProtocolObject::ZwpPrimarySelectionOfferV1(_) => 2,
            _ => 0,
        }
    }
}

} // verus!
