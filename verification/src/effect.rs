//! The observable outcomes of the stack.

use vstd::prelude::*;
use crate::protocols::icmpv4::error::ErrorId;
use crate::protocols::ipv4::address::Ipv4Addr;
use crate::protocols::ipv4::packet::Ipv4Protocol;

verus! {

/// One externally visible outcome: a frame to put on the wire, bytes for
/// an application, or an error that a remote station reported.
#[derive(Debug)]
pub enum Effect {
    Transmit(Vec<u8>),
    BytesReceived {
        protocol: Ipv4Protocol,
        src_addr: Ipv4Addr,
        src_port: u16,
        dest_port: u16,
        text: Vec<Vec<u8>>,
    },
    Icmpv4Error { id: ErrorId, next_hop_mtu: u16, context: Vec<u8> },
}

/// An effect as contracts speak of it.
pub enum EffectView {
    Transmit(Seq<u8>),
    BytesReceived {
        protocol: Ipv4Protocol,
        src_addr: Ipv4Addr,
        src_port: u16,
        dest_port: u16,
        text: Seq<Seq<u8>>,
    },
    Icmpv4Error { id: ErrorId, next_hop_mtu: u16, context: Seq<u8> },
}

impl View for Effect {
    type V = EffectView;

    open spec fn view(&self) -> EffectView {
        match *self {
            Effect::Transmit(bytes) => EffectView::Transmit(bytes@),
            Effect::BytesReceived { protocol, src_addr, src_port, dest_port, text } => {
                EffectView::BytesReceived {
                    protocol,
                    src_addr,
                    src_port,
                    dest_port,
                    text: text@.map_values(|segment: Vec<u8>| segment@),
                }
            },
            Effect::Icmpv4Error { id, next_hop_mtu, context } => EffectView::Icmpv4Error {
                id,
                next_hop_mtu,
                context: context@,
            },
        }
    }
}

/// A queue of effects as contracts speak of it, oldest first.
pub open spec fn effects_view(effects: Seq<Effect>) -> Seq<EffectView> {
    effects.map_values(|e: Effect| e@)
}

} // verus!
