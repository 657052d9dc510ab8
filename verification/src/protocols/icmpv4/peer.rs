use vstd::prelude::*;
use crate::effect::{Effect, EffectView};
use crate::fail::Fail;
use crate::protocols::icmpv4::error::{parse_error, Error};
use crate::protocols::ipv4::packet::Ipv4Packet;
use crate::runtime::{Runtime, RuntimeView};

verus! {

/// The arrival of a packet's payload at the error-reporting peer. A
/// payload that is no error datagram is refused; an error datagram is
/// shown to the application as it stands.
pub open spec fn receive_error(rt: RuntimeView, text: Seq<u8>) -> (RuntimeView, Result<(), Fail>) {
    match parse_error(text) {
        Err(e) => (rt, Err(e)),
        Ok((id, next_hop_mtu, context)) => (
            rt.emit(EffectView::Icmpv4Error { id, next_hop_mtu, context }),
            Ok(()),
        ),
    }
}

/// The peer that takes in what other stations report. It keeps no state
/// of its own.
pub struct Icmpv4Peer {}

impl Icmpv4Peer {
    pub fn new() -> Icmpv4Peer {
        Icmpv4Peer {  }
    }

    /// Takes in a packet that the network layer found to carry an error
    /// report.
    pub fn receive(&self, rt: &mut Runtime, packet: &Ipv4Packet) -> (r: Result<(), Fail>)
        ensures
            (final(rt)@, r) == receive_error(old(rt)@, packet.text@),
    {
        match Error::from_text(packet.text.as_slice()) {
            Err(e) => Err(e),
            Ok(error) => {
                rt.emit_effect(
                    Effect::Icmpv4Error {
                        id: error.id,
                        next_hop_mtu: error.next_hop_mtu,
                        context: error.context,
                    },
                );
                Ok(())
            },
        }
    }
}

} // verus!
