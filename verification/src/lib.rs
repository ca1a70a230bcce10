//! Pluggable binary marshaling for network packets.
//!
//! A marshaling strategy answers three questions about a packet: how many
//! bytes its encoding occupies, how to write that encoding into a
//! caller-supplied buffer, and how to reconstruct a packet from a buffer
//! holding exactly one encoded packet.  The [`marshaling`] module states the
//! contract every strategy must satisfy and provides the default strategy.

use vstd::prelude::*;

pub mod marshaling;

verus! {

/// The application-level value carried over the transport: an identifier
/// together with an opaque payload of bytes.
#[derive(Debug)]
pub struct NetworkPacket {
    pub id: u64,
    pub payload: Vec<u8>,
}

/// The mathematical content of a [`NetworkPacket`]: its identifier and the
/// sequence of payload bytes.
pub struct PacketView {
    pub id: u64,
    pub payload: Seq<u8>,
}

impl View for NetworkPacket {
    type V = PacketView;

    open spec fn view(&self) -> PacketView {
        PacketView { id: self.id, payload: self.payload@ }
    }
}

impl PartialEq for NetworkPacket {
    /// Two packets are equal when they carry the same identifier and the
    /// same payload bytes.
    fn eq(&self, other: &NetworkPacket) -> (r: bool) {
        let same = self.id == other.id && self.payload == other.payload;
        proof {
            if same {
                assert(self.payload@ =~= other.payload@);
            }
            if self@ == other@ {
                assert(self.payload@.len() == other.payload@.len());
                assert(forall|i: int|
                    0 <= i < self.payload@.len() ==> self.payload@[i] == other.payload@[i]);
            }
        }
        same
    }
}

impl vstd::std_specs::cmp::PartialEqSpecImpl for NetworkPacket {
    open spec fn obeys_eq_spec() -> bool {
        true
    }

    open spec fn eq_spec(&self, other: &NetworkPacket) -> bool {
        self@ == other@
    }
}

impl Eq for NetworkPacket {}

/// Failure to compute a packet's encoded size or to write its encoding: the
/// packet holds data the codec cannot represent, or the buffer handed to the
/// encoder breaks the size contract.
#[derive(Debug)]
pub struct EncodingError {
    pub message: String,
}

/// Failure to reconstruct a packet: the bytes are malformed or truncated and
/// do not spell a complete packet.
#[derive(Debug)]
pub struct DecodingError {
    pub message: String,
}

} // verus!
