//! The marshaling strategy contract and the default bincode-backed strategy.
//!
//! A strategy answers three questions about a [`NetworkPacket`]: how many
//! bytes its encoding occupies ([`PacketMarshalingStrategy::serialized_size`]),
//! how to write that encoding into a caller-supplied buffer
//! ([`PacketMarshalingStrategy::serialize_into`]), and how to reconstruct a
//! packet from a buffer holding exactly one encoded packet
//! ([`PacketMarshalingStrategy::deserialize`]).

use crate::DecodingError;
use crate::EncodingError;
use crate::NetworkPacket;
use crate::PacketView;
use vstd::prelude::*;

verus! {

/// The eight bytes of `v` in little-endian order.
pub open spec fn u64_le_bytes(v: u64) -> Seq<u8> {
    seq![
        (v & 0xff) as u8,
        ((v >> 8) & 0xff) as u8,
        ((v >> 16) & 0xff) as u8,
        ((v >> 24) & 0xff) as u8,
        ((v >> 32) & 0xff) as u8,
        ((v >> 40) & 0xff) as u8,
        ((v >> 48) & 0xff) as u8,
        ((v >> 56) & 0xff) as u8,
    ]
}

/// The value whose little-endian bytes are the eight bytes of `b`.
pub open spec fn u64_from_le_bytes(b: Seq<u8>) -> u64
    recommends
        b.len() == 8,
{
    (b[0] as u64) | ((b[1] as u64) << 8) | ((b[2] as u64) << 16) | ((b[3] as u64) << 24)
        | ((b[4] as u64) << 32) | ((b[5] as u64) << 40) | ((b[6] as u64) << 48) | ((b[7] as u64)
        << 56)
}

/// Reading the little-endian bytes of a value back gives the value.
pub proof fn lemma_u64_le_value_roundtrip(v: u64)
    ensures
        u64_from_le_bytes(u64_le_bytes(v)) == v,
{
    assert(((v & 0xff) as u8 as u64) | (((v >> 8) & 0xff) as u8 as u64) << 8 | (((v >> 16)
        & 0xff) as u8 as u64) << 16 | (((v >> 24) & 0xff) as u8 as u64) << 24 | (((v >> 32)
        & 0xff) as u8 as u64) << 32 | (((v >> 40) & 0xff) as u8 as u64) << 40 | (((v >> 48)
        & 0xff) as u8 as u64) << 48 | (((v >> 56) & 0xff) as u8 as u64) << 56 == v)
        by (bit_vector);
}

/// Writing the value read from eight bytes back gives the same bytes.
pub proof fn lemma_u64_le_bytes_roundtrip(b: Seq<u8>)
    requires
        b.len() == 8,
    ensures
        u64_le_bytes(u64_from_le_bytes(b)) == b,
{
    let b0 = b[0];
    let b1 = b[1];
    let b2 = b[2];
    let b3 = b[3];
    let b4 = b[4];
    let b5 = b[5];
    let b6 = b[6];
    let b7 = b[7];
    let x = u64_from_le_bytes(b);
    assert(x == (b0 as u64) | ((b1 as u64) << 8) | ((b2 as u64) << 16) | ((b3 as u64) << 24) | (
    (b4 as u64) << 32) | ((b5 as u64) << 40) | ((b6 as u64) << 48) | ((b7 as u64) << 56));
    assert(x == (b0 as u64) | ((b1 as u64) << 8) | ((b2 as u64) << 16) | ((b3 as u64) << 24) | (
    (b4 as u64) << 32) | ((b5 as u64) << 40) | ((b6 as u64) << 48) | ((b7 as u64) << 56) ==> (x
        & 0xff) as u8 == b0 && ((x >> 8) & 0xff) as u8 == b1 && ((x >> 16) & 0xff) as u8 == b2 && (
    (x >> 24) & 0xff) as u8 == b3 && ((x >> 32) & 0xff) as u8 == b4 && ((x >> 40) & 0xff) as u8
        == b5 && ((x >> 48) & 0xff) as u8 == b6 && ((x >> 56) & 0xff) as u8 == b7) by (bit_vector);
    assert(u64_le_bytes(x) =~= b);
}

/// The byte string the default strategy produces for a packet: the
/// identifier in eight little-endian bytes, the payload length in eight
/// little-endian bytes, then the payload itself.
pub open spec fn bincode_encoding(p: PacketView) -> Seq<u8>
    recommends
        p.payload.len() <= u64::MAX,
{
    u64_le_bytes(p.id) + u64_le_bytes(p.payload.len() as u64) + p.payload
}

/// What the default strategy reconstructs from a byte string: `None` when the
/// buffer is too short to hold the identifier, the length, and a payload of
/// the recorded length; otherwise the packet those bytes spell.  Bytes past
/// the recorded payload length are ignored.
pub open spec fn bincode_decoding(b: Seq<u8>) -> Option<PacketView> {
    if b.len() < 16 {
        None
    } else {
        let id = u64_from_le_bytes(b.subrange(0, 8));
        let n = u64_from_le_bytes(b.subrange(8, 16));
        if 16 + n <= b.len() {
            Some(PacketView { id, payload: b.subrange(16, 16 + n) })
        } else {
            None
        }
    }
}

/// Decoding an encoded packet gives the packet back.
pub proof fn lemma_bincode_roundtrip(p: PacketView)
    requires
        p.payload.len() <= u64::MAX,
    ensures
        bincode_decoding(bincode_encoding(p)) == Some(p),
{
    let e = bincode_encoding(p);
    let n64 = p.payload.len() as u64;
    assert(e.subrange(0, 8) =~= u64_le_bytes(p.id));
    assert(e.subrange(8, 16) =~= u64_le_bytes(n64));
    lemma_u64_le_value_roundtrip(p.id);
    lemma_u64_le_value_roundtrip(n64);
    assert(e.subrange(16, 16 + n64) =~= p.payload);
}

/// A buffer the default strategy decodes successfully begins with the
/// encoding of the decoded packet; only trailing bytes can differ.
pub proof fn lemma_bincode_decoding_sound(b: Seq<u8>, p: PacketView)
    requires
        bincode_decoding(b) == Some(p),
    ensures
        16 + p.payload.len() <= b.len(),
        b.subrange(0, 16 + p.payload.len() as int) == bincode_encoding(p),
{
    let id_bytes = b.subrange(0, 8);
    let len_bytes = b.subrange(8, 16);
    let n = u64_from_le_bytes(len_bytes);
    lemma_u64_le_bytes_roundtrip(id_bytes);
    lemma_u64_le_bytes_roundtrip(len_bytes);
    assert(p.payload.len() == n);
    assert(p.payload.len() as u64 == n);
    assert(b.subrange(0, 16 + n as int) =~= id_bytes + len_bytes + b.subrange(16, 16 + n as int));
}

/// Determinism: a strategy's encoding depends on the packet alone, so two
/// buffers that each hold the encoding of the same packet — as
/// `serialize_into` guarantees of every exact-size buffer it accepts — are
/// byte-identical.
pub proof fn lemma_encoding_deterministic<S: PacketMarshalingStrategy>(
    p: PacketView,
    b1: Seq<u8>,
    b2: Seq<u8>,
)
    requires
        b1 == S::encoding(p),
        b2 == S::encoding(p),
    ensures
        b1 == b2,
{
}

/// A buffer shorter than the sixteen header bytes — the empty buffer in
/// particular — is never read as a packet by the default strategy.
pub proof fn lemma_bincode_rejects_short(b: Seq<u8>)
    requires
        b.len() < 16,
    ensures
        bincode_decoding(b) is None,
{
}

/// Relies on `bincode::serialized_size` with its default configuration: a
/// `u64` occupies eight bytes and a byte vector a `u64` length followed by
/// its bytes, so the packet's fields occupy sixteen bytes plus the payload;
/// with no size limit configured the count itself cannot fail.
#[verifier::external_body]
fn bincode_packet_size(packet: &NetworkPacket) -> (r: Result<u64, String>)
    requires
        16 + packet.payload@.len() <= usize::MAX,
    ensures
        r is Ok,
        r matches Ok(n) ==> n == 16 + packet.payload@.len(),
{
    match bincode::serialized_size(&(packet.id, &packet.payload)) {
        Ok(size) => Ok(size),
        Err(err) => Err(format!("{}", err)),
    }
}

/// Relies on `bincode::serialize_into` with its default configuration,
/// writing through std's `Write` impl for byte slices: it writes the
/// packet's fields in order (eight little-endian identifier bytes, eight
/// little-endian payload-length bytes, the payload), succeeds exactly when
/// the buffer can hold them, and leaves the bytes past the encoding as they
/// were.  On failure some prefix of the buffer may already be overwritten;
/// the buffer's length never changes.
#[verifier::external_body]
fn bincode_write_packet(buffer: &mut Vec<u8>, packet: &NetworkPacket) -> (r: Result<(), String>)
    ensures
        final(buffer)@.len() == old(buffer)@.len(),
        old(buffer)@.len() >= bincode_encoding(packet@).len() ==> r is Ok && final(buffer)@
            == bincode_encoding(packet@) + old(buffer)@.skip(
            bincode_encoding(packet@).len() as int,
        ),
        old(buffer)@.len() < bincode_encoding(packet@).len() ==> r is Err,
{
    match bincode::serialize_into(&mut buffer[..], &(packet.id, &packet.payload)) {
        Ok(()) => Ok(()),
        Err(err) => Err(format!("{}", err)),
    }
}

/// Relies on `bincode::deserialize` with its default configuration: it reads
/// eight little-endian identifier bytes, eight little-endian payload-length
/// bytes, then exactly that many payload bytes, fails when the buffer runs
/// out first, and ignores trailing bytes.
#[verifier::external_body]
fn bincode_read_packet(buffer: &[u8]) -> (r: Result<NetworkPacket, String>)
    ensures
        match r {
            Ok(p) => bincode_decoding(buffer@) == Some(p@),
            Err(_) => bincode_decoding(buffer@) is None,
        },
{
    match bincode::deserialize::<(u64, Vec<u8>)>(buffer) {
        Ok((id, payload)) => Ok(NetworkPacket { id, payload }),
        Err(err) => Err(format!("{}", err)),
    }
}

/// The contract a marshaling strategy must satisfy.  Each strategy fixes,
/// in specification, which packets it can represent, the exact byte string
/// it produces for each of them, and what it reads back from a byte string;
/// the three executable operations are then pinned to those byte strings,
/// and every strategy must prove that decoding inverts encoding.
pub trait PacketMarshalingStrategy {
    /// Which packets the strategy can represent.
    spec fn encodable(p: PacketView) -> bool;

    /// The exact byte string the strategy produces for a packet it can
    /// represent.
    spec fn encoding(p: PacketView) -> Seq<u8>;

    /// The packet the strategy reconstructs from a byte string, if any.
    spec fn decoding(b: Seq<u8>) -> Option<PacketView>;

    /// Round trip: a strategy decodes its own encoding of any packet it can
    /// represent back to that very packet.
    proof fn encoding_decoding_inverse(p: PacketView)
        requires
            Self::encodable(p),
        ensures
            Self::decoding(Self::encoding(p)) == Some(p),
    ;

    /// How many bytes the encoding of `packet` will occupy.  The answer is
    /// authoritative: `serialize_into` fills a buffer of exactly this length
    /// completely.  Packets the strategy cannot represent are the only ones
    /// refused.
    fn serialized_size(packet: &NetworkPacket) -> (r: Result<usize, EncodingError>)
        ensures
            r matches Ok(n) ==> Self::encodable(packet@) && n == Self::encoding(packet@).len(),
            Self::encodable(packet@) ==> r is Ok,
    ;

    /// Write the encoding of `packet` at the start of `buffer`.  A buffer of
    /// exactly the serialized size is always accepted and comes back holding
    /// precisely the encoding; a buffer too short for the encoding is never
    /// accepted; the buffer's length never changes.
    fn serialize_into(buffer: &mut Vec<u8>, packet: &NetworkPacket) -> (r: Result<
        (),
        EncodingError,
    >)
        ensures
            final(buffer)@.len() == old(buffer)@.len(),
            r is Ok ==> Self::encodable(packet@) && old(buffer)@.len() >= Self::encoding(
                packet@,
            ).len() && final(buffer)@ == Self::encoding(packet@) + old(buffer)@.skip(
                Self::encoding(packet@).len() as int,
            ),
            Self::encodable(packet@) && old(buffer)@.len() == Self::encoding(packet@).len()
                ==> r is Ok && final(buffer)@ == Self::encoding(packet@),
    ;

    /// Reconstruct a packet from a buffer assumed to hold exactly one
    /// encoded packet.  The result is exactly what the strategy's decoding
    /// relation reads from the bytes; buffers it reads nothing from are
    /// refused.
    fn deserialize(buffer: &[u8]) -> (r: Result<NetworkPacket, DecodingError>)
        ensures
            r matches Ok(p) ==> Self::decoding(buffer@) == Some(p@),
            r is Err ==> Self::decoding(buffer@) is None,
    ;
}

/// The default encoding strategy: a stateless adapter over the `bincode`
/// crate's default configuration, so packets can be marshaled out of the box.
///
/// On buffers longer than the encoding, `serialize_into` is lenient: it
/// writes the encoding as a prefix, leaves the remaining bytes untouched,
/// and succeeds.
#[derive(Debug, Copy, Clone)]
pub struct Bincode;

impl PacketMarshalingStrategy for Bincode {
    /// A packet is representable exactly when its encoded size fits the
    /// platform's byte-count type.
    open spec fn encodable(p: PacketView) -> bool {
        16 + p.payload.len() <= usize::MAX
    }

    open spec fn encoding(p: PacketView) -> Seq<u8> {
        bincode_encoding(p)
    }

    open spec fn decoding(b: Seq<u8>) -> Option<PacketView> {
        bincode_decoding(b)
    }

    proof fn encoding_decoding_inverse(p: PacketView) {
        lemma_bincode_roundtrip(p);
    }

    fn serialized_size(packet: &NetworkPacket) -> (r: Result<usize, EncodingError>) {
        if packet.payload.len() > usize::MAX - 16 {
            return Err(
                EncodingError { message: "packet payload exceeds the encodable size".to_owned() },
            );
        }
        match bincode_packet_size(packet) {
            Ok(size) => Ok(size as usize),
            Err(err) => Err(EncodingError { message: err }),
        }
    }

    fn serialize_into(buffer: &mut Vec<u8>, packet: &NetworkPacket) -> (r: Result<
        (),
        EncodingError,
    >)
        ensures
            r is Ok <==> old(buffer)@.len() >= Self::encoding(packet@).len(),
    {
        let buffer_len: usize = buffer.len();
        assert(buffer_len == old(buffer)@.len());
        match bincode_write_packet(buffer, packet) {
            Ok(()) => Ok(()),
            Err(err) => Err(EncodingError { message: err }),
        }
    }

    fn deserialize(buffer: &[u8]) -> (r: Result<NetworkPacket, DecodingError>) {
        match bincode_read_packet(buffer) {
            Ok(packet) => Ok(packet),
            Err(err) => Err(DecodingError { message: err }),
        }
    }
}

} // verus!
