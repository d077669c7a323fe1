//! The fixed three-byte packet that carries a duty cycle to a remote fan
//! controller: a type tag of 1 ("set duty"), then the duty as a big-endian
//! 16-bit integer.

use bytes::BufMut;
use bytes::BytesMut;
use vstd::prelude::*;

verus! {

#[verifier::external_type_specification]
#[verifier::external_body]
pub struct ExBytesMut(BytesMut);

/// The bytes held by a `BytesMut`, in order.
pub uninterp spec fn packet_bytes(b: BytesMut) -> Seq<u8>;

/// Relies on `bytes::BytesMut::new`: the new buffer holds no bytes.
#[verifier::external_body]
fn empty_buffer() -> (r: BytesMut)
    ensures
        packet_bytes(r) == Seq::<u8>::empty(),
{
    BytesMut::new()
}

/// Relies on `bytes::BufMut::put_u8` for `BytesMut`: the byte is appended.
#[verifier::external_body]
fn append_u8(b: &mut BytesMut, n: u8)
    requires
        packet_bytes(*old(b)).len() < 0x1000,
    ensures
        packet_bytes(*final(b)) == packet_bytes(*old(b)).push(n),
{
    b.put_u8(n)
}

/// Relies on `bytes::BufMut::put_u16` for `BytesMut`: the two bytes of
/// `n.to_be_bytes()` are appended, the high byte first.
#[verifier::external_body]
fn append_u16_be(b: &mut BytesMut, n: u16)
    requires
        packet_bytes(*old(b)).len() < 0x1000,
    ensures
        packet_bytes(*final(b)) == packet_bytes(*old(b)).push((n / 256) as u8).push((n % 256) as u8),
{
    b.put_u16(n)
}

/// The tag of the only packet kind: "set duty".
pub const SET_DUTY_TAG: u8 = 1;

/// The packet that sets the remote fan to `duty`.
pub open spec fn packet_of(duty: u16) -> Seq<u8> {
    seq![SET_DUTY_TAG, (duty / 256) as u8, (duty % 256) as u8]
}

/// The value of two bytes read as a big-endian 16-bit integer.
pub open spec fn be16(hi: u8, lo: u8) -> int {
    hi as int * 256 + lo as int
}

/// Encodes `rate` as a set-duty packet.
pub fn encoder(rate: u16) -> (packet: BytesMut)
    ensures
        packet_bytes(packet) == packet_of(rate),
{
    let mut packet = empty_buffer();
    append_u8(&mut packet, SET_DUTY_TAG);
    append_u16_be(&mut packet, rate);
    assert(packet_bytes(packet) =~= packet_of(rate));
    packet
}

/// Reads the duty out of a set-duty packet; `None` where the bytes are not
/// exactly three long or the tag is not the set-duty tag.
pub fn decoder(packet: &[u8]) -> (r: Option<u16>)
    ensures
        r == (if packet@.len() == 3 && packet@[0] == SET_DUTY_TAG {
            Some(be16(packet@[1], packet@[2]) as u16)
        } else {
            None
        }),
{
    if packet.len() == 3 && packet[0] == SET_DUTY_TAG {
        let hi = packet[1] as u16;
        let lo = packet[2] as u16;
        Some(hi * 256 + lo)
    } else {
        None
    }
}

/// Every duty gives a packet of exactly three bytes whose first byte is the
/// set-duty tag and whose other two are the duty in big-endian order.
pub proof fn lemma_packet_layout(duty: u16)
    ensures
        packet_of(duty).len() == 3,
        packet_of(duty)[0] == 1,
        packet_of(duty)[1] == duty / 256,
        packet_of(duty)[2] == duty % 256,
        packet_of(duty)[1] == (duty >> 8u16) as u8,
        packet_of(duty)[2] == (duty & 0xffu16) as u8,
{
    assert((duty >> 8u16) == duty / 256 && (duty & 0xffu16) == duty % 256) by (bit_vector);
}

/// Reading bytes 1 and 2 of a duty's packet as a big-endian 16-bit integer
/// gives back the duty, and decoding the packet gives back the duty.
pub proof fn lemma_packet_round_trip(duty: u16)
    ensures
        be16(packet_of(duty)[1], packet_of(duty)[2]) == duty,
        packet_of(duty).len() == 3 && packet_of(duty)[0] == SET_DUTY_TAG,
{
}

} // verus!
