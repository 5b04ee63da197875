//! From the transcoder's output to the stream that is played: the output is
//! an Ogg stream, which is read packet by packet; the packets that carry
//! audio are put into frames.

use crate::dca::{frameable, frames, lemma_frames_push, DcaWrapper};
use vstd::prelude::*;

verus! {

/// Packets at the head of the transcoder's output that carry no audio: the
/// stream's identification and its comments.
pub const HEADER_PACKETS: usize = 2;

/// An Ogg stream in memory, read packet by packet with the `ogg` crate.
#[verifier::external_body]
pub struct PacketStream {
    inner: ogg::PacketReader<std::io::Cursor<Vec<u8>>>,
}

/// The payloads of the packets that a reader of the Ogg stream `data` is
/// given one after the other, up to the end of the stream or to the first
/// place at which the bytes are no valid Ogg.
pub uninterp spec fn ogg_packets(data: Seq<u8>) -> Seq<Seq<u8>>;

/// The payloads of the packets that `stream` has yet to give.
pub uninterp spec fn unread_packets(stream: PacketStream) -> Seq<Seq<u8>>;

/// Opens the bytes `data` as an Ogg stream with `ogg::PacketReader::new`.
///
/// Trusted: the stream will give the packets of `data`.
#[verifier::external_body]
fn open_stream(data: Vec<u8>) -> (stream: PacketStream)
    ensures
        unread_packets(stream) == ogg_packets(data@),
{
    PacketStream { inner: ogg::PacketReader::new(std::io::Cursor::new(data)) }
}

/// Reads the next packet with `ogg::PacketReader::read_packet` and hands out
/// its payload.
///
/// Trusted: while packets are left the call gives the first of them and the
/// others stay; after the last one, and at bytes that are no valid Ogg, it
/// gives `None`.
#[verifier::external_body]
fn next_packet(stream: &mut PacketStream) -> (payload: Option<Vec<u8>>)
    ensures
        match payload {
            Some(bytes) => unread_packets(*old(stream)).len() > 0 && bytes@ == unread_packets(
                *old(stream),
            )[0] && unread_packets(*final(stream)) == unread_packets(*old(stream)).drop_first(),
            None => unread_packets(*old(stream)).len() == 0,
        },
{
    match stream.inner.read_packet() {
        Ok(Some(packet)) => Some(packet.data),
        _ => None,
    }
}

/// The contents of packets, as sequences of bytes.
pub open spec fn payloads(packets: Seq<Vec<u8>>) -> Seq<Seq<u8>> {
    packets.map_values(|packet: Vec<u8>| packet@)
}

/// The packets that carry audio: all but the first two.
pub open spec fn audio_packets(packets: Seq<Seq<u8>>) -> Seq<Seq<u8>> {
    if packets.len() <= HEADER_PACKETS {
        Seq::empty()
    } else {
        packets.subrange(HEADER_PACKETS as int, packets.len() as int)
    }
}

/// The framed stream that is made of `packets`: the audio packets, one frame
/// each. There is none where an audio packet is too long for a frame.
pub open spec fn repackaged(packets: Seq<Seq<u8>>) -> Option<Seq<u8>> {
    if frameable(audio_packets(packets)) {
        Some(frames(audio_packets(packets)))
    } else {
        None
    }
}

/// Reads every packet of the Ogg stream `data`.
pub fn read_packets(data: Vec<u8>) -> (packets: Vec<Vec<u8>>)
    ensures
        payloads(packets@) == ogg_packets(data@),
{
    let ghost all = ogg_packets(data@);
    let mut stream = open_stream(data);
    let mut packets: Vec<Vec<u8>> = Vec::new();
    loop
        invariant_except_break
            unread_packets(stream) == all.skip(packets@.len() as int),
        invariant
            packets@.len() <= all.len(),
            payloads(packets@) == all.take(packets@.len() as int),
        ensures
            payloads(packets@) == all,
        decreases all.len() - packets@.len(),
    {
        match next_packet(&mut stream) {
            Some(payload) => {
                packets.push(payload);
            },
            None => {
                break ;
            },
        }
    }
    packets
}

/// Puts the audio packets of a transcoded stream into frames. The first
/// two packets are left out. `None` where a packet is too long for a frame.
pub fn repackage(packets: &Vec<Vec<u8>>) -> (stream: Option<Vec<u8>>)
    ensures
        stream.is_some() == repackaged(payloads(packets@)).is_some(),
        stream matches Some(bytes) ==> Some(bytes@) == repackaged(payloads(packets@)),
{
    let ghost audio = audio_packets(payloads(packets@));
    let mut dca = DcaWrapper::new();
    if packets.len() <= HEADER_PACKETS {
        return Some(dca.raw());
    }
    let mut i: usize = HEADER_PACKETS;
    while i < packets.len()
        invariant
            HEADER_PACKETS <= i <= packets.len(),
            audio == audio_packets(payloads(packets@)),
            audio.len() == packets.len() - HEADER_PACKETS,
            frameable(audio.take(i - HEADER_PACKETS)),
            dca@ == frames(audio.take(i - HEADER_PACKETS)),
        decreases packets.len() - i,
    {
        let ghost done = audio.take(i - HEADER_PACKETS);
        let written = dca.write_audio_data(packets[i].as_slice());
        proof {
            assert(audio[i - HEADER_PACKETS] == packets@[i as int]@);
        }
        if !written {
            return None;
        }
        proof {
            lemma_frames_push(done, packets@[i as int]@);
            assert(audio.take(i + 1 - HEADER_PACKETS) =~= done.push(packets@[i as int]@));
        }
        i = i + 1;
    }
    assert(audio.take(packets.len() - HEADER_PACKETS) =~= audio);
    Some(dca.raw())
}

/// Turns the bytes that the transcoder wrote into the framed stream that is
/// played.
pub fn demux(data: Vec<u8>) -> (stream: Option<Vec<u8>>)
    ensures
        stream.is_some() == repackaged(ogg_packets(data@)).is_some(),
        stream matches Some(bytes) ==> Some(bytes@) == repackaged(ogg_packets(data@)),
{
    let packets = read_packets(data);
    repackage(&packets)
}

} // verus!
