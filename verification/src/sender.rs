use vstd::prelude::*;

use crate::error::Error;
use crate::protocol_logs::AppProtoLogsData;
use crate::wire::spec_data_bytes;

verus! {

/// Wire version stamped into every frame of exported records, checked
/// by the receiving collector against its decoder.
pub const PROTOCOL_LOG_VERSION: u32 = 1;

/// Number of buffered bytes past which a frame is flushed to the
/// transport.
pub const ENCODER_BUFFER_LEN: usize = 8192;

/// Kind of payload a frame carries.
#[derive(Clone, Copy, Debug, PartialEq, Eq, Structural)]
pub enum SendMessageType {
    TaggedFlow,
    ProtocolLog,
}

pub open spec fn spec_send_message_type_code(t: SendMessageType) -> u8 {
    match t {
        SendMessageType::TaggedFlow => 1,
        SendMessageType::ProtocolLog => 2,
    }
}

pub fn send_message_type_code(t: SendMessageType) -> (r: u8)
    ensures
        r == spec_send_message_type_code(t),
{
    match t {
        SendMessageType::TaggedFlow => 1,
        SendMessageType::ProtocolLog => 2,
    }
}

impl AppProtoLogsData {
    /// The frame payload kind of an exported record.
    pub fn message_type(&self) -> (r: SendMessageType)
        ensures
            r == SendMessageType::ProtocolLog,
    {
        SendMessageType::ProtocolLog
    }

    /// The wire version of an exported record's encoding.
    pub fn version(&self) -> (r: u32)
        ensures
            r == PROTOCOL_LOG_VERSION,
    {
        PROTOCOL_LOG_VERSION
    }
}

/// The two little-endian bytes of a 16-bit value.
pub open spec fn spec_le16(v: u16) -> Seq<u8> {
    seq![(v % 256) as u8, ((v / 256) % 256) as u8]
}

/// The four little-endian bytes of a 32-bit value.
pub open spec fn spec_le32(v: u32) -> Seq<u8> {
    seq![
        (v % 256) as u8,
        ((v / 0x100) % 256) as u8,
        ((v / 0x10000) % 256) as u8,
        ((v / 0x1000000) % 256) as u8,
    ]
}

/// The eight little-endian bytes of a 64-bit value.
pub open spec fn spec_le64(v: u64) -> Seq<u8> {
    seq![
        (v % 256) as u8,
        ((v / 0x100) % 256) as u8,
        ((v / 0x10000) % 256) as u8,
        ((v / 0x1000000) % 256) as u8,
        ((v / 0x1_0000_0000) % 256) as u8,
        ((v / 0x100_0000_0000) % 256) as u8,
        ((v / 0x1_0000_0000_0000) % 256) as u8,
        ((v / 0x100_0000_0000_0000) % 256) as u8,
    ]
}

/// The four big-endian bytes of a 32-bit value.
pub open spec fn spec_be32(v: u32) -> Seq<u8> {
    seq![
        ((v / 0x1000000) % 256) as u8,
        ((v / 0x10000) % 256) as u8,
        ((v / 0x100) % 256) as u8,
        (v % 256) as u8,
    ]
}

/// Frame header of the export transport: total frame size (filled in at
/// flush time, big-endian so the receiver can read it off the wire
/// first), payload kind, wire version, a sequence number the receiver
/// uses to notice lost frames, and the sending agent's identifier.
#[derive(Clone, Copy, Debug, PartialEq, Eq, Structural)]
pub struct Header {
    pub frame_size: u32,
    pub msg_type: SendMessageType,
    pub version: u32,
    pub sequence: u64,
    pub vtap_id: u16,
}

/// The nineteen bytes a frame header occupies on the wire.
pub open spec fn spec_header_bytes(h: Header) -> Seq<u8> {
    spec_be32(h.frame_size) + seq![spec_send_message_type_code(h.msg_type)] + spec_le32(h.version)
        + spec_le64(h.sequence) + spec_le16(h.vtap_id)
}

impl Header {
    /// Appends the header's wire form to the buffer.
    pub fn encode(&self, buffer: &mut Vec<u8>)
        ensures
            final(buffer)@ == old(buffer)@ + spec_header_bytes(*self),
    {
        let ghost b0 = buffer@;
        let fs = self.frame_size;
        buffer.push(((fs / 0x1000000) % 256) as u8);
        buffer.push(((fs / 0x10000) % 256) as u8);
        buffer.push(((fs / 0x100) % 256) as u8);
        buffer.push((fs % 256) as u8);
        buffer.push(send_message_type_code(self.msg_type));
        let v = self.version;
        buffer.push((v % 256) as u8);
        buffer.push(((v / 0x100) % 256) as u8);
        buffer.push(((v / 0x10000) % 256) as u8);
        buffer.push(((v / 0x1000000) % 256) as u8);
        let s = self.sequence;
        buffer.push((s % 256) as u8);
        buffer.push(((s / 0x100) % 256) as u8);
        buffer.push(((s / 0x10000) % 256) as u8);
        buffer.push(((s / 0x1000000) % 256) as u8);
        buffer.push(((s / 0x1_0000_0000) % 256) as u8);
        buffer.push(((s / 0x100_0000_0000) % 256) as u8);
        buffer.push(((s / 0x1_0000_0000_0000) % 256) as u8);
        buffer.push(((s / 0x100_0000_0000_0000) % 256) as u8);
        let t = self.vtap_id;
        buffer.push((t % 256) as u8);
        buffer.push(((t / 256) % 256) as u8);
        proof {
            assert(buffer@ =~= b0 + spec_header_bytes(*self));
        }
    }
}

/// Back-patching four placeholder bytes right after a prefix rewrites
/// exactly those four bytes.
proof fn lemma_backpatch(pre: Seq<u8>, tail: Seq<u8>, b0: u8, b1: u8, b2: u8, b3: u8)
    ensures
        (pre + seq![0u8, 0u8, 0u8, 0u8] + tail).update(pre.len() as int, b0).update(
            pre.len() as int + 1,
            b1,
        ).update(pre.len() as int + 2, b2).update(pre.len() as int + 3, b3) =~= pre + seq![
            b0,
            b1,
            b2,
            b3,
        ] + tail,
{
}

/// The bytes of one cached record as they stand in the frame: a
/// little-endian length prefix (truncated to 32 bits) and the record's
/// wire encoding.
pub open spec fn spec_framed_record(d: AppProtoLogsData) -> Seq<u8> {
    spec_le32((spec_data_bytes(d).len() % 0x1_0000_0000) as u32) + spec_data_bytes(d)
}

/// Accumulates exported records into one transport frame: a frame
/// header stamped on the first record, then each record behind its own
/// length prefix; the frame-size slot is back-filled when the frame is
/// taken for sending.
#[derive(Debug)]
pub struct Encoder {
    pub id: usize,
    pub header: Header,
    pub buffer: Vec<u8>,
}

impl Encoder {
    /// The bytes buffered so far for the frame in progress.
    pub open spec fn spec_buffer(&self) -> Seq<u8> {
        self.buffer@
    }

    pub fn new(id: usize, msg_type: SendMessageType, vtap_id: u16) -> (r: Self)
        ensures
            r.id == id,
            r.spec_buffer() == Seq::<u8>::empty(),
            r.header == (Header { msg_type, frame_size: 0, version: 0, sequence: 0, vtap_id }),
    {
        let r = Encoder {
            id,
            buffer: Vec::new(),
            header: Header { msg_type, frame_size: 0, version: 0, sequence: 0, vtap_id },
        };
        proof {
            assert(r.spec_buffer() =~= Seq::<u8>::empty());
        }
        r
    }

    /// Stamps the payload kind and wire version of the first record
    /// onto the frame header; later records leave them untouched.
    pub fn set_msg_type_and_version(&mut self, s: &AppProtoLogsData)
        ensures
            final(self).spec_buffer() == old(self).spec_buffer(),
            final(self).id == old(self).id,
            old(self).header.version != 0 ==> final(self).header == old(self).header,
            old(self).header.version == 0 ==> final(self).header == (Header {
                msg_type: SendMessageType::ProtocolLog,
                version: PROTOCOL_LOG_VERSION,
                ..old(self).header
            }),
    {
        if self.header.version != 0 {
            return ;
        }
        self.header.msg_type = s.message_type();
        self.header.version = s.version();
    }

    /// Counts the new frame and writes its header into the empty
    /// buffer.
    fn add_header(&mut self)
        requires
            old(self).header.sequence < u64::MAX,
        ensures
            final(self).id == old(self).id,
            final(self).header == (Header {
                sequence: (old(self).header.sequence + 1) as u64,
                ..old(self).header
            }),
            final(self).spec_buffer() == old(self).spec_buffer() + spec_header_bytes(
                final(self).header,
            ),
    {
        self.header.sequence = self.header.sequence + 1;
        let header = self.header;
        header.encode(&mut self.buffer);
    }

    /// Appends one record to the frame in progress: the first record of
    /// a frame stamps the header and opens the frame, every record goes
    /// out behind its own little-endian length prefix.
    #[verifier::rlimit(80)]
    pub fn cache_to_sender(&mut self, s: AppProtoLogsData)
        requires
            old(self).header.sequence < u64::MAX,
        ensures
            final(self).id == old(self).id,
            ({
                let stamped = if old(self).spec_buffer().len() == 0 {
                    let with_version = if old(self).header.version == 0 {
                        Header {
                            msg_type: SendMessageType::ProtocolLog,
                            version: PROTOCOL_LOG_VERSION,
                            ..old(self).header
                        }
                    } else {
                        old(self).header
                    };
                    Header { sequence: (with_version.sequence + 1) as u64, ..with_version }
                } else {
                    old(self).header
                };
                let opened = if old(self).spec_buffer().len() == 0 {
                    spec_header_bytes(stamped)
                } else {
                    old(self).spec_buffer()
                };
                final(self).header == stamped && final(self).spec_buffer() == opened
                    + spec_framed_record(s)
            }),
    {
        if self.buffer.is_empty() {
            self.set_msg_type_and_version(&s);
            self.add_header();
        }
        let ghost opened = self.buffer@;
        let offset = self.buffer.len();
        self.buffer.push(0);
        self.buffer.push(0);
        self.buffer.push(0);
        self.buffer.push(0);
        let ghost enc = spec_data_bytes(s);
        let size = match s.encode(&mut self.buffer) {
            Ok(n) => n,
            Err(_) => {
                proof {
                    assert(false);
                }
                0
            },
        };
        let total = self.buffer.len();
        proof {
            assert(total >= offset + 4);
        }
        let size32: u64 = (size as u64) % 0x1_0000_0000;
        let b0: u8 = (size32 % 256) as u8;
        let b1: u8 = ((size32 / 0x100) % 256) as u8;
        let b2: u8 = ((size32 / 0x10000) % 256) as u8;
        let b3: u8 = ((size32 / 0x1000000) % 256) as u8;
        proof {
            assert(self.buffer@ =~= opened + seq![0u8, 0u8, 0u8, 0u8] + enc);
        }
        let ghost before_patch = opened + seq![0u8, 0u8, 0u8, 0u8] + enc;
        self.buffer[offset] = b0;
        self.buffer[offset + 1] = b1;
        self.buffer[offset + 2] = b2;
        self.buffer[offset + 3] = b3;
        proof {
            assert(self.buffer@ == before_patch.update(offset as int, b0).update(
                offset + 1,
                b1,
            ).update(offset + 2, b2).update(offset + 3, b3));
            lemma_backpatch(opened, enc, b0, b1, b2, b3);
            let v32 = (enc.len() % 0x1_0000_0000) as u32;
            assert(seq![b0, b1, b2, b3] =~= spec_le32(v32));
            assert(spec_framed_record(s) == spec_le32(v32) + enc);
            assert(self.buffer@ =~= opened + spec_framed_record(s));
        }
    }

    /// Back-fills the frame-size slot at the front of the frame with
    /// the whole frame's length, big-endian, truncated to 32 bits.
    pub fn set_header_frame_size(&mut self)
        requires
            old(self).spec_buffer().len() >= 4,
        ensures
            final(self).id == old(self).id,
            final(self).header == old(self).header,
            final(self).spec_buffer() == spec_be32(
                (old(self).spec_buffer().len() % 0x1_0000_0000) as u32,
            ) + old(self).spec_buffer().skip(4),
    {
        let len = self.buffer.len();
        let frame_size: u64 = (len as u64) % 0x1_0000_0000;
        self.buffer[0] = ((frame_size / 0x1000000) % 256) as u8;
        self.buffer[1] = ((frame_size / 0x10000) % 256) as u8;
        self.buffer[2] = ((frame_size / 0x100) % 256) as u8;
        self.buffer[3] = (frame_size % 256) as u8;
        proof {
            assert(self.buffer@ =~= spec_be32((old(self).spec_buffer().len() % 0x1_0000_0000) as u32)
                + old(self).spec_buffer().skip(4));
        }
    }

    /// Number of bytes buffered for the frame in progress.
    pub fn buffer_len(&self) -> (r: usize)
        ensures
            r == self.spec_buffer().len(),
    {
        self.buffer.len()
    }

    /// Takes the finished frame, leaving the encoder ready for the
    /// next one.
    pub fn get_buffer(&mut self) -> (r: Vec<u8>)
        ensures
            final(self).id == old(self).id,
            final(self).header == old(self).header,
            final(self).spec_buffer() == Seq::<u8>::empty(),
            r@ == old(self).spec_buffer(),
    {
        let mut taken: Vec<u8> = Vec::new();
        core::mem::swap(&mut self.buffer, &mut taken);
        proof {
            assert(self.spec_buffer() =~= Seq::<u8>::empty());
        }
        taken
    }
}

/// Transport-side counters of the sender, read out and reset in one
/// step each time the metrics collector polls them.
#[derive(Clone, Copy, Debug, PartialEq, Eq, Structural)]
pub struct SenderCounter {
    pub rx: u64,
    pub tx: u64,
    pub tx_bytes: u64,
    pub dropped: u64,
}

impl Default for SenderCounter {
    fn default() -> (r: Self)
        ensures
            r == (SenderCounter { rx: 0, tx: 0, tx_bytes: 0, dropped: 0 }),
    {
        SenderCounter { rx: 0, tx: 0, tx_bytes: 0, dropped: 0 }
    }
}

impl SenderCounter {
    /// Hands the counters out in a fixed order — received, sent, bytes
    /// sent, dropped — and clears them, as a swap-to-zero readout does.
    pub fn get_counters(&mut self) -> (r: Vec<u64>)
        ensures
            r@ == seq![
                old(self).rx,
                old(self).tx,
                old(self).tx_bytes,
                old(self).dropped,
            ],
            *final(self) == (SenderCounter { rx: 0, tx: 0, tx_bytes: 0, dropped: 0 }),
    {
        let mut r: Vec<u64> = Vec::new();
        r.push(self.rx);
        r.push(self.tx);
        r.push(self.tx_bytes);
        r.push(self.dropped);
        self.rx = 0;
        self.tx = 0;
        self.tx_bytes = 0;
        self.dropped = 0;
        proof {
            assert(r@ =~= seq![old(self).rx, old(self).tx, old(self).tx_bytes, old(self).dropped]);
        }
        r
    }
}

} // verus!
