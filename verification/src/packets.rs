//! The packet framer: length-prefixed framing over an in-memory byte channel,
//! the per-connection sequence counter, fragment reassembly for oversize
//! payloads, the response-packet writers and the command dispatcher.
//!
//! The framer owns two buffers. Bytes received from the peer are fed into the
//! input buffer and consumed by the read operations; the write operations
//! append framed packets to the output buffer, which the owner of the socket
//! drains and sends. Every operation is a pure function of the buffers and
//! the framer's counters.

use vstd::prelude::*;

use crate::codec::{
    from_le, le_bytes, lemma_le_bytes_len, lemma_pow256_values, lenenc_int, lenenc_str, write_le,
    write_len_int, write_len_str,
};
use crate::constants::{
    CAP_CLIENT_DEPRECATE_EOF, CAP_CLIENT_MULTI_STATEMENTS, EOF_PACKET, ERR_PACKET,
    MAX_PACKET_SIZE, OK_PACKET, SERVER_MORE_RESULTS_EXISTS, PacketType, ServerError, StateError,
};
use crate::errors::{ProtoError, ProtoResult};
use crate::sql_type::{spec_type_to_mysql, type_to_mysql, Field, SqlResult, Value};

verus! {

/// The sequence id after k more framed packets.
pub open spec fn seq_add(s: u8, k: nat) -> u8 {
    ((s + k) % 256) as u8
}

/// The 4-byte packet header: 24-bit little-endian length, then the sequence.
pub open spec fn frame_header(len: nat, seq: u8) -> Seq<u8> {
    le_bytes(len, 3) + seq![seq]
}

/// One framed packet: header, then payload.
pub open spec fn frame(payload: Seq<u8>, seq: u8) -> Seq<u8> {
    frame_header(payload.len(), seq) + payload
}

/// The number of framed chunks that a logical payload of len bytes occupies:
/// one chunk per full 2^24-1 bytes, plus a final short chunk (empty when the
/// payload ends exactly on a chunk boundary).
pub open spec fn n_chunks(len: nat) -> nat {
    len / (MAX_PACKET_SIZE as nat) + 1
}

/// The framed form of a logical payload, starting at sequence seq: chunks of
/// 2^24-1 bytes while the rest is at least that long, then the short rest.
pub open spec fn chunks_of(payload: Seq<u8>, seq: u8) -> Seq<u8>
    decreases payload.len(),
{
    if payload.len() < MAX_PACKET_SIZE {
        frame(payload, seq)
    } else {
        frame(payload.take(MAX_PACKET_SIZE as int), seq) + chunks_of(
            payload.skip(MAX_PACKET_SIZE as int),
            seq_add(seq, 1),
        )
    }
}

/// What reading one logical packet from the head of a byte string yields.
pub enum FrameRead {
    /// The bytes do not yet hold the whole packet.
    NeedMore,
    /// The first header carries a sequence byte other than the expected one.
    BadSeq,
    /// A whole logical packet: its payload, the bytes it occupied, and the
    /// expected sequence after it.
    Done { payload: Seq<u8>, used: nat, seq: u8 },
}

/// The 24-bit length at the head of a packet header.
pub open spec fn header_len(input: Seq<u8>) -> nat {
    from_le(input.subrange(0, 3))
}

/// Reads one framed chunk from the head of input, expecting sequence seq.
pub open spec fn parse_one(input: Seq<u8>, seq: u8) -> FrameRead {
    if input.len() < 4 {
        FrameRead::NeedMore
    } else if input[3] != seq {
        FrameRead::BadSeq
    } else if input.len() < 4 + header_len(input) {
        FrameRead::NeedMore
    } else {
        FrameRead::Done {
            payload: input.subrange(4, 4 + header_len(input) as int),
            used: 4 + header_len(input),
            seq: seq_add(seq, 1),
        }
    }
}

/// Reads one logical packet from the head of input: chunks are appended while
/// each is exactly 2^24-1 bytes long, and the first shorter chunk (the empty
/// one included) ends the packet.
pub open spec fn parse_packets(input: Seq<u8>, seq: u8) -> FrameRead
    decreases input.len(),
{
    match parse_one(input, seq) {
        FrameRead::NeedMore => FrameRead::NeedMore,
        FrameRead::BadSeq => FrameRead::BadSeq,
        FrameRead::Done { payload, used, seq: s2 } => {
            if payload.len() < MAX_PACKET_SIZE {
                FrameRead::Done { payload, used, seq: s2 }
            } else {
                match parse_packets(input.skip(used as int), s2) {
                    FrameRead::NeedMore => FrameRead::NeedMore,
                    FrameRead::BadSeq => FrameRead::BadSeq,
                    FrameRead::Done { payload: p2, used: u2, seq: s3 } => FrameRead::Done {
                        payload: payload + p2,
                        used: used + u2,
                        seq: s3,
                    },
                }
            }
        },
    }
}

/// The packet framer over an in-memory byte channel.
pub struct Packets {
    sequence_id: u8,
    capability: u32,
    status_flags: u16,
    input: Vec<u8>,
    read_pos: usize,
    output: Vec<u8>,
}

impl Packets {
    /// The read cursor never passes the end of the input buffer.
    pub closed spec fn wf(self) -> bool {
        self.read_pos <= self.input@.len()
    }

    /// The sequence id the next packet, read or written, must carry.
    pub closed spec fn seq_id(self) -> u8 {
        self.sequence_id
    }

    /// The capability bits in effect for this connection.
    pub closed spec fn cap(self) -> u32 {
        self.capability
    }

    /// The status flags sent in response packets.
    pub closed spec fn flags(self) -> u16 {
        self.status_flags
    }

    /// The received bytes not yet consumed.
    pub closed spec fn pending(self) -> Seq<u8> {
        self.input@.skip(self.read_pos as int)
    }

    /// The bytes framed so far and not yet handed to the socket.
    pub closed spec fn out(self) -> Seq<u8> {
        self.output@
    }

    pub fn new() -> (r: Packets)
        ensures
            r.wf(),
            r.seq_id() == 0,
            r.cap() == 0,
            r.flags() == 0,
            r.pending() == Seq::<u8>::empty(),
            r.out() == Seq::<u8>::empty(),
    {
        let r = Packets {
            sequence_id: 0,
            capability: 0,
            status_flags: 0,
            input: Vec::new(),
            read_pos: 0,
            output: Vec::new(),
        };
        proof {
            assert(r.pending() =~= Seq::<u8>::empty());
        }
        r
    }

    /// A placeholder pull of the next raw payload; this framer buffers
    /// instead, so it always yields an empty payload.
    pub fn next(&self) -> (r: ProtoResult<Vec<u8>>)
        ensures
            r matches Ok(v) && v@ == Seq::<u8>::empty(),
    {
        let v: Vec<u8> = Vec::new();
        proof {
            assert(v@ =~= Seq::<u8>::empty());
        }
        Ok(v)
    }

    /// Hands the framer bytes received from the peer.
    pub fn feed(&mut self, data: &[u8])
        requires
            old(self).wf(),
        ensures
            final(self).wf(),
            final(self).pending() == old(self).pending() + data@,
            final(self).seq_id() == old(self).seq_id(),
            final(self).cap() == old(self).cap(),
            final(self).flags() == old(self).flags(),
            final(self).out() == old(self).out(),
    {
        self.input.extend_from_slice(data);
        proof {
            assert(final(self).pending() =~= old(self).pending() + data@);
        }
    }

    /// Takes the framed bytes owed to the peer, leaving the output empty.
    pub fn take_output(&mut self) -> (r: Vec<u8>)
        requires
            old(self).wf(),
        ensures
            final(self).wf(),
            r@ == old(self).out(),
            final(self).out() == Seq::<u8>::empty(),
            final(self).pending() == old(self).pending(),
            final(self).seq_id() == old(self).seq_id(),
            final(self).cap() == old(self).cap(),
            final(self).flags() == old(self).flags(),
    {
        let mut r: Vec<u8> = Vec::new();
        core::mem::swap(&mut r, &mut self.output);
        r
    }

    /// Frames one logical payload into the output: chunks of at most 2^24-1
    /// bytes, each headed by its length and the next sequence id, with an
    /// empty trailing chunk when the payload ends exactly on a chunk boundary.
    pub fn write_packet(&mut self, data: &[u8])
        requires
            old(self).wf(),
        ensures
            final(self).wf(),
            final(self).out() == old(self).out() + chunks_of(data@, old(self).seq_id()),
            final(self).seq_id() == seq_add(old(self).seq_id(), n_chunks(data@.len())),
            final(self).pending() == old(self).pending(),
            final(self).cap() == old(self).cap(),
            final(self).flags() == old(self).flags(),
    {
        let total = data.len();
        let mut len: usize = total;
        let mut index: usize = 0;
        proof {
            assert(data@.skip(0) =~= data@);
        }
        loop
            invariant
                self.wf(),
                index + len == total,
                total == data@.len(),
                self.cap() == old(self).cap(),
                self.flags() == old(self).flags(),
                self.pending() == old(self).pending(),
                old(self).out() + chunks_of(data@, old(self).seq_id()) == self.out() + chunks_of(
                    data@.skip(index as int),
                    self.seq_id(),
                ),
                seq_add(old(self).seq_id(), n_chunks(data@.len())) == seq_add(
                    self.seq_id(),
                    n_chunks(len as nat),
                ),
            decreases len,
        {
            let ghost pre = *self;
            let ghost rem = data@.skip(index as int);
            let mut pkg_len: usize = len;
            if pkg_len > MAX_PACKET_SIZE {
                pkg_len = MAX_PACKET_SIZE;
            }
            self.push_header(pkg_len, self.sequence_id);
            self.output.extend_from_slice(&data[index..index + pkg_len]);
            self.sequence_id = self.sequence_id.wrapping_add(1);
            proof {
                assert(rem.len() == len);
                if len < MAX_PACKET_SIZE {
                    assert(chunks_of(rem, pre.seq_id()) == frame(rem, pre.seq_id()));
                    assert(data@.subrange(index as int, index + pkg_len) =~= rem);
                    assert(self.out() =~= pre.out() + frame(rem, pre.seq_id()));
                } else {
                    assert(chunks_of(rem, pre.seq_id()) == frame(
                        rem.take(MAX_PACKET_SIZE as int),
                        pre.seq_id(),
                    ) + chunks_of(rem.skip(MAX_PACKET_SIZE as int), seq_add(pre.seq_id(), 1)));
                    assert(data@.subrange(index as int, index + pkg_len) =~= rem.take(
                        MAX_PACKET_SIZE as int,
                    ));
                    assert(self.out() =~= pre.out() + frame(
                        rem.take(MAX_PACKET_SIZE as int),
                        pre.seq_id(),
                    ));
                }
                assert(self.seq_id() == seq_add(pre.seq_id(), 1));
            }
            len = len - pkg_len;
            if len == 0 {
                if pkg_len == MAX_PACKET_SIZE {
                    let s = self.sequence_id;
                    self.push_header(0, s);
                    self.sequence_id = self.sequence_id.wrapping_add(1);
                    proof {
                        let rem2 = rem.skip(MAX_PACKET_SIZE as int);
                        assert(rem2 =~= Seq::<u8>::empty());
                        assert(chunks_of(rem2, seq_add(pre.seq_id(), 1)) == frame(
                            rem2,
                            seq_add(pre.seq_id(), 1),
                        ));
                        assert(frame(rem2, seq_add(pre.seq_id(), 1)) =~= frame_header(
                            0,
                            seq_add(pre.seq_id(), 1),
                        ));
                        assert(self.out() =~= old(self).out() + chunks_of(
                            data@,
                            old(self).seq_id(),
                        ));
                        lemma_n_chunks_step(rem.len());
                        lemma_seq_add_add(pre.seq_id(), 1, 1);
                        assert(n_chunks(0) == 1) by {
                            vstd::arithmetic::div_mod::lemma_basic_div(0, MAX_PACKET_SIZE as int);
                        };
                    }
                } else {
                    proof {
                        assert(self.out() =~= old(self).out() + chunks_of(
                            data@,
                            old(self).seq_id(),
                        ));
                        assert(n_chunks(rem.len()) == 1) by {
                            vstd::arithmetic::div_mod::lemma_basic_div(
                                rem.len() as int,
                                MAX_PACKET_SIZE as int,
                            );
                        };
                    }
                }
                return ;
            }
            index = index + pkg_len;
            proof {
                assert(data@.skip(index as int) =~= rem.skip(MAX_PACKET_SIZE as int));
                lemma_n_chunks_step(rem.len());
                lemma_seq_add_add(pre.seq_id(), 1, n_chunks((rem.len() - MAX_PACKET_SIZE) as nat));
            }
        }
    }

    /// Appends one 4-byte packet header to the output.
    fn push_header(&mut self, len: usize, seq: u8)
        requires
            old(self).wf(),
            len <= MAX_PACKET_SIZE,
        ensures
            final(self).wf(),
            final(self).out() == old(self).out() + frame_header(len as nat, seq),
            final(self).seq_id() == old(self).seq_id(),
            final(self).cap() == old(self).cap(),
            final(self).flags() == old(self).flags(),
            final(self).pending() == old(self).pending(),
    {
        self.output.push((len % 256) as u8);
        self.output.push(((len / 256) % 256) as u8);
        self.output.push((((len / 256) / 256) % 256) as u8);
        self.output.push(seq);
        proof {
            crate::codec::lemma_le_bytes_3(len as nat);
            assert(final(self).out() =~= old(self).out() + frame_header(len as nat, seq));
        }
    }

    /// Scans one framed chunk at absolute position pos of the input buffer
    /// without consuming anything.
    fn scan_one(&self, pos: usize, s: u8) -> (r: Result<(Vec<u8>, usize, u8), ProtoError>)
        requires
            self.wf(),
            pos <= self.input@.len(),
        ensures
            match parse_one(self.input@.skip(pos as int), s) {
                FrameRead::Done { payload, used, seq } => r matches Ok(t) && t.0@ == payload && t.1
                    == pos + used && t.2 == seq,
                FrameRead::NeedMore => r == Err::<(Vec<u8>, usize, u8), ProtoError>(
                    ProtoError::ReadNextPacketError,
                ),
                FrameRead::BadSeq => r == Err::<(Vec<u8>, usize, u8), ProtoError>(
                    ProtoError::InvalidSequence,
                ),
            },
    {
        let ghost rest = self.input@.skip(pos as int);
        let n = self.input.len();
        if n - pos < 4 {
            return Err(ProtoError::ReadNextPacketError);
        }
        if self.input[pos + 3] != s {
            return Err(ProtoError::InvalidSequence);
        }
        let b0 = self.input[pos] as usize;
        let b1 = self.input[pos + 1] as usize;
        let b2 = self.input[pos + 2] as usize;
        let len: usize = b0 + b1 * 256 + b2 * 65536;
        proof {
            crate::codec::lemma_from_le_3(rest.subrange(0, 3));
            assert(rest.subrange(0, 3)[0] == b0);
            assert(rest.subrange(0, 3)[1] == b1);
            assert(rest.subrange(0, 3)[2] == b2);
            assert(header_len(rest) == b0 + 256 * b1 + 65536 * b2);
        }
        if n - pos - 4 < len {
            return Err(ProtoError::ReadNextPacketError);
        }
        let payload = vstd::slice::slice_to_vec(&self.input.as_slice()[pos + 4..pos + 4 + len]);
        proof {
            assert(payload@ =~= rest.subrange(4, 4 + header_len(rest) as int));
        }
        Ok((payload, pos + 4 + len, s.wrapping_add(1)))
    }

    /// Consumes one logical packet, reassembling chained chunks: chunks are
    /// appended while each is exactly 2^24-1 bytes long, and the first
    /// shorter one (the empty one included) ends the packet. On an error
    /// nothing is consumed, so the read can be retried once more bytes have
    /// been fed.
    pub fn read_ephemeral_packet(&mut self) -> (r: ProtoResult<Vec<u8>>)
        requires
            old(self).wf(),
        ensures
            final(self).wf(),
            final(self).out() == old(self).out(),
            final(self).cap() == old(self).cap(),
            final(self).flags() == old(self).flags(),
            match parse_packets(old(self).pending(), old(self).seq_id()) {
                FrameRead::Done { payload, used, seq } => r matches Ok(p) && p@ == payload && final(self).pending() == old(self).pending().skip(used as int) && final(self).seq_id()
                    == seq,
                FrameRead::NeedMore => r == Err::<Vec<u8>, ProtoError>(
                    ProtoError::ReadNextPacketError,
                ) && *final(self) == *old(self),
                FrameRead::BadSeq => r == Err::<Vec<u8>, ProtoError>(ProtoError::InvalidSequence)
                    && *final(self) == *old(self),
            },
    {
        let ghost orig = *old(self);
        let mut acc: Vec<u8> = Vec::new();
        let mut pos: usize = self.read_pos;
        let mut s: u8 = self.sequence_id;
        loop
            invariant
                self.wf(),
                orig == *old(self),
                *self == orig,
                orig.read_pos <= pos <= self.input@.len(),
                (match parse_packets(self.input@.skip(pos as int), s) {
                    FrameRead::Done { payload, used, seq } => parse_packets(
                        orig.pending(),
                        orig.seq_id(),
                    ) == (FrameRead::Done {
                        payload: acc@ + payload,
                        used: ((pos - orig.read_pos) + used) as nat,
                        seq,
                    }),
                    FrameRead::NeedMore => parse_packets(orig.pending(), orig.seq_id())
                        is NeedMore,
                    FrameRead::BadSeq => parse_packets(orig.pending(), orig.seq_id()) is BadSeq,
                }),
            decreases self.input@.len() - pos,
        {
            let ghost rest = self.input@.skip(pos as int);
            let ghost s_pre = s;
            match self.scan_one(pos, s) {
                Err(e) => {
                    proof {
                        if parse_one(rest, s_pre) is NeedMore {
                            assert(parse_packets(rest, s_pre) is NeedMore);
                        }
                        if parse_one(rest, s_pre) is BadSeq {
                            assert(parse_packets(rest, s_pre) is BadSeq);
                        }
                    }
                    return Err(e);
                },
                Ok((next, pos2, s2)) => {
                    proof {
                        assert(parse_one(rest, s_pre) is Done);
                        assert(self.input@.skip(pos2 as int) =~= rest.skip((pos2 - pos) as int));
                    }
                    let short = next.len() < MAX_PACKET_SIZE;
                    let ghost pre_acc = acc@;
                    acc.extend_from_slice(next.as_slice());
                    proof {
                        let used = parse_one(rest, s_pre)->Done_used;
                        if short {
                            assert(parse_packets(rest, s_pre) == (FrameRead::Done {
                                payload: next@,
                                used,
                                seq: s2,
                            }));
                        } else {
                            let inner = parse_packets(rest.skip(used as int), s2);
                            match inner {
                                FrameRead::Done { payload: p3, used: u3, seq: s4 } => {
                                    assert(parse_packets(rest, s_pre) == (FrameRead::Done {
                                        payload: next@ + p3,
                                        used: (used + u3) as nat,
                                        seq: s4,
                                    }));
                                    assert(pre_acc + (next@ + p3) =~= acc@ + p3);
                                },
                                FrameRead::NeedMore => {
                                    assert(parse_packets(rest, s_pre) is NeedMore);
                                },
                                FrameRead::BadSeq => {
                                    assert(parse_packets(rest, s_pre) is BadSeq);
                                },
                            }
                        }
                    }
                    pos = pos2;
                    s = s2;
                    if short {
                        self.read_pos = pos;
                        self.sequence_id = s;
                        proof {
                            assert(final(self).pending() =~= orig.pending().skip(
                                (pos - orig.read_pos) as int,
                            ));
                        }
                        return Ok(acc);
                    }
                },
            }
        }
    }

    /// Consumes one packet that must fit in a single chunk, as the handshake
    /// response must: a first chunk of the maximum length is refused. On an
    /// error nothing is consumed.
    pub fn read_ephemeral_packet_direct(&mut self) -> (r: ProtoResult<Vec<u8>>)
        requires
            old(self).wf(),
        ensures
            final(self).wf(),
            final(self).out() == old(self).out(),
            final(self).cap() == old(self).cap(),
            final(self).flags() == old(self).flags(),
            match parse_one(old(self).pending(), old(self).seq_id()) {
                FrameRead::Done { payload, used, seq } => if payload.len() < MAX_PACKET_SIZE {
                    r matches Ok(p) && p@ == payload && final(self).pending() == old(self).pending().skip(used as int) && final(self).seq_id() == seq
                } else {
                    r == Err::<Vec<u8>, ProtoError>(ProtoError::MultiPacketNotSupport) && *final(self) == *old(self)
                },
                FrameRead::NeedMore => r == Err::<Vec<u8>, ProtoError>(
                    ProtoError::ReadNextPacketError,
                ) && *final(self) == *old(self),
                FrameRead::BadSeq => r == Err::<Vec<u8>, ProtoError>(ProtoError::InvalidSequence)
                    && *final(self) == *old(self),
            },
    {
        let ghost orig = *old(self);
        let pos = self.read_pos;
        let s = self.sequence_id;
        match self.scan_one(pos, s) {
            Err(e) => Err(e),
            Ok((payload, pos2, s2)) => {
                if payload.len() >= MAX_PACKET_SIZE {
                    return Err(ProtoError::MultiPacketNotSupport);
                }
                self.read_pos = pos2;
                self.sequence_id = s2;
                proof {
                    let used = parse_one(orig.pending(), orig.seq_id())->Done_used;
                    assert(final(self).pending() =~= orig.pending().skip(used as int));
                }
                Ok(payload)
            },
        }
    }

    /// Reads one logical packet; kept beside read_ephemeral_packet as the
    /// form the in-memory tests drive directly.
    pub fn read_packets(&mut self) -> (r: ProtoResult<Vec<u8>>)
        requires
            old(self).wf(),
        ensures
            final(self).wf(),
            final(self).out() == old(self).out(),
            final(self).cap() == old(self).cap(),
            final(self).flags() == old(self).flags(),
            match parse_packets(old(self).pending(), old(self).seq_id()) {
                FrameRead::Done { payload, used, seq } => r matches Ok(p) && p@ == payload && final(self).pending() == old(self).pending().skip(used as int) && final(self).seq_id()
                    == seq,
                FrameRead::NeedMore => r == Err::<Vec<u8>, ProtoError>(
                    ProtoError::ReadNextPacketError,
                ) && *final(self) == *old(self),
                FrameRead::BadSeq => r == Err::<Vec<u8>, ProtoError>(ProtoError::InvalidSequence)
                    && *final(self) == *old(self),
            },
    {
        self.read_ephemeral_packet()
    }
}

/// A payload of at least one full chunk frames as one chunk more than its
/// rest beyond the first chunk.
proof fn lemma_n_chunks_step(len: nat)
    requires
        len >= MAX_PACKET_SIZE,
    ensures
        n_chunks(len) == 1 + n_chunks((len - MAX_PACKET_SIZE) as nat),
{
    let m = MAX_PACKET_SIZE as int;
    vstd::arithmetic::div_mod::lemma_hoist_over_denominator(
        len - m,
        1,
        MAX_PACKET_SIZE as nat,
    );
    assert((len - m) + 1 * m == len) by {
        vstd::arithmetic::mul::lemma_mul_basics(m);
    };
}

/// Adding packet counts one after the other lands on the same sequence id as
/// adding their sum.
proof fn lemma_seq_add_add(s: u8, a: nat, b: nat)
    ensures
        seq_add(seq_add(s, a), b) == seq_add(s, a + b),
{
    let m = 256int;
    vstd::arithmetic::div_mod::lemma_add_mod_noop((s + a) as int, b as int, m);
    vstd::arithmetic::div_mod::lemma_mod_twice((s + a) as int, m);
    vstd::arithmetic::div_mod::lemma_small_mod(b % 256, 256);
    vstd::arithmetic::div_mod::lemma_add_mod_noop((s + a) % m, b as int, m);
}


/// The body of an OK packet: header 0x00, the affected-row and insert-id
/// counts as length-encoded integers, then status flags and warning count.
pub open spec fn ok_packet_body(
    affected_rows: u64,
    last_insert_id: u64,
    flags: u16,
    warnings: u16,
) -> Seq<u8> {
    seq![OK_PACKET] + lenenc_int(affected_rows) + lenenc_int(last_insert_id) + le_bytes(
        flags as nat,
        2,
    ) + le_bytes(warnings as nat, 2)
}

/// The body of an OK packet that stands in for an EOF terminator: the OK
/// layout under the 0xfe header byte.
pub open spec fn ok_eof_packet_body(
    affected_rows: u64,
    last_insert_id: u64,
    flags: u16,
    warnings: u16,
) -> Seq<u8> {
    seq![EOF_PACKET] + lenenc_int(affected_rows) + lenenc_int(last_insert_id) + le_bytes(
        flags as nat,
        2,
    ) + le_bytes(warnings as nat, 2)
}

/// The 5-byte body of an EOF packet: 0xfe, warnings, status flags.
pub open spec fn eof_packet_body(flags: u16, warnings: u16) -> Seq<u8> {
    seq![EOF_PACKET] + le_bytes(warnings as nat, 2) + le_bytes(flags as nat, 2)
}

/// The body of an ERR packet: 0xff, the error code, the marker '#', five
/// bytes of SQL state, then the message.
pub open spec fn err_packet_body(err_code: u16, sql_state: Seq<u8>, err_msg: Seq<u8>) -> Seq<u8> {
    seq![ERR_PACKET] + le_bytes(err_code as nat, 2) + seq![0x23u8] + sql_state + err_msg
}

/// The status flags of a response, with the more-results bit set when more
/// result sets follow.
pub open spec fn more_flags(flags: u16, more: bool) -> u16 {
    if more {
        flags | SERVER_MORE_RESULTS_EXISTS
    } else {
        flags
    }
}

impl Packets {
    /// Writes an OK packet as one framed packet.
    pub fn write_ok_packet(
        &mut self,
        affected_rows: u64,
        last_insert_id: u64,
        flags: u16,
        warnings: u16,
    )
        requires
            old(self).wf(),
        ensures
            final(self).wf(),
            final(self).out() == old(self).out() + chunks_of(
                ok_packet_body(affected_rows, last_insert_id, flags, warnings),
                old(self).seq_id(),
            ),
            final(self).seq_id() == seq_add(old(self).seq_id(), 1),
            final(self).pending() == old(self).pending(),
            final(self).cap() == old(self).cap(),
            final(self).flags() == old(self).flags(),
    {
        proof {
            crate::codec::lemma_lenenc_len(affected_rows);
            crate::codec::lemma_lenenc_len(last_insert_id);
            lemma_le_bytes_len(flags as nat, 2);
            lemma_le_bytes_len(warnings as nat, 2);
        }
        let mut body: Vec<u8> = Vec::new();
        body.push(OK_PACKET);
        write_len_int(&mut body, affected_rows);
        write_len_int(&mut body, last_insert_id);
        write_le(&mut body, flags as u64, 2);
        write_le(&mut body, warnings as u64, 2);
        proof {
            crate::codec::lemma_lenenc_len(affected_rows);
            crate::codec::lemma_lenenc_len(last_insert_id);
            lemma_le_bytes_len(flags as nat, 2);
            lemma_le_bytes_len(warnings as nat, 2);
            assert(body@ =~= ok_packet_body(affected_rows, last_insert_id, flags, warnings));
        }
        self.write_small(body);
    }

    /// Writes the OK-with-EOF-header packet used as a result-set terminator
    /// when DEPRECATE_EOF is in effect.
    pub fn write_ok_packet_with_eof_header(
        &mut self,
        affected_rows: u64,
        last_insert_id: u64,
        flags: u16,
        warnings: u16,
    )
        requires
            old(self).wf(),
        ensures
            final(self).wf(),
            final(self).out() == old(self).out() + chunks_of(
                ok_eof_packet_body(affected_rows, last_insert_id, flags, warnings),
                old(self).seq_id(),
            ),
            final(self).seq_id() == seq_add(old(self).seq_id(), 1),
            final(self).pending() == old(self).pending(),
            final(self).cap() == old(self).cap(),
            final(self).flags() == old(self).flags(),
    {
        proof {
            crate::codec::lemma_lenenc_len(affected_rows);
            crate::codec::lemma_lenenc_len(last_insert_id);
            lemma_le_bytes_len(flags as nat, 2);
            lemma_le_bytes_len(warnings as nat, 2);
        }
        let mut body: Vec<u8> = Vec::new();
        body.push(EOF_PACKET);
        write_len_int(&mut body, affected_rows);
        write_len_int(&mut body, last_insert_id);
        write_le(&mut body, flags as u64, 2);
        write_le(&mut body, warnings as u64, 2);
        proof {
            crate::codec::lemma_lenenc_len(affected_rows);
            crate::codec::lemma_lenenc_len(last_insert_id);
            lemma_le_bytes_len(flags as nat, 2);
            lemma_le_bytes_len(warnings as nat, 2);
            assert(body@ =~= ok_eof_packet_body(affected_rows, last_insert_id, flags, warnings));
        }
        self.write_small(body);
    }

    /// Writes an EOF packet as one framed packet. The flags handed in may
    /// carry the more-results bit and so may differ from the stored ones.
    pub fn write_eof_packet(&mut self, flags: u16, warnings: u16)
        requires
            old(self).wf(),
        ensures
            final(self).wf(),
            final(self).out() == old(self).out() + chunks_of(
                eof_packet_body(flags, warnings),
                old(self).seq_id(),
            ),
            final(self).seq_id() == seq_add(old(self).seq_id(), 1),
            final(self).pending() == old(self).pending(),
            final(self).cap() == old(self).cap(),
            final(self).flags() == old(self).flags(),
    {
        proof {
            lemma_le_bytes_len(warnings as nat, 2);
            lemma_le_bytes_len(flags as nat, 2);
        }
        let mut body: Vec<u8> = Vec::new();
        body.push(EOF_PACKET);
        write_le(&mut body, warnings as u64, 2);
        write_le(&mut body, flags as u64, 2);
        proof {
            lemma_le_bytes_len(warnings as nat, 2);
            lemma_le_bytes_len(flags as nat, 2);
            assert(body@ =~= eof_packet_body(flags, warnings));
        }
        self.write_small(body);
    }

    /// Writes an ERR packet as one framed packet. An empty SQL state falls
    /// back to the unknown state "HY000"; any other state must be the five
    /// bytes the wire format demands.
    pub fn write_err_packet(&mut self, err_code: u16, sql_state: Vec<u8>, err_msg: Vec<u8>)
        requires
            old(self).wf(),
            sql_state@.len() == 5 || sql_state@.len() == 0,
            err_msg@.len() + 18 <= usize::MAX,
        ensures
            final(self).wf(),
            final(self).out() == old(self).out() + chunks_of(
                err_packet_body(
                    err_code,
                    if sql_state@.len() == 0 {
                        StateError::SSUnknownSQLState.spec_sql_state()
                    } else {
                        sql_state@
                    },
                    err_msg@,
                ),
                old(self).seq_id(),
            ),
            final(self).seq_id() == seq_add(
                old(self).seq_id(),
                n_chunks(
                    err_packet_body(
                        err_code,
                        if sql_state@.len() == 0 {
                            StateError::SSUnknownSQLState.spec_sql_state()
                        } else {
                            sql_state@
                        },
                        err_msg@,
                    ).len(),
                ),
            ),
            final(self).pending() == old(self).pending(),
            final(self).cap() == old(self).cap(),
            final(self).flags() == old(self).flags(),
    {
        let state = if sql_state.len() == 0 {
            StateError::SSUnknownSQLState.sql_state()
        } else {
            sql_state
        };
        proof {
            lemma_le_bytes_len(err_code as nat, 2);
        }
        let mut body: Vec<u8> = Vec::new();
        body.push(ERR_PACKET);
        write_le(&mut body, err_code as u64, 2);
        body.push(0x23);
        body.extend_from_slice(state.as_slice());
        body.extend_from_slice(err_msg.as_slice());
        proof {
            lemma_le_bytes_len(err_code as nat, 2);
            assert(body@ =~= err_packet_body(
                err_code,
                if sql_state@.len() == 0 {
                    StateError::SSUnknownSQLState.spec_sql_state()
                } else {
                    sql_state@
                },
                err_msg@,
            ));
        }
        self.write_packet(body.as_slice());
    }

    /// Writes the standing unknown-error ERR packet: code 1105, state HY000,
    /// message "Unknown error".
    pub fn write_err_packet_from_err(&mut self)
        requires
            old(self).wf(),
        ensures
            final(self).wf(),
            final(self).out() == old(self).out() + chunks_of(
                err_packet_body(
                    ServerError::ERUnknownError.spec_code(),
                    StateError::SSUnknownSQLState.spec_sql_state(),
                    msg_unknown_error(),
                ),
                old(self).seq_id(),
            ),
            final(self).seq_id() == seq_add(old(self).seq_id(), 1),
            final(self).pending() == old(self).pending(),
            final(self).cap() == old(self).cap(),
            final(self).flags() == old(self).flags(),
    {
        let msg: Vec<u8> = vec![85u8, 110u8, 107u8, 110u8, 111u8, 119u8, 110u8, 32u8, 101u8, 114u8, 114u8, 111u8, 114u8];
        proof {
            assert(msg@ =~= msg_unknown_error());
        }
        let code = ServerError::ERUnknownError.code();
        let state = StateError::SSUnknownSQLState.sql_state();
        self.write_err_packet(code, state, msg);
        proof {
            lemma_le_bytes_len(ServerError::ERUnknownError.spec_code() as nat, 2);
            lemma_one_chunk_count(
                err_packet_body(
                    ServerError::ERUnknownError.spec_code(),
                    StateError::SSUnknownSQLState.spec_sql_state(),
                    msg_unknown_error(),
                ).len(),
            );
        }
    }

    /// Ends a result set: an EOF packet, or the OK-with-EOF-header form when
    /// DEPRECATE_EOF is in effect; the more-results bit is set in the flags
    /// when more result sets follow.
    pub fn write_end_result(
        &mut self,
        more: bool,
        affected_rows: u64,
        last_insert_id: u64,
        warnings: u16,
    )
        requires
            old(self).wf(),
        ensures
            final(self).wf(),
            final(self).out() == old(self).out() + (if old(self).cap() & CAP_CLIENT_DEPRECATE_EOF
                == 0 {
                chunks_of(
                    eof_packet_body(more_flags(old(self).flags(), more), warnings),
                    old(self).seq_id(),
                )
            } else {
                chunks_of(
                    ok_eof_packet_body(
                        affected_rows,
                        last_insert_id,
                        more_flags(old(self).flags(), more),
                        warnings,
                    ),
                    old(self).seq_id(),
                )
            }),
            final(self).seq_id() == seq_add(old(self).seq_id(), 1),
            final(self).pending() == old(self).pending(),
            final(self).cap() == old(self).cap(),
            final(self).flags() == old(self).flags(),
    {
        let mut flags = self.status_flags;
        if more {
            flags = flags | SERVER_MORE_RESULTS_EXISTS;
        }
        if self.capability & CAP_CLIENT_DEPRECATE_EOF == 0 {
            self.write_eof_packet(flags, warnings);
        } else {
            self.write_ok_packet_with_eof_header(affected_rows, last_insert_id, flags, warnings);
        }
    }

    /// Frames a body known to fit one chunk.
    fn write_small(&mut self, body: Vec<u8>)
        requires
            old(self).wf(),
            body@.len() < MAX_PACKET_SIZE,
        ensures
            final(self).wf(),
            final(self).out() == old(self).out() + chunks_of(body@, old(self).seq_id()),
            final(self).seq_id() == seq_add(old(self).seq_id(), 1),
            final(self).pending() == old(self).pending(),
            final(self).cap() == old(self).cap(),
            final(self).flags() == old(self).flags(),
    {
        self.write_packet(body.as_slice());
        proof {
            lemma_one_chunk_count(body@.len());
        }
    }
}

/// A payload shorter than a full chunk frames as exactly one chunk.
proof fn lemma_one_chunk_count(len: nat)
    requires
        len < MAX_PACKET_SIZE,
    ensures
        n_chunks(len) == 1,
{
    vstd::arithmetic::div_mod::lemma_basic_div(len as int, MAX_PACKET_SIZE as int);
}

/// The message of the standing unknown-error ERR packet, "Unknown error".
pub open spec fn msg_unknown_error() -> Seq<u8> {
    seq![85u8, 110u8, 107u8, 110u8, 111u8, 119u8, 110u8, 32u8, 101u8, 114u8, 114u8, 111u8, 114u8]
}



/// The catalog name "def" that heads every column definition.
pub open spec fn def_catalog() -> Seq<u8> {
    seq![0x64u8, 0x65u8, 0x66u8]
}

/// The wire type byte of a column whose internal type is in the table.
pub open spec fn column_wire_type(f: Field) -> u8 {
    ((spec_type_to_mysql(f.typ)->Some_0).0 % 256) as u8
}

/// The wire flags of a column: the field's own flags when nonzero, else the
/// flags its type implies.
pub open spec fn column_flags(f: Field) -> u16 {
    if f.flags != 0 {
        (f.flags % 0x10000) as u16
    } else {
        (((spec_type_to_mysql(f.typ)->Some_0).1) % 0x10000) as u16
    }
}

/// The body of one ColumnDefinition41 packet.
pub open spec fn column_def_bytes(f: Field) -> Seq<u8> {
    lenenc_str(def_catalog()) + lenenc_str(f.database@) + lenenc_str(f.table@) + lenenc_str(
        f.org_table@,
    ) + lenenc_str(f.name@) + lenenc_str(f.org_name@) + seq![0x0cu8] + le_bytes(
        (f.charset % 0x10000) as nat,
        2,
    ) + le_bytes(f.column_len as nat, 4) + seq![column_wire_type(f)] + le_bytes(
        column_flags(f) as nat,
        2,
    ) + seq![(f.decimals % 256) as u8] + seq![0u8, 0u8]
}

/// The internal type of every column stands in the type table.
pub open spec fn fields_ok(fields: Seq<Field>) -> bool {
    forall|i: int| 0 <= i < fields.len() ==> (#[trigger] spec_type_to_mysql(fields[i].typ))
        is Some
}

/// Machine limit: each name of the column fits one framed chunk, so that the
/// definition body can be built in memory.
pub open spec fn field_small(f: Field) -> bool {
    f.database@.len() <= MAX_PACKET_SIZE && f.table@.len() <= MAX_PACKET_SIZE && f.org_table@.len()
        <= MAX_PACKET_SIZE && f.name@.len() <= MAX_PACKET_SIZE && f.org_name@.len()
        <= MAX_PACKET_SIZE
}

pub open spec fn fields_small(fields: Seq<Field>) -> bool {
    forall|i: int| 0 <= i < fields.len() ==> #[trigger] field_small(fields[i])
}

/// The column-definition packets of a field list, one framed packet each.
pub open spec fn column_packets(fields: Seq<Field>, seq: u8) -> Seq<u8>
    decreases fields.len(),
{
    if fields.len() == 0 {
        Seq::empty()
    } else {
        chunks_of(column_def_bytes(fields[0]), seq) + column_packets(
            fields.drop_first(),
            seq_add(seq, n_chunks(column_def_bytes(fields[0]).len())),
        )
    }
}

/// The sequence id after the column-definition packets of a field list.
pub open spec fn column_packets_end_seq(fields: Seq<Field>, seq: u8) -> u8
    decreases fields.len(),
{
    if fields.len() == 0 {
        seq
    } else {
        column_packets_end_seq(
            fields.drop_first(),
            seq_add(seq, n_chunks(column_def_bytes(fields[0]).len())),
        )
    }
}

/// The whole field block: the field-count packet, one packet per column
/// definition, and an EOF packet unless DEPRECATE_EOF is in effect.
pub open spec fn fields_block(fields: Seq<Field>, st_flags: u16, cap: u32, seq: u8) -> Seq<u8> {
    let cnt = chunks_of(lenenc_int(fields.len() as u64), seq);
    let cols = column_packets(fields, seq_add(seq, 1));
    let s2 = column_packets_end_seq(fields, seq_add(seq, 1));
    if cap & CAP_CLIENT_DEPRECATE_EOF == 0 {
        cnt + cols + chunks_of(eof_packet_body(st_flags, 0), s2)
    } else {
        cnt + cols
    }
}

/// The sequence id after the whole field block.
pub open spec fn fields_block_end_seq(fields: Seq<Field>, cap: u32, seq: u8) -> u8 {
    let s2 = column_packets_end_seq(fields, seq_add(seq, 1));
    if cap & CAP_CLIENT_DEPRECATE_EOF == 0 {
        seq_add(s2, 1)
    } else {
        s2
    }
}

/// The encoding of one cell: the single byte 0xfb for NULL, else the raw
/// payload as a length-encoded string.
pub open spec fn cell_bytes(v: Value) -> Seq<u8> {
    if v.spec_is_null() {
        seq![0xfbu8]
    } else {
        lenenc_str(v.val@)
    }
}

/// The body of one row packet: the cells in order.
pub open spec fn row_body(row: Seq<Value>) -> Seq<u8>
    decreases row.len(),
{
    if row.len() == 0 {
        Seq::empty()
    } else {
        cell_bytes(row[0]) + row_body(row.drop_first())
    }
}

/// Machine limit: a row body can be built in memory.
pub open spec fn row_small(row: Seq<Value>) -> bool {
    row_body(row).len() + 9 <= usize::MAX
}

pub open spec fn rows_small(rows: Seq<Vec<Value>>) -> bool {
    forall|i: int| 0 <= i < rows.len() ==> #[trigger] row_small(rows[i]@)
}

/// The row packets of a result segment, one framed packet per row.
pub open spec fn rows_packets(rows: Seq<Vec<Value>>, seq: u8) -> Seq<u8>
    decreases rows.len(),
{
    if rows.len() == 0 {
        Seq::empty()
    } else {
        chunks_of(row_body(rows[0]@), seq) + rows_packets(
            rows.drop_first(),
            seq_add(seq, n_chunks(row_body(rows[0]@).len())),
        )
    }
}

/// The sequence id after the row packets of a result segment.
pub open spec fn rows_packets_end_seq(rows: Seq<Vec<Value>>, seq: u8) -> u8
    decreases rows.len(),
{
    if rows.len() == 0 {
        seq
    } else {
        rows_packets_end_seq(
            rows.drop_first(),
            seq_add(seq, n_chunks(row_body(rows[0]@).len())),
        )
    }
}

impl Packets {
    /// Builds the body of one ColumnDefinition41 packet.
    pub fn write_column_definition(field: &Field) -> (r: Vec<u8>)
        requires
            spec_type_to_mysql(field.typ) is Some,
            field_small(*field),
        ensures
            r@ == column_def_bytes(*field),
    {
        proof {
            crate::codec::lemma_lenenc_len(3u64);
            crate::codec::lemma_lenenc_len(field.database@.len() as u64);
            crate::codec::lemma_lenenc_len(field.table@.len() as u64);
            crate::codec::lemma_lenenc_len(field.org_table@.len() as u64);
            crate::codec::lemma_lenenc_len(field.name@.len() as u64);
            crate::codec::lemma_lenenc_len(field.org_name@.len() as u64);
            lemma_le_bytes_len((field.charset % 0x10000) as nat, 2);
            lemma_le_bytes_len(field.column_len as nat, 4);
        }
        let mut data: Vec<u8> = Vec::new();
        let catalog: Vec<u8> = vec![0x64u8, 0x65u8, 0x66u8];
        proof {
            assert(catalog@ =~= def_catalog());
        }
        write_len_str(&mut data, catalog.as_slice());
        write_len_str(&mut data, field.database.as_slice());
        write_len_str(&mut data, field.table.as_slice());
        write_len_str(&mut data, field.org_table.as_slice());
        write_len_str(&mut data, field.name.as_slice());
        write_len_str(&mut data, field.org_name.as_slice());
        data.push(0x0c);
        write_le(&mut data, (field.charset % 0x10000) as u64, 2);
        write_le(&mut data, field.column_len as u64, 4);
        let (typ, type_flags) = type_to_mysql(field.typ);
        proof {
            assert(0 <= typ <= 255 && 0 <= type_flags < 0x10000);
        }
        data.push((typ % 256) as u8);
        let wire_flags: u16 = if field.flags != 0 {
            (field.flags % 0x10000) as u16
        } else {
            (type_flags % 0x10000) as u16
        };
        proof {
            lemma_le_bytes_len(wire_flags as nat, 2);
            assert(wire_flags == column_flags(*field));
        }
        write_le(&mut data, wire_flags as u64, 2);
        data.push((field.decimals % 256) as u8);
        data.push(0);
        data.push(0);
        proof {
            assert(data@ =~= column_def_bytes(*field));
        }
        data
    }

    /// Writes the field block of a result set: the field count as one framed
    /// packet, one framed packet per column definition, and an EOF packet
    /// unless DEPRECATE_EOF is in effect.
    pub fn write_fields(&mut self, result: &SqlResult)
        requires
            old(self).wf(),
            fields_ok(result.fields@),
            fields_small(result.fields@),
        ensures
            final(self).wf(),
            final(self).out() == old(self).out() + fields_block(
                result.fields@,
                old(self).flags(),
                old(self).cap(),
                old(self).seq_id(),
            ),
            final(self).seq_id() == fields_block_end_seq(
                result.fields@,
                old(self).cap(),
                old(self).seq_id(),
            ),
            final(self).pending() == old(self).pending(),
            final(self).cap() == old(self).cap(),
            final(self).flags() == old(self).flags(),
    {
        let ghost orig = *old(self);
        let ghost fields = result.fields@;
        let n = result.fields.len();
        proof {
            crate::codec::lemma_lenenc_len(n as u64);
        }
        let mut cnt: Vec<u8> = Vec::new();
        write_len_int(&mut cnt, n as u64);
        self.write_small(cnt);
        let ghost s1 = seq_add(orig.seq_id(), 1);
        proof {
            assert(fields.skip(0) =~= fields);
        }
        let mut i: usize = 0;
        while i < n
            invariant
                self.wf(),
                orig == *old(self),
                n == fields.len(),
                i <= n,
                fields_ok(fields),
                fields_small(fields),
                result.fields@ == fields,
                self.cap() == orig.cap(),
                self.flags() == orig.flags(),
                self.pending() == orig.pending(),
                orig.out() + chunks_of(lenenc_int(n as u64), orig.seq_id()) + column_packets(
                    fields,
                    s1,
                ) == self.out() + column_packets(fields.skip(i as int), self.seq_id()),
                column_packets_end_seq(fields, s1) == column_packets_end_seq(
                    fields.skip(i as int),
                    self.seq_id(),
                ),
            decreases n - i,
        {
            let ghost rest = fields.skip(i as int);
            let ghost s_pre = self.seq_id();
            proof {
                assert(rest[0] == fields[i as int]);
                assert(rest.drop_first() =~= fields.skip(i + 1));
            }
            let def = Self::write_column_definition(&result.fields[i]);
            self.write_packet(def.as_slice());
            i = i + 1;
            proof {
                assert(column_packets(rest, s_pre) == chunks_of(column_def_bytes(rest[0]), s_pre)
                    + column_packets(
                    rest.drop_first(),
                    seq_add(s_pre, n_chunks(column_def_bytes(rest[0]).len())),
                ));
                assert((orig.out() + chunks_of(lenenc_int(n as u64), orig.seq_id())
                    + column_packets(fields, s1)) =~= (self.out() + column_packets(
                    fields.skip(i as int),
                    self.seq_id(),
                )));
            }
        }
        proof {
            assert(fields.skip(n as int) =~= Seq::<Field>::empty());
            assert(column_packets(Seq::<Field>::empty(), self.seq_id()) =~= Seq::<u8>::empty());
        }
        if self.capability & CAP_CLIENT_DEPRECATE_EOF == 0 {
            let flags = self.status_flags;
            self.write_eof_packet(flags, 0);
        }
        proof {
            assert(final(self).out() =~= orig.out() + fields_block(
                fields,
                orig.flags(),
                orig.cap(),
                orig.seq_id(),
            ));
        }
    }

    /// Writes one row as one framed packet: per cell, 0xfb for NULL or the
    /// payload as a length-encoded string.
    pub fn write_row(&mut self, row: &Vec<Value>)
        requires
            old(self).wf(),
            row_small(row@),
        ensures
            final(self).wf(),
            final(self).out() == old(self).out() + chunks_of(row_body(row@), old(self).seq_id()),
            final(self).seq_id() == seq_add(old(self).seq_id(), n_chunks(row_body(row@).len())),
            final(self).pending() == old(self).pending(),
            final(self).cap() == old(self).cap(),
            final(self).flags() == old(self).flags(),
    {
        let mut data: Vec<u8> = Vec::new();
        let n = row.len();
        let mut i: usize = 0;
        proof {
            assert(row@.skip(0) =~= row@);
        }
        while i < n
            invariant
                i <= n,
                n == row@.len(),
                row_small(row@),
                row_body(row@) == data@ + row_body(row@.skip(i as int)),
            decreases n - i,
        {
            let ghost rest = row@.skip(i as int);
            proof {
                assert(rest[0] == row@[i as int]);
                assert(rest.drop_first() =~= row@.skip(i + 1));
                assert(row_body(rest) == cell_bytes(rest[0]) + row_body(rest.drop_first()));
                crate::codec::lemma_lenenc_len(row@[i as int].val@.len() as u64);
            }
            let val = &row[i];
            if val.is_null() {
                data.push(0xfb);
            } else {
                write_len_str(&mut data, val.val.as_slice());
            }
            i = i + 1;
            proof {
                assert(row_body(row@) =~= data@ + row_body(row@.skip(i as int)));
            }
        }
        proof {
            assert(row@.skip(n as int) =~= Seq::<Value>::empty());
            assert(row_body(Seq::<Value>::empty()) =~= Seq::<u8>::empty());
            assert(data@ =~= row_body(row@));
        }
        self.write_packet(data.as_slice());
    }

    /// Writes the rows of a result segment, one framed packet per row.
    pub fn write_rows(&mut self, qr: &SqlResult)
        requires
            old(self).wf(),
            rows_small(qr.rows@),
        ensures
            final(self).wf(),
            final(self).out() == old(self).out() + rows_packets(qr.rows@, old(self).seq_id()),
            final(self).seq_id() == rows_packets_end_seq(qr.rows@, old(self).seq_id()),
            final(self).pending() == old(self).pending(),
            final(self).cap() == old(self).cap(),
            final(self).flags() == old(self).flags(),
    {
        let ghost orig = *old(self);
        let ghost rows = qr.rows@;
        let n = qr.rows.len();
        let mut i: usize = 0;
        proof {
            assert(rows.skip(0) =~= rows);
        }
        while i < n
            invariant
                self.wf(),
                orig == *old(self),
                n == rows.len(),
                i <= n,
                rows_small(rows),
                qr.rows@ == rows,
                self.cap() == orig.cap(),
                self.flags() == orig.flags(),
                self.pending() == orig.pending(),
                orig.out() + rows_packets(rows, orig.seq_id()) == self.out() + rows_packets(
                    rows.skip(i as int),
                    self.seq_id(),
                ),
                rows_packets_end_seq(rows, orig.seq_id()) == rows_packets_end_seq(
                    rows.skip(i as int),
                    self.seq_id(),
                ),
            decreases n - i,
        {
            let ghost rest = rows.skip(i as int);
            let ghost s_pre = self.seq_id();
            proof {
                assert(rest[0] == rows[i as int]);
                assert(rest.drop_first() =~= rows.skip(i + 1));
            }
            self.write_row(&qr.rows[i]);
            i = i + 1;
            proof {
                assert(rows_packets(rest, s_pre) == chunks_of(row_body(rest[0]@), s_pre)
                    + rows_packets(
                    rest.drop_first(),
                    seq_add(s_pre, n_chunks(row_body(rest[0]@).len())),
                ));
                assert((orig.out() + rows_packets(rows, orig.seq_id())) =~= (self.out()
                    + rows_packets(rows.skip(i as int), self.seq_id())));
            }
        }
        proof {
            assert(rows.skip(n as int) =~= Seq::<Vec<Value>>::empty());
            assert(rows_packets(Seq::<Vec<Value>>::empty(), self.seq_id())
                =~= Seq::<u8>::empty());
            assert(final(self).out() =~= orig.out() + rows_packets(rows, orig.seq_id()));
        }
    }
}


/// What the dispatcher asks its caller to do after one command packet.
#[derive(Clone, Debug, PartialEq, Eq)]
pub enum CommandAction {
    /// The command was answered in full; read the next command.
    Done,
    /// A COM_QUERY arrived: run the query and stream its result segments
    /// through exec_query.
    Query { sql: Vec<u8> },
}

/// The message of the ERR packet for a SET_OPTION value that names no option.
pub open spec fn msg_unknown_set_option() -> Seq<u8> {
    seq![85u8, 110u8, 107u8, 110u8, 111u8, 119u8, 110u8, 32u8, 115u8, 101u8, 116u8, 32u8, 111u8, 112u8, 116u8, 105u8, 111u8, 110u8]
}

/// The message of the ERR packet for a SET_OPTION packet too short to parse.
pub open spec fn msg_error_parsing_set_option() -> Seq<u8> {
    seq![69u8, 114u8, 114u8, 111u8, 114u8, 32u8, 112u8, 97u8, 114u8, 115u8, 105u8, 110u8, 103u8, 32u8, 115u8, 101u8, 116u8, 32u8, 111u8, 112u8, 116u8, 105u8, 111u8, 110u8]
}

/// The message of the ERR packet for a command the dispatcher does not serve:
/// the command's name where the code names one, a bare notice otherwise.
pub open spec fn msg_unknown_command(code: u8) -> Seq<u8> {
    match PacketType::spec_from_code(code) {
        Some(pt) => seq![85u8, 110u8, 107u8, 110u8, 111u8, 119u8, 110u8, 32u8, 99u8, 111u8, 109u8, 109u8, 97u8, 110u8, 100u8, 58u8, 32u8] + pt.spec_name(),
        None => seq![85u8, 110u8, 107u8, 110u8, 111u8, 119u8, 110u8, 32u8, 99u8, 111u8, 109u8, 109u8, 97u8, 110u8, 100u8],
    }
}

/// The EOF-form acknowledgement of a successful SET_OPTION: an EOF packet,
/// or the OK-with-EOF-header form when DEPRECATE_EOF is in effect.
pub open spec fn eof_reply(st_flags: u16, cap: u32, seq: u8) -> Seq<u8> {
    if cap & CAP_CLIENT_DEPRECATE_EOF != 0 {
        chunks_of(ok_eof_packet_body(0, 0, st_flags, 0), seq)
    } else {
        chunks_of(eof_packet_body(st_flags, 0), seq)
    }
}

/// The bytes the dispatcher writes in answer to a SET_OPTION payload.
pub open spec fn set_option_out(p: Seq<u8>, st_flags: u16, cap: u32, seq: u8) -> Seq<u8> {
    if p.len() < 3 {
        chunks_of(
            err_packet_body(
                ServerError::ERUnknownComError.spec_code(),
                StateError::SSUnknownComError.spec_sql_state(),
                msg_error_parsing_set_option(),
            ),
            seq,
        )
    } else {
        let n = p[1] + 256 * p[2];
        if n == 0 {
            eof_reply(st_flags, cap | CAP_CLIENT_MULTI_STATEMENTS, seq)
        } else if n == 1 {
            eof_reply(st_flags, cap & !CAP_CLIENT_MULTI_STATEMENTS, seq)
        } else {
            chunks_of(
                err_packet_body(
                    ServerError::ERUnknownComError.spec_code(),
                    StateError::SSUnknownComError.spec_sql_state(),
                    msg_unknown_set_option(),
                ),
                seq,
            )
        }
    }
}

/// The bytes the dispatcher writes in answer to one command payload that was
/// read at sequence seq.
pub open spec fn dispatch_out(p: Seq<u8>, st_flags: u16, cap: u32, seq: u8) -> Seq<u8> {
    if p.len() == 0 {
        Seq::empty()
    } else if p[0] == 0x01 || p[0] == 0x03 || p[0] == 0x16 || p[0] == 0x17 || p[0] == 0x1a
        || p[0] == 0x19 {
        Seq::empty()
    } else if p[0] == 0x02 || p[0] == 0x0e {
        chunks_of(ok_packet_body(0, 0, st_flags, 0), seq)
    } else if p[0] == 0x1b {
        set_option_out(p, st_flags, cap, seq)
    } else {
        chunks_of(
            err_packet_body(
                ServerError::ERUnknownComError.spec_code(),
                StateError::SSUnknownComError.spec_sql_state(),
                msg_unknown_command(p[0]),
            ),
            seq,
        )
    }
}

/// The capability bits after one command: SET_OPTION toggles the
/// multi-statement bit, every other command leaves them alone.
pub open spec fn dispatch_cap(p: Seq<u8>, cap: u32) -> u32 {
    if p.len() >= 3 && p[0] == 0x1b {
        let n = p[1] + 256 * p[2];
        if n == 0 {
            cap | CAP_CLIENT_MULTI_STATEMENTS
        } else if n == 1 {
            cap & !CAP_CLIENT_MULTI_STATEMENTS
        } else {
            cap
        }
    } else {
        cap
    }
}

/// The sequence id after the dispatcher's answer: one past the command when
/// a response packet was written, unchanged otherwise.
pub open spec fn dispatch_end_seq(p: Seq<u8>, seq: u8) -> u8 {
    if p.len() == 0 || p[0] == 0x01 || p[0] == 0x03 || p[0] == 0x16 || p[0] == 0x17 || p[0]
        == 0x1a || p[0] == 0x19 {
        seq
    } else {
        seq_add(seq, 1)
    }
}

impl Packets {
    /// Reads one command packet and dispatches on its first byte: COM_QUIT
    /// signals a clean disconnect, COM_INIT_DB and COM_PING are answered with
    /// OK, COM_QUERY is handed back to the caller to run (one statement per
    /// packet: the multi-statement capability is advertised but a payload is
    /// treated as a single statement), COM_SET_OPTION toggles the
    /// multi-statement capability and is acknowledged in EOF form, the
    /// prepared-statement commands are reserved and consumed silently, and
    /// any other code is answered with an ERR packet naming the command.
    ///
    /// The sequence counter resets to 0 before the read, as each command
    /// cycle demands, and the capability and status flags handed in govern
    /// this cycle.
    pub fn handle_next_command(&mut self, status_flags: u16, capability: u32) -> (r: ProtoResult<
        CommandAction,
    >)
        requires
            old(self).wf(),
        ensures
            final(self).wf(),
            final(self).flags() == status_flags,
            match parse_packets(old(self).pending(), 0) {
                FrameRead::NeedMore => r == Err::<CommandAction, ProtoError>(
                    ProtoError::ReadNextPacketError,
                ) && final(self).pending() == old(self).pending() && final(self).out() == old(
                    self,
                ).out() && final(self).seq_id() == 0 && final(self).cap() == capability,
                FrameRead::BadSeq => r == Err::<CommandAction, ProtoError>(
                    ProtoError::InvalidSequence,
                ) && final(self).pending() == old(self).pending() && final(self).out() == old(
                    self,
                ).out() && final(self).seq_id() == 0 && final(self).cap() == capability,
                FrameRead::Done { payload, used, seq } => final(self).pending() == old(
                    self,
                ).pending().skip(used as int) && final(self).out() == old(self).out()
                    + dispatch_out(payload, status_flags, capability, seq) && final(self).cap()
                    == dispatch_cap(payload, capability) && final(self).seq_id()
                    == dispatch_end_seq(payload, seq) && (if payload.len() == 0 {
                    r == Err::<CommandAction, ProtoError>(ProtoError::EmptyPacketError)
                } else if payload[0] == 0x01 {
                    r == Err::<CommandAction, ProtoError>(ProtoError::ComQuit)
                } else if payload[0] == 0x03 {
                    r matches Ok(a) && a matches CommandAction::Query { sql } && sql@
                        == payload.skip(1)
                } else {
                    r == Ok::<CommandAction, ProtoError>(CommandAction::Done)
                }),
            },
    {
        self.sequence_id = 0;
        self.capability = capability;
        self.status_flags = status_flags;
        let data = match self.read_ephemeral_packet() {
            Ok(d) => d,
            Err(e) => {
                return Err(e);
            },
        };
        if data.len() == 0 {
            return Err(ProtoError::EmptyPacketError);
        }
        let pt = data[0];
        if pt == 0x01 {
            return Err(ProtoError::ComQuit);
        }
        if pt == 0x02 || pt == 0x0e {
            self.write_ok_packet(0, 0, status_flags, 0);
            proof {
                crate::codec::lemma_lenenc_len(0);
                lemma_le_bytes_len(status_flags as nat, 2);
                lemma_le_bytes_len(0, 2);
                lemma_one_chunk_count(ok_packet_body(0, 0, status_flags, 0).len());
            }
            return Ok(CommandAction::Done);
        }
        if pt == 0x03 {
            let sql = vstd::slice::slice_to_vec(&data.as_slice()[1..data.len()]);
            return Ok(CommandAction::Query { sql });
        }
        if pt == 0x1b {
            if data.len() < 3 {
                let msg: Vec<u8> = vec![69u8, 114u8, 114u8, 111u8, 114u8, 32u8, 112u8, 97u8, 114u8, 115u8, 105u8, 110u8, 103u8, 32u8, 115u8, 101u8, 116u8, 32u8, 111u8, 112u8, 116u8, 105u8, 111u8, 110u8];
                proof {
                    assert(msg@ =~= msg_error_parsing_set_option());
                }
                self.write_small_err(msg);
                return Ok(CommandAction::Done);
            }
            let n: u16 = data[1] as u16 + 256 * (data[2] as u16);
            if n == 0 {
                self.capability = self.capability | CAP_CLIENT_MULTI_STATEMENTS;
                self.write_set_option_ack();
            } else if n == 1 {
                self.capability = self.capability & !CAP_CLIENT_MULTI_STATEMENTS;
                self.write_set_option_ack();
            } else {
                let msg: Vec<u8> = vec![85u8, 110u8, 107u8, 110u8, 111u8, 119u8, 110u8, 32u8, 115u8, 101u8, 116u8, 32u8, 111u8, 112u8, 116u8, 105u8, 111u8, 110u8];
                proof {
                    assert(msg@ =~= msg_unknown_set_option());
                }
                self.write_small_err(msg);
            }
            return Ok(CommandAction::Done);
        }
        if pt == 0x16 || pt == 0x17 || pt == 0x1a || pt == 0x19 {
            return Ok(CommandAction::Done);
        }
        let mut msg: Vec<u8> = match PacketType::from_code(pt) {
            Some(t) => {
                let mut m: Vec<u8> = vec![85u8, 110u8, 107u8, 110u8, 111u8, 119u8, 110u8, 32u8, 99u8, 111u8, 109u8, 109u8, 97u8, 110u8, 100u8, 58u8, 32u8];
                proof {
                    assert(m@ =~= seq![85u8, 110u8, 107u8, 110u8, 111u8, 119u8, 110u8, 32u8, 99u8, 111u8, 109u8, 109u8, 97u8, 110u8, 100u8, 58u8, 32u8]);
                }
                let name = t.name();
                m.extend_from_slice(name.as_slice());
                m
            },
            None => {
                let m: Vec<u8> = vec![85u8, 110u8, 107u8, 110u8, 111u8, 119u8, 110u8, 32u8, 99u8, 111u8, 109u8, 109u8, 97u8, 110u8, 100u8];
                proof {
                    assert(m@ =~= seq![85u8, 110u8, 107u8, 110u8, 111u8, 119u8, 110u8, 32u8, 99u8, 111u8, 109u8, 109u8, 97u8, 110u8, 100u8]);
                }
                m
            },
        };
        proof {
            assert(msg@ =~= msg_unknown_command(pt));
            assert(msg@.len() <= 41);
        }
        self.write_small_err(msg);
        Ok(CommandAction::Done)
    }

    /// Writes a short unknown-command-class ERR packet: code 1047, SQL state
    /// "08S01".
    fn write_small_err(&mut self, msg: Vec<u8>)
        requires
            old(self).wf(),
            msg@.len() + 9 < MAX_PACKET_SIZE,
        ensures
            final(self).wf(),
            final(self).out() == old(self).out() + chunks_of(
                err_packet_body(
                    ServerError::ERUnknownComError.spec_code(),
                    StateError::SSUnknownComError.spec_sql_state(),
                    msg@,
                ),
                old(self).seq_id(),
            ),
            final(self).seq_id() == seq_add(old(self).seq_id(), 1),
            final(self).pending() == old(self).pending(),
            final(self).cap() == old(self).cap(),
            final(self).flags() == old(self).flags(),
    {
        let ghost m = msg@;
        let code = ServerError::ERUnknownComError.code();
        let state = StateError::SSUnknownComError.sql_state();
        self.write_err_packet(code, state, msg);
        proof {
            lemma_le_bytes_len(ServerError::ERUnknownComError.spec_code() as nat, 2);
            lemma_one_chunk_count(
                err_packet_body(
                    ServerError::ERUnknownComError.spec_code(),
                    StateError::SSUnknownComError.spec_sql_state(),
                    m,
                ).len(),
            );
        }
    }

    /// Acknowledges a successful SET_OPTION in EOF form, honouring the
    /// capability bits as they now stand.
    fn write_set_option_ack(&mut self)
        requires
            old(self).wf(),
        ensures
            final(self).wf(),
            final(self).out() == old(self).out() + eof_reply(
                old(self).flags(),
                old(self).cap(),
                old(self).seq_id(),
            ),
            final(self).seq_id() == seq_add(old(self).seq_id(), 1),
            final(self).pending() == old(self).pending(),
            final(self).cap() == old(self).cap(),
            final(self).flags() == old(self).flags(),
    {
        let flags = self.status_flags;
        if self.capability & CAP_CLIENT_DEPRECATE_EOF != 0 {
            self.write_ok_packet_with_eof_header(0, 0, flags, 0);
        } else {
            self.write_eof_packet(flags, 0);
        }
    }
}


/// The row packets of the result segments handed in after the field block,
/// in order.
pub open spec fn rows_of_segments(segments: Seq<SqlResult>, seq: u8) -> Seq<u8>
    decreases segments.len(),
{
    if segments.len() == 0 {
        Seq::empty()
    } else {
        rows_packets(segments[0].rows@, seq) + rows_of_segments(
            segments.drop_first(),
            rows_packets_end_seq(segments[0].rows@, seq),
        )
    }
}

/// The sequence id after those row packets.
pub open spec fn rows_of_segments_end_seq(segments: Seq<SqlResult>, seq: u8) -> u8
    decreases segments.len(),
{
    if segments.len() == 0 {
        seq
    } else {
        rows_of_segments_end_seq(
            segments.drop_first(),
            rows_packets_end_seq(segments[0].rows@, seq),
        )
    }
}

/// The result-set terminator: an EOF packet, or the OK-with-EOF-header form
/// when DEPRECATE_EOF is in effect.
pub open spec fn end_result_bytes(more: bool, st_flags: u16, cap: u32, seq: u8) -> Seq<u8> {
    if cap & CAP_CLIENT_DEPRECATE_EOF == 0 {
        chunks_of(eof_packet_body(more_flags(st_flags, more), 0), seq)
    } else {
        chunks_of(ok_eof_packet_body(0, 0, more_flags(st_flags, more), 0), seq)
    }
}

/// Everything a query's result segments make the framer emit: nothing for no
/// segments; one OK packet when the first segment is an affected-rows
/// summary (empty field list); otherwise the field block, then the rows of
/// the remaining segments, then the terminator.
pub open spec fn exec_query_out(
    segments: Seq<SqlResult>,
    more: bool,
    st_flags: u16,
    cap: u32,
    seq: u8,
) -> Seq<u8> {
    if segments.len() == 0 {
        Seq::empty()
    } else if segments[0].fields@.len() == 0 {
        chunks_of(
            ok_packet_body(
                segments[0].affected_rows,
                segments[0].insert_id,
                more_flags(st_flags, more),
                0,
            ),
            seq,
        )
    } else {
        let fbe = fields_block_end_seq(segments[0].fields@, cap, seq);
        let rse = rows_of_segments_end_seq(segments.drop_first(), fbe);
        fields_block(segments[0].fields@, st_flags, cap, seq) + rows_of_segments(
            segments.drop_first(),
            fbe,
        ) + end_result_bytes(more, st_flags, cap, rse)
    }
}

/// The sequence id after everything exec_query emits.
pub open spec fn exec_query_end_seq(segments: Seq<SqlResult>, cap: u32, seq: u8) -> u8 {
    if segments.len() == 0 {
        seq
    } else if segments[0].fields@.len() == 0 {
        seq_add(seq, 1)
    } else {
        let fbe = fields_block_end_seq(segments[0].fields@, cap, seq);
        seq_add(rows_of_segments_end_seq(segments.drop_first(), fbe), 1)
    }
}

/// The segment sequence is acceptable: no segment follows a terminal
/// affected-rows response.
pub open spec fn exec_query_ok(segments: Seq<SqlResult>) -> bool {
    segments.len() == 0 || segments[0].fields@.len() > 0 || segments.len() == 1
}

/// Machine limits on the segments: the first segment's column types stand in
/// the type table and its names fit a chunk, and every later segment's rows
/// can be built in memory.
pub open spec fn segments_wf(segments: Seq<SqlResult>) -> bool {
    (segments.len() > 0 ==> fields_ok(segments[0].fields@) && fields_small(segments[0].fields@))
        && (forall|i: int| 1 <= i < segments.len() ==> rows_small(#[trigger] segments[i].rows@))
}

impl Packets {
    /// Streams a query's result segments to the peer, one callback segment
    /// per element. The first segment decides the shape: an empty field list
    /// is an affected-rows summary and is answered with one OK packet, after
    /// which no further segment is allowed (one more fails with Io, as a
    /// terminal response ends the exchange); a nonempty field list emits the
    /// field block, the rows of every later segment, and the terminator.
    /// The more flag marks that further result sets will follow.
    pub fn exec_query(&mut self, segments: &Vec<SqlResult>, more: bool) -> (r: ProtoResult<()>)
        requires
            old(self).wf(),
            segments_wf(segments@),
        ensures
            final(self).wf(),
            final(self).out() == old(self).out() + exec_query_out(
                segments@,
                more,
                old(self).flags(),
                old(self).cap(),
                old(self).seq_id(),
            ),
            final(self).seq_id() == exec_query_end_seq(
                segments@,
                old(self).cap(),
                old(self).seq_id(),
            ),
            final(self).pending() == old(self).pending(),
            final(self).cap() == old(self).cap(),
            final(self).flags() == old(self).flags(),
            r is Ok <==> exec_query_ok(segments@),
            r is Err ==> r == Err::<(), ProtoError>(ProtoError::Io),
    {
        let ghost orig = *old(self);
        let ghost segs = segments@;
        let n = segments.len();
        if n == 0 {
            proof {
                assert(final(self).out() =~= orig.out() + exec_query_out(
                    segs,
                    more,
                    orig.flags(),
                    orig.cap(),
                    orig.seq_id(),
                ));
            }
            return Ok(());
        }
        let mut flags = self.status_flags;
        if more {
            flags = flags | SERVER_MORE_RESULTS_EXISTS;
        }
        if segments[0].fields.len() == 0 {
            let aff = segments[0].affected_rows;
            let ins = segments[0].insert_id;
            self.write_ok_packet(aff, ins, flags, 0);
            proof {
                crate::codec::lemma_lenenc_len(aff);
                crate::codec::lemma_lenenc_len(ins);
                lemma_le_bytes_len(flags as nat, 2);
                lemma_le_bytes_len(0, 2);
                lemma_one_chunk_count(ok_packet_body(aff, ins, flags, 0).len());
            }
            if n > 1 {
                return Err(ProtoError::Io);
            }
            return Ok(());
        }
        self.write_fields(&segments[0]);
        let ghost fbe = fields_block_end_seq(segs[0].fields@, orig.cap(), orig.seq_id());
        proof {
            assert(segs.drop_first() =~= segs.skip(1));
        }
        let mut i: usize = 1;
        while i < n
            invariant
                self.wf(),
                orig == *old(self),
                segments@ == segs,
                segments_wf(segs),
                n == segs.len(),
                1 <= i <= n,
                segs[0].fields@.len() > 0,
                fbe == fields_block_end_seq(segs[0].fields@, orig.cap(), orig.seq_id()),
                self.cap() == orig.cap(),
                self.flags() == orig.flags(),
                self.pending() == orig.pending(),
                orig.out() + fields_block(
                    segs[0].fields@,
                    orig.flags(),
                    orig.cap(),
                    orig.seq_id(),
                ) + rows_of_segments(segs.skip(1), fbe) == self.out() + rows_of_segments(
                    segs.skip(i as int),
                    self.seq_id(),
                ),
                rows_of_segments_end_seq(segs.skip(1), fbe) == rows_of_segments_end_seq(
                    segs.skip(i as int),
                    self.seq_id(),
                ),
            decreases n - i,
        {
            let ghost rest = segs.skip(i as int);
            let ghost s_pre = self.seq_id();
            proof {
                assert(rest[0] == segs[i as int]);
                assert(rest.drop_first() =~= segs.skip(i + 1));
            }
            self.write_rows(&segments[i]);
            i = i + 1;
            proof {
                assert(rows_of_segments(rest, s_pre) == rows_packets(rest[0].rows@, s_pre)
                    + rows_of_segments(
                    rest.drop_first(),
                    rows_packets_end_seq(rest[0].rows@, s_pre),
                ));
                assert((orig.out() + fields_block(
                    segs[0].fields@,
                    orig.flags(),
                    orig.cap(),
                    orig.seq_id(),
                ) + rows_of_segments(segs.skip(1), fbe)) =~= (self.out() + rows_of_segments(
                    segs.skip(i as int),
                    self.seq_id(),
                )));
            }
        }
        proof {
            assert(segs.skip(n as int) =~= Seq::<SqlResult>::empty());
            assert(rows_of_segments(Seq::<SqlResult>::empty(), self.seq_id())
                =~= Seq::<u8>::empty());
        }
        self.write_end_result(more, 0, 0, 0);
        proof {
            assert(final(self).out() =~= orig.out() + exec_query_out(
                segs,
                more,
                orig.flags(),
                orig.cap(),
                orig.seq_id(),
            ));
        }
        Ok(())
    }
}


/// Framing round trip: a logical payload framed by write_packet at sequence
/// s, followed by anything else, reads back as exactly that payload, and the
/// reader's ending sequence id equals the writer's. The framed form occupies
/// the payload plus four header bytes per chunk.
pub proof fn lemma_framing_round_trip(b: Seq<u8>, s: u8, rest: Seq<u8>)
    ensures
        parse_packets(chunks_of(b, s) + rest, s) == (FrameRead::Done {
            payload: b,
            used: chunks_of(b, s).len(),
            seq: seq_add(s, n_chunks(b.len())),
        }),
        chunks_of(b, s).len() == b.len() + 4 * n_chunks(b.len()),
    decreases b.len(),
{
    lemma_pow256_values();
    if b.len() < MAX_PACKET_SIZE {
        let input = chunks_of(b, s) + rest;
        lemma_le_bytes_len(b.len(), 3);
        assert(chunks_of(b, s) == frame(b, s));
        assert(input[3] == s);
        assert(input.subrange(0, 3) =~= le_bytes(b.len(), 3));
        crate::codec::lemma_from_le_le_bytes(b.len(), 3);
        assert(header_len(input) == b.len());
        assert(input.subrange(4, 4 + b.len() as int) =~= b);
        assert(parse_one(input, s) == (FrameRead::Done {
            payload: b,
            used: (4 + b.len()) as nat,
            seq: seq_add(s, 1),
        }));
        lemma_one_chunk_count(b.len());
    } else {
        let head = b.take(MAX_PACKET_SIZE as int);
        let tail = b.skip(MAX_PACKET_SIZE as int);
        let input = chunks_of(b, s) + rest;
        assert(chunks_of(b, s) == frame(head, s) + chunks_of(tail, seq_add(s, 1)));
        lemma_le_bytes_len(MAX_PACKET_SIZE as nat, 3);
        assert(head.len() == MAX_PACKET_SIZE);
        assert(input[3] == s);
        assert(input.subrange(0, 3) =~= le_bytes(MAX_PACKET_SIZE as nat, 3));
        crate::codec::lemma_from_le_le_bytes(MAX_PACKET_SIZE as nat, 3);
        assert(header_len(input) == MAX_PACKET_SIZE);
        assert(input.len() >= 4 + MAX_PACKET_SIZE);
        assert(input.subrange(4, 4 + MAX_PACKET_SIZE as int) =~= head);
        assert(parse_one(input, s) == (FrameRead::Done {
            payload: head,
            used: (4 + MAX_PACKET_SIZE) as nat,
            seq: seq_add(s, 1),
        }));
        assert(input.skip(4 + MAX_PACKET_SIZE as int) =~= chunks_of(tail, seq_add(s, 1)) + rest);
        lemma_framing_round_trip(tail, seq_add(s, 1), rest);
        assert(head + tail =~= b);
        lemma_n_chunks_step(b.len());
        lemma_seq_add_add(s, 1, n_chunks(tail.len()));
        assert(parse_packets(input, s) == (FrameRead::Done {
            payload: b,
            used: chunks_of(b, s).len(),
            seq: seq_add(s, n_chunks(b.len())),
        }));
    }
}

/// Oversize splitting: a payload of exactly 2^24-1 bytes frames as two
/// chunks, a full one headed ff ff ff 00 and an empty trailer headed
/// 00 00 00 01.
pub proof fn lemma_oversize_split(b: Seq<u8>)
    requires
        b.len() == MAX_PACKET_SIZE,
    ensures
        chunks_of(b, 0) == seq![0xffu8, 0xffu8, 0xffu8, 0u8] + b + seq![0u8, 0u8, 0u8, 1u8],
{
    let tail = b.skip(MAX_PACKET_SIZE as int);
    assert(tail =~= Seq::<u8>::empty());
    assert(chunks_of(b, 0) == frame(b.take(MAX_PACKET_SIZE as int), 0) + chunks_of(
        tail,
        seq_add(0, 1),
    ));
    assert(chunks_of(tail, seq_add(0, 1)) == frame(tail, seq_add(0, 1)));
    assert(seq_add(0, 1) == 1);
    assert(b.take(MAX_PACKET_SIZE as int) =~= b);
    crate::codec::lemma_le_bytes_3(MAX_PACKET_SIZE as nat);
    crate::codec::lemma_le_bytes_3(0);
    assert(le_bytes(MAX_PACKET_SIZE as nat, 3) =~= seq![0xffu8, 0xffu8, 0xffu8]);
    assert(le_bytes(0, 3) =~= seq![0u8, 0u8, 0u8]);
    assert(chunks_of(b, 0) =~= seq![0xffu8, 0xffu8, 0xffu8, 0u8] + b + seq![0u8, 0u8, 0u8, 1u8]);
}


/// DEPRECATE_EOF law: with the capability set, the result-set terminator is
/// one framed packet whose body begins with the byte 0xfe and continues in
/// the OK layout (length-encoded counts, then flags and warnings), not the
/// 5-byte EOF form.
pub proof fn lemma_deprecate_eof_terminator(more: bool, st_flags: u16, cap: u32, seq: u8)
    requires
        cap & CAP_CLIENT_DEPRECATE_EOF != 0,
    ensures
        end_result_bytes(more, st_flags, cap, seq) == chunks_of(
            ok_eof_packet_body(0, 0, more_flags(st_flags, more), 0),
            seq,
        ),
        ok_eof_packet_body(0, 0, more_flags(st_flags, more), 0)[0] == 0xfeu8,
        ok_eof_packet_body(0, 0, more_flags(st_flags, more), 0).len() == 7,
        eof_packet_body(more_flags(st_flags, more), 0).len() == 5,
{
    let f = more_flags(st_flags, more);
    crate::codec::lemma_lenenc_len(0);
    lemma_le_bytes_len(f as nat, 2);
    lemma_le_bytes_len(0, 2);
    assert(ok_eof_packet_body(0, 0, f, 0)[0] == 0xfeu8);
}


/// Whether one row's body can be built in memory; the test an unverified
/// caller runs before handing rows to exec_query.
pub fn row_fits(row: &Vec<Value>) -> (r: bool)
    ensures
        r == row_small(row@),
{
    let n = row.len();
    let mut acc: usize = 0;
    let mut i: usize = 0;
    proof {
        assert(row@.skip(0) =~= row@);
    }
    while i < n
        invariant
            i <= n,
            n == row@.len(),
            acc + 9 <= usize::MAX,
            row_body(row@).len() == acc + row_body(row@.skip(i as int)).len(),
        decreases n - i,
    {
        let ghost rest = row@.skip(i as int);
        proof {
            assert(rest[0] == row@[i as int]);
            assert(rest.drop_first() =~= row@.skip(i + 1));
            assert(row_body(rest) == cell_bytes(rest[0]) + row_body(rest.drop_first()));
            crate::codec::lemma_lenenc_len(row@[i as int].val@.len() as u64);
        }
        let val = &row[i];
        let add: usize;
        if val.is_null() {
            add = 1;
        } else {
            if val.val.len() > usize::MAX - 9 {
                proof {
                    assert(cell_bytes(rest[0]).len() > usize::MAX - 9);
                }
                return false;
            }
            add = crate::codec::len_enc_int_size(val.val.len() as u64) + val.val.len();
        }
        proof {
            assert(cell_bytes(rest[0]).len() == add);
        }
        if add > usize::MAX - 9 - acc {
            proof {
                assert(row_body(row@).len() + 9 > usize::MAX);
            }
            return false;
        }
        acc = acc + add;
        i = i + 1;
    }
    proof {
        assert(row@.skip(n as int) =~= Seq::<Value>::empty());
        assert(row_body(Seq::<Value>::empty()).len() == 0);
    }
    true
}

/// Whether result segments meet the machine limits exec_query demands: the
/// first segment's column types stand in the type table and its names fit a
/// chunk, and every later segment's rows can be built in memory. The test an
/// unverified caller runs before calling exec_query.
pub fn check_segments(segments: &Vec<SqlResult>) -> (r: bool)
    ensures
        r == segments_wf(segments@),
{
    let n = segments.len();
    if n == 0 {
        return true;
    }
    let nf = segments[0].fields.len();
    let mut i: usize = 0;
    while i < nf
        invariant
            i <= nf,
            n == segments@.len(),
            n > 0,
            nf == segments@[0].fields@.len(),
            forall|j: int| 0 <= j < i ==> (#[trigger] spec_type_to_mysql(
                segments@[0].fields@[j].typ,
            )) is Some,
            forall|j: int| 0 <= j < i ==> #[trigger] field_small(segments@[0].fields@[j]),
        decreases nf - i,
    {
        let f = &segments[0].fields[i];
        if !crate::sql_type::type_known(f.typ) {
            proof {
                assert(!fields_ok(segments@[0].fields@));
            }
            return false;
        }
        if f.database.len() > MAX_PACKET_SIZE || f.table.len() > MAX_PACKET_SIZE
            || f.org_table.len() > MAX_PACKET_SIZE || f.name.len() > MAX_PACKET_SIZE
            || f.org_name.len() > MAX_PACKET_SIZE {
            proof {
                assert(!field_small(segments@[0].fields@[i as int]));
                assert(!fields_small(segments@[0].fields@));
            }
            return false;
        }
        i = i + 1;
    }
    let mut k: usize = 1;
    while k < n
        invariant
            1 <= k <= n,
            n == segments@.len(),
            n > 0,
            fields_ok(segments@[0].fields@),
            fields_small(segments@[0].fields@),
            forall|j: int| 1 <= j < k ==> rows_small(#[trigger] segments@[j].rows@),
        decreases n - k,
    {
        let nr = segments[k].rows.len();
        let mut m: usize = 0;
        while m < nr
            invariant
                m <= nr,
                1 <= k < n,
                n == segments@.len(),
                nr == segments@[k as int].rows@.len(),
                forall|j: int| 0 <= j < m ==> row_small(
                    #[trigger] segments@[k as int].rows@[j]@,
                ),
            decreases nr - m,
        {
            if !row_fits(&segments[k].rows[m]) {
                proof {
                    assert(!row_small(segments@[k as int].rows@[m as int]@));
                    assert(!rows_small(segments@[k as int].rows@));
                    assert(!segments_wf(segments@));
                }
                return false;
            }
            m = m + 1;
        }
        k = k + 1;
    }
    true
}

} // verus!
