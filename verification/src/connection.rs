//! One connection's state machine: greet, authenticate, acknowledge, then
//! the command loop. The byte channel itself lives with the caller, which
//! feeds received bytes into the framer and sends what the framer frames;
//! every decision here is a pure function of the buffered bytes.

use vstd::prelude::*;

use crate::auth::{auth_parse_post, spec_parse_auth, Auth};
use crate::constants::MAX_PACKET_SIZE;
use crate::errors::{ProtoError, ProtoResult};
use crate::greeting::{handshake_v10_bytes, Greeting};
use crate::packets::{
    chunks_of, n_chunks, ok_packet_body, parse_one, seq_add, FrameRead, Packets,
};

verus! {

/// The per-connection state: its id, the user once authenticated, the
/// greeting sent, the parsed authentication state, and the packet framer.
pub struct Connection {
    pub id: u32,
    pub user: Vec<u8>,
    pub greeting: Box<Greeting>,
    pub auth: Auth,
    pub packets: Packets,
}

impl Connection {
    /// A fresh connection: a greeting with a new random salt, a blank
    /// authentication state and a framer at sequence 0.
    pub fn new(id: u32, server_version: Vec<u8>) -> (r: Connection)
        ensures
            r.id == id,
            r.user@ == Seq::<u8>::empty(),
            r.greeting.connection_id == id,
            r.greeting.server_version == server_version,
            r.greeting.salt@.len() == 20,
            r.greeting.status_flag == crate::constants::SERVER_STATUS_AUTOCOMMIT,
            r.greeting.capability == crate::constants::DEFAULT_SERVER_CAPABILITY,
            r.auth.capability_flags == 0,
            r.packets.wf(),
            r.packets.seq_id() == 0,
            r.packets.pending() == Seq::<u8>::empty(),
            r.packets.out() == Seq::<u8>::empty(),
    {
        let r = Connection {
            id,
            user: Vec::new(),
            greeting: Greeting::new(id, server_version),
            auth: Auth::new(),
            packets: Packets::new(),
        };
        proof {
            assert(r.user@ =~= Seq::<u8>::empty());
        }
        r
    }

    /// Parses the client's authentication response under the first-read
    /// capability mask.
    pub fn check_auth(&mut self, payload: &[u8]) -> (r: ProtoResult<()>)
        ensures
            auth_parse_post(old(self).auth, final(self).auth, payload@, true, r),
            final(self).id == old(self).id,
            final(self).user == old(self).user,
            final(self).greeting == old(self).greeting,
            final(self).packets == old(self).packets,
    {
        self.auth.parse_client_handshake_packet(payload, true)
    }

    /// Pulls the next raw payload from the framer and parses it as an
    /// authentication response; the placeholder pull always yields an empty
    /// payload, which no parse accepts.
    pub fn unpack_auth(&mut self) -> (r: ProtoResult<()>)
        ensures
            r == Err::<(), ProtoError>(ProtoError::ReadClientFlagError),
            *final(self) == *old(self),
    {
        let payload = match self.packets.next() {
            Ok(v) => v,
            Err(e) => {
                return Err(e);
            },
        };
        match self.auth.parse_client_handshake_packet(payload.as_slice(), true) {
            Ok(()) => Ok(()),
            Err(e) => Err(e),
        }
    }

    /// Frames the server's greeting into the output, as the first packet of
    /// the connection.
    pub fn start_handshake(&mut self, enable_tls: bool)
        requires
            old(self).packets.wf(),
            old(self).greeting.salt@.len() == 20,
            old(self).greeting.server_version@.len() <= MAX_PACKET_SIZE,
        ensures
            final(self).packets.wf(),
            final(self).greeting.salt == old(self).greeting.salt,
            final(self).greeting.capability == if enable_tls {
                old(self).greeting.capability | crate::constants::CAP_CLIENT_SSL
            } else {
                old(self).greeting.capability
            },
            final(self).greeting.status_flag == old(self).greeting.status_flag,
            final(self).greeting.connection_id == old(self).greeting.connection_id,
            final(self).greeting.server_version == old(self).greeting.server_version,
            final(self).packets.out() == old(self).packets.out() + chunks_of(
                handshake_v10_bytes(*final(self).greeting),
                old(self).packets.seq_id(),
            ),
            final(self).packets.seq_id() == seq_add(
                old(self).packets.seq_id(),
                n_chunks(handshake_v10_bytes(*final(self).greeting).len()),
            ),
            final(self).packets.pending() == old(self).packets.pending(),
            final(self).packets.cap() == old(self).packets.cap(),
            final(self).packets.flags() == old(self).packets.flags(),
            final(self).id == old(self).id,
            final(self).user == old(self).user,
            final(self).auth == old(self).auth,
    {
        let pkg = self.greeting.write_handshake_v10(enable_tls);
        self.packets.write_packet(pkg.as_slice());
    }

    /// Reads the client's handshake response (it must fit one chunk),
    /// parses it, and on success acknowledges with an OK packet carrying the
    /// greeting's status flags. Any framing or parse error is handed back
    /// and the authentication state is left as it was; bytes are consumed
    /// exactly when a whole response was read.
    pub fn process_auth_response(&mut self) -> (r: ProtoResult<()>)
        requires
            old(self).packets.wf(),
        ensures
            final(self).packets.wf(),
            final(self).id == old(self).id,
            final(self).user == old(self).user,
            final(self).greeting == old(self).greeting,
            match parse_one(old(self).packets.pending(), old(self).packets.seq_id()) {
                FrameRead::Done { payload, used, seq } => {
                    if payload.len() < MAX_PACKET_SIZE {
                        final(self).packets.pending() == old(self).packets.pending().skip(
                            used as int,
                        ) && auth_parse_post(old(self).auth, final(self).auth, payload, false, (
                        match r {
                            Ok(()) => Ok(()),
                            Err(e) => Err(e),
                        })) && (match spec_parse_auth(payload, false) {
                            Ok(_) => final(self).packets.out() == old(self).packets.out()
                                + chunks_of(
                                ok_packet_body(0, 0, old(self).greeting.status_flag, 0),
                                seq,
                            ) && final(self).packets.seq_id() == seq_add(seq, 1),
                            Err(_) => final(self).packets.out() == old(self).packets.out()
                                && final(self).packets.seq_id() == seq,
                        })
                    } else {
                        r == Err::<(), ProtoError>(ProtoError::MultiPacketNotSupport)
                            && *final(self) == *old(self)
                    }
                },
                FrameRead::NeedMore => r == Err::<(), ProtoError>(ProtoError::ReadNextPacketError)
                    && *final(self) == *old(self),
                FrameRead::BadSeq => r == Err::<(), ProtoError>(ProtoError::InvalidSequence)
                    && *final(self) == *old(self),
            },
    {
        let pkg = match self.packets.read_ephemeral_packet_direct() {
            Ok(p) => p,
            Err(e) => {
                return Err(e);
            },
        };
        match self.auth.parse_client_handshake_packet(pkg.as_slice(), false) {
            Ok(()) => {},
            Err(e) => {
                return Err(e);
            },
        }
        let flags = self.greeting.status_flag();
        self.packets.write_ok_packet(0, 0, flags, 0);
        Ok(())
    }
}

} // verus!
