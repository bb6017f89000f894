//! The server's initial Handshake v10 greeting: generation with a fresh
//! random salt, the exact wire layout, and the symmetrical parser that the
//! round-trip law speaks of.

use vstd::prelude::*;

use crate::codec::{
    first_zero, from_le, le_bytes, lemma_from_le_bound, lemma_from_le_le_bytes, lemma_le_bytes_len,
    lemma_pow256_values, until_zero_token, until_zero_used, write_le,
};
use crate::constants::{
    CAP_CLIENT_PLUGIN_AUTH, CAP_CLIENT_SECURE_CONNECTION, CAP_CLIENT_SSL, CHARACTER_SET_UTF8,
    DEFAULT_SERVER_CAPABILITY, PROTOCOL_VERSION, SERVER_STATUS_AUTOCOMMIT,
    mysql_native_password, spec_mysql_native_password,
};
use crate::errors::{ProtoError, ProtoResult};

verus! {

/// The server's greeting: what the initial Handshake v10 packet carries.
#[derive(Debug, Default, PartialEq)]
pub struct Greeting {
    pub status_flag: u16,
    pub capability: u32,
    pub connection_id: u32,
    pub server_version: Vec<u8>,
    pub auth_plugin_name: Vec<u8>,
    pub salt: Vec<u8>,
}

/// Relies on rand::random_range over min..max: a draw from that range; the
/// range is nonempty, so the call returns and the result is in it.
#[verifier::external_body]
fn byte_rand(min: u8, max: u8) -> (r: u8)
    requires
        min < max,
    ensures
        min <= r < max,
{
    rand::random_range(min..max)
}

/// The exact bytes of the Handshake v10 payload for a greeting.
pub open spec fn handshake_v10_bytes(g: Greeting) -> Seq<u8> {
    seq![PROTOCOL_VERSION] + g.server_version@ + seq![0u8] + le_bytes(g.connection_id as nat, 4)
        + g.salt@.subrange(0, 8) + seq![0u8] + le_bytes((g.capability % 0x10000) as nat, 2)
        + seq![CHARACTER_SET_UTF8] + le_bytes(g.status_flag as nat, 2) + le_bytes(
        (g.capability / 0x10000) as nat,
        2,
    ) + seq![21u8] + seq![0u8, 0u8, 0u8, 0u8, 0u8, 0u8, 0u8, 0u8, 0u8, 0u8] + g.salt@.subrange(
        8,
        20,
    ) + seq![0u8] + spec_mysql_native_password() + seq![0u8]
}

/// What parsing a Handshake v10 payload yields: the fields it assigns. The
/// salt is parsed only when the capability carries SECURE_CONNECTION, and
/// the auth-plugin name, which follows the salt, only when PLUGIN_AUTH is
/// advertised alongside it; both are optional here.
pub struct GreetingParse {
    pub server_version: Seq<u8>,
    pub connection_id: u32,
    pub status_flag: u16,
    pub capability: u32,
    pub salt: Option<Seq<u8>>,
    pub auth_plugin_name: Option<Seq<u8>>,
}

/// How many bytes of salt follow the reserved block: the advertised
/// auth-plugin-data length less the 8 bytes already sent, clamped to 13.
pub open spec fn salt2_len(part1_len: u8) -> nat {
    if 8 <= part1_len <= 21 {
        (part1_len - 8) as nat
    } else {
        13
    }
}

/// Parses a Handshake v10 payload. Every parse site has its own error; the
/// protocol-version byte is read and ignored (it is always 10), and the salt
/// is reassembled from its two parts when SECURE_CONNECTION is advertised.
pub open spec fn spec_parse_handshake(p: Seq<u8>) -> Result<GreetingParse, ProtoError> {
    if p.len() < 1 {
        Err(ProtoError::ReadProtocolVersionError)
    } else {
        let version = until_zero_token(p.skip(1));
        let pos1: int = 1 + until_zero_used(p.skip(1)) as int;
        if p.len() < pos1 + 4 {
            Err(ProtoError::ReadConnectionIdError)
        } else {
            let conn = from_le(p.subrange(pos1, pos1 + 4)) as u32;
            let pos2: int = pos1 + 4;
            if p.len() < pos2 + 8 {
                Err(ProtoError::ReadSaltError)
            } else {
                let salt1 = p.subrange(pos2, pos2 + 8);
                if p.len() < pos2 + 11 {
                    Err(ProtoError::ReadCapabilityFlagError)
                } else {
                    let lower = from_le(p.subrange(pos2 + 9, pos2 + 11));
                    if p.len() < pos2 + 14 {
                        Err(ProtoError::ReadStatusFlagError)
                    } else {
                        let status = from_le(p.subrange(pos2 + 12, pos2 + 14)) as u16;
                        if p.len() < pos2 + 16 {
                            Err(ProtoError::ReadCapabilityFlagError)
                        } else {
                            let upper = from_le(p.subrange(pos2 + 14, pos2 + 16));
                            let cap = (upper * 0x10000 + lower) as u32;
                            let pos3: int = pos2 + 16;
                            if p.len() < pos3 + 1 {
                                if cap & CAP_CLIENT_PLUGIN_AUTH != 0 {
                                    Err(ProtoError::ReadAuthPluginLenError)
                                } else {
                                    Err(ProtoError::ReadZeroError)
                                }
                            } else {
                                let part1_len = if cap & CAP_CLIENT_PLUGIN_AUTH != 0 {
                                    p[pos3]
                                } else {
                                    0u8
                                };
                                if p.len() < pos3 + 11 {
                                    Err(ProtoError::ReadZeroError)
                                } else {
                                    let pos4: int = pos3 + 11;
                                    if cap & CAP_CLIENT_SECURE_CONNECTION != 0 {
                                        let read = salt2_len(part1_len);
                                        if read == 0 || p.len() < pos4 + read {
                                            Err(ProtoError::ReadSaltError)
                                        } else if p[pos4 + read - 1] != 0 {
                                            Err(ProtoError::ReadSaltError)
                                        } else {
                                            Ok(GreetingParse {
                                                server_version: version,
                                                connection_id: conn,
                                                status_flag: status,
                                                capability: cap,
                                                salt: Some(
                                                    salt1 + p.subrange(pos4, pos4 + read - 1),
                                                ),
                                                auth_plugin_name: if cap & CAP_CLIENT_PLUGIN_AUTH
                                                    != 0 {
                                                    Some(until_zero_token(p.skip(pos4 + read)))
                                                } else {
                                                    None
                                                },
                                            })
                                        }
                                    } else {
                                        Ok(GreetingParse {
                                            server_version: version,
                                            connection_id: conn,
                                            status_flag: status,
                                            capability: cap,
                                            salt: None,
                                            auth_plugin_name: None,
                                        })
                                    }
                                }
                            }
                        }
                    }
                }
            }
        }
    }
}

impl Greeting {
    /// A fresh greeting for one connection: autocommit status, the server's
    /// default capability, the one auth plugin this server speaks, and a
    /// 20-byte salt drawn uniformly from [1, 122].
    pub fn new(connection_id: u32, server_version: Vec<u8>) -> (r: Box<Greeting>)
        ensures
            r.status_flag == SERVER_STATUS_AUTOCOMMIT,
            r.capability == DEFAULT_SERVER_CAPABILITY,
            r.connection_id == connection_id,
            r.server_version == server_version,
            r.auth_plugin_name@ == spec_mysql_native_password(),
            r.salt@.len() == 20,
            forall|i: int| 0 <= i < 20 ==> 1 <= #[trigger] r.salt@[i] <= 122,
    {
        let mut salt: Vec<u8> = Vec::new();
        let mut i: usize = 0;
        while i < 20
            invariant
                i <= 20,
                salt@.len() == i,
                forall|j: int| 0 <= j < i ==> 1 <= #[trigger] salt@[j] <= 122,
            decreases 20 - i,
        {
            salt.push(byte_rand(1, 123));
            i = i + 1;
        }
        Box::new(
            Greeting {
                status_flag: SERVER_STATUS_AUTOCOMMIT,
                capability: DEFAULT_SERVER_CAPABILITY,
                connection_id,
                server_version,
                auth_plugin_name: mysql_native_password(),
                salt,
            },
        )
    }

    pub fn status_flag(&self) -> (r: u16)
        ensures
            r == self.status_flag,
    {
        self.status_flag
    }

    pub fn capability(&self) -> (r: u32)
        ensures
            r == self.capability,
    {
        self.capability
    }

    /// Produces the Handshake v10 payload. With TLS enabled the SSL
    /// capability bit is set first and stays set on the greeting.
    pub fn write_handshake_v10(&mut self, enable_tls: bool) -> (r: Vec<u8>)
        requires
            old(self).salt@.len() == 20,
            old(self).server_version@.len() <= crate::constants::MAX_PACKET_SIZE,
        ensures
            final(self).capability == if enable_tls {
                old(self).capability | CAP_CLIENT_SSL
            } else {
                old(self).capability
            },
            final(self).status_flag == old(self).status_flag,
            final(self).connection_id == old(self).connection_id,
            final(self).server_version == old(self).server_version,
            final(self).auth_plugin_name == old(self).auth_plugin_name,
            final(self).salt == old(self).salt,
            r@ == handshake_v10_bytes(*final(self)),
    {
        if enable_tls {
            self.capability = self.capability | CAP_CLIENT_SSL;
        }
        let mut buf: Vec<u8> = Vec::new();
        buf.push(PROTOCOL_VERSION);
        buf.extend_from_slice(self.server_version.as_slice());
        buf.push(0);
        proof {
            lemma_le_bytes_len(self.connection_id as nat, 4);
        }
        write_le(&mut buf, self.connection_id as u64, 4);
        buf.extend_from_slice(&self.salt.as_slice()[0..8]);
        buf.push(0);
        proof {
            lemma_le_bytes_len((self.capability % 0x10000) as nat, 2);
        }
        write_le(&mut buf, (self.capability % 0x10000) as u64, 2);
        buf.push(CHARACTER_SET_UTF8);
        proof {
            lemma_le_bytes_len(self.status_flag as nat, 2);
        }
        write_le(&mut buf, self.status_flag as u64, 2);
        proof {
            lemma_le_bytes_len((self.capability / 0x10000) as nat, 2);
        }
        write_le(&mut buf, (self.capability / 0x10000) as u64, 2);
        buf.push(21);
        buf.push(0);
        buf.push(0);
        buf.push(0);
        buf.push(0);
        buf.push(0);
        buf.push(0);
        buf.push(0);
        buf.push(0);
        buf.push(0);
        buf.push(0);
        buf.extend_from_slice(&self.salt.as_slice()[8..20]);
        buf.push(0);
        let plugin = mysql_native_password();
        buf.extend_from_slice(plugin.as_slice());
        buf.push(0);
        proof {
            assert(buf@ =~= handshake_v10_bytes(*self));
        }
        buf
    }
}


impl Greeting {
    /// Parses a Handshake v10 payload into this greeting. On success the
    /// parsed fields replace the old ones (the salt only when the advertised
    /// capability carries SECURE_CONNECTION, and the auth-plugin name that
    /// follows it only when PLUGIN_AUTH is advertised alongside); on an
    /// error nothing changes.
    pub fn parse_client_handshake_packet(&mut self, payload: &[u8]) -> (r: ProtoResult<()>)
        ensures
            match spec_parse_handshake(payload@) {
                Ok(g) => r is Ok && final(self).server_version@ == g.server_version
                    && final(self).connection_id == g.connection_id && final(self).status_flag == g.status_flag
                    && final(self).capability == g.capability && (match g.salt {
                    Some(s) => final(self).salt@ == s,
                    None => final(self).salt == old(self).salt,
                }) && (match g.auth_plugin_name {
                    Some(m) => final(self).auth_plugin_name@ == m,
                    None => final(self).auth_plugin_name == old(self).auth_plugin_name,
                }),
                Err(e) => r == Err::<(), ProtoError>(e) && *final(self) == *old(self),
            },
    {
        let ghost p = payload@;
        let n = payload.len();
        if n < 1 {
            return Err(ProtoError::ReadProtocolVersionError);
        }
        let (version, pos1) = crate::codec::read_until_zero(payload, 1);
        if n - pos1 < 4 {
            return Err(ProtoError::ReadConnectionIdError);
        }
        proof {
            lemma_pow256_values();
            lemma_from_le_bound(p.subrange(pos1 as int, pos1 + 4));
        }
        let conn = crate::codec::read_le_at(payload, pos1, 4) as u32;
        let pos2 = pos1 + 4;
        if n - pos2 < 8 {
            return Err(ProtoError::ReadSaltError);
        }
        if n - pos2 < 11 {
            return Err(ProtoError::ReadCapabilityFlagError);
        }
        proof {
            lemma_from_le_bound(p.subrange(pos2 + 9, pos2 + 11));
        }
        let lower = crate::codec::read_le_at(payload, pos2 + 9, 2);
        if n - pos2 < 14 {
            return Err(ProtoError::ReadStatusFlagError);
        }
        proof {
            lemma_from_le_bound(p.subrange(pos2 + 12, pos2 + 14));
        }
        let status = crate::codec::read_le_at(payload, pos2 + 12, 2) as u16;
        if n - pos2 < 16 {
            return Err(ProtoError::ReadCapabilityFlagError);
        }
        proof {
            lemma_from_le_bound(p.subrange(pos2 + 14, pos2 + 16));
        }
        let upper = crate::codec::read_le_at(payload, pos2 + 14, 2);
        let cap: u32 = (upper as u32) * 0x10000 + (lower as u32);
        let pos3 = pos2 + 16;
        let part1_len: u8;
        if cap & CAP_CLIENT_PLUGIN_AUTH != 0 {
            if n - pos3 < 1 {
                return Err(ProtoError::ReadAuthPluginLenError);
            }
            part1_len = payload[pos3];
        } else {
            if n - pos3 < 1 {
                return Err(ProtoError::ReadZeroError);
            }
            part1_len = 0;
        }
        if n - pos3 < 11 {
            return Err(ProtoError::ReadZeroError);
        }
        let pos4 = pos3 + 11;
        if cap & CAP_CLIENT_SECURE_CONNECTION != 0 {
            let read: usize = if 8 <= part1_len && part1_len <= 21 {
                (part1_len - 8) as usize
            } else {
                13
            };
            if read == 0 || n - pos4 < read {
                return Err(ProtoError::ReadSaltError);
            }
            if payload[pos4 + read - 1] != 0 {
                return Err(ProtoError::ReadSaltError);
            }
            let mut salt = vstd::slice::slice_to_vec(&payload[pos2..pos2 + 8]);
            salt.extend_from_slice(&payload[pos4..pos4 + read - 1]);
            proof {
                assert(salt@ =~= p.subrange(pos2 as int, pos2 + 8) + p.subrange(
                    pos4 as int,
                    pos4 + read - 1,
                ));
            }
            self.salt = salt;
            if cap & CAP_CLIENT_PLUGIN_AUTH != 0 {
                let (name, _end) = crate::codec::read_until_zero(payload, pos4 + read);
                self.auth_plugin_name = name;
            }
        }
        self.server_version = version;
        self.connection_id = conn;
        self.status_flag = status;
        self.capability = cap;
        Ok(())
    }
}

/// Handshake round trip: for a greeting with a well-formed salt, a version
/// free of NUL bytes and SECURE_CONNECTION advertised, parsing the written
/// handshake recovers the connection id, version, capability, status flags
/// and salt, and the auth-plugin name whenever PLUGIN_AUTH is advertised.
/// (With SECURE_CONNECTION clear the parser leaves the salt alone, so such
/// greetings are left out.)
pub proof fn lemma_handshake_round_trip(g: Greeting)
    requires
        g.salt@.len() == 20,
        forall|i: int| 0 <= i < g.server_version@.len() ==> g.server_version@[i] != 0,
        g.capability & CAP_CLIENT_SECURE_CONNECTION != 0,
    ensures
        spec_parse_handshake(handshake_v10_bytes(g)) matches Ok(o) && o.server_version
            == g.server_version@ && o.connection_id == g.connection_id && o.status_flag
            == g.status_flag && o.capability == g.capability && o.salt == Some(g.salt@) && (
        g.capability & CAP_CLIENT_PLUGIN_AUTH != 0 ==> o.auth_plugin_name == Some(
            spec_mysql_native_password(),
        )),
{
    let p = handshake_v10_bytes(g);
    let v = g.server_version@;
    let ln = v.len() as int;
    lemma_pow256_values();
    lemma_le_bytes_len(g.connection_id as nat, 4);
    lemma_le_bytes_len((g.capability % 0x10000) as nat, 2);
    lemma_le_bytes_len(g.status_flag as nat, 2);
    lemma_le_bytes_len((g.capability / 0x10000) as nat, 2);
    assert(p.len() == ln + 68);

    // the version token ends at the first NUL, which sits right after it
    let after = p.skip(1);
    assert(forall|j: int| 0 <= j < ln ==> after[j] != 0);
    crate::codec::lemma_first_zero_skip(after, v.len());
    assert(after.skip(ln)[0] == 0);
    assert(first_zero(after.skip(ln)) == Some(0nat));
    assert(first_zero(after) == Some(v.len()));
    assert(until_zero_token(after) =~= v);
    assert(until_zero_used(after) == ln + 1);

    let pos1: int = ln + 2;
    assert(p.subrange(pos1, pos1 + 4) =~= le_bytes(g.connection_id as nat, 4));
    lemma_from_le_le_bytes(g.connection_id as nat, 4);

    let pos2: int = pos1 + 4;
    assert(p.subrange(pos2, pos2 + 8) =~= g.salt@.subrange(0, 8));
    assert(p.subrange(pos2 + 9, pos2 + 11) =~= le_bytes((g.capability % 0x10000) as nat, 2));
    lemma_from_le_le_bytes((g.capability % 0x10000) as nat, 2);
    assert(p.subrange(pos2 + 12, pos2 + 14) =~= le_bytes(g.status_flag as nat, 2));
    lemma_from_le_le_bytes(g.status_flag as nat, 2);
    assert(p.subrange(pos2 + 14, pos2 + 16) =~= le_bytes((g.capability / 0x10000) as nat, 2));
    lemma_from_le_le_bytes((g.capability / 0x10000) as nat, 2);
    assert((g.capability / 0x10000) * 0x10000 + (g.capability % 0x10000) == g.capability) by {
        vstd::arithmetic::div_mod::lemma_fundamental_div_mod(g.capability as int, 0x10000);
    };

    let pos3: int = pos2 + 16;
    assert(p[pos3] == 21u8);
    assert(salt2_len(21u8) == 13);
    assert(salt2_len(0u8) == 13);

    let pos4: int = pos3 + 11;
    assert(p[pos4 + 12] == 0u8);
    assert(p.subrange(pos4, pos4 + 12) =~= g.salt@.subrange(8, 20));
    assert(p.subrange(pos2, pos2 + 8) + p.subrange(pos4, pos4 + 12) =~= g.salt@);

    // the auth-plugin name, read when PLUGIN_AUTH is advertised
    let plugin = spec_mysql_native_password();
    assert(forall|j: int| 0 <= j < plugin.len() ==> plugin[j] != 0);
    if g.capability & CAP_CLIENT_PLUGIN_AUTH != 0 {
        assert(p.skip(pos4 + 13) =~= plugin + seq![0u8] + Seq::<u8>::empty());
        crate::codec::lemma_until_zero_of(plugin, Seq::<u8>::empty());
    }
}

} // verus!
