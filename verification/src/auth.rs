//! Client authentication: parsing the HandshakeResponse41 packet, building
//! one for the round-trip law, and the native-password scramble.
//!
//! HandshakeResponse41 layout:
//! 4 bytes capability flags, 4 bytes max-packet size, 1 byte character set,
//! 23 reserved NUL bytes, the NUL-terminated user name, the auth response
//! (length-prefixed or fixed 20 bytes, by capability), then the optional
//! NUL-terminated database and auth-plugin names.

use vstd::prelude::*;

use crate::codec::{
    from_le, le_bytes, lemma_from_le_bound, lemma_from_le_le_bytes, lemma_le_bytes_len,
    lemma_pow256_values, read_until_zero, until_zero_token, until_zero_used, write_le,
};
use crate::constants::{
    mysql_native_password, spec_mysql_native_password, CAP_CLIENT_CONNECT_WITH_DB,
    CAP_CLIENT_DEPRECATE_EOF, CAP_CLIENT_FOUND_ROWS, CAP_CLIENT_MULTI_STATEMENTS,
    CAP_CLIENT_PLUGIN_AUTH, CAP_CLIENT_PLUGIN_AUTH_LENENC_CLIENT_DATA, CAP_CLIENT_PROTOCOL_41,
    CAP_CLIENT_SECURE_CONNECTION,
};
use crate::errors::{ProtoError, ProtoResult};

use sha1::Digest;

verus! {

/// The authentication state parsed from a client's HandshakeResponse41.
#[derive(Debug, Clone, Default, PartialEq)]
pub struct Auth {
    pub character_set: u8,
    pub max_packet_size: u32,
    pub capability_flags: u32,
    pub auth_response: Vec<u8>,
    pub auth_method: Vec<u8>,
    pub database: Vec<u8>,
    pub user: Vec<u8>,
}

/// The SHA-1 digest of a byte string; a function of the bytes alone.
pub uninterp spec fn sha1_of(data: Seq<u8>) -> Seq<u8>;

/// Relies on sha1::Sha1 through the Digest front end: the SHA-1 digest of
/// the input, 20 bytes, depending on the input bytes alone.
#[verifier::external_body]
fn sha1_digest(data: &[u8]) -> (r: Vec<u8>)
    ensures
        r@ == sha1_of(data@),
        r@.len() == 20,
{
    let mut hasher = sha1::Sha1::new();
    hasher.update(data);
    hasher.finalize().to_vec()
}

/// The native-password scramble: empty for an empty password; otherwise,
/// with A = SHA1(password), B = SHA1(A) and C = SHA1(salt || B), the 20
/// bytes A[i] xor C[i].
pub open spec fn native_password_of(password: Seq<u8>, salt: Seq<u8>) -> Seq<u8> {
    if password.len() == 0 {
        Seq::empty()
    } else {
        let stage1 = sha1_of(password);
        let stage2 = sha1_of(salt + sha1_of(sha1_of(password)));
        Seq::new(20, |i: int| stage1[i] ^ stage2[i])
    }
}

/// Computes the native-password scramble of a password under a salt.
pub fn gen_native_password(password: &[u8], salt: &[u8]) -> (r: Vec<u8>)
    requires
        salt@.len() + 20 <= usize::MAX,
    ensures
        r@ == native_password_of(password@, salt@),
{
    if password.len() == 0 {
        let r: Vec<u8> = Vec::new();
        proof {
            assert(r@ =~= native_password_of(password@, salt@));
        }
        return r;
    }
    let stage1 = sha1_digest(password);
    let stage1_sha1 = sha1_digest(stage1.as_slice());
    let mut salted: Vec<u8> = vstd::slice::slice_to_vec(salt);
    salted.extend_from_slice(stage1_sha1.as_slice());
    proof {
        assert(salted@ =~= salt@ + sha1_of(sha1_of(password@)));
    }
    let stage2 = sha1_digest(salted.as_slice());
    let mut scramble: Vec<u8> = Vec::new();
    let mut i: usize = 0;
    while i < 20
        invariant
            i <= 20,
            stage1@ == sha1_of(password@),
            stage1@.len() == 20,
            stage2@ == sha1_of(salt@ + sha1_of(sha1_of(password@))),
            stage2@.len() == 20,
            scramble@.len() == i,
            forall|j: int| 0 <= j < i ==> scramble@[j] == (stage1@[j] ^ stage2@[j]),
        decreases 20 - i,
    {
        let b = stage1[i] ^ stage2[i];
        scramble.push(b);
        i = i + 1;
    }
    proof {
        assert(scramble@ =~= native_password_of(password@, salt@));
    }
    scramble
}

/// Native-password law: an empty password scrambles to nothing, and any
/// other password scrambles to exactly 20 bytes.
pub proof fn lemma_native_password(password: Seq<u8>, salt: Seq<u8>)
    ensures
        password.len() == 0 ==> native_password_of(password, salt) == Seq::<u8>::empty(),
        password.len() > 0 ==> native_password_of(password, salt).len() == 20,
{
}

impl Auth {
    /// A blank authentication state, as it stands before the client's
    /// response arrives.
    pub fn new() -> (r: Auth)
        ensures
            r.character_set == 0,
            r.max_packet_size == 0,
            r.capability_flags == 0,
            r.auth_response@ == Seq::<u8>::empty(),
            r.auth_method@ == Seq::<u8>::empty(),
            r.database@ == Seq::<u8>::empty(),
            r.user@ == Seq::<u8>::empty(),
    {
        let r = Auth {
            character_set: 0,
            max_packet_size: 0,
            capability_flags: 0,
            auth_response: Vec::new(),
            auth_method: Vec::new(),
            database: Vec::new(),
            user: Vec::new(),
        };
        proof {
            assert(r.auth_response@ =~= Seq::<u8>::empty());
            assert(r.auth_method@ =~= Seq::<u8>::empty());
            assert(r.database@ =~= Seq::<u8>::empty());
            assert(r.user@ =~= Seq::<u8>::empty());
        }
        r
    }

    pub fn charset(&self) -> (r: u8)
        ensures
            r == self.character_set,
    {
        self.character_set
    }

    pub fn auth_response(&self) -> (r: &Vec<u8>)
        ensures
            r == &self.auth_response,
    {
        &self.auth_response
    }

    pub fn database(&self) -> (r: &Vec<u8>)
        ensures
            r == &self.database,
    {
        &self.database
    }

    pub fn user(&self) -> (r: &Vec<u8>)
        ensures
            r == &self.user,
    {
        &self.user
    }

    /// Discards the auth response once it has been verified.
    pub fn clean_resp(&mut self)
        ensures
            final(self).auth_response@ == Seq::<u8>::empty(),
            final(self).character_set == old(self).character_set,
            final(self).max_packet_size == old(self).max_packet_size,
            final(self).capability_flags == old(self).capability_flags,
            final(self).auth_method == old(self).auth_method,
            final(self).database == old(self).database,
            final(self).user == old(self).user,
    {
        self.auth_response.clear();
        proof {
            assert(final(self).auth_response@ =~= Seq::<u8>::empty());
        }
    }
}


/// The capability field a client actually sends: CONNECT_WITH_DB set or
/// cleared by whether a database name goes along.
pub open spec fn adjusted_cap(cap: u32, database: Seq<u8>) -> u32 {
    if database.len() > 0 {
        cap | CAP_CLIENT_CONNECT_WITH_DB
    } else {
        cap & !CAP_CLIENT_CONNECT_WITH_DB
    }
}

/// The exact bytes of a HandshakeResponse41 built from these inputs. The
/// auth response is length-prefixed when SECURE_CONNECTION is in the
/// adjusted capability, and sent as 20 raw bytes plus a filler otherwise.
pub open spec fn handshake_resp_bytes(
    capability_flag: u32,
    charset: u8,
    username: Seq<u8>,
    password: Seq<u8>,
    salt: Seq<u8>,
    database: Seq<u8>,
) -> Seq<u8> {
    let cap = adjusted_cap(capability_flag, database);
    let auth = native_password_of(password, salt);
    le_bytes(cap as nat, 4) + le_bytes(0, 4) + seq![charset] + Seq::new(23, |i: int| 0u8)
        + username + seq![0u8] + (if cap & CAP_CLIENT_SECURE_CONNECTION != 0 {
        seq![auth.len() as u8] + auth
    } else {
        auth + seq![0u8]
    }) + (if cap & CAP_CLIENT_CONNECT_WITH_DB != 0 {
        database + seq![0u8]
    } else {
        Seq::empty()
    }) + spec_mysql_native_password() + seq![0u8]
}

/// What parsing a HandshakeResponse41 yields. The database and auth-method
/// names are parsed only when their capability bits are set.
pub struct AuthParse {
    pub character_set: u8,
    pub max_packet_size: u32,
    pub capability_flags: u32,
    pub auth_response: Seq<u8>,
    pub user: Seq<u8>,
    pub database: Option<Seq<u8>>,
    pub auth_method: Option<Seq<u8>>,
}

/// Parses a HandshakeResponse41 payload. PROTOCOL_41 is demanded of every
/// client; on the first read of a connection the effective capability is
/// masked down to DEPRECATE_EOF and FOUND_ROWS; a client asking for multiple
/// statements keeps that bit either way.
pub open spec fn spec_parse_auth(p: Seq<u8>, first: bool) -> Result<AuthParse, ProtoError> {
    if p.len() < 4 {
        Err(ProtoError::ReadClientFlagError)
    } else {
        let client_flag = from_le(p.subrange(0, 4)) as u32;
        if client_flag & CAP_CLIENT_PROTOCOL_41 == 0 {
            Err(ProtoError::ProtocolNotSupport)
        } else {
            let cap0 = if first {
                client_flag & (CAP_CLIENT_DEPRECATE_EOF | CAP_CLIENT_FOUND_ROWS)
            } else {
                client_flag
            };
            let cap = if client_flag & CAP_CLIENT_MULTI_STATEMENTS != 0 {
                cap0 | CAP_CLIENT_MULTI_STATEMENTS
            } else {
                cap0
            };
            if p.len() < 8 {
                Err(ProtoError::ReadMaxPacketSizeError)
            } else {
                let mps = from_le(p.subrange(4, 8)) as u32;
                if p.len() < 9 {
                    Err(ProtoError::ReadCharsetError)
                } else {
                    let charset = p[8];
                    if p.len() < 32 {
                        Err(ProtoError::ReadZeroError)
                    } else {
                        let user = until_zero_token(p.skip(32));
                        let pos1: int = 32 + until_zero_used(p.skip(32)) as int;
                        spec_parse_auth_tail(p, cap, mps, charset, user, pos1)
                    }
                }
            }
        }
    }
}

/// The tail of the HandshakeResponse41 parse: auth response, database and
/// auth-method names.
pub open spec fn spec_parse_auth_tail(
    p: Seq<u8>,
    cap: u32,
    mps: u32,
    charset: u8,
    user: Seq<u8>,
    pos1: int,
) -> Result<AuthParse, ProtoError> {
    let lenenc_form = cap & CAP_CLIENT_PLUGIN_AUTH_LENENC_CLIENT_DATA != 0 || cap
        & CAP_CLIENT_SECURE_CONNECTION != 0;
    if lenenc_form && p.len() < pos1 + 1 {
        Err(ProtoError::ReadAuthResponseLengthError)
    } else if lenenc_form && p.len() < pos1 + 1 + p[pos1] {
        Err(ProtoError::ReadAuthResponseError)
    } else if !lenenc_form && p.len() < pos1 + 21 {
        Err(ProtoError::ReadAuthResponseError)
    } else {
        let auth = if lenenc_form {
            p.subrange(pos1 + 1, pos1 + 1 + p[pos1])
        } else {
            p.subrange(pos1, pos1 + 20)
        };
        let pos2: int = if lenenc_form {
            pos1 + 1 + p[pos1]
        } else {
            pos1 + 21
        };
        let database = if cap & CAP_CLIENT_CONNECT_WITH_DB != 0 {
            Some(until_zero_token(p.skip(pos2)))
        } else {
            None
        };
        let pos3: int = if cap & CAP_CLIENT_CONNECT_WITH_DB != 0 {
            pos2 + until_zero_used(p.skip(pos2)) as int
        } else {
            pos2
        };
        let auth_method = if cap & CAP_CLIENT_PLUGIN_AUTH != 0 {
            Some(until_zero_token(p.skip(pos3)))
        } else {
            None
        };
        Ok(
            AuthParse {
                character_set: charset,
                max_packet_size: mps,
                capability_flags: cap,
                auth_response: auth,
                user,
                database,
                auth_method,
            },
        )
    }
}

/// How a parse call leaves an authentication state: on success the parsed
/// fields replace the old ones (the database only when CONNECT_WITH_DB is in
/// the effective capability, the auth method only when PLUGIN_AUTH is, and
/// an auth method left empty falls back to "mysql_native_password"); on an
/// error nothing changes and the error is the parse's own.
pub open spec fn auth_parse_post(
    pre: Auth,
    post: Auth,
    p: Seq<u8>,
    first: bool,
    r: Result<(), ProtoError>,
) -> bool {
    match spec_parse_auth(p, first) {
        Ok(a) => r is Ok && post.character_set == a.character_set && post.max_packet_size
            == a.max_packet_size && post.capability_flags == a.capability_flags
            && post.auth_response@ == a.auth_response && post.user@ == a.user && (match a.database {
            Some(d) => post.database@ == d,
            None => post.database == pre.database,
        }) && post.auth_method@ == (match a.auth_method {
            Some(m) => if m.len() > 0 {
                m
            } else {
                spec_mysql_native_password()
            },
            None => if pre.auth_method@.len() > 0 {
                pre.auth_method@
            } else {
                spec_mysql_native_password()
            },
        }),
        Err(e) => r == Err::<(), ProtoError>(e) && post == pre,
    }
}

impl Auth {
    /// Builds the HandshakeResponse41 a client sends for these inputs: the
    /// capability (CONNECT_WITH_DB adjusted by whether a database is named),
    /// a zero max-packet size, the charset, the user, the native-password
    /// scramble of the password under the salt, and the plugin name.
    pub fn write_handshake_resp(
        capability_flag: u32,
        charset: u8,
        username: Vec<u8>,
        password: Vec<u8>,
        salt: &[u8],
        database: Vec<u8>,
    ) -> (r: ProtoResult<Vec<u8>>)
        requires
            username@.len() <= crate::constants::MAX_PACKET_SIZE,
            database@.len() <= crate::constants::MAX_PACKET_SIZE,
            salt@.len() + 20 <= usize::MAX,
        ensures
            r matches Ok(v) && v@ == handshake_resp_bytes(
                capability_flag,
                charset,
                username@,
                password@,
                salt@,
                database@,
            ),
    {
        let cap: u32 = if database.len() > 0 {
            capability_flag | CAP_CLIENT_CONNECT_WITH_DB
        } else {
            capability_flag & !CAP_CLIENT_CONNECT_WITH_DB
        };
        let auth_resp = gen_native_password(password.as_slice(), salt);
        proof {
            lemma_native_password(password@, salt@);
            lemma_le_bytes_len(cap as nat, 4);
            lemma_le_bytes_len(0, 4);
        }
        let mut buf: Vec<u8> = Vec::new();
        write_le(&mut buf, cap as u64, 4);
        write_le(&mut buf, 0, 4);
        buf.push(charset);
        let ghost before_zeros = buf@;
        let mut k: usize = 0;
        while k < 23
            invariant
                k <= 23,
                buf@ =~= before_zeros + Seq::new(k as nat, |i: int| 0u8),
            decreases 23 - k,
        {
            buf.push(0);
            k = k + 1;
            proof {
                assert(buf@ =~= before_zeros + Seq::new(k as nat, |i: int| 0u8));
            }
        }
        buf.extend_from_slice(username.as_slice());
        buf.push(0);
        if cap & CAP_CLIENT_SECURE_CONNECTION != 0 {
            buf.push(auth_resp.len() as u8);
            buf.extend_from_slice(auth_resp.as_slice());
        } else {
            buf.extend_from_slice(auth_resp.as_slice());
            buf.push(0);
        }
        if cap & CAP_CLIENT_CONNECT_WITH_DB != 0 {
            buf.extend_from_slice(database.as_slice());
            buf.push(0);
        }
        let plugin = mysql_native_password();
        buf.extend_from_slice(plugin.as_slice());
        buf.push(0);
        proof {
            assert(buf@ =~= handshake_resp_bytes(
                capability_flag,
                charset,
                username@,
                password@,
                salt@,
                database@,
            ));
        }
        Ok(buf)
    }

    /// Parses a client's HandshakeResponse41 into this state. On success the
    /// parsed fields replace the old ones; the database only when
    /// CONNECT_WITH_DB is in the effective capability, the auth method only
    /// when PLUGIN_AUTH is, and an auth method left empty falls back to
    /// "mysql_native_password". On an error nothing changes.
    pub fn parse_client_handshake_packet(&mut self, payload: &[u8], first: bool) -> (r:
        ProtoResult<()>)
        ensures
            auth_parse_post(*old(self), *final(self), payload@, first, r),
    {
        let ghost p = payload@;
        let n = payload.len();
        if n < 4 {
            return Err(ProtoError::ReadClientFlagError);
        }
        proof {
            lemma_pow256_values();
            lemma_from_le_bound(p.subrange(0, 4));
        }
        let client_flag = crate::codec::read_le_at(payload, 0, 4) as u32;
        if client_flag & CAP_CLIENT_PROTOCOL_41 == 0 {
            return Err(ProtoError::ProtocolNotSupport);
        }
        let mut cap: u32 = client_flag;
        if first {
            cap = client_flag & (CAP_CLIENT_DEPRECATE_EOF | CAP_CLIENT_FOUND_ROWS);
        }
        if client_flag & CAP_CLIENT_MULTI_STATEMENTS != 0 {
            cap = cap | CAP_CLIENT_MULTI_STATEMENTS;
        }
        if n < 8 {
            return Err(ProtoError::ReadMaxPacketSizeError);
        }
        proof {
            lemma_from_le_bound(p.subrange(4, 8));
        }
        let mps = crate::codec::read_le_at(payload, 4, 4) as u32;
        if n < 9 {
            return Err(ProtoError::ReadCharsetError);
        }
        let charset = payload[8];
        if n < 32 {
            return Err(ProtoError::ReadZeroError);
        }
        let (user, pos1) = read_until_zero(payload, 32);
        let lenenc_form = cap & CAP_CLIENT_PLUGIN_AUTH_LENENC_CLIENT_DATA != 0 || cap
            & CAP_CLIENT_SECURE_CONNECTION != 0;
        let auth_resp: Vec<u8>;
        let pos2: usize;
        if lenenc_form {
            if n - pos1 < 1 {
                return Err(ProtoError::ReadAuthResponseLengthError);
            }
            let alen = payload[pos1] as usize;
            if n - pos1 - 1 < alen {
                return Err(ProtoError::ReadAuthResponseError);
            }
            auth_resp = vstd::slice::slice_to_vec(&payload[pos1 + 1..pos1 + 1 + alen]);
            pos2 = pos1 + 1 + alen;
        } else {
            if n - pos1 < 21 {
                return Err(ProtoError::ReadAuthResponseError);
            }
            auth_resp = vstd::slice::slice_to_vec(&payload[pos1..pos1 + 20]);
            pos2 = pos1 + 21;
        }
        let mut database: Option<Vec<u8>> = None;
        let pos3: usize;
        if cap & CAP_CLIENT_CONNECT_WITH_DB != 0 {
            let (db, q) = read_until_zero(payload, pos2);
            database = Some(db);
            pos3 = q;
        } else {
            pos3 = pos2;
        }
        let mut auth_method: Option<Vec<u8>> = None;
        if cap & CAP_CLIENT_PLUGIN_AUTH != 0 {
            let (m, _q) = read_until_zero(payload, pos3);
            auth_method = Some(m);
        }
        self.character_set = charset;
        self.max_packet_size = mps;
        self.capability_flags = cap;
        self.auth_response = auth_resp;
        self.user = user;
        match database {
            Some(d) => {
                self.database = d;
            },
            None => {},
        }
        match auth_method {
            Some(m) => {
                self.auth_method = m;
            },
            None => {},
        }
        if self.auth_method.len() == 0 {
            self.auth_method = mysql_native_password();
        }
        Ok(())
    }
}


/// Authentication round trip: parsing a written HandshakeResponse41 (outside
/// the masked first read) recovers the user, database, charset and the
/// native-password scramble, and the capability equals the input with
/// CONNECT_WITH_DB set or cleared by whether a database was named. Left out:
/// a capability asking for the length-prefixed client data form without
/// SECURE_CONNECTION (it is written raw but parsed length-prefixed), and an
/// empty password without SECURE_CONNECTION (its raw form has no length to
/// make the 20 bytes the reader takes).
#[verifier::rlimit(100)]
pub proof fn lemma_auth_round_trip(
    capability_flag: u32,
    charset: u8,
    username: Seq<u8>,
    password: Seq<u8>,
    salt: Seq<u8>,
    database: Seq<u8>,
)
    requires
        forall|i: int| 0 <= i < username.len() ==> username[i] != 0,
        forall|i: int| 0 <= i < database.len() ==> database[i] != 0,
        capability_flag & CAP_CLIENT_PROTOCOL_41 != 0,
        capability_flag & CAP_CLIENT_PLUGIN_AUTH_LENENC_CLIENT_DATA != 0 ==> capability_flag
            & CAP_CLIENT_SECURE_CONNECTION != 0,
        capability_flag & CAP_CLIENT_SECURE_CONNECTION == 0 ==> password.len() > 0,
    ensures
        spec_parse_auth(
            handshake_resp_bytes(capability_flag, charset, username, password, salt, database),
            false,
        ) matches Ok(a) && a.user == username && a.character_set == charset && a.max_packet_size
            == 0 && a.capability_flags == adjusted_cap(capability_flag, database)
            && a.auth_response == native_password_of(password, salt) && a.database == (
        if database.len() > 0 {
            Some(database)
        } else {
            None::<Seq<u8>>
        }) && (capability_flag & CAP_CLIENT_PLUGIN_AUTH != 0 ==> a.auth_method == Some(
            spec_mysql_native_password(),
        )),
{
    let c = capability_flag;
    let ac = adjusted_cap(c, database);
    let p = handshake_resp_bytes(c, charset, username, password, salt, database);
    let auth = native_password_of(password, salt);
    let plugin = spec_mysql_native_password();
    lemma_pow256_values();
    lemma_le_bytes_len(ac as nat, 4);
    lemma_le_bytes_len(0, 4);
    lemma_native_password(password, salt);

    // the adjustment touches only the CONNECT_WITH_DB bit
    assert((c | CAP_CLIENT_CONNECT_WITH_DB) & CAP_CLIENT_PROTOCOL_41 == c
        & CAP_CLIENT_PROTOCOL_41 && (c & !CAP_CLIENT_CONNECT_WITH_DB) & CAP_CLIENT_PROTOCOL_41
        == c & CAP_CLIENT_PROTOCOL_41 && (c | CAP_CLIENT_CONNECT_WITH_DB)
        & CAP_CLIENT_SECURE_CONNECTION == c & CAP_CLIENT_SECURE_CONNECTION && (c
        & !CAP_CLIENT_CONNECT_WITH_DB) & CAP_CLIENT_SECURE_CONNECTION == c
        & CAP_CLIENT_SECURE_CONNECTION && (c | CAP_CLIENT_CONNECT_WITH_DB)
        & CAP_CLIENT_PLUGIN_AUTH_LENENC_CLIENT_DATA == c
        & CAP_CLIENT_PLUGIN_AUTH_LENENC_CLIENT_DATA && (c & !CAP_CLIENT_CONNECT_WITH_DB)
        & CAP_CLIENT_PLUGIN_AUTH_LENENC_CLIENT_DATA == c
        & CAP_CLIENT_PLUGIN_AUTH_LENENC_CLIENT_DATA && (c | CAP_CLIENT_CONNECT_WITH_DB)
        & CAP_CLIENT_PLUGIN_AUTH == c & CAP_CLIENT_PLUGIN_AUTH && (c
        & !CAP_CLIENT_CONNECT_WITH_DB) & CAP_CLIENT_PLUGIN_AUTH == c & CAP_CLIENT_PLUGIN_AUTH
        && (c | CAP_CLIENT_CONNECT_WITH_DB) & CAP_CLIENT_CONNECT_WITH_DB != 0 && (c
        & !CAP_CLIENT_CONNECT_WITH_DB) & CAP_CLIENT_CONNECT_WITH_DB == 0 && (c
        | CAP_CLIENT_CONNECT_WITH_DB) & CAP_CLIENT_MULTI_STATEMENTS == c
        & CAP_CLIENT_MULTI_STATEMENTS && (c & !CAP_CLIENT_CONNECT_WITH_DB)
        & CAP_CLIENT_MULTI_STATEMENTS == c & CAP_CLIENT_MULTI_STATEMENTS) by (bit_vector);
    assert(ac & CAP_CLIENT_MULTI_STATEMENTS != 0 ==> (ac | CAP_CLIENT_MULTI_STATEMENTS) == ac)
        by (bit_vector);

    // the fixed head: capability, max packet size, charset, 23 reserved bytes
    assert(p.subrange(0, 4) =~= le_bytes(ac as nat, 4));
    lemma_from_le_le_bytes(ac as nat, 4);
    assert(p.subrange(4, 8) =~= le_bytes(0, 4));
    lemma_from_le_le_bytes(0, 4);
    assert(p[8] == charset);

    // the user token and its terminator
    let lu = username.len() as int;
    let after_user = if ac & CAP_CLIENT_SECURE_CONNECTION != 0 {
        seq![auth.len() as u8] + auth
    } else {
        auth + seq![0u8]
    } + (if ac & CAP_CLIENT_CONNECT_WITH_DB != 0 {
        database + seq![0u8]
    } else {
        Seq::<u8>::empty()
    }) + plugin + seq![0u8];
    assert(p.skip(32) =~= username + seq![0u8] + after_user);
    crate::codec::lemma_until_zero_of(username, after_user);
    let pos1: int = 33 + lu;
    assert(p.len() >= 32);

    // the auth response block
    let al = auth.len() as int;
    let pos2: int = if ac & CAP_CLIENT_SECURE_CONNECTION != 0 {
        pos1 + 1 + al
    } else {
        pos1 + 21
    };
    if ac & CAP_CLIENT_SECURE_CONNECTION != 0 {
        assert(al == 0 || al == 20);
        assert(p[pos1] == al as u8);
        assert(p.subrange(pos1 + 1, pos1 + 1 + al) =~= auth);
    } else {
        assert(al == 20);
        assert(p.subrange(pos1, pos1 + 20) =~= auth);
    }

    // the database token, present exactly when a database was named
    let pos3: int = if ac & CAP_CLIENT_CONNECT_WITH_DB != 0 {
        pos2 + database.len() + 1
    } else {
        pos2
    };
    if ac & CAP_CLIENT_CONNECT_WITH_DB != 0 {
        assert(p.skip(pos2) =~= database + seq![0u8] + (plugin + seq![0u8]));
        crate::codec::lemma_until_zero_of(database, plugin + seq![0u8]);
    }

    // the plugin name
    assert(forall|j: int| 0 <= j < plugin.len() ==> plugin[j] != 0);
    if ac & CAP_CLIENT_PLUGIN_AUTH != 0 {
        assert(p.skip(pos3) =~= plugin + seq![0u8] + Seq::<u8>::empty());
        crate::codec::lemma_until_zero_of(plugin, Seq::<u8>::empty());
    }
}

} // verus!
