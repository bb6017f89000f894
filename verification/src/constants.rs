//! Protocol constants: capability bits, command codes, server error and
//! SQL-state tables, the charset name map and the TLS version codes.

use vstd::prelude::*;

verus! {

/// Maximum payload length of one framed chunk (24-bit length field).
pub const MAX_PACKET_SIZE: usize = 0xffffff;

/// The protocol version the server speaks; always 10.
pub const PROTOCOL_VERSION: u8 = 10;

pub const CHARACTER_SET_UTF8: u8 = 33;

pub const CHARACTER_SET_BINARY: i32 = 63;

pub const SERVER_STATUS_AUTOCOMMIT: u16 = 0x0002;

/// Header byte of an OK packet.
pub const OK_PACKET: u8 = 0x00;

/// Header byte of an ERR packet.
pub const ERR_PACKET: u8 = 0xff;

/// Header byte of an EOF packet, and of an OK packet that stands in for an
/// EOF terminator when DEPRECATE_EOF is in effect.
pub const EOF_PACKET: u8 = 0xfe;

pub const SERVER_MORE_RESULTS_EXISTS: u16 = 0x0008;

pub const CAP_CLIENT_LONG_PASSWORD: u32 = 0x1;
pub const CAP_CLIENT_FOUND_ROWS: u32 = 0x2;
pub const CAP_CLIENT_LONG_FLAG: u32 = 0x4;
pub const CAP_CLIENT_CONNECT_WITH_DB: u32 = 0x8;
pub const CAP_CLIENT_PROTOCOL_41: u32 = 0x200;
pub const CAP_CLIENT_SSL: u32 = 0x800;
pub const CAP_CLIENT_TRANSACTIONS: u32 = 0x2000;
pub const CAP_CLIENT_SECURE_CONNECTION: u32 = 0x8000;
pub const CAP_CLIENT_MULTI_STATEMENTS: u32 = 0x10000;
pub const CAP_CLIENT_MULTI_RESULTS: u32 = 0x20000;
pub const CAP_CLIENT_PLUGIN_AUTH: u32 = 0x80000;
pub const CAP_CLIENT_CONN_ATTR: u32 = 0x100000;
pub const CAP_CLIENT_PLUGIN_AUTH_LENENC_CLIENT_DATA: u32 = 0x200000;
pub const CAP_CLIENT_DEPRECATE_EOF: u32 = 0x1000000;

/// Capability bits a client of this server is taken to ask for by default.
pub const DEFAULT_CLIENT_CAPABILITY: u32 = CAP_CLIENT_LONG_PASSWORD | CAP_CLIENT_LONG_FLAG
    | CAP_CLIENT_PROTOCOL_41 | CAP_CLIENT_TRANSACTIONS | CAP_CLIENT_MULTI_STATEMENTS
    | CAP_CLIENT_PLUGIN_AUTH | CAP_CLIENT_DEPRECATE_EOF | CAP_CLIENT_SECURE_CONNECTION;

/// Capability bits the server advertises in its greeting.
pub const DEFAULT_SERVER_CAPABILITY: u32 = CAP_CLIENT_LONG_PASSWORD | CAP_CLIENT_LONG_FLAG
    | CAP_CLIENT_CONNECT_WITH_DB | CAP_CLIENT_PROTOCOL_41 | CAP_CLIENT_TRANSACTIONS
    | CAP_CLIENT_SECURE_CONNECTION | CAP_CLIENT_MULTI_STATEMENTS | CAP_CLIENT_MULTI_RESULTS
    | CAP_CLIENT_PLUGIN_AUTH | CAP_CLIENT_PLUGIN_AUTH_LENENC_CLIENT_DATA
    | CAP_CLIENT_DEPRECATE_EOF | CAP_CLIENT_CONN_ATTR;

/// The fixed salt that tests use in place of a randomly drawn one.
pub open spec fn spec_default_salt() -> Seq<u8> {
    seq![0x77u8, 0x63u8, 0x6au8, 0x6du8, 0x61u8, 0x22u8, 0x23u8, 0x27u8, 0x38u8, 0x26u8,
        0x55u8, 0x58u8, 0x3bu8, 0x5du8, 0x44u8, 0x78u8, 0x53u8, 0x73u8, 0x6bu8, 0x41u8]
}

pub fn default_salt() -> (r: Vec<u8>)
    ensures
        r@ == spec_default_salt(),
        r@.len() == 20,
{
    let v: Vec<u8> = vec![0x77u8, 0x63u8, 0x6au8, 0x6du8, 0x61u8, 0x22u8, 0x23u8, 0x27u8,
        0x38u8, 0x26u8, 0x55u8, 0x58u8, 0x3bu8, 0x5du8, 0x44u8, 0x78u8, 0x53u8, 0x73u8,
        0x6bu8, 0x41u8];
    proof {
        assert(v@ =~= spec_default_salt());
    }
    v
}

/// The byte string "mysql_native_password", the only auth plugin served.
pub open spec fn spec_mysql_native_password() -> Seq<u8> {
    seq![109u8, 121u8, 115u8, 113u8, 108u8, 95u8, 110u8, 97u8, 116u8, 105u8, 118u8, 101u8, 95u8, 112u8, 97u8, 115u8, 115u8, 119u8, 111u8, 114u8, 100u8]
}

pub fn mysql_native_password() -> (r: Vec<u8>)
    ensures
        r@ == spec_mysql_native_password(),
{
    let v: Vec<u8> = vec![109u8, 121u8, 115u8, 113u8, 108u8, 95u8, 110u8, 97u8, 116u8, 105u8, 118u8, 101u8, 95u8, 112u8, 97u8, 115u8, 115u8, 119u8, 111u8, 114u8, 100u8];
    proof {
        assert(v@ =~= spec_mysql_native_password());
    }
    v
}

/// Named bits of the 32-bit capability field exchanged in the handshake.
#[derive(Clone, Copy, Debug, PartialEq, Eq, Structural)]
pub enum CapabilityFlag {
    CapabilityClientLongPassword,
    CapabilityClientFoundRows,
    CapabilityClientLongFlag,
    CapabilityClientConnectWithDB,
    CapabilityClientProtocol41,
    CapabilityClientSSL,
    CapabilityClientTransactions,
    CapabilityClientSecureConnection,
    CapabilityClientMultiStatements,
    CapabilityClientMultiResults,
    CapabilityClientPluginAuth,
    CapabilityClientConnAttr,
    CapabilityClientPluginAuthLenencClientData,
    CapabilityClientDeprecateEOF,
}

impl CapabilityFlag {
    /// The bit this capability occupies in the capability field.
    pub open spec fn spec_value(self) -> u32 {
        match self {
            CapabilityFlag::CapabilityClientLongPassword => CAP_CLIENT_LONG_PASSWORD,
            CapabilityFlag::CapabilityClientFoundRows => CAP_CLIENT_FOUND_ROWS,
            CapabilityFlag::CapabilityClientLongFlag => CAP_CLIENT_LONG_FLAG,
            CapabilityFlag::CapabilityClientConnectWithDB => CAP_CLIENT_CONNECT_WITH_DB,
            CapabilityFlag::CapabilityClientProtocol41 => CAP_CLIENT_PROTOCOL_41,
            CapabilityFlag::CapabilityClientSSL => CAP_CLIENT_SSL,
            CapabilityFlag::CapabilityClientTransactions => CAP_CLIENT_TRANSACTIONS,
            CapabilityFlag::CapabilityClientSecureConnection => CAP_CLIENT_SECURE_CONNECTION,
            CapabilityFlag::CapabilityClientMultiStatements => CAP_CLIENT_MULTI_STATEMENTS,
            CapabilityFlag::CapabilityClientMultiResults => CAP_CLIENT_MULTI_RESULTS,
            CapabilityFlag::CapabilityClientPluginAuth => CAP_CLIENT_PLUGIN_AUTH,
            CapabilityFlag::CapabilityClientConnAttr => CAP_CLIENT_CONN_ATTR,
            CapabilityFlag::CapabilityClientPluginAuthLenencClientData => CAP_CLIENT_PLUGIN_AUTH_LENENC_CLIENT_DATA,
            CapabilityFlag::CapabilityClientDeprecateEOF => CAP_CLIENT_DEPRECATE_EOF,
        }
    }

    pub fn value(self) -> (r: u32)
        ensures
            r == self.spec_value(),
    {
        match self {
            CapabilityFlag::CapabilityClientLongPassword => CAP_CLIENT_LONG_PASSWORD,
            CapabilityFlag::CapabilityClientFoundRows => CAP_CLIENT_FOUND_ROWS,
            CapabilityFlag::CapabilityClientLongFlag => CAP_CLIENT_LONG_FLAG,
            CapabilityFlag::CapabilityClientConnectWithDB => CAP_CLIENT_CONNECT_WITH_DB,
            CapabilityFlag::CapabilityClientProtocol41 => CAP_CLIENT_PROTOCOL_41,
            CapabilityFlag::CapabilityClientSSL => CAP_CLIENT_SSL,
            CapabilityFlag::CapabilityClientTransactions => CAP_CLIENT_TRANSACTIONS,
            CapabilityFlag::CapabilityClientSecureConnection => CAP_CLIENT_SECURE_CONNECTION,
            CapabilityFlag::CapabilityClientMultiStatements => CAP_CLIENT_MULTI_STATEMENTS,
            CapabilityFlag::CapabilityClientMultiResults => CAP_CLIENT_MULTI_RESULTS,
            CapabilityFlag::CapabilityClientPluginAuth => CAP_CLIENT_PLUGIN_AUTH,
            CapabilityFlag::CapabilityClientConnAttr => CAP_CLIENT_CONN_ATTR,
            CapabilityFlag::CapabilityClientPluginAuthLenencClientData => CAP_CLIENT_PLUGIN_AUTH_LENENC_CLIENT_DATA,
            CapabilityFlag::CapabilityClientDeprecateEOF => CAP_CLIENT_DEPRECATE_EOF,
        }
    }
}

/// Command codes of the command phase, one per COM_* packet type.
#[derive(Clone, Copy, Debug, PartialEq, Eq, Structural)]
pub enum PacketType {
    ComSleep,
    ComQuit,
    ComInitDB,
    ComQuery,
    ComFieldList,
    ComCreateDb,
    ComDropDb,
    ComRefresh,
    ComShutdown,
    ComStatistics,
    ComProcessInfo,
    ComConnect,
    ComProcessKill,
    ComDebug,
    ComPing,
    ComTime,
    ComDelayedInsert,
    ComChangeUser,
    ComBinlogDump,
    ComTableDump,
    ComConnectOut,
    ComRegisterSlave,
    ComStmtPrepare,
    ComStmtExecute,
    ComStmtSendLongData,
    ComStmtClose,
    ComStmtReset,
    ComSetOption,
    ComStmtFetch,
    ComDaemon,
    ComBinlogDumpGtid,
    ComResetConnection,
}

impl PacketType {
    /// The wire code of this command.
    pub open spec fn spec_code(self) -> u16 {
        match self {
            PacketType::ComSleep => 0x00,
            PacketType::ComQuit => 0x01,
            PacketType::ComInitDB => 0x02,
            PacketType::ComQuery => 0x03,
            PacketType::ComFieldList => 0x04,
            PacketType::ComCreateDb => 0x05,
            PacketType::ComDropDb => 0x06,
            PacketType::ComRefresh => 0x07,
            PacketType::ComShutdown => 0x08,
            PacketType::ComStatistics => 0x09,
            PacketType::ComProcessInfo => 0x0a,
            PacketType::ComConnect => 0x0b,
            PacketType::ComProcessKill => 0x0c,
            PacketType::ComDebug => 0x0d,
            PacketType::ComPing => 0x0e,
            PacketType::ComTime => 0x0f,
            PacketType::ComDelayedInsert => 0x10,
            PacketType::ComChangeUser => 0x11,
            PacketType::ComBinlogDump => 0x12,
            PacketType::ComTableDump => 0x13,
            PacketType::ComConnectOut => 0x14,
            PacketType::ComRegisterSlave => 0x15,
            PacketType::ComStmtPrepare => 0x16,
            PacketType::ComStmtExecute => 0x17,
            PacketType::ComStmtSendLongData => 0x18,
            PacketType::ComStmtClose => 0x19,
            PacketType::ComStmtReset => 0x1a,
            PacketType::ComSetOption => 0x1b,
            PacketType::ComStmtFetch => 0x1c,
            PacketType::ComDaemon => 0x1d,
            PacketType::ComBinlogDumpGtid => 0x1e,
            PacketType::ComResetConnection => 0x1f,
        }
    }

    pub fn code(self) -> (r: u16)
        ensures
            r == self.spec_code(),
    {
        match self {
            PacketType::ComSleep => 0x00,
            PacketType::ComQuit => 0x01,
            PacketType::ComInitDB => 0x02,
            PacketType::ComQuery => 0x03,
            PacketType::ComFieldList => 0x04,
            PacketType::ComCreateDb => 0x05,
            PacketType::ComDropDb => 0x06,
            PacketType::ComRefresh => 0x07,
            PacketType::ComShutdown => 0x08,
            PacketType::ComStatistics => 0x09,
            PacketType::ComProcessInfo => 0x0a,
            PacketType::ComConnect => 0x0b,
            PacketType::ComProcessKill => 0x0c,
            PacketType::ComDebug => 0x0d,
            PacketType::ComPing => 0x0e,
            PacketType::ComTime => 0x0f,
            PacketType::ComDelayedInsert => 0x10,
            PacketType::ComChangeUser => 0x11,
            PacketType::ComBinlogDump => 0x12,
            PacketType::ComTableDump => 0x13,
            PacketType::ComConnectOut => 0x14,
            PacketType::ComRegisterSlave => 0x15,
            PacketType::ComStmtPrepare => 0x16,
            PacketType::ComStmtExecute => 0x17,
            PacketType::ComStmtSendLongData => 0x18,
            PacketType::ComStmtClose => 0x19,
            PacketType::ComStmtReset => 0x1a,
            PacketType::ComSetOption => 0x1b,
            PacketType::ComStmtFetch => 0x1c,
            PacketType::ComDaemon => 0x1d,
            PacketType::ComBinlogDumpGtid => 0x1e,
            PacketType::ComResetConnection => 0x1f,
        }
    }

    /// The command a code byte names, if any; codes above 0x1f name none.
    pub open spec fn spec_from_code(c: u8) -> Option<PacketType> {
        match c {
            0x00 => Some(PacketType::ComSleep),
            0x01 => Some(PacketType::ComQuit),
            0x02 => Some(PacketType::ComInitDB),
            0x03 => Some(PacketType::ComQuery),
            0x04 => Some(PacketType::ComFieldList),
            0x05 => Some(PacketType::ComCreateDb),
            0x06 => Some(PacketType::ComDropDb),
            0x07 => Some(PacketType::ComRefresh),
            0x08 => Some(PacketType::ComShutdown),
            0x09 => Some(PacketType::ComStatistics),
            0x0a => Some(PacketType::ComProcessInfo),
            0x0b => Some(PacketType::ComConnect),
            0x0c => Some(PacketType::ComProcessKill),
            0x0d => Some(PacketType::ComDebug),
            0x0e => Some(PacketType::ComPing),
            0x0f => Some(PacketType::ComTime),
            0x10 => Some(PacketType::ComDelayedInsert),
            0x11 => Some(PacketType::ComChangeUser),
            0x12 => Some(PacketType::ComBinlogDump),
            0x13 => Some(PacketType::ComTableDump),
            0x14 => Some(PacketType::ComConnectOut),
            0x15 => Some(PacketType::ComRegisterSlave),
            0x16 => Some(PacketType::ComStmtPrepare),
            0x17 => Some(PacketType::ComStmtExecute),
            0x18 => Some(PacketType::ComStmtSendLongData),
            0x19 => Some(PacketType::ComStmtClose),
            0x1a => Some(PacketType::ComStmtReset),
            0x1b => Some(PacketType::ComSetOption),
            0x1c => Some(PacketType::ComStmtFetch),
            0x1d => Some(PacketType::ComDaemon),
            0x1e => Some(PacketType::ComBinlogDumpGtid),
            0x1f => Some(PacketType::ComResetConnection),
            _ => None,
        }
    }

    pub fn from_code(c: u8) -> (r: Option<PacketType>)
        ensures
            r == Self::spec_from_code(c),
    {
        match c {
            0x00 => Some(PacketType::ComSleep),
            0x01 => Some(PacketType::ComQuit),
            0x02 => Some(PacketType::ComInitDB),
            0x03 => Some(PacketType::ComQuery),
            0x04 => Some(PacketType::ComFieldList),
            0x05 => Some(PacketType::ComCreateDb),
            0x06 => Some(PacketType::ComDropDb),
            0x07 => Some(PacketType::ComRefresh),
            0x08 => Some(PacketType::ComShutdown),
            0x09 => Some(PacketType::ComStatistics),
            0x0a => Some(PacketType::ComProcessInfo),
            0x0b => Some(PacketType::ComConnect),
            0x0c => Some(PacketType::ComProcessKill),
            0x0d => Some(PacketType::ComDebug),
            0x0e => Some(PacketType::ComPing),
            0x0f => Some(PacketType::ComTime),
            0x10 => Some(PacketType::ComDelayedInsert),
            0x11 => Some(PacketType::ComChangeUser),
            0x12 => Some(PacketType::ComBinlogDump),
            0x13 => Some(PacketType::ComTableDump),
            0x14 => Some(PacketType::ComConnectOut),
            0x15 => Some(PacketType::ComRegisterSlave),
            0x16 => Some(PacketType::ComStmtPrepare),
            0x17 => Some(PacketType::ComStmtExecute),
            0x18 => Some(PacketType::ComStmtSendLongData),
            0x19 => Some(PacketType::ComStmtClose),
            0x1a => Some(PacketType::ComStmtReset),
            0x1b => Some(PacketType::ComSetOption),
            0x1c => Some(PacketType::ComStmtFetch),
            0x1d => Some(PacketType::ComDaemon),
            0x1e => Some(PacketType::ComBinlogDumpGtid),
            0x1f => Some(PacketType::ComResetConnection),
            _ => None,
        }
    }

    /// The human name of this command, as ASCII bytes.
    pub open spec fn spec_name(self) -> Seq<u8> {
        match self {
            PacketType::ComSleep => seq![67u8, 79u8, 77u8, 95u8, 83u8, 76u8, 69u8, 69u8, 80u8],
            PacketType::ComQuit => seq![67u8, 79u8, 77u8, 95u8, 81u8, 85u8, 73u8, 84u8],
            PacketType::ComInitDB => seq![67u8, 79u8, 77u8, 95u8, 73u8, 78u8, 73u8, 84u8, 95u8, 68u8, 66u8],
            PacketType::ComQuery => seq![67u8, 79u8, 77u8, 95u8, 81u8, 85u8, 69u8, 82u8, 89u8],
            PacketType::ComFieldList => seq![67u8, 79u8, 77u8, 95u8, 70u8, 73u8, 69u8, 76u8, 68u8, 95u8, 76u8, 73u8, 83u8, 84u8],
            PacketType::ComCreateDb => seq![67u8, 79u8, 77u8, 95u8, 67u8, 82u8, 69u8, 65u8, 84u8, 69u8, 95u8, 68u8, 66u8],
            PacketType::ComDropDb => seq![67u8, 79u8, 77u8, 95u8, 68u8, 82u8, 79u8, 80u8, 95u8, 68u8, 66u8],
            PacketType::ComRefresh => seq![67u8, 79u8, 77u8, 95u8, 82u8, 69u8, 70u8, 82u8, 69u8, 83u8, 72u8],
            PacketType::ComShutdown => seq![67u8, 79u8, 77u8, 95u8, 83u8, 72u8, 85u8, 84u8, 68u8, 79u8, 87u8, 78u8],
            PacketType::ComStatistics => seq![67u8, 79u8, 77u8, 95u8, 83u8, 84u8, 65u8, 84u8, 73u8, 83u8, 84u8, 73u8, 67u8, 83u8],
            PacketType::ComProcessInfo => seq![67u8, 79u8, 77u8, 95u8, 80u8, 82u8, 79u8, 67u8, 69u8, 83u8, 83u8, 95u8, 73u8, 78u8, 70u8, 79u8],
            PacketType::ComConnect => seq![67u8, 79u8, 77u8, 95u8, 67u8, 79u8, 78u8, 78u8, 69u8, 67u8, 84u8],
            PacketType::ComProcessKill => seq![67u8, 79u8, 77u8, 95u8, 80u8, 82u8, 79u8, 67u8, 69u8, 83u8, 83u8, 95u8, 75u8, 73u8, 76u8, 76u8],
            PacketType::ComDebug => seq![67u8, 79u8, 77u8, 95u8, 68u8, 69u8, 66u8, 85u8, 71u8],
            PacketType::ComPing => seq![67u8, 79u8, 77u8, 95u8, 80u8, 73u8, 78u8, 71u8],
            PacketType::ComTime => seq![67u8, 79u8, 77u8, 95u8, 84u8, 73u8, 77u8, 69u8],
            PacketType::ComDelayedInsert => seq![67u8, 79u8, 77u8, 95u8, 68u8, 69u8, 76u8, 65u8, 89u8, 69u8, 68u8, 95u8, 73u8, 78u8, 83u8, 69u8, 82u8, 84u8],
            PacketType::ComChangeUser => seq![67u8, 79u8, 77u8, 95u8, 67u8, 72u8, 65u8, 78u8, 71u8, 69u8, 95u8, 85u8, 83u8, 69u8, 82u8],
            PacketType::ComBinlogDump => seq![67u8, 79u8, 77u8, 95u8, 66u8, 73u8, 78u8, 76u8, 79u8, 71u8, 95u8, 68u8, 85u8, 77u8, 80u8],
            PacketType::ComTableDump => seq![67u8, 79u8, 77u8, 95u8, 84u8, 65u8, 66u8, 76u8, 69u8, 95u8, 68u8, 85u8, 77u8, 80u8],
            PacketType::ComConnectOut => seq![67u8, 79u8, 77u8, 95u8, 67u8, 79u8, 78u8, 78u8, 69u8, 67u8, 84u8, 95u8, 79u8, 85u8, 84u8],
            PacketType::ComRegisterSlave => seq![67u8, 79u8, 77u8, 95u8, 82u8, 69u8, 71u8, 73u8, 83u8, 84u8, 69u8, 82u8, 95u8, 83u8, 76u8, 65u8, 86u8, 69u8],
            PacketType::ComStmtPrepare => seq![67u8, 79u8, 77u8, 95u8, 83u8, 84u8, 77u8, 84u8, 95u8, 80u8, 82u8, 69u8, 80u8, 65u8, 82u8, 69u8],
            PacketType::ComStmtExecute => seq![67u8, 79u8, 77u8, 95u8, 83u8, 84u8, 77u8, 84u8, 95u8, 69u8, 88u8, 69u8, 67u8, 85u8, 84u8, 69u8],
            PacketType::ComStmtSendLongData => seq![67u8, 79u8, 77u8, 95u8, 83u8, 84u8, 77u8, 84u8, 95u8, 83u8, 69u8, 78u8, 68u8, 95u8, 76u8, 79u8, 78u8, 71u8, 95u8, 68u8, 65u8, 84u8, 65u8],
            PacketType::ComStmtClose => seq![67u8, 79u8, 77u8, 95u8, 83u8, 84u8, 77u8, 84u8, 95u8, 67u8, 76u8, 79u8, 83u8, 69u8],
            PacketType::ComStmtReset => seq![67u8, 79u8, 77u8, 95u8, 83u8, 84u8, 77u8, 84u8, 95u8, 82u8, 69u8, 83u8, 69u8, 84u8],
            PacketType::ComSetOption => seq![67u8, 79u8, 77u8, 95u8, 83u8, 69u8, 84u8, 95u8, 79u8, 80u8, 84u8, 73u8, 79u8, 78u8],
            PacketType::ComStmtFetch => seq![67u8, 79u8, 77u8, 95u8, 83u8, 84u8, 77u8, 84u8, 95u8, 70u8, 69u8, 84u8, 67u8, 72u8],
            PacketType::ComDaemon => seq![67u8, 79u8, 77u8, 95u8, 68u8, 65u8, 69u8, 77u8, 79u8, 78u8],
            PacketType::ComBinlogDumpGtid => seq![67u8, 79u8, 77u8, 95u8, 66u8, 73u8, 78u8, 76u8, 79u8, 71u8, 95u8, 68u8, 85u8, 77u8, 80u8, 95u8, 71u8, 84u8, 73u8, 68u8],
            PacketType::ComResetConnection => seq![67u8, 79u8, 77u8, 95u8, 82u8, 69u8, 83u8, 69u8, 84u8, 95u8, 67u8, 79u8, 78u8, 78u8, 69u8, 67u8, 84u8, 73u8, 79u8, 78u8],
        }
    }

    pub fn name(self) -> (r: Vec<u8>)
        ensures
            r@ == self.spec_name(),
    {
        let v: Vec<u8> = match self {
            PacketType::ComSleep => vec![67u8, 79u8, 77u8, 95u8, 83u8, 76u8, 69u8, 69u8, 80u8],
            PacketType::ComQuit => vec![67u8, 79u8, 77u8, 95u8, 81u8, 85u8, 73u8, 84u8],
            PacketType::ComInitDB => vec![67u8, 79u8, 77u8, 95u8, 73u8, 78u8, 73u8, 84u8, 95u8, 68u8, 66u8],
            PacketType::ComQuery => vec![67u8, 79u8, 77u8, 95u8, 81u8, 85u8, 69u8, 82u8, 89u8],
            PacketType::ComFieldList => vec![67u8, 79u8, 77u8, 95u8, 70u8, 73u8, 69u8, 76u8, 68u8, 95u8, 76u8, 73u8, 83u8, 84u8],
            PacketType::ComCreateDb => vec![67u8, 79u8, 77u8, 95u8, 67u8, 82u8, 69u8, 65u8, 84u8, 69u8, 95u8, 68u8, 66u8],
            PacketType::ComDropDb => vec![67u8, 79u8, 77u8, 95u8, 68u8, 82u8, 79u8, 80u8, 95u8, 68u8, 66u8],
            PacketType::ComRefresh => vec![67u8, 79u8, 77u8, 95u8, 82u8, 69u8, 70u8, 82u8, 69u8, 83u8, 72u8],
            PacketType::ComShutdown => vec![67u8, 79u8, 77u8, 95u8, 83u8, 72u8, 85u8, 84u8, 68u8, 79u8, 87u8, 78u8],
            PacketType::ComStatistics => vec![67u8, 79u8, 77u8, 95u8, 83u8, 84u8, 65u8, 84u8, 73u8, 83u8, 84u8, 73u8, 67u8, 83u8],
            PacketType::ComProcessInfo => vec![67u8, 79u8, 77u8, 95u8, 80u8, 82u8, 79u8, 67u8, 69u8, 83u8, 83u8, 95u8, 73u8, 78u8, 70u8, 79u8],
            PacketType::ComConnect => vec![67u8, 79u8, 77u8, 95u8, 67u8, 79u8, 78u8, 78u8, 69u8, 67u8, 84u8],
            PacketType::ComProcessKill => vec![67u8, 79u8, 77u8, 95u8, 80u8, 82u8, 79u8, 67u8, 69u8, 83u8, 83u8, 95u8, 75u8, 73u8, 76u8, 76u8],
            PacketType::ComDebug => vec![67u8, 79u8, 77u8, 95u8, 68u8, 69u8, 66u8, 85u8, 71u8],
            PacketType::ComPing => vec![67u8, 79u8, 77u8, 95u8, 80u8, 73u8, 78u8, 71u8],
            PacketType::ComTime => vec![67u8, 79u8, 77u8, 95u8, 84u8, 73u8, 77u8, 69u8],
            PacketType::ComDelayedInsert => vec![67u8, 79u8, 77u8, 95u8, 68u8, 69u8, 76u8, 65u8, 89u8, 69u8, 68u8, 95u8, 73u8, 78u8, 83u8, 69u8, 82u8, 84u8],
            PacketType::ComChangeUser => vec![67u8, 79u8, 77u8, 95u8, 67u8, 72u8, 65u8, 78u8, 71u8, 69u8, 95u8, 85u8, 83u8, 69u8, 82u8],
            PacketType::ComBinlogDump => vec![67u8, 79u8, 77u8, 95u8, 66u8, 73u8, 78u8, 76u8, 79u8, 71u8, 95u8, 68u8, 85u8, 77u8, 80u8],
            PacketType::ComTableDump => vec![67u8, 79u8, 77u8, 95u8, 84u8, 65u8, 66u8, 76u8, 69u8, 95u8, 68u8, 85u8, 77u8, 80u8],
            PacketType::ComConnectOut => vec![67u8, 79u8, 77u8, 95u8, 67u8, 79u8, 78u8, 78u8, 69u8, 67u8, 84u8, 95u8, 79u8, 85u8, 84u8],
            PacketType::ComRegisterSlave => vec![67u8, 79u8, 77u8, 95u8, 82u8, 69u8, 71u8, 73u8, 83u8, 84u8, 69u8, 82u8, 95u8, 83u8, 76u8, 65u8, 86u8, 69u8],
            PacketType::ComStmtPrepare => vec![67u8, 79u8, 77u8, 95u8, 83u8, 84u8, 77u8, 84u8, 95u8, 80u8, 82u8, 69u8, 80u8, 65u8, 82u8, 69u8],
            PacketType::ComStmtExecute => vec![67u8, 79u8, 77u8, 95u8, 83u8, 84u8, 77u8, 84u8, 95u8, 69u8, 88u8, 69u8, 67u8, 85u8, 84u8, 69u8],
            PacketType::ComStmtSendLongData => vec![67u8, 79u8, 77u8, 95u8, 83u8, 84u8, 77u8, 84u8, 95u8, 83u8, 69u8, 78u8, 68u8, 95u8, 76u8, 79u8, 78u8, 71u8, 95u8, 68u8, 65u8, 84u8, 65u8],
            PacketType::ComStmtClose => vec![67u8, 79u8, 77u8, 95u8, 83u8, 84u8, 77u8, 84u8, 95u8, 67u8, 76u8, 79u8, 83u8, 69u8],
            PacketType::ComStmtReset => vec![67u8, 79u8, 77u8, 95u8, 83u8, 84u8, 77u8, 84u8, 95u8, 82u8, 69u8, 83u8, 69u8, 84u8],
            PacketType::ComSetOption => vec![67u8, 79u8, 77u8, 95u8, 83u8, 69u8, 84u8, 95u8, 79u8, 80u8, 84u8, 73u8, 79u8, 78u8],
            PacketType::ComStmtFetch => vec![67u8, 79u8, 77u8, 95u8, 83u8, 84u8, 77u8, 84u8, 95u8, 70u8, 69u8, 84u8, 67u8, 72u8],
            PacketType::ComDaemon => vec![67u8, 79u8, 77u8, 95u8, 68u8, 65u8, 69u8, 77u8, 79u8, 78u8],
            PacketType::ComBinlogDumpGtid => vec![67u8, 79u8, 77u8, 95u8, 66u8, 73u8, 78u8, 76u8, 79u8, 71u8, 95u8, 68u8, 85u8, 77u8, 80u8, 95u8, 71u8, 84u8, 73u8, 68u8],
            PacketType::ComResetConnection => vec![67u8, 79u8, 77u8, 95u8, 82u8, 69u8, 83u8, 69u8, 84u8, 95u8, 67u8, 79u8, 78u8, 78u8, 69u8, 67u8, 84u8, 73u8, 79u8, 78u8],
        };
        proof {
            assert(v@ =~= self.spec_name());
        }
        v
    }
}

/// Server-side error codes, as numbered by the upstream server.
#[derive(Clone, Copy, Debug, PartialEq, Eq, Structural)]
pub enum ServerError {
    ERUnknownError,
    ERNotSupportedYet,
    ERDiskFull,
    EROutOfMemory,
    EROutOfSortMemory,
    ERConCount,
    EROutOfResources,
    ERRecordFileFull,
    ERHostIsBlocked,
    ERCantCreateThread,
    ERTooManyDelayedThreads,
    ERNetPacketTooLarge,
    ERTooManyUserConnections,
    ERLockTableFull,
    ERUserLimitReached,
    ERLockWaitTimeout,
    ERServerShutdown,
    ERFormNotFound,
    ERKeyNotFound,
    ERBadFieldError,
    ERNoSuchThread,
    ERUnknownTable,
    ERCantFindUDF,
    ERNonExistingGrant,
    ERNoSuchTable,
    ERNonExistingTableGrant,
    ERKeyDoesNotExist,
    ERDBAccessDenied,
    ERAccessDeniedError,
    ERKillDenied,
    ERNoPermissionToCreateUsers,
    ERSpecifiedAccessDenied,
    ERNoDb,
    ERNoSuchIndex,
    ERCantDropFieldOrKey,
    ERTableNotLockedForWrite,
    ERTableNotLocked,
    ERTooBigSelect,
    ERNotAllowedCommand,
    ERTooLongString,
    ERDelayedInsertTableLocked,
    ERDupUnique,
    ERRequiresPrimaryKey,
    ERCantDoThisDuringAnTransaction,
    ERReadOnlyTransaction,
    ERCannotAddForeign,
    ERNoReferencedRow,
    ERRowIsReferenced,
    ERCantUpdateWithReadLock,
    ERNoDefault,
    EROperandColumns,
    ERSubqueryNo1Row,
    ERNonUpdateableTable,
    ERFeatureDisabled,
    EROptionPreventsStatement,
    ERDuplicatedValueInType,
    ERRowIsReferenced2,
    ErNoReferencedRow2,
    ERTableExists,
    ERDupEntry,
    ERFileExists,
    ERUDFExists,
    ERGotSignal,
    ERForcingClose,
    ERAbortingConnection,
    ERLockDeadlock,
    ERUnknownComError,
    ERBadNullError,
    ERBadDb,
    ERBadTable,
    ERNonUniq,
    ERWrongFieldWithGroup,
    ERWrongGroupField,
    ERWrongSumSelect,
    ERWrongValueCount,
    ERTooLongIdent,
    ERDupFieldName,
    ERDupKeyName,
    ERWrongFieldSpec,
    ERParseError,
    EREmptyQuery,
    ERNonUniqTable,
    ERInvalidDefault,
    ERMultiplePriKey,
    ERTooManyKeys,
    ERTooManyKeyParts,
    ERTooLongKey,
    ERKeyColumnDoesNotExist,
    ERBlobUsedAsKey,
    ERTooBigFieldLength,
    ERWrongAutoKey,
    ERWrongFieldTerminators,
    ERBlobsAndNoTerminated,
    ERTextFileNotReadable,
    ERWrongSubKey,
    ERCantRemoveAllFields,
    ERUpdateTableUsed,
    ERNoTablesUsed,
    ERTooBigSet,
    ERBlobCantHaveDefault,
    ERWrongDbName,
    ERWrongTableName,
    ERUnknownProcedure,
    ERWrongParamCountToProcedure,
    ERWrongParametersToProcedure,
    ERFieldSpecifiedTwice,
    ERInvalidGroupFuncUse,
    ERTableMustHaveColumns,
    ERUnknownCharacterSet,
    ERTooManyTables,
    ERTooManyFields,
    ERTooBigRowSize,
    ERWrongOuterJoin,
    ERNullColumnInIndex,
    ERFunctionNotDefined,
    ERWrongValueCountOnRow,
    ERInvalidUseOfNull,
    ERRegexpError,
    ERMixOfGroupFuncAndFields,
    ERIllegalGrantForTable,
    ERSyntaxError,
    ERWrongColumnName,
    ERWrongKeyColumn,
    ERBlobKeyWithoutLength,
    ERPrimaryCantHaveNull,
    ERTooManyRows,
    ERUnknownSystemVariable,
    ERSetConstantsOnly,
    ERWrongArguments,
    ERWrongUsage,
    ERWrongNumberOfColumnsInSelect,
    ERDupArgument,
    ERLocalVariable,
    ERGlobalVariable,
    ERWrongValueForVar,
    ERWrongTypeForVar,
    ERVarCantBeRead,
    ERCantUseOptionHere,
    ERIncorrectGlobalLocalVar,
    ERWrongFKDef,
    ERKeyRefDoNotMatchTableRef,
    ERCyclicReference,
    ERCollationCharsetMismatch,
    ERCantAggregate2Collations,
    ERCantAggregate3Collations,
    ERCantAggregateNCollations,
    ERVariableIsNotStruct,
    ERUnknownCollation,
    ERWrongNameForIndex,
    ERWrongNameForCatalog,
    ERBadFTColumn,
    ERTruncatedWrongValue,
    ERTooMuchAutoTimestampCols,
    ERInvalidOnUpdate,
    ERUnknownTimeZone,
    ERInvalidCharacterString,
    ERIllegalReference,
    ERDerivedMustHaveAlias,
    ERTableNameNotAllowedHere,
    ERQueryInterrupted,
    ERTruncatedWrongValueForField,
    ERDataTooLong,
    ERDataOutOfRange,
}

impl ServerError {
    /// The numeric error code of this error.
    pub open spec fn spec_code(self) -> u16 {
        match self {
            ServerError::ERUnknownError => 1105,
            ServerError::ERNotSupportedYet => 1235,
            ServerError::ERDiskFull => 1021,
            ServerError::EROutOfMemory => 1037,
            ServerError::EROutOfSortMemory => 1038,
            ServerError::ERConCount => 1040,
            ServerError::EROutOfResources => 1041,
            ServerError::ERRecordFileFull => 1114,
            ServerError::ERHostIsBlocked => 1129,
            ServerError::ERCantCreateThread => 1135,
            ServerError::ERTooManyDelayedThreads => 1151,
            ServerError::ERNetPacketTooLarge => 1153,
            ServerError::ERTooManyUserConnections => 1203,
            ServerError::ERLockTableFull => 1206,
            ServerError::ERUserLimitReached => 1226,
            ServerError::ERLockWaitTimeout => 1205,
            ServerError::ERServerShutdown => 1053,
            ServerError::ERFormNotFound => 1029,
            ServerError::ERKeyNotFound => 1032,
            ServerError::ERBadFieldError => 1054,
            ServerError::ERNoSuchThread => 1094,
            ServerError::ERUnknownTable => 1109,
            ServerError::ERCantFindUDF => 1122,
            ServerError::ERNonExistingGrant => 1141,
            ServerError::ERNoSuchTable => 1146,
            ServerError::ERNonExistingTableGrant => 1147,
            ServerError::ERKeyDoesNotExist => 1176,
            ServerError::ERDBAccessDenied => 1044,
            ServerError::ERAccessDeniedError => 1045,
            ServerError::ERKillDenied => 1095,
            ServerError::ERNoPermissionToCreateUsers => 1211,
            ServerError::ERSpecifiedAccessDenied => 1227,
            ServerError::ERNoDb => 1046,
            ServerError::ERNoSuchIndex => 1082,
            ServerError::ERCantDropFieldOrKey => 1091,
            ServerError::ERTableNotLockedForWrite => 1099,
            ServerError::ERTableNotLocked => 1100,
            ServerError::ERTooBigSelect => 1104,
            ServerError::ERNotAllowedCommand => 1148,
            ServerError::ERTooLongString => 1162,
            ServerError::ERDelayedInsertTableLocked => 1165,
            ServerError::ERDupUnique => 1169,
            ServerError::ERRequiresPrimaryKey => 1173,
            ServerError::ERCantDoThisDuringAnTransaction => 1179,
            ServerError::ERReadOnlyTransaction => 1207,
            ServerError::ERCannotAddForeign => 1215,
            ServerError::ERNoReferencedRow => 1216,
            ServerError::ERRowIsReferenced => 1217,
            ServerError::ERCantUpdateWithReadLock => 1223,
            ServerError::ERNoDefault => 1230,
            ServerError::EROperandColumns => 1241,
            ServerError::ERSubqueryNo1Row => 1242,
            ServerError::ERNonUpdateableTable => 1288,
            ServerError::ERFeatureDisabled => 1289,
            ServerError::EROptionPreventsStatement => 1290,
            ServerError::ERDuplicatedValueInType => 1291,
            ServerError::ERRowIsReferenced2 => 1451,
            ServerError::ErNoReferencedRow2 => 1452,
            ServerError::ERTableExists => 1050,
            ServerError::ERDupEntry => 1062,
            ServerError::ERFileExists => 1086,
            ServerError::ERUDFExists => 1125,
            ServerError::ERGotSignal => 1078,
            ServerError::ERForcingClose => 1080,
            ServerError::ERAbortingConnection => 1152,
            ServerError::ERLockDeadlock => 1213,
            ServerError::ERUnknownComError => 1047,
            ServerError::ERBadNullError => 1048,
            ServerError::ERBadDb => 1049,
            ServerError::ERBadTable => 1051,
            ServerError::ERNonUniq => 1052,
            ServerError::ERWrongFieldWithGroup => 1055,
            ServerError::ERWrongGroupField => 1056,
            ServerError::ERWrongSumSelect => 1057,
            ServerError::ERWrongValueCount => 1058,
            ServerError::ERTooLongIdent => 1059,
            ServerError::ERDupFieldName => 1060,
            ServerError::ERDupKeyName => 1061,
            ServerError::ERWrongFieldSpec => 1063,
            ServerError::ERParseError => 1064,
            ServerError::EREmptyQuery => 1065,
            ServerError::ERNonUniqTable => 1066,
            ServerError::ERInvalidDefault => 1067,
            ServerError::ERMultiplePriKey => 1068,
            ServerError::ERTooManyKeys => 1069,
            ServerError::ERTooManyKeyParts => 1070,
            ServerError::ERTooLongKey => 1071,
            ServerError::ERKeyColumnDoesNotExist => 1072,
            ServerError::ERBlobUsedAsKey => 1073,
            ServerError::ERTooBigFieldLength => 1074,
            ServerError::ERWrongAutoKey => 1075,
            ServerError::ERWrongFieldTerminators => 1083,
            ServerError::ERBlobsAndNoTerminated => 1084,
            ServerError::ERTextFileNotReadable => 1085,
            ServerError::ERWrongSubKey => 1089,
            ServerError::ERCantRemoveAllFields => 1090,
            ServerError::ERUpdateTableUsed => 1093,
            ServerError::ERNoTablesUsed => 1096,
            ServerError::ERTooBigSet => 1097,
            ServerError::ERBlobCantHaveDefault => 1101,
            ServerError::ERWrongDbName => 1102,
            ServerError::ERWrongTableName => 1103,
            ServerError::ERUnknownProcedure => 1106,
            ServerError::ERWrongParamCountToProcedure => 1107,
            ServerError::ERWrongParametersToProcedure => 1108,
            ServerError::ERFieldSpecifiedTwice => 1110,
            ServerError::ERInvalidGroupFuncUse => 1111,
            ServerError::ERTableMustHaveColumns => 1113,
            ServerError::ERUnknownCharacterSet => 1115,
            ServerError::ERTooManyTables => 1116,
            ServerError::ERTooManyFields => 1117,
            ServerError::ERTooBigRowSize => 1118,
            ServerError::ERWrongOuterJoin => 1120,
            ServerError::ERNullColumnInIndex => 1121,
            ServerError::ERFunctionNotDefined => 1128,
            ServerError::ERWrongValueCountOnRow => 1136,
            ServerError::ERInvalidUseOfNull => 1138,
            ServerError::ERRegexpError => 1139,
            ServerError::ERMixOfGroupFuncAndFields => 1140,
            ServerError::ERIllegalGrantForTable => 1144,
            ServerError::ERSyntaxError => 1149,
            ServerError::ERWrongColumnName => 1166,
            ServerError::ERWrongKeyColumn => 1167,
            ServerError::ERBlobKeyWithoutLength => 1170,
            ServerError::ERPrimaryCantHaveNull => 1171,
            ServerError::ERTooManyRows => 1172,
            ServerError::ERUnknownSystemVariable => 1193,
            ServerError::ERSetConstantsOnly => 1204,
            ServerError::ERWrongArguments => 1210,
            ServerError::ERWrongUsage => 1221,
            ServerError::ERWrongNumberOfColumnsInSelect => 1222,
            ServerError::ERDupArgument => 1225,
            ServerError::ERLocalVariable => 1228,
            ServerError::ERGlobalVariable => 1229,
            ServerError::ERWrongValueForVar => 1231,
            ServerError::ERWrongTypeForVar => 1232,
            ServerError::ERVarCantBeRead => 1233,
            ServerError::ERCantUseOptionHere => 1234,
            ServerError::ERIncorrectGlobalLocalVar => 1238,
            ServerError::ERWrongFKDef => 1239,
            ServerError::ERKeyRefDoNotMatchTableRef => 1240,
            ServerError::ERCyclicReference => 1245,
            ServerError::ERCollationCharsetMismatch => 1253,
            ServerError::ERCantAggregate2Collations => 1267,
            ServerError::ERCantAggregate3Collations => 1270,
            ServerError::ERCantAggregateNCollations => 1271,
            ServerError::ERVariableIsNotStruct => 1272,
            ServerError::ERUnknownCollation => 1273,
            ServerError::ERWrongNameForIndex => 1280,
            ServerError::ERWrongNameForCatalog => 1281,
            ServerError::ERBadFTColumn => 1283,
            ServerError::ERTruncatedWrongValue => 1292,
            ServerError::ERTooMuchAutoTimestampCols => 1293,
            ServerError::ERInvalidOnUpdate => 1294,
            ServerError::ERUnknownTimeZone => 1298,
            ServerError::ERInvalidCharacterString => 1300,
            ServerError::ERIllegalReference => 1247,
            ServerError::ERDerivedMustHaveAlias => 1248,
            ServerError::ERTableNameNotAllowedHere => 1250,
            ServerError::ERQueryInterrupted => 1317,
            ServerError::ERTruncatedWrongValueForField => 1366,
            ServerError::ERDataTooLong => 1406,
            ServerError::ERDataOutOfRange => 1690,
        }
    }

    pub fn code(self) -> (r: u16)
        ensures
            r == self.spec_code(),
    {
        match self {
            ServerError::ERUnknownError => 1105,
            ServerError::ERNotSupportedYet => 1235,
            ServerError::ERDiskFull => 1021,
            ServerError::EROutOfMemory => 1037,
            ServerError::EROutOfSortMemory => 1038,
            ServerError::ERConCount => 1040,
            ServerError::EROutOfResources => 1041,
            ServerError::ERRecordFileFull => 1114,
            ServerError::ERHostIsBlocked => 1129,
            ServerError::ERCantCreateThread => 1135,
            ServerError::ERTooManyDelayedThreads => 1151,
            ServerError::ERNetPacketTooLarge => 1153,
            ServerError::ERTooManyUserConnections => 1203,
            ServerError::ERLockTableFull => 1206,
            ServerError::ERUserLimitReached => 1226,
            ServerError::ERLockWaitTimeout => 1205,
            ServerError::ERServerShutdown => 1053,
            ServerError::ERFormNotFound => 1029,
            ServerError::ERKeyNotFound => 1032,
            ServerError::ERBadFieldError => 1054,
            ServerError::ERNoSuchThread => 1094,
            ServerError::ERUnknownTable => 1109,
            ServerError::ERCantFindUDF => 1122,
            ServerError::ERNonExistingGrant => 1141,
            ServerError::ERNoSuchTable => 1146,
            ServerError::ERNonExistingTableGrant => 1147,
            ServerError::ERKeyDoesNotExist => 1176,
            ServerError::ERDBAccessDenied => 1044,
            ServerError::ERAccessDeniedError => 1045,
            ServerError::ERKillDenied => 1095,
            ServerError::ERNoPermissionToCreateUsers => 1211,
            ServerError::ERSpecifiedAccessDenied => 1227,
            ServerError::ERNoDb => 1046,
            ServerError::ERNoSuchIndex => 1082,
            ServerError::ERCantDropFieldOrKey => 1091,
            ServerError::ERTableNotLockedForWrite => 1099,
            ServerError::ERTableNotLocked => 1100,
            ServerError::ERTooBigSelect => 1104,
            ServerError::ERNotAllowedCommand => 1148,
            ServerError::ERTooLongString => 1162,
            ServerError::ERDelayedInsertTableLocked => 1165,
            ServerError::ERDupUnique => 1169,
            ServerError::ERRequiresPrimaryKey => 1173,
            ServerError::ERCantDoThisDuringAnTransaction => 1179,
            ServerError::ERReadOnlyTransaction => 1207,
            ServerError::ERCannotAddForeign => 1215,
            ServerError::ERNoReferencedRow => 1216,
            ServerError::ERRowIsReferenced => 1217,
            ServerError::ERCantUpdateWithReadLock => 1223,
            ServerError::ERNoDefault => 1230,
            ServerError::EROperandColumns => 1241,
            ServerError::ERSubqueryNo1Row => 1242,
            ServerError::ERNonUpdateableTable => 1288,
            ServerError::ERFeatureDisabled => 1289,
            ServerError::EROptionPreventsStatement => 1290,
            ServerError::ERDuplicatedValueInType => 1291,
            ServerError::ERRowIsReferenced2 => 1451,
            ServerError::ErNoReferencedRow2 => 1452,
            ServerError::ERTableExists => 1050,
            ServerError::ERDupEntry => 1062,
            ServerError::ERFileExists => 1086,
            ServerError::ERUDFExists => 1125,
            ServerError::ERGotSignal => 1078,
            ServerError::ERForcingClose => 1080,
            ServerError::ERAbortingConnection => 1152,
            ServerError::ERLockDeadlock => 1213,
            ServerError::ERUnknownComError => 1047,
            ServerError::ERBadNullError => 1048,
            ServerError::ERBadDb => 1049,
            ServerError::ERBadTable => 1051,
            ServerError::ERNonUniq => 1052,
            ServerError::ERWrongFieldWithGroup => 1055,
            ServerError::ERWrongGroupField => 1056,
            ServerError::ERWrongSumSelect => 1057,
            ServerError::ERWrongValueCount => 1058,
            ServerError::ERTooLongIdent => 1059,
            ServerError::ERDupFieldName => 1060,
            ServerError::ERDupKeyName => 1061,
            ServerError::ERWrongFieldSpec => 1063,
            ServerError::ERParseError => 1064,
            ServerError::EREmptyQuery => 1065,
            ServerError::ERNonUniqTable => 1066,
            ServerError::ERInvalidDefault => 1067,
            ServerError::ERMultiplePriKey => 1068,
            ServerError::ERTooManyKeys => 1069,
            ServerError::ERTooManyKeyParts => 1070,
            ServerError::ERTooLongKey => 1071,
            ServerError::ERKeyColumnDoesNotExist => 1072,
            ServerError::ERBlobUsedAsKey => 1073,
            ServerError::ERTooBigFieldLength => 1074,
            ServerError::ERWrongAutoKey => 1075,
            ServerError::ERWrongFieldTerminators => 1083,
            ServerError::ERBlobsAndNoTerminated => 1084,
            ServerError::ERTextFileNotReadable => 1085,
            ServerError::ERWrongSubKey => 1089,
            ServerError::ERCantRemoveAllFields => 1090,
            ServerError::ERUpdateTableUsed => 1093,
            ServerError::ERNoTablesUsed => 1096,
            ServerError::ERTooBigSet => 1097,
            ServerError::ERBlobCantHaveDefault => 1101,
            ServerError::ERWrongDbName => 1102,
            ServerError::ERWrongTableName => 1103,
            ServerError::ERUnknownProcedure => 1106,
            ServerError::ERWrongParamCountToProcedure => 1107,
            ServerError::ERWrongParametersToProcedure => 1108,
            ServerError::ERFieldSpecifiedTwice => 1110,
            ServerError::ERInvalidGroupFuncUse => 1111,
            ServerError::ERTableMustHaveColumns => 1113,
            ServerError::ERUnknownCharacterSet => 1115,
            ServerError::ERTooManyTables => 1116,
            ServerError::ERTooManyFields => 1117,
            ServerError::ERTooBigRowSize => 1118,
            ServerError::ERWrongOuterJoin => 1120,
            ServerError::ERNullColumnInIndex => 1121,
            ServerError::ERFunctionNotDefined => 1128,
            ServerError::ERWrongValueCountOnRow => 1136,
            ServerError::ERInvalidUseOfNull => 1138,
            ServerError::ERRegexpError => 1139,
            ServerError::ERMixOfGroupFuncAndFields => 1140,
            ServerError::ERIllegalGrantForTable => 1144,
            ServerError::ERSyntaxError => 1149,
            ServerError::ERWrongColumnName => 1166,
            ServerError::ERWrongKeyColumn => 1167,
            ServerError::ERBlobKeyWithoutLength => 1170,
            ServerError::ERPrimaryCantHaveNull => 1171,
            ServerError::ERTooManyRows => 1172,
            ServerError::ERUnknownSystemVariable => 1193,
            ServerError::ERSetConstantsOnly => 1204,
            ServerError::ERWrongArguments => 1210,
            ServerError::ERWrongUsage => 1221,
            ServerError::ERWrongNumberOfColumnsInSelect => 1222,
            ServerError::ERDupArgument => 1225,
            ServerError::ERLocalVariable => 1228,
            ServerError::ERGlobalVariable => 1229,
            ServerError::ERWrongValueForVar => 1231,
            ServerError::ERWrongTypeForVar => 1232,
            ServerError::ERVarCantBeRead => 1233,
            ServerError::ERCantUseOptionHere => 1234,
            ServerError::ERIncorrectGlobalLocalVar => 1238,
            ServerError::ERWrongFKDef => 1239,
            ServerError::ERKeyRefDoNotMatchTableRef => 1240,
            ServerError::ERCyclicReference => 1245,
            ServerError::ERCollationCharsetMismatch => 1253,
            ServerError::ERCantAggregate2Collations => 1267,
            ServerError::ERCantAggregate3Collations => 1270,
            ServerError::ERCantAggregateNCollations => 1271,
            ServerError::ERVariableIsNotStruct => 1272,
            ServerError::ERUnknownCollation => 1273,
            ServerError::ERWrongNameForIndex => 1280,
            ServerError::ERWrongNameForCatalog => 1281,
            ServerError::ERBadFTColumn => 1283,
            ServerError::ERTruncatedWrongValue => 1292,
            ServerError::ERTooMuchAutoTimestampCols => 1293,
            ServerError::ERInvalidOnUpdate => 1294,
            ServerError::ERUnknownTimeZone => 1298,
            ServerError::ERInvalidCharacterString => 1300,
            ServerError::ERIllegalReference => 1247,
            ServerError::ERDerivedMustHaveAlias => 1248,
            ServerError::ERTableNameNotAllowedHere => 1250,
            ServerError::ERQueryInterrupted => 1317,
            ServerError::ERTruncatedWrongValueForField => 1366,
            ServerError::ERDataTooLong => 1406,
            ServerError::ERDataOutOfRange => 1690,
        }
    }
}

/// SQL-state classes for errors, five ASCII bytes each.
#[derive(Clone, Copy, Debug, PartialEq, Eq, Structural)]
pub enum StateError {
    SSUnknownSQLState,
    SSUnknownComError,
    SSHandshakeError,
    SSServerShutdown,
    SSDataTooLong,
    SSDataOutOfRange,
    SSBadNullError,
    SSBadFieldError,
    SSDupKey,
    SSCantDoThisDuringAnTransaction,
    SSAccessDeniedError,
    SSLockDeadlock,
}

impl StateError {
    /// The five-byte SQL state of this error class.
    pub open spec fn spec_sql_state(self) -> Seq<u8> {
        match self {
            StateError::SSUnknownSQLState => seq![72u8, 89u8, 48u8, 48u8, 48u8],
            StateError::SSUnknownComError => seq![48u8, 56u8, 83u8, 48u8, 49u8],
            StateError::SSHandshakeError => seq![48u8, 56u8, 83u8, 48u8, 49u8],
            StateError::SSServerShutdown => seq![48u8, 56u8, 83u8, 48u8, 49u8],
            StateError::SSDataTooLong => seq![50u8, 50u8, 48u8, 48u8, 49u8],
            StateError::SSDataOutOfRange => seq![50u8, 50u8, 48u8, 48u8, 51u8],
            StateError::SSBadNullError => seq![50u8, 51u8, 48u8, 48u8, 48u8],
            StateError::SSBadFieldError => seq![52u8, 50u8, 83u8, 50u8, 50u8],
            StateError::SSDupKey => seq![50u8, 51u8, 48u8, 48u8, 48u8],
            StateError::SSCantDoThisDuringAnTransaction => seq![50u8, 53u8, 48u8, 48u8, 48u8],
            StateError::SSAccessDeniedError => seq![50u8, 56u8, 48u8, 48u8, 48u8],
            StateError::SSLockDeadlock => seq![52u8, 48u8, 48u8, 48u8, 49u8],
        }
    }

    pub fn sql_state(self) -> (r: Vec<u8>)
        ensures
            r@ == self.spec_sql_state(),
            r@.len() == 5,
    {
        let v: Vec<u8> = match self {
            StateError::SSUnknownSQLState => vec![72u8, 89u8, 48u8, 48u8, 48u8],
            StateError::SSUnknownComError => vec![48u8, 56u8, 83u8, 48u8, 49u8],
            StateError::SSHandshakeError => vec![48u8, 56u8, 83u8, 48u8, 49u8],
            StateError::SSServerShutdown => vec![48u8, 56u8, 83u8, 48u8, 49u8],
            StateError::SSDataTooLong => vec![50u8, 50u8, 48u8, 48u8, 49u8],
            StateError::SSDataOutOfRange => vec![50u8, 50u8, 48u8, 48u8, 51u8],
            StateError::SSBadNullError => vec![50u8, 51u8, 48u8, 48u8, 48u8],
            StateError::SSBadFieldError => vec![52u8, 50u8, 83u8, 50u8, 50u8],
            StateError::SSDupKey => vec![50u8, 51u8, 48u8, 48u8, 48u8],
            StateError::SSCantDoThisDuringAnTransaction => vec![50u8, 53u8, 48u8, 48u8, 48u8],
            StateError::SSAccessDeniedError => vec![50u8, 56u8, 48u8, 48u8, 48u8],
            StateError::SSLockDeadlock => vec![52u8, 48u8, 48u8, 48u8, 49u8],
        };
        proof {
            assert(v@ =~= self.spec_sql_state());
        }
        v
    }
}

/// TLS protocol versions a client may ask to upgrade to.
#[derive(Clone, Copy, Debug, PartialEq, Eq, Structural)]
pub enum TLSVersion {
    VersionTLS10,
    VersionTLS11,
    VersionTLS12,
    VersionTLS13,
    VersionSSL30,
}

impl TLSVersion {
    /// The wire code of this TLS version.
    pub open spec fn spec_value(self) -> u16 {
        match self {
            TLSVersion::VersionTLS10 => 0x0301,
            TLSVersion::VersionTLS11 => 0x0302,
            TLSVersion::VersionTLS12 => 0x0303,
            TLSVersion::VersionTLS13 => 0x0304,
            TLSVersion::VersionSSL30 => 0x0300,
        }
    }

    pub fn value(self) -> (r: u16)
        ensures
            r == self.spec_value(),
    {
        match self {
            TLSVersion::VersionTLS10 => 0x0301,
            TLSVersion::VersionTLS11 => 0x0302,
            TLSVersion::VersionTLS12 => 0x0303,
            TLSVersion::VersionTLS13 => 0x0304,
            TLSVersion::VersionSSL30 => 0x0300,
        }
    }

    /// The TLS version a wire code names, if any.
    pub open spec fn spec_from_code(v: u64) -> Option<TLSVersion> {
        match v {
            0x0301 => Some(TLSVersion::VersionTLS10),
            0x0302 => Some(TLSVersion::VersionTLS11),
            0x0303 => Some(TLSVersion::VersionTLS12),
            0x0304 => Some(TLSVersion::VersionTLS13),
            0x0300 => Some(TLSVersion::VersionSSL30),
            _ => None,
        }
    }

    pub fn from_code(v: u64) -> (r: Option<TLSVersion>)
        ensures
            r == Self::spec_from_code(v),
    {
        match v {
            0x0301 => Some(TLSVersion::VersionTLS10),
            0x0302 => Some(TLSVersion::VersionTLS11),
            0x0303 => Some(TLSVersion::VersionTLS12),
            0x0304 => Some(TLSVersion::VersionTLS13),
            0x0300 => Some(TLSVersion::VersionSSL30),
            _ => None,
        }
    }
}

/// The numeric charset id of a charset name, or -1 for a name outside the
/// recognized map.
pub open spec fn spec_charset_id(s: Seq<u8>) -> i32 {
    if s == seq![98u8, 105u8, 103u8, 53u8] {
        1
    } else if s == seq![100u8, 101u8, 99u8, 56u8] {
        3
    } else if s == seq![99u8, 112u8, 56u8, 53u8, 48u8] {
        4
    } else if s == seq![104u8, 112u8, 56u8] {
        6
    } else if s == seq![107u8, 111u8, 105u8, 56u8, 114u8] {
        7
    } else if s == seq![108u8, 97u8, 116u8, 105u8, 110u8, 49u8] {
        8
    } else if s == seq![108u8, 97u8, 116u8, 105u8, 110u8, 50u8] {
        9
    } else if s == seq![115u8, 119u8, 101u8, 55u8] {
        10
    } else if s == seq![97u8, 115u8, 99u8, 105u8, 105u8] {
        11
    } else if s == seq![117u8, 106u8, 105u8, 115u8] {
        12
    } else if s == seq![115u8, 106u8, 105u8, 115u8] {
        13
    } else if s == seq![104u8, 101u8, 98u8, 114u8, 101u8, 119u8] {
        16
    } else if s == seq![116u8, 105u8, 115u8, 54u8, 50u8, 48u8] {
        18
    } else if s == seq![101u8, 117u8, 99u8, 107u8, 114u8] {
        19
    } else if s == seq![107u8, 111u8, 105u8, 56u8, 117u8] {
        22
    } else if s == seq![103u8, 98u8, 50u8, 51u8, 49u8, 50u8] {
        24
    } else if s == seq![103u8, 114u8, 101u8, 101u8, 107u8] {
        25
    } else if s == seq![99u8, 112u8, 49u8, 50u8, 53u8, 48u8] {
        26
    } else if s == seq![103u8, 98u8, 107u8] {
        28
    } else if s == seq![108u8, 97u8, 116u8, 105u8, 110u8, 53u8] {
        30
    } else if s == seq![97u8, 114u8, 109u8, 115u8, 99u8, 105u8, 105u8, 56u8] {
        32
    } else if s == seq![117u8, 116u8, 102u8, 56u8] {
        33
    } else if s == seq![117u8, 99u8, 115u8, 50u8] {
        35
    } else if s == seq![99u8, 112u8, 56u8, 54u8, 54u8] {
        36
    } else if s == seq![107u8, 101u8, 121u8, 98u8, 99u8, 115u8, 50u8] {
        37
    } else if s == seq![109u8, 97u8, 99u8, 99u8, 101u8] {
        38
    } else if s == seq![109u8, 97u8, 99u8, 114u8, 111u8, 109u8, 97u8, 110u8] {
        39
    } else if s == seq![99u8, 112u8, 56u8, 53u8, 50u8] {
        40
    } else if s == seq![108u8, 97u8, 116u8, 105u8, 110u8, 55u8] {
        41
    } else if s == seq![117u8, 116u8, 102u8, 56u8, 109u8, 98u8, 52u8] {
        45
    } else if s == seq![99u8, 112u8, 49u8, 50u8, 53u8, 49u8] {
        51
    } else if s == seq![117u8, 116u8, 102u8, 49u8, 54u8] {
        54
    } else if s == seq![117u8, 116u8, 102u8, 49u8, 54u8, 108u8, 101u8] {
        56
    } else if s == seq![99u8, 112u8, 49u8, 50u8, 53u8, 54u8] {
        57
    } else if s == seq![99u8, 112u8, 49u8, 50u8, 53u8, 55u8] {
        59
    } else if s == seq![117u8, 116u8, 102u8, 51u8, 50u8] {
        60
    } else if s == seq![98u8, 105u8, 110u8, 97u8, 114u8, 121u8] {
        63
    } else if s == seq![103u8, 101u8, 111u8, 115u8, 116u8, 100u8, 56u8] {
        92
    } else if s == seq![99u8, 112u8, 57u8, 51u8, 50u8] {
        95
    } else if s == seq![101u8, 117u8, 99u8, 106u8, 112u8, 109u8, 115u8] {
        97
    } else {
        (-1) as i32
    }
}

/// Maps a charset name to its numeric id.
pub fn convert_character_value(c: &Vec<u8>) -> (r: i32)
    requires
        spec_charset_id(c@) != -1,
    ensures
        r == spec_charset_id(c@),
{
    let t: Vec<u8> = vec![98u8, 105u8, 103u8, 53u8];
    proof {
        assert(t@ =~= seq![98u8, 105u8, 103u8, 53u8]);
    }
    if *c == t {
        proof {
            assert(c@ =~= t@);
        }
        return 1;
    }
    let t: Vec<u8> = vec![100u8, 101u8, 99u8, 56u8];
    proof {
        assert(t@ =~= seq![100u8, 101u8, 99u8, 56u8]);
    }
    if *c == t {
        proof {
            assert(c@ =~= t@);
        }
        return 3;
    }
    let t: Vec<u8> = vec![99u8, 112u8, 56u8, 53u8, 48u8];
    proof {
        assert(t@ =~= seq![99u8, 112u8, 56u8, 53u8, 48u8]);
    }
    if *c == t {
        proof {
            assert(c@ =~= t@);
        }
        return 4;
    }
    let t: Vec<u8> = vec![104u8, 112u8, 56u8];
    proof {
        assert(t@ =~= seq![104u8, 112u8, 56u8]);
    }
    if *c == t {
        proof {
            assert(c@ =~= t@);
        }
        return 6;
    }
    let t: Vec<u8> = vec![107u8, 111u8, 105u8, 56u8, 114u8];
    proof {
        assert(t@ =~= seq![107u8, 111u8, 105u8, 56u8, 114u8]);
    }
    if *c == t {
        proof {
            assert(c@ =~= t@);
        }
        return 7;
    }
    let t: Vec<u8> = vec![108u8, 97u8, 116u8, 105u8, 110u8, 49u8];
    proof {
        assert(t@ =~= seq![108u8, 97u8, 116u8, 105u8, 110u8, 49u8]);
    }
    if *c == t {
        proof {
            assert(c@ =~= t@);
        }
        return 8;
    }
    let t: Vec<u8> = vec![108u8, 97u8, 116u8, 105u8, 110u8, 50u8];
    proof {
        assert(t@ =~= seq![108u8, 97u8, 116u8, 105u8, 110u8, 50u8]);
    }
    if *c == t {
        proof {
            assert(c@ =~= t@);
        }
        return 9;
    }
    let t: Vec<u8> = vec![115u8, 119u8, 101u8, 55u8];
    proof {
        assert(t@ =~= seq![115u8, 119u8, 101u8, 55u8]);
    }
    if *c == t {
        proof {
            assert(c@ =~= t@);
        }
        return 10;
    }
    let t: Vec<u8> = vec![97u8, 115u8, 99u8, 105u8, 105u8];
    proof {
        assert(t@ =~= seq![97u8, 115u8, 99u8, 105u8, 105u8]);
    }
    if *c == t {
        proof {
            assert(c@ =~= t@);
        }
        return 11;
    }
    let t: Vec<u8> = vec![117u8, 106u8, 105u8, 115u8];
    proof {
        assert(t@ =~= seq![117u8, 106u8, 105u8, 115u8]);
    }
    if *c == t {
        proof {
            assert(c@ =~= t@);
        }
        return 12;
    }
    let t: Vec<u8> = vec![115u8, 106u8, 105u8, 115u8];
    proof {
        assert(t@ =~= seq![115u8, 106u8, 105u8, 115u8]);
    }
    if *c == t {
        proof {
            assert(c@ =~= t@);
        }
        return 13;
    }
    let t: Vec<u8> = vec![104u8, 101u8, 98u8, 114u8, 101u8, 119u8];
    proof {
        assert(t@ =~= seq![104u8, 101u8, 98u8, 114u8, 101u8, 119u8]);
    }
    if *c == t {
        proof {
            assert(c@ =~= t@);
        }
        return 16;
    }
    let t: Vec<u8> = vec![116u8, 105u8, 115u8, 54u8, 50u8, 48u8];
    proof {
        assert(t@ =~= seq![116u8, 105u8, 115u8, 54u8, 50u8, 48u8]);
    }
    if *c == t {
        proof {
            assert(c@ =~= t@);
        }
        return 18;
    }
    let t: Vec<u8> = vec![101u8, 117u8, 99u8, 107u8, 114u8];
    proof {
        assert(t@ =~= seq![101u8, 117u8, 99u8, 107u8, 114u8]);
    }
    if *c == t {
        proof {
            assert(c@ =~= t@);
        }
        return 19;
    }
    let t: Vec<u8> = vec![107u8, 111u8, 105u8, 56u8, 117u8];
    proof {
        assert(t@ =~= seq![107u8, 111u8, 105u8, 56u8, 117u8]);
    }
    if *c == t {
        proof {
            assert(c@ =~= t@);
        }
        return 22;
    }
    let t: Vec<u8> = vec![103u8, 98u8, 50u8, 51u8, 49u8, 50u8];
    proof {
        assert(t@ =~= seq![103u8, 98u8, 50u8, 51u8, 49u8, 50u8]);
    }
    if *c == t {
        proof {
            assert(c@ =~= t@);
        }
        return 24;
    }
    let t: Vec<u8> = vec![103u8, 114u8, 101u8, 101u8, 107u8];
    proof {
        assert(t@ =~= seq![103u8, 114u8, 101u8, 101u8, 107u8]);
    }
    if *c == t {
        proof {
            assert(c@ =~= t@);
        }
        return 25;
    }
    let t: Vec<u8> = vec![99u8, 112u8, 49u8, 50u8, 53u8, 48u8];
    proof {
        assert(t@ =~= seq![99u8, 112u8, 49u8, 50u8, 53u8, 48u8]);
    }
    if *c == t {
        proof {
            assert(c@ =~= t@);
        }
        return 26;
    }
    let t: Vec<u8> = vec![103u8, 98u8, 107u8];
    proof {
        assert(t@ =~= seq![103u8, 98u8, 107u8]);
    }
    if *c == t {
        proof {
            assert(c@ =~= t@);
        }
        return 28;
    }
    let t: Vec<u8> = vec![108u8, 97u8, 116u8, 105u8, 110u8, 53u8];
    proof {
        assert(t@ =~= seq![108u8, 97u8, 116u8, 105u8, 110u8, 53u8]);
    }
    if *c == t {
        proof {
            assert(c@ =~= t@);
        }
        return 30;
    }
    let t: Vec<u8> = vec![97u8, 114u8, 109u8, 115u8, 99u8, 105u8, 105u8, 56u8];
    proof {
        assert(t@ =~= seq![97u8, 114u8, 109u8, 115u8, 99u8, 105u8, 105u8, 56u8]);
    }
    if *c == t {
        proof {
            assert(c@ =~= t@);
        }
        return 32;
    }
    let t: Vec<u8> = vec![117u8, 116u8, 102u8, 56u8];
    proof {
        assert(t@ =~= seq![117u8, 116u8, 102u8, 56u8]);
    }
    if *c == t {
        proof {
            assert(c@ =~= t@);
        }
        return 33;
    }
    let t: Vec<u8> = vec![117u8, 99u8, 115u8, 50u8];
    proof {
        assert(t@ =~= seq![117u8, 99u8, 115u8, 50u8]);
    }
    if *c == t {
        proof {
            assert(c@ =~= t@);
        }
        return 35;
    }
    let t: Vec<u8> = vec![99u8, 112u8, 56u8, 54u8, 54u8];
    proof {
        assert(t@ =~= seq![99u8, 112u8, 56u8, 54u8, 54u8]);
    }
    if *c == t {
        proof {
            assert(c@ =~= t@);
        }
        return 36;
    }
    let t: Vec<u8> = vec![107u8, 101u8, 121u8, 98u8, 99u8, 115u8, 50u8];
    proof {
        assert(t@ =~= seq![107u8, 101u8, 121u8, 98u8, 99u8, 115u8, 50u8]);
    }
    if *c == t {
        proof {
            assert(c@ =~= t@);
        }
        return 37;
    }
    let t: Vec<u8> = vec![109u8, 97u8, 99u8, 99u8, 101u8];
    proof {
        assert(t@ =~= seq![109u8, 97u8, 99u8, 99u8, 101u8]);
    }
    if *c == t {
        proof {
            assert(c@ =~= t@);
        }
        return 38;
    }
    let t: Vec<u8> = vec![109u8, 97u8, 99u8, 114u8, 111u8, 109u8, 97u8, 110u8];
    proof {
        assert(t@ =~= seq![109u8, 97u8, 99u8, 114u8, 111u8, 109u8, 97u8, 110u8]);
    }
    if *c == t {
        proof {
            assert(c@ =~= t@);
        }
        return 39;
    }
    let t: Vec<u8> = vec![99u8, 112u8, 56u8, 53u8, 50u8];
    proof {
        assert(t@ =~= seq![99u8, 112u8, 56u8, 53u8, 50u8]);
    }
    if *c == t {
        proof {
            assert(c@ =~= t@);
        }
        return 40;
    }
    let t: Vec<u8> = vec![108u8, 97u8, 116u8, 105u8, 110u8, 55u8];
    proof {
        assert(t@ =~= seq![108u8, 97u8, 116u8, 105u8, 110u8, 55u8]);
    }
    if *c == t {
        proof {
            assert(c@ =~= t@);
        }
        return 41;
    }
    let t: Vec<u8> = vec![117u8, 116u8, 102u8, 56u8, 109u8, 98u8, 52u8];
    proof {
        assert(t@ =~= seq![117u8, 116u8, 102u8, 56u8, 109u8, 98u8, 52u8]);
    }
    if *c == t {
        proof {
            assert(c@ =~= t@);
        }
        return 45;
    }
    let t: Vec<u8> = vec![99u8, 112u8, 49u8, 50u8, 53u8, 49u8];
    proof {
        assert(t@ =~= seq![99u8, 112u8, 49u8, 50u8, 53u8, 49u8]);
    }
    if *c == t {
        proof {
            assert(c@ =~= t@);
        }
        return 51;
    }
    let t: Vec<u8> = vec![117u8, 116u8, 102u8, 49u8, 54u8];
    proof {
        assert(t@ =~= seq![117u8, 116u8, 102u8, 49u8, 54u8]);
    }
    if *c == t {
        proof {
            assert(c@ =~= t@);
        }
        return 54;
    }
    let t: Vec<u8> = vec![117u8, 116u8, 102u8, 49u8, 54u8, 108u8, 101u8];
    proof {
        assert(t@ =~= seq![117u8, 116u8, 102u8, 49u8, 54u8, 108u8, 101u8]);
    }
    if *c == t {
        proof {
            assert(c@ =~= t@);
        }
        return 56;
    }
    let t: Vec<u8> = vec![99u8, 112u8, 49u8, 50u8, 53u8, 54u8];
    proof {
        assert(t@ =~= seq![99u8, 112u8, 49u8, 50u8, 53u8, 54u8]);
    }
    if *c == t {
        proof {
            assert(c@ =~= t@);
        }
        return 57;
    }
    let t: Vec<u8> = vec![99u8, 112u8, 49u8, 50u8, 53u8, 55u8];
    proof {
        assert(t@ =~= seq![99u8, 112u8, 49u8, 50u8, 53u8, 55u8]);
    }
    if *c == t {
        proof {
            assert(c@ =~= t@);
        }
        return 59;
    }
    let t: Vec<u8> = vec![117u8, 116u8, 102u8, 51u8, 50u8];
    proof {
        assert(t@ =~= seq![117u8, 116u8, 102u8, 51u8, 50u8]);
    }
    if *c == t {
        proof {
            assert(c@ =~= t@);
        }
        return 60;
    }
    let t: Vec<u8> = vec![98u8, 105u8, 110u8, 97u8, 114u8, 121u8];
    proof {
        assert(t@ =~= seq![98u8, 105u8, 110u8, 97u8, 114u8, 121u8]);
    }
    if *c == t {
        proof {
            assert(c@ =~= t@);
        }
        return 63;
    }
    let t: Vec<u8> = vec![103u8, 101u8, 111u8, 115u8, 116u8, 100u8, 56u8];
    proof {
        assert(t@ =~= seq![103u8, 101u8, 111u8, 115u8, 116u8, 100u8, 56u8]);
    }
    if *c == t {
        proof {
            assert(c@ =~= t@);
        }
        return 92;
    }
    let t: Vec<u8> = vec![99u8, 112u8, 57u8, 51u8, 50u8];
    proof {
        assert(t@ =~= seq![99u8, 112u8, 57u8, 51u8, 50u8]);
    }
    if *c == t {
        proof {
            assert(c@ =~= t@);
        }
        return 95;
    }
    let t: Vec<u8> = vec![101u8, 117u8, 99u8, 106u8, 112u8, 109u8, 115u8];
    proof {
        assert(t@ =~= seq![101u8, 117u8, 99u8, 106u8, 112u8, 109u8, 115u8]);
    }
    if *c == t {
        proof {
            assert(c@ =~= t@);
        }
        return 97;
    }
    proof {
        assert(false);
    }
    -1
}

/// Whether an error number is a client-side connection error: the span of
/// client error codes from CR_UNKNOWN_ERROR (2000) through
/// CR_NAMEDPIPESETSTATE_ERROR (2018), or ER_QUERY_INTERRUPTED (1317).
pub fn is_conn_err(num: i32) -> (r: bool)
    ensures
        r == (2000 <= num <= 2018 || num == 1317),
{
    (num >= 2000 && num <= 2018) || num == 1317
}

} // verus!
