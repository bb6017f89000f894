//! Server side of the MySQL client/server wire protocol, version 10 with the
//! 4.1 extensions: packet framing with its sequence-id discipline, the
//! connection-phase handshake (greeting generation, native-password
//! authentication) and the command phase (dispatch and result-set
//! streaming). The framer works over in-memory buffers; the owner of the
//! socket feeds received bytes in and sends the framed bytes out.

pub mod auth;
pub mod codec;
pub mod connection;
pub mod constants;
pub mod errors;
pub mod greeting;
pub mod packets;
pub mod sql_type;
pub mod stream;

pub use auth::Auth;
pub use connection::Connection;
pub use errors::{ProtoError, ProtoResult};
pub use greeting::Greeting;
pub use packets::{CommandAction, Packets};
pub use sql_type::{Field, SqlResult, Value};
pub use stream::Stream;
