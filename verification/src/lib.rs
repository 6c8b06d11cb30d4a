//! A small blocking HTTP/1.1 client core: a request descriptor, the exact
//! bytes it puts on the wire, and the decisions of the transport that carries
//! them over plain TCP, TLS, or an HTTP proxy.
//!
//! Nothing here touches a socket. The descriptor ([`Client`]) is plain data
//! with its rules; [`transport::step`] says, for each thing that happened on
//! the connection, what has to be done next. A driver performs those actions.

pub mod error;
pub mod request;
pub mod route;
pub mod text;
pub mod transport;
pub mod tunnel;
pub mod url;
pub mod wire;

pub use error::HttpError;
pub use request::{Client, Methods, Proxy};
