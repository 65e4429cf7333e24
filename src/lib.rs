//! A SOCKS5 (RFC 1928) proxy core: the wire codec for addresses, greetings,
//! requests and replies, the ordered filter chain, and the per-connection
//! state machine that decides what the surrounding I/O layer does next.

pub mod addr;
pub mod cmd;
pub mod error;
pub mod filter;
pub mod proxy;
pub mod request;
pub mod response;
pub mod session;

pub use addr::{Addr, IpAddr};
pub use cmd::Cmd;
pub use error::{Error, ErrorKind};
pub use filter::FilterResult;
pub use proxy::ConnectFailure;
pub use request::Request;
pub use response::{Reply, Response};
pub use session::{Phase, Session, Step};
