//! Protocol bridge of a terminal chat client that exchanges short messages
//! over a delay-tolerant bundle transport.

pub mod endpoint;
pub mod text;
pub mod channel;
pub mod codec;
pub mod dispatch;
pub mod router;
pub mod session;
