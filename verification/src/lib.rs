//! A stateless increment/decrement service: the datagram wire format and the
//! decisions a server worker takes for each datagram it is handed.

pub mod codec;
pub mod dispatch;
