//! Router signalling for a media host: the control-channel protocol spoken with a
//! router service, the reconnection policy of that channel, and the rewriting of
//! ICE candidates whose address is a multicast-DNS host name.
pub mod candidate;
pub mod connection;
pub mod error;
pub mod json;
pub mod protocol;
pub mod signaller;
