//! The transport that a logger hands its messages to.

use vstd::prelude::*;
use crate::message::wire_message::WireMessage;

verus! {

/// A transport for messages that are ready for the wire. How a message is
/// compressed, framed and delivered, and what happens when delivery fails, is
/// the transport's own business.
pub trait Backend: Sync + Send {
    /// Takes over one message.
    fn log(&self, msg: WireMessage);
}

} // verus!
