//! The library's own messages where messages are bare bytes: there are no
//! categories to tell them apart by, so all of them are empty.

use crate::common::binary_message;
use tokio_tungstenite::tungstenite::Message;
use vstd::prelude::*;

verus! {

/// The ping of a client.
pub fn make_ping_message(_peer: &str) -> (message: Message)
    ensures
        crate::common::carries(message, Seq::<u8>::empty()),
{
    binary_message(Vec::new())
}

/// The server's answer to a ping.
pub fn make_pong_message() -> (message: Message)
    ensures
        crate::common::carries(message, Seq::<u8>::empty()),
{
    binary_message(Vec::new())
}

/// The notice that a connection is about to be closed.
pub fn make_disconnect_message(_peer: &str) -> (message: Message)
    ensures
        crate::common::carries(message, Seq::<u8>::empty()),
{
    binary_message(Vec::new())
}

/// The notice that a registration has run out.
pub fn make_expired_output_message() -> (message: Message)
    ensures
        crate::common::carries(message, Seq::<u8>::empty()),
{
    binary_message(Vec::new())
}

} // verus!
