//! The message handed onward once a chunk has been filtered.

use vstd::prelude::*;
use vstd::string::StringExecFns;

verus! {

/// A clean message on its way to the consumer: the filtered payload and a
/// subject naming the connection it came from.
pub struct BrokerMessage {
    /// Where the message came from: "telnet." followed by host:port.
    pub subject: String,
    /// The filtered payload bytes.
    pub body: Vec<u8>,
    /// A reply subject; this receive-only client never sets one.
    pub reply_to: Option<String>,
}

/// Wrap a filtered payload for delivery, tagging it with the address of the
/// connection it was read from.
pub fn create_broker_message(data: Vec<u8>, telnet_address: &str) -> (m: BrokerMessage)
    ensures
        m.subject@ == "telnet."@ + telnet_address@,
        m.body@ == data@,
        m.reply_to is None,
{
    let mut subject = String::from_str("telnet.");
    subject.append(telnet_address);
    BrokerMessage { subject, body: data, reply_to: None }
}

} // verus!
