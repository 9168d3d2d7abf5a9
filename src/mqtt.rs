//! What the broker worker publishes: the messages producers enqueue, their
//! JSON text, and the topic each goes to.

use crate::json::{decimal, decimal_string, payload_json, wrapper_json};
use crate::packet::{Packet, PacketWrapper};
use vstd::prelude::*;
use vstd::string::StringExecFns;

verus! {

/// Anything that can be published: a bare frame (from the sensor worker) or
/// a received frame with its link metadata (from the radio worker).
pub enum MQTTMessage {
    Packet(Packet),
    PacketWrapper(PacketWrapper),
}

/// The JSON text published for a message.
pub open spec fn message_json(m: MQTTMessage) -> Seq<char> {
    match m {
        MQTTMessage::Packet(p) => "{ "@ + payload_json(p.data@) + " }"@,
        MQTTMessage::PacketWrapper(w) => wrapper_json(w.packet.data@, w.metadata),
    }
}

/// The device a message comes from.
pub open spec fn message_device_id(m: MQTTMessage) -> u8 {
    match m {
        MQTTMessage::Packet(p) => p.id,
        MQTTMessage::PacketWrapper(w) => w.packet.id,
    }
}

/// `s` with every occurrence of the non-empty `pat` replaced by `rep`,
/// scanning from the left and resuming after each replacement.
pub open spec fn replace_all(s: Seq<char>, pat: Seq<char>, rep: Seq<char>) -> Seq<char>
    decreases s.len(),
{
    if pat.len() == 0 || s.len() < pat.len() {
        s
    } else if s.subrange(0, pat.len() as int) == pat {
        rep + replace_all(s.subrange(pat.len() as int, s.len() as int), pat, rep)
    } else {
        seq![s[0]] + replace_all(s.subrange(1, s.len() as int), pat, rep)
    }
}

/// The placeholder a topic template may hold for the sender's device id.
pub open spec fn device_id_placeholder() -> Seq<char> {
    "{device_id}"@
}

/// Relies on str::replace: every non-overlapping match of `from`, taken from
/// the left, is replaced by `to`.
#[verifier::external_body]
fn replace_str(s: &str, from: &str, to: &str) -> (r: String)
    requires
        from@.len() > 0,
    ensures
        r@ == replace_all(s@, from@, to@),
{
    s.replace(from, to)
}

/// The topic for a message from `device_id`: the template with each
/// `{device_id}` replaced by the id in decimal.
pub fn topic_for(template: &String, device_id: u8) -> (r: String)
    ensures
        r@ == replace_all(template@, device_id_placeholder(), decimal(device_id as nat)),
{
    let id = decimal_string(device_id as u128);
    proof {
        reveal_strlit("{device_id}");
    }
    replace_str(template.as_str(), "{device_id}", id.as_str())
}

impl MQTTMessage {
    /// The JSON object to publish.
    pub fn to_json(&self) -> (r: String)
        ensures
            r@ == message_json(*self),
    {
        match self {
            MQTTMessage::Packet(packet) => {
                let mut s = String::new();
                s.append("{ ");
                let body = packet.to_json();
                s.append(body.as_str());
                s.append(" }");
                assert(s@ =~= message_json(*self));
                s
            },
            MQTTMessage::PacketWrapper(wrapped) => wrapped.to_json(),
        }
    }

    pub fn get_device_id(&self) -> (r: u8)
        ensures
            r == message_device_id(*self),
    {
        match self {
            MQTTMessage::Packet(packet) => packet.id,
            MQTTMessage::PacketWrapper(wrapped) => wrapped.packet.id,
        }
    }

    /// The topic this message goes to under `template`.
    pub fn topic(&self, template: &String) -> (r: String)
        ensures
            r@ == replace_all(
                template@,
                device_id_placeholder(),
                decimal(message_device_id(*self) as nat),
            ),
    {
        topic_for(template, self.get_device_id())
    }
}

} // verus!
