//! The subscribe-backed publisher: a push model over a persistent
//! subscription. The socket and the suspension on the next inbound frame stay
//! with the driver; what stands here is the variant's configuration, its
//! identity string, and the assembly of a multipart frame into one message
//! text, where an undecodable part yields "no message now" rather than ending
//! the loop. The transport has no completion concept, so acknowledgement is a
//! no-op.

use vstd::prelude::*;
use vstd::string::StringExecFns;

use crate::interfaces::{Publisher, RawMessage};
use crate::routing::FlowMap;

verus! {

/// The subscribe-backed source: socket URI, topic, and the static mapping from
/// message type to flow action.
#[derive(Debug, Clone)]
pub struct Zmq {
    pub tcp_uri: String,
    pub topic: String,
    pub message_flow_actions: FlowMap,
}

/// One assembled inbound frame.
#[derive(Debug, Clone)]
pub struct ZmqMsg {
    pub msg: String,
}

impl RawMessage for ZmqMsg {
    open spec fn content_spec(&self) -> Seq<char> {
        self.msg@
    }

    fn get_content_str(&self) -> (r: String) {
        self.msg.clone()
    }
}

impl Publisher for Zmq {
    type PubMessage = ZmqMsg;

    open spec fn repr_spec(&self) -> Seq<char> {
        "ZMQ "@ + self.tcp_uri@
    }

    fn repr(&self) -> (r: String) {
        String::from_str("ZMQ ").concat(self.tcp_uri.as_str())
    }
}

impl Zmq {
    pub fn new(tcp_uri: String, topic: String, message_flow_actions: FlowMap) -> (r: Zmq)
        ensures
            r.tcp_uri == tcp_uri,
            r.topic == topic,
            r.message_flow_actions == message_flow_actions,
    {
        Zmq { tcp_uri, topic, message_flow_actions }
    }

    pub fn flow_action_map(&self) -> (r: &FlowMap)
        ensures
            r == &self.message_flow_actions,
    {
        &self.message_flow_actions
    }

    /// Acknowledgement is a no-op for this variant.
    pub fn task_done(&mut self, _message: ZmqMsg)
        ensures
            *final(self) == *old(self),
    {
    }
}

/// The text of a multipart frame: the concatenation of its parts in order, or
/// nothing when any part could not be decoded as text.
pub open spec fn assembled_spec(parts: Seq<Option<String>>) -> Option<Seq<char>>
    decreases parts.len(),
{
    if parts.len() == 0 {
        Some(Seq::<char>::empty())
    } else if parts[0] is None {
        None
    } else {
        match assembled_spec(parts.drop_first()) {
            Some(rest) => Some(parts[0]->0@ + rest),
            None => None,
        }
    }
}

/// Assembles a multipart frame, each part already decoded to text where
/// possible; any undecodable part makes the whole frame yield "no message
/// now", it never ends the loop.
pub fn assemble_frames(parts: &Vec<Option<String>>) -> (r: Option<String>)
    ensures
        match r {
            Some(s) => assembled_spec(parts@) == Some(s@),
            None => assembled_spec(parts@) is None,
        },
{
    let n = parts.len();
    let mut out = String::new();
    proof {
        assert(parts@.skip(0) =~= parts@);
    }
    for i in 0..n
        invariant
            n == parts@.len(),
            assembled_spec(parts@.skip(i as int)) matches Some(rest) ==> assembled_spec(parts@)
                == Some(out@ + rest),
            assembled_spec(parts@.skip(i as int)) is None ==> assembled_spec(parts@) is None,
    {
        proof {
            assert(parts@.skip(i as int)[0] == parts@[i as int]);
            assert(parts@.skip(i as int).drop_first() =~= parts@.skip(i as int + 1));
        }
        match &parts[i] {
            Some(p) => {
                let ghost prev = out@;
                out.append(p.as_str());
                proof {
                    let suffix = assembled_spec(parts@.skip(i as int + 1));
                    if suffix is Some {
                        assert(prev + (p@ + suffix->0) =~= out@ + suffix->0);
                    }
                }
            },
            None => {
                return None;
            },
        }
    }
    proof {
        assert(parts@.skip(n as int) =~= Seq::<Option<String>>::empty());
        assert(out@ + Seq::<char>::empty() =~= out@);
    }
    Some(out)
}

} // verus!
